use monout::process::{pump_line, Action, Event, ManagedProcess, Process, ProcessError};
use monout::sink::{AwsLogConfig, ConsoleLogProcessor, LogAction, LogProcessor, UtcDate};
use monout::{OutType, Runner};

fn runner(command: &str, output_type: &str, delay: Option<u64>) -> Runner {
    Runner {
        command: command.to_string(),
        output_type: output_type.to_string(),
        failure_restart_delay: delay,
        machine_id: None,
        aws: None,
    }
}

fn day() -> UtcDate {
    UtcDate { year: 2024, month: 3, day: 15 }
}

fn spawned(id: u32) -> Event {
    Event::Spawned { child: ManagedProcess::new(Some(id)) }
}

fn command_of(a: &Action) -> String {
    match a {
        Action::Spawn { command } => command.clone(),
        other => panic!("expected a spawn, got {:?}", other),
    }
}

#[test]
fn successful_exit_restarts_at_once() {
    let mut p = Process::from_runner_on("a", runner("exit 0", "console", None), day()).unwrap();
    assert!(!p.running());
    assert_eq!(command_of(&p.step(Event::Ready, 0)), "exit 0");
    for generation in 0..5u32 {
        assert!(matches!(p.step(spawned(100 + generation), 10 * generation as i64), Action::Wait));
        assert!(p.running());
        assert_eq!(p.last_started(), Some(10 * generation as i64));
        let next = p.step(Event::Exited { success: true }, 0);
        assert_eq!(command_of(&next), "exit 0");
        assert!(!p.running());
    }
}

#[test]
fn failed_exit_sleeps_the_configured_delay() {
    let mut p = Process::from_runner_on("b", runner("exit 1", "console", Some(2)), day()).unwrap();
    assert_eq!(command_of(&p.step(Event::Ready, 0)), "exit 1");
    assert!(matches!(p.step(spawned(7), 1_000), Action::Wait));
    assert!(matches!(p.step(Event::Exited { success: false }, 1_500), Action::Sleep { seconds: 2 }));
    assert_eq!(command_of(&p.step(Event::Ready, 3_500), ), "exit 1");
    assert!(matches!(p.step(spawned(8), 3_500), Action::Wait));
    assert_eq!(p.last_started(), Some(3_500));
}

#[test]
fn failed_exit_sleeps_one_second_by_default() {
    let mut p = Process::from_runner_on("c", runner("false", "console", None), day()).unwrap();
    p.step(Event::Ready, 0);
    p.step(spawned(1), 0);
    assert!(matches!(p.step(Event::Exited { success: false }, 5), Action::Sleep { seconds: 1 }));
}

#[test]
fn starting_a_running_process_fails_and_changes_nothing() {
    let mut p = Process::from_runner_on("d", runner("sleep 10", "console", None), day()).unwrap();
    p.step(Event::Ready, 0);
    assert!(matches!(p.step(spawned(11), 5), Action::Wait));
    assert_eq!(p.start(None, 9), Err(ProcessError::AlreadyRunning));
    assert!(matches!(p.step(Event::Ready, 9), Action::Stop { error: ProcessError::AlreadyRunning }));
    assert!(matches!(p.step(spawned(12), 9), Action::Stop { error: ProcessError::AlreadyRunning }));
    assert_eq!(p.start(Some(ManagedProcess::new(Some(13))), 9), Err(ProcessError::AlreadyRunning));
    assert!(p.running());
    assert_eq!(p.last_started(), Some(5));
    assert_eq!(p.wait(Err(())), Err(ProcessError::WaitFailed));
    assert!(p.running());
    assert_eq!(p.wait(Ok(true)), Ok(true));
    assert!(!p.running());
}

#[test]
fn waiting_without_a_child_fails() {
    let mut p = Process::from_runner_on("e", runner("true", "console", None), day()).unwrap();
    assert_eq!(p.wait(Ok(true)), Err(ProcessError::NotStarted));
    assert_eq!(p.wait(Err(())), Err(ProcessError::NotStarted));
    assert!(matches!(p.step(Event::Exited { success: true }, 0), Action::Stop { error: ProcessError::NotStarted }));
}

#[test]
fn spawn_and_wait_failures_stop_supervision() {
    let mut p = Process::from_runner_on("f", runner("true", "console", None), day()).unwrap();
    p.step(Event::Ready, 0);
    assert!(matches!(p.step(Event::SpawnFailed, 0), Action::Stop { error: ProcessError::SpawnFailed }));
    assert!(!p.running());
    p.step(spawned(3), 0);
    assert!(matches!(p.step(Event::WaitFailed, 0), Action::Stop { error: ProcessError::WaitFailed }));
    assert!(p.running());
}

#[test]
fn broken_runner_does_not_stop_healthy_one() {
    let mut broken = Process::from_runner_on("bad", runner("x", "console", None), day()).unwrap();
    let mut healthy = Process::from_runner_on("good", runner("exit 0", "console", None), day()).unwrap();
    broken.step(Event::Ready, 0);
    healthy.step(Event::Ready, 0);
    assert!(matches!(broken.step(Event::SpawnFailed, 1), Action::Stop { error: ProcessError::SpawnFailed }));
    for i in 0..3u32 {
        assert!(matches!(healthy.step(spawned(i), 1), Action::Wait));
        assert_eq!(command_of(&healthy.step(Event::Exited { success: true }, 2)), "exit 0");
    }
}

#[test]
fn unknown_output_type_is_refused() {
    let r = Process::from_runner_on("g", runner("true", "file", None), day());
    assert_eq!(r.err(), Some(ProcessError::UnknownOutputType));
}

#[test]
fn aws_output_needs_its_settings() {
    let r = Process::from_runner("h", runner("true", "aws", None));
    assert_eq!(r.err(), Some(ProcessError::MissingAwsOptions));
}

#[test]
fn aws_runner_names_its_stream_after_the_date() {
    let mut r = runner("true", "aws", None);
    r.machine_id = Some("m1".to_string());
    r.aws = Some(AwsLogConfig {
        credentials: None,
        region: None,
        log_group: "group".to_string(),
        log_stream_prefix: "web".to_string(),
    });
    let p = Process::from_runner_on("i", r, day()).unwrap();
    match p.log_processor() {
        LogProcessor::Aws(a) => {
            assert_eq!(a.get_stream_name(), "2024/3/15/web/m1");
            let req = a.create_stream();
            assert_eq!(req.log_group, "group");
            assert_eq!(req.log_stream, "2024/3/15/web/m1");
        }
        other => panic!("expected a remote sink, got {:?}", other),
    }
}

#[test]
fn console_line_goes_out_unchanged() {
    let sink = LogProcessor::Console(ConsoleLogProcessor { name: "c".to_string() });
    match pump_line(&sink, Some("hello\n".to_string()), 1_700_000_000_000, &OutType::Stdout) {
        Some(LogAction::Print { out_type, text }) => {
            assert_eq!(out_type, OutType::Stdout);
            assert_eq!(text, "hello\n");
        }
        other => panic!("unexpected {:?}", other),
    }
}

#[test]
fn console_error_line_goes_to_stderr() {
    let sink = LogProcessor::Console(ConsoleLogProcessor { name: "c".to_string() });
    match pump_line(&sink, Some("oops\n".to_string()), 5, &OutType::Stderr) {
        Some(LogAction::Print { out_type, text }) => {
            assert_eq!(out_type, OutType::Stderr);
            assert_eq!(text, "oops\n");
        }
        other => panic!("unexpected {:?}", other),
    }
}

#[test]
fn pump_ends_at_end_of_stream_or_unrepresentable_time() {
    let sink = LogProcessor::Console(ConsoleLogProcessor { name: "c".to_string() });
    assert!(pump_line(&sink, None, 5, &OutType::Stdout).is_none());
    let too_late = (i64::MAX as u128) + 1;
    assert!(pump_line(&sink, Some("x\n".to_string()), too_late, &OutType::Stdout).is_none());
    assert!(pump_line(&sink, Some("x\n".to_string()), i64::MAX as u128, &OutType::Stdout).is_some());
}

#[test]
fn every_line_is_attempted_after_a_failed_one() {
    let sink = LogProcessor::Console(ConsoleLogProcessor { name: "c".to_string() });
    let lines = ["one\n", "two\n", "three\n"];
    let mut attempted = Vec::new();
    for (i, line) in lines.iter().enumerate() {
        let action = pump_line(&sink, Some(line.to_string()), i as u128, &OutType::Stdout);
        // whatever the sink made of the previous line, this one is attempted
        match action {
            Some(LogAction::Print { text, .. }) => attempted.push(text),
            other => panic!("unexpected {:?}", other),
        }
    }
    assert_eq!(attempted, vec!["one\n", "two\n", "three\n"]);
}

#[test]
fn start_owns_the_spawned_child() {
    let mut p = Process::from_runner_on("s", runner("echo hi", "console", None), day()).unwrap();
    assert!(!p.running());
    assert_eq!(p.command(), "echo hi");
    assert_eq!(p.start(None, 4), Err(ProcessError::SpawnFailed));
    assert!(!p.running());
    assert_eq!(p.last_started(), None);
    assert_eq!(p.start(Some(ManagedProcess::new(Some(21))), 4), Ok(()));
    assert!(p.running());
    assert_eq!(p.last_started(), Some(4));
    assert_eq!(p.wait(Ok(false)), Ok(false));
    assert!(!p.running());
    assert_eq!(p.last_started(), Some(4));
}
