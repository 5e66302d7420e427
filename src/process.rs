//! The supervision of one command: a state machine that a driver feeds with
//! what happened (a child was spawned, it exited, a delay passed) and that
//! answers with what to do next.
use vstd::prelude::*;

use crate::sink::{is_unix_date, AwsLogProcessor, ConsoleLogProcessor, LogAction, LogProcessor, UtcDate, today_utc};
use crate::{OutType, Runner};

verus! {

/// Seconds to wait before restarting after a failed run, unless configured.
pub const DEFAULT_RESTART_DELAY: u64 = 1;

/// The restart delay of a runner after a failed run.
pub open spec fn restart_delay(r: &Runner) -> u64 {
    match r.failure_restart_delay {
        Some(d) => d,
        None => DEFAULT_RESTART_DELAY,
    }
}

/// One live child process, known by its OS id while it has one.
#[derive(Clone, Copy, Debug, PartialEq, Eq, Structural)]
pub struct ManagedProcess {
    pub id: Option<u32>,
}

impl ManagedProcess {
    pub fn new(id: Option<u32>) -> (r: ManagedProcess)
        ensures
            r.id == id,
    {
        ManagedProcess { id }
    }

    pub fn id(&self) -> (r: Option<u32>)
        ensures
            r == self.id,
    {
        self.id
    }
}

/// Why a process cannot be made or why its supervision stops.
#[derive(Clone, Copy, Debug, PartialEq, Eq, Structural)]
pub enum ProcessError {
    /// A child is already owned.
    AlreadyRunning,
    /// No child is owned.
    NotStarted,
    /// The OS could not create the child.
    SpawnFailed,
    /// Waiting for the child failed.
    WaitFailed,
    /// The output type is `aws` and the runner has no remote log settings.
    MissingAwsOptions,
    /// The output type is neither `console` nor `aws`.
    UnknownOutputType,
    /// A remote sink is asked for and the clock reads a time that the
    /// calendar does not cover, so its stream cannot be named.
    ClockUnavailable,
}

/// What the driver of a process saw happen.
#[derive(Debug)]
pub enum Event {
    /// Supervision begins, or the restart delay has passed.
    Ready,
    /// The child asked for was spawned.
    Spawned { child: ManagedProcess },
    /// The child asked for could not be spawned.
    SpawnFailed,
    /// The owned child exited, successfully or not.
    Exited { success: bool },
    /// Waiting for the owned child failed.
    WaitFailed,
}

/// What the driver of a process is to do next.
#[derive(Debug)]
pub enum Action {
    /// Spawn `sh -c command`, and report `Spawned` or `SpawnFailed`.
    Spawn { command: String },
    /// Wait for the owned child while pumping its output, and report
    /// `Exited` or `WaitFailed`.
    Wait,
    /// Sleep this many seconds, then report `Ready`.
    Sleep { seconds: u64 },
    /// Supervision of this command ends with this error.
    Stop { error: ProcessError },
}

/// The supervisor of one configured command.
pub struct Process {
    last_started: Option<i64>,
    show_console_label: bool,
    runner: Runner,
    log_processor: LogProcessor,
    managed_process: Option<ManagedProcess>,
    running: bool,
}

/// Whether `sink` is the sink that `runner` asks for, named `name` and made
/// on `today`.
pub open spec fn sink_for(name: Seq<char>, runner: &Runner, today: UtcDate, sink: LogProcessor) -> bool {
    if runner.output_type@ == "console"@ {
        sink matches LogProcessor::Console(c) && c.name@ == name
    } else {
        &&& runner.aws matches Some(cfg)
        &&& sink matches LogProcessor::Aws(p)
        &&& p.wf()
        &&& p.created_on == today
        &&& p.log_group@ == cfg.log_group@
        &&& p.log_stream_prefix@ == cfg.log_stream_prefix@
        &&& p.machine_id.deep_view() == runner.machine_id.deep_view()
    }
}

/// The error that making a process for `runner` gives, if any.
pub open spec fn runner_error(runner: &Runner) -> Option<ProcessError> {
    if runner.output_type@ == "console"@ {
        None
    } else if runner.output_type@ == "aws"@ {
        if runner.aws is Some {
            None
        } else {
            Some(ProcessError::MissingAwsOptions)
        }
    } else {
        Some(ProcessError::UnknownOutputType)
    }
}

impl Process {
    pub closed spec fn spec_last_started(&self) -> Option<i64> {
        self.last_started
    }

    pub closed spec fn spec_show_console_label(&self) -> bool {
        self.show_console_label
    }

    pub closed spec fn spec_runner(&self) -> &Runner {
        &self.runner
    }

    pub closed spec fn spec_log_processor(&self) -> LogProcessor {
        self.log_processor
    }

    pub closed spec fn spec_child(&self) -> Option<ManagedProcess> {
        self.managed_process
    }

    pub closed spec fn spec_running(&self) -> bool {
        self.running
    }

    /// The running flag tells whether a child is owned.
    pub open spec fn wf(&self) -> bool {
        self.spec_running() == (self.spec_child() is Some)
    }

    /// `self` and `other` supervise the same command with the same sink.
    pub open spec fn same_setup(&self, other: &Process) -> bool {
        &&& self.spec_runner() == other.spec_runner()
        &&& self.spec_log_processor() == other.spec_log_processor()
        &&& self.spec_show_console_label() == other.spec_show_console_label()
    }
}

impl Process {
    /// The process for `runner`, named `name`, whose sink (if remote) is made
    /// on the date `today`. No child is owned yet.
    pub fn from_runner_on(name: &str, runner: Runner, today: UtcDate) -> (r: Result<Process, ProcessError>)
        requires
            today.wf(),
        ensures
            r is Err <==> runner_error(&runner) is Some,
            r matches Err(e) ==> runner_error(&runner) == Some(e),
            r matches Ok(p) ==> {
                &&& p.wf()
                &&& p.spec_child() is None
                &&& !p.spec_running()
                &&& p.spec_last_started() is None
                &&& !p.spec_show_console_label()
                &&& *p.spec_runner() == runner
                &&& sink_for(name@, &runner, today, p.spec_log_processor())
            },
    {
        let console = String::from_str("console");
        let aws = String::from_str("aws");
        let log_processor = if runner.output_type == console {
            LogProcessor::Console(ConsoleLogProcessor { name: name.to_owned() })
        } else if runner.output_type == aws {
            match &runner.aws {
                None => { return Err(ProcessError::MissingAwsOptions); },
                Some(cfg) => {
                    let machine_id = crate::sink::clone_text(&runner.machine_id);
                    LogProcessor::Aws(AwsLogProcessor::from_config_on(cfg, machine_id, today))
                },
            }
        } else {
            return Err(ProcessError::UnknownOutputType);
        };
        Ok(Process {
            last_started: None,
            show_console_label: false,
            runner,
            log_processor,
            managed_process: None,
            running: false,
        })
    }

    /// The process for `runner`, named `name`; a remote sink's stream is named
    /// after today's date (in UTC), and `ClockUnavailable` comes when the clock
    /// gives no date.
    pub fn from_runner(name: &str, runner: Runner) -> (r: Result<Process, ProcessError>)
        ensures
            runner_error(&runner) matches Some(e) ==> r == Err::<Process, ProcessError>(e),
            runner.output_type@ == "console"@ ==> r is Ok,
            r matches Err(e) ==> runner_error(&runner) == Some(e) || (e == ProcessError::ClockUnavailable
                && runner_error(&runner) is None && runner.output_type@ != "console"@),
            r matches Ok(p) ==> {
                &&& p.wf()
                &&& p.spec_child() is None
                &&& p.spec_last_started() is None
                &&& !p.spec_show_console_label()
                &&& *p.spec_runner() == runner
                &&& exists|d: UtcDate|
                    d.wf() && (runner.output_type@ != "console"@ ==> is_unix_date(d)) && sink_for(
                        name@,
                        &runner,
                        d,
                        p.spec_log_processor(),
                    )
            },
    {
        // The date names a remote stream; no other sink needs the clock.
        let aws = String::from_str("aws");
        let console = String::from_str("console");
        let needs_date = runner.output_type != console && runner.output_type == aws && runner.aws.is_some();
        let today = if needs_date {
            match today_utc() {
                Some(d) => d,
                None => { return Err(ProcessError::ClockUnavailable); },
            }
        } else {
            UtcDate { year: 1970, month: 1, day: 1 }
        };
        let r = Self::from_runner_on(name, runner, today);
        proof {
            if r is Ok {
                let p = r->Ok_0;
                assert(today.wf() && (p.spec_runner().output_type@ != "console"@ ==> is_unix_date(today))
                    && sink_for(name@, p.spec_runner(), today, p.spec_log_processor()));
            }
        }
        r
    }

    /// Whether console lines are to be shown with the process's label.
    pub fn set_show_console_label(&mut self, show: bool)
        ensures
            final(self).spec_show_console_label() == show,
            final(self).spec_runner() == old(self).spec_runner(),
            final(self).spec_log_processor() == old(self).spec_log_processor(),
            final(self).spec_child() == old(self).spec_child(),
            final(self).spec_running() == old(self).spec_running(),
            final(self).spec_last_started() == old(self).spec_last_started(),
    {
        self.show_console_label = show;
    }

    pub fn show_console_label(&self) -> (r: bool)
        ensures
            r == self.spec_show_console_label(),
    {
        self.show_console_label
    }

    /// The sink that every generation of this process logs to.
    pub fn log_processor(&self) -> (r: &LogProcessor)
        ensures
            *r == self.spec_log_processor(),
    {
        &self.log_processor
    }

    pub fn runner(&self) -> (r: &Runner)
        ensures
            r == self.spec_runner(),
    {
        &self.runner
    }

    /// When the current or last child was started (epoch milliseconds).
    pub fn last_started(&self) -> (r: Option<i64>)
        ensures
            r == self.spec_last_started(),
    {
        self.last_started
    }

    /// Whether a child is live.
    pub fn running(&self) -> (r: bool)
        ensures
            r == self.spec_running(),
    {
        self.running
    }

    /// The command that each generation runs through `sh -c`.
    pub fn command(&self) -> (r: String)
        ensures
            r@ == self.spec_runner().command@,
    {
        self.runner.command.clone()
    }

    /// Starts the command: `spawned` is the child that spawning
    /// `sh -c command` at `now` (epoch milliseconds) gave, or `None` when the
    /// OS could not create it. Fails with `AlreadyRunning` when a child is
    /// owned and with `SpawnFailed` when there is no child, both with nothing
    /// changed; otherwise owns the child and is running.
    pub fn start(&mut self, spawned: Option<ManagedProcess>, now: i64) -> (r: Result<(), ProcessError>)
        ensures
            old(self).spec_child() is Some ==> r == Err::<(), ProcessError>(ProcessError::AlreadyRunning),
            old(self).spec_child() is None && spawned is None ==> r == Err::<(), ProcessError>(
                ProcessError::SpawnFailed,
            ),
            r is Err ==> *final(self) == *old(self),
            r is Ok <==> old(self).spec_child() is None && spawned is Some,
            r is Ok ==> {
                &&& final(self).spec_child() == spawned
                &&& final(self).spec_running()
                &&& final(self).spec_last_started() == Some(now)
                &&& final(self).same_setup(old(self))
            },
    {
        if self.managed_process.is_some() {
            return Err(ProcessError::AlreadyRunning);
        }
        match spawned {
            None => Err(ProcessError::SpawnFailed),
            Some(child) => {
                self.managed_process = Some(child);
                self.running = true;
                self.last_started = Some(now);
                Ok(())
            },
        }
    }

    /// Waits for the owned child: `outcome` is what waiting for it gave, its
    /// exit's success or `Err` when waiting failed. Fails with `NotStarted`
    /// when no child is owned and with `WaitFailed` when waiting failed, both
    /// with nothing changed; otherwise owns no child, is not running, and
    /// gives whether the child exited successfully.
    pub fn wait(&mut self, outcome: Result<bool, ()>) -> (r: Result<bool, ProcessError>)
        ensures
            old(self).spec_child() is None ==> r == Err::<bool, ProcessError>(ProcessError::NotStarted),
            old(self).spec_child() is Some && outcome is Err ==> r == Err::<bool, ProcessError>(
                ProcessError::WaitFailed,
            ),
            r is Err ==> *final(self) == *old(self),
            r is Ok <==> old(self).spec_child() is Some && outcome is Ok,
            r matches Ok(success) ==> {
                &&& outcome == Ok::<bool, ()>(success)
                &&& final(self).spec_child() is None
                &&& !final(self).spec_running()
                &&& final(self).spec_last_started() == old(self).spec_last_started()
                &&& final(self).same_setup(old(self))
            },
    {
        if self.managed_process.is_none() {
            return Err(ProcessError::NotStarted);
        }
        match outcome {
            Err(()) => Err(ProcessError::WaitFailed),
            Ok(success) => {
                self.managed_process = None;
                self.running = false;
                Ok(success)
            },
        }
    }
}

/// The decisions of the supervision loop: on `event`, seen at `now`, `old`
/// becomes `new` and the driver is to do `a`.
pub open spec fn step_spec(old: &Process, event: Event, now: i64, new: &Process, a: Action) -> bool {
    match event {
        Event::Ready => match old.spec_child() {
            Some(_) => *new == *old && a == (Action::Stop { error: ProcessError::AlreadyRunning }),
            None => *new == *old && (a matches Action::Spawn { command }
                && command@ == old.spec_runner().command@),
        },
        Event::Spawned { child } => match old.spec_child() {
            Some(_) => *new == *old && a == (Action::Stop { error: ProcessError::AlreadyRunning }),
            None => {
                &&& new.spec_child() == Some(child)
                &&& new.spec_running()
                &&& new.spec_last_started() == Some(now)
                &&& new.same_setup(old)
                &&& a == Action::Wait
            },
        },
        Event::SpawnFailed => *new == *old && a == (Action::Stop {
            error: if old.spec_child() is Some {
                ProcessError::AlreadyRunning
            } else {
                ProcessError::SpawnFailed
            },
        }),
        Event::Exited { success } => match old.spec_child() {
            None => *new == *old && a == (Action::Stop { error: ProcessError::NotStarted }),
            Some(_) => {
                &&& new.spec_child() is None
                &&& !new.spec_running()
                &&& new.spec_last_started() == old.spec_last_started()
                &&& new.same_setup(old)
                &&& if success {
                    a matches Action::Spawn { command } && command@ == old.spec_runner().command@
                } else {
                    a == (Action::Sleep { seconds: restart_delay(old.spec_runner()) })
                }
            },
        },
        Event::WaitFailed => *new == *old && a == (Action::Stop {
            error: if old.spec_child() is Some {
                ProcessError::WaitFailed
            } else {
                ProcessError::NotStarted
            },
        }),
    }
}

impl Process {
    /// One turn of the supervision loop: start the command, wait for it, and
    /// after a failed run sleep the restart delay before starting it again; a
    /// successful run is followed by a start at once. Supervision stops only
    /// when spawning or waiting fails, or on a state violation.
    pub fn step(&mut self, event: Event, now: i64) -> (r: Action)
        ensures
            step_spec(old(self), event, now, final(self), r),
            old(self).wf() ==> final(self).wf(),
    {
        match event {
            Event::Ready => {
                if self.managed_process.is_some() {
                    Action::Stop { error: ProcessError::AlreadyRunning }
                } else {
                    Action::Spawn { command: self.command() }
                }
            },
            Event::Spawned { child } => match self.start(Some(child), now) {
                Ok(()) => Action::Wait,
                Err(error) => Action::Stop { error },
            },
            Event::SpawnFailed => match self.start(None, now) {
                Ok(()) => Action::Wait,
                Err(error) => Action::Stop { error },
            },
            Event::Exited { success } => match self.wait(Ok(success)) {
                Err(error) => Action::Stop { error },
                Ok(true) => Action::Spawn { command: self.command() },
                Ok(false) => {
                    let seconds = match self.runner.failure_restart_delay {
                        Some(d) => d,
                        None => DEFAULT_RESTART_DELAY,
                    };
                    Action::Sleep { seconds }
                },
            },
            Event::WaitFailed => match self.wait(Err(())) {
                Ok(_) => Action::Wait,
                Err(error) => Action::Stop { error },
            },
        }
    }
}

/// A process never owns two children at once: a spawn is asked for only when
/// no child is owned, and a child reported while another is owned is refused,
/// the owned one kept.
pub proof fn lemma_at_most_one_child(old: Process, event: Event, now: i64, new: Process, a: Action)
    requires
        old.wf(),
        step_spec(&old, event, now, &new, a),
    ensures
        new.wf(),
        a is Spawn ==> new.spec_child() is None,
        event is Spawned && old.spec_child() is Some ==> new.spec_child() == old.spec_child(),
{
}

/// Starting a process that owns a live child fails with `AlreadyRunning` and
/// changes nothing.
pub proof fn lemma_start_when_running(old: Process, event: Event, now: i64, new: Process, a: Action)
    requires
        old.spec_child() is Some,
        event is Ready || event is Spawned || event is SpawnFailed,
        step_spec(&old, event, now, &new, a),
    ensures
        a == (Action::Stop { error: ProcessError::AlreadyRunning }),
        new == old,
{
}

/// After a failed run the next start comes only after the restart delay (one
/// second unless configured); after a successful run it comes at once.
pub proof fn lemma_restart_policy(
    old: Process, success: bool, now: i64, mid: Process, a: Action,
    later: i64, new: Process, b: Action,
)
    requires
        old.spec_child() is Some,
        step_spec(&old, Event::Exited { success }, now, &mid, a),
        !success ==> step_spec(&mid, Event::Ready, later, &new, b),
    ensures
        success ==> a is Spawn && a->command@ == old.spec_runner().command@,
        !success ==> a == (Action::Sleep { seconds: restart_delay(old.spec_runner()) }),
        !success ==> b is Spawn && b->command@ == old.spec_runner().command@,
        old.spec_runner().failure_restart_delay is None ==> (!success ==> a == (Action::Sleep {
            seconds: 1,
        })),
{
}

/// What one step of the pump gives: nothing at the end of the stream or when
/// the time does not fit in an `i64`, else the sink's write of the line.
pub open spec fn pump_spec(sink: LogProcessor, read: Option<Seq<char>>, millis: u128, out_type: OutType, r: Option<LogAction>) -> bool {
    match read {
        None => r is None,
        Some(line) => if millis <= i64::MAX {
            r matches Some(a) && sink.logs(millis as i64, line, out_type, a)
        } else {
            r is None
        },
    }
}

/// One step of the pump of an output stream. `read` is the line just read,
/// newline included, or `None` at the end of the stream or on a read error;
/// `millis` is the time (epoch milliseconds). Every line read becomes one
/// write on the sink, whatever became of the lines before it; the pump ends at
/// the end of the stream, or when the time does not fit in an `i64`.
pub fn pump_line(sink: &LogProcessor, read: Option<String>, millis: u128, out_type: &OutType) -> (r: Option<LogAction>)
    ensures
        read is None ==> r is None,
        read is Some ==> (r is Some <==> millis <= i64::MAX),
        read matches Some(line) ==> (r matches Some(a) ==> sink.logs(millis as i64, line@, *out_type, a)),
        pump_spec(*sink, read.deep_view(), millis, *out_type, r),
{
    match read {
        None => None,
        Some(line) => {
            if millis <= i64::MAX as u128 {
                Some(sink.log(millis as i64, line, out_type))
            } else {
                None
            }
        },
    }
}

/// A stream that yields the lines `lines`, the `k`-th read at the time
/// `millis[k]`, has each line written to the sink once, in order, unchanged
/// and with its stream: a write that failed before a line has no part in what
/// the pump does with it.
pub proof fn lemma_every_line_written_once(
    sink: LogProcessor,
    lines: Seq<Seq<char>>,
    millis: Seq<u128>,
    out_type: OutType,
    steps: Seq<Option<LogAction>>,
)
    requires
        millis.len() == lines.len(),
        steps.len() == lines.len(),
        forall|k: int| 0 <= k < lines.len() ==> millis[k] <= i64::MAX,
        forall|k: int| 0 <= k < lines.len() ==> #[trigger] pump_spec(sink, Some(lines[k]), millis[k], out_type, steps[k]),
    ensures
        forall|k: int| 0 <= k < lines.len() ==> (#[trigger] steps[k] matches Some(a) && sink.logs(millis[k] as i64, lines[k], out_type, a)),
{
    assert forall|k: int| 0 <= k < lines.len() implies (#[trigger] steps[k] matches Some(a) && sink.logs(millis[k] as i64, lines[k], out_type, a)) by {
        assert(pump_spec(sink, Some(lines[k]), millis[k], out_type, steps[k]));
    }
}

/// With a console sink, each line read from a stream is printed once, to the
/// console stream it came from (standard output for `Stdout`, standard error
/// for `Stderr`), exactly as read, newline included.
pub proof fn lemma_console_prints_each_line_unchanged(
    sink: LogProcessor,
    lines: Seq<Seq<char>>,
    millis: Seq<u128>,
    out_type: OutType,
    steps: Seq<Option<LogAction>>,
)
    requires
        sink is Console,
        millis.len() == lines.len(),
        steps.len() == lines.len(),
        forall|k: int| 0 <= k < lines.len() ==> millis[k] <= i64::MAX,
        forall|k: int| 0 <= k < lines.len() ==> #[trigger] pump_spec(sink, Some(lines[k]), millis[k], out_type, steps[k]),
    ensures
        forall|k: int|
            0 <= k < lines.len() ==> (#[trigger] steps[k] matches Some(LogAction::Print { out_type: o, text })
                && o == out_type && text@ == lines[k]),
{
    lemma_every_line_written_once(sink, lines, millis, out_type, steps);
    assert forall|k: int| 0 <= k < lines.len() implies (#[trigger] steps[k] matches Some(
        LogAction::Print { out_type: o, text },
    ) && o == out_type && text@ == lines[k]) by {
        assert(steps[k] matches Some(a) && sink.logs(millis[k] as i64, lines[k], out_type, a));
    }
}

} // verus!
