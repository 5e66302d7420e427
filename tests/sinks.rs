use monout::counter::FuturesCounter;
use monout::env::{env_reference, env_reference_from, trim};
use monout::sink::{date_to_text, AwsCredentials, AwsLogConfig, AwsLogProcessor, ConsoleLogConfig, ConsoleLogProcessor, LogAction, UtcDate};
use monout::{less_text, Config, OutType, Runner};

fn config() -> AwsLogConfig {
    AwsLogConfig {
        credentials: None,
        region: Some("eu-west-1".to_string()),
        log_group: "apps".to_string(),
        log_stream_prefix: "api".to_string(),
    }
}

#[test]
fn date_text_has_no_padding() {
    assert_eq!(date_to_text(UtcDate { year: 2024, month: 1, day: 5 }), "2024/1/5");
    assert_eq!(date_to_text(UtcDate { year: 1999, month: 12, day: 31 }), "1999/12/31");
    assert_eq!(date_to_text(UtcDate { year: -44, month: 3, day: 15 }), "-44/3/15");
    assert_eq!(date_to_text(UtcDate { year: 0, month: 10, day: 10 }), "0/10/10");
}

#[test]
fn stream_name_without_machine() {
    let p = AwsLogProcessor::from_config_on(&config(), None, UtcDate { year: 2023, month: 7, day: 4 });
    assert_eq!(p.get_stream_name(), "2023/7/4/api");
}

#[test]
fn every_put_goes_to_the_creation_stream() {
    let p = AwsLogProcessor::from_config_on(&config(), Some("box".to_string()), UtcDate { year: 2023, month: 12, day: 31 });
    for (t, line) in [(1i64, "a\n"), (86_400_000i64 * 400, "b\n")] {
        match p.log(t, line.to_string(), &OutType::Stderr) {
            LogAction::Put { log_group, log_stream, timestamp, message } => {
                assert_eq!(log_group, "apps");
                assert_eq!(log_stream, "2023/12/31/api/box");
                assert_eq!(timestamp, t);
                assert_eq!(message, line);
            }
            other => panic!("unexpected {:?}", other),
        }
    }
}

#[test]
fn stream_made_today_ends_with_prefix() {
    let p = AwsLogProcessor::from_config(&config(), None).unwrap();
    let name = p.get_stream_name();
    assert!(name.ends_with("/api"));
    assert_eq!(name.split('/').count(), 4);
}

#[test]
fn console_config_keeps_its_name() {
    let p: ConsoleLogProcessor = ConsoleLogConfig { name: "web".to_string() }.into();
    assert_eq!(p.name, "web");
}

#[test]
fn env_reference_is_recognised() {
    assert_eq!(env_reference("$HOME"), Some("HOME".to_string()));
    assert_eq!(env_reference("  $MACHINE_ID \n"), Some("MACHINE_ID".to_string()));
    assert_eq!(env_reference("plain"), None);
    assert_eq!(env_reference("$two words"), None);
    assert_eq!(env_reference("$"), None);
    assert_eq!(env_reference("pre$FIX"), None);
}

#[test]
fn env_reference_from_strips_dollars() {
    assert_eq!(env_reference_from("$ABC", true), Some("ABC".to_string()));
    assert_eq!(env_reference_from("$ABC", false), None);
}

#[test]
fn defaults_fill_what_the_runner_leaves_unset() {
    let r = Runner {
        command: "run".to_string(),
        output_type: "aws".to_string(),
        failure_restart_delay: None,
        machine_id: None,
        aws: Some(config()),
    };
    let creds = Some(AwsCredentials { key: "k".to_string(), private_key: "p".to_string() });
    let r = r.with_defaults(Some(9), &Some("global".to_string()), &creds);
    assert_eq!(r.failure_restart_delay, Some(9));
    assert_eq!(r.machine_id, Some("global".to_string()));
    let c = r.aws.unwrap().credentials.unwrap();
    assert_eq!(c.key, "k");
    assert_eq!(c.private_key, "p");
}

#[test]
fn runner_settings_win_over_defaults() {
    let r = Runner {
        command: "run".to_string(),
        output_type: "console".to_string(),
        failure_restart_delay: Some(3),
        machine_id: Some("own".to_string()),
        aws: None,
    };
    let r = r.with_defaults(Some(9), &Some("global".to_string()), &None);
    assert_eq!(r.failure_restart_delay, Some(3));
    assert_eq!(r.machine_id, Some("own".to_string()));
    assert!(r.aws.is_none());
}

#[test]
fn counter_tracks_pending_tasks() {
    let mut c: FuturesCounter<std::future::Ready<u8>> = FuturesCounter::new();
    assert!(c.is_empty());
    c.push(std::future::ready(1));
    c.push(std::future::ready(2));
    assert!(!c.is_empty());
    assert_eq!(c.observe(Some(1u8)), Some(1));
    assert!(!c.is_empty());
    assert_eq!(c.observe::<u8>(None), None);
    assert!(!c.is_empty());
    c.observe(Some(2u8));
    assert!(c.is_empty());
    assert_eq!(c.pending().len(), 2);
}

#[test]
fn trim_drops_unicode_white_space_at_both_ends() {
    assert_eq!(trim("  a b \t\n"), "a b");
    assert_eq!(trim("\u{3000}\u{a0}x\u{2029}"), "x");
    assert_eq!(trim("   "), "");
    assert_eq!(trim(""), "");
    assert_eq!(trim("\u{200b}x"), "\u{200b}x");
    for s in ["  $A ", "\u{85}mid dle\u{1680}", "plain"] {
        assert_eq!(trim(s), s.trim());
    }
}

#[test]
fn text_order_is_the_order_of_strings() {
    let words = ["", "a", "ab", "b", "B", "\u{e9}", "z", "\u{1f600}", "aa"];
    for x in words {
        for y in words {
            assert_eq!(less_text(x, y), x < y, "{:?} {:?}", x, y);
        }
    }
}

fn named(names: &[&str]) -> Config {
    Config {
        failure_restart_delay: None,
        console_labels: false,
        machine_id: None,
        aws_credentials: None,
        runners: names
            .iter()
            .map(|n| {
                (
                    n.to_string(),
                    Runner {
                        command: "true".to_string(),
                        output_type: "console".to_string(),
                        failure_restart_delay: None,
                        machine_id: None,
                        aws: None,
                    },
                )
            })
            .collect(),
    }
}

#[test]
fn config_names_must_ascend() {
    assert!(named(&[]).is_well_formed());
    assert!(named(&["a", "b", "web"]).is_well_formed());
    assert!(!named(&["b", "a"]).is_well_formed());
    assert!(!named(&["a", "a"]).is_well_formed());
    assert!(!named(&["a", "c", "b"]).is_well_formed());
}
