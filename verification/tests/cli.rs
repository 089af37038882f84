use codex_voice::cli::{
    parse_args, supervise_owner_args, watch_session_args, ArgumentError, NumericArgument,
};
use codex_voice::failure::FailureKind;
use codex_voice::process_identity::ProcessIdentity;
use codex_voice::Command;

fn args(list: &[&str]) -> Vec<String> {
    list.iter().map(|a| a.to_string()).collect()
}

#[test]
fn parses_every_command() {
    assert_eq!(parse_args(&[]).unwrap(), Command::Toggle);
    assert_eq!(parse_args(&["--status".into()]).unwrap(), Command::Status);
    assert_eq!(
        parse_args(&["--cancel-recording".into(), "42".into(), "99".into()]).unwrap(),
        Command::CancelRecording {
            recorder_pid: 42,
            recorder_start_time: 99,
        }
    );
    assert_eq!(
        parse_args(&["--supervise-owner".into(), "42".into(), "99".into()]).unwrap(),
        Command::SuperviseOwner {
            owner_pid: 42,
            owner_start_time: 99,
        }
    );
    assert_eq!(
        parse_args(&["settings".into(), "get".into()]).unwrap(),
        Command::SettingsGet
    );
    assert_eq!(
        parse_args(&[
            "settings".into(),
            "set".into(),
            "language".into(),
            "en".into()
        ])
        .unwrap(),
        Command::SettingsSet {
            key: "language".into(),
            value: "en".into()
        }
    );
}

#[test]
fn parses_the_lifecycle_flags() {
    assert_eq!(parse_args(&args(&["--toggle"])).unwrap(), Command::Toggle);
    assert_eq!(parse_args(&args(&["--start"])).unwrap(), Command::Start);
    assert_eq!(parse_args(&args(&["--stop"])).unwrap(), Command::Stop);
    assert_eq!(parse_args(&args(&["--cancel"])).unwrap(), Command::Cancel);
    assert_eq!(parse_args(&args(&["--settings"])).unwrap(), Command::LaunchSettings);
    assert_eq!(parse_args(&args(&["--preview"])).unwrap(), Command::Preview);
    assert_eq!(parse_args(&args(&["--close-preview"])).unwrap(), Command::ClosePreview);
    assert_eq!(parse_args(&args(&["--version"])).unwrap(), Command::Version);
    assert_eq!(parse_args(&args(&["--copy-last"])).unwrap(), Command::CopyLastTranscript);
    assert_eq!(
        parse_args(&args(&["settings", "reset"])).unwrap(),
        Command::SettingsReset
    );
}

#[test]
fn parses_history_commands() {
    assert_eq!(
        parse_args(&args(&["history", "list", "0", "20"])).unwrap(),
        Command::HistoryList {
            offset: 0,
            limit: 20,
            query: String::new()
        }
    );
    assert_eq!(
        parse_args(&args(&["history", "list", "5", "10", "needle"])).unwrap(),
        Command::HistoryList {
            offset: 5,
            limit: 10,
            query: "needle".into()
        }
    );
    assert_eq!(
        parse_args(&args(&["history", "delete", "-3"])).unwrap(),
        Command::HistoryDelete { id: -3 }
    );
    assert_eq!(
        parse_args(&args(&["history", "clear"])).unwrap(),
        Command::HistoryClear
    );
    assert_eq!(
        parse_args(&args(&["history", "has"])).unwrap(),
        Command::HistoryHasEntries
    );
}

#[test]
fn parses_the_watch_session_control() {
    assert_eq!(
        parse_args(&args(&["--watch-session", "7", "8", "9", "10"])).unwrap(),
        Command::WatchSession {
            overlay_pid: 7,
            overlay_start_time: 8,
            recorder_pid: 9,
            recorder_start_time: 10,
        }
    );
}

#[test]
fn rejects_invalid_numbers_with_the_argument_named() {
    let error = parse_args(&args(&["--cancel-recording", "x", "99"])).unwrap_err();
    assert_eq!(error, ArgumentError::Invalid(NumericArgument::RecorderPid));
    assert_eq!(error.to_failure().message, "invalid recorder PID");
    assert_eq!(error.to_failure().kind, FailureKind::InvalidInput);
    let error = parse_args(&args(&["--cancel-recording", "42", "-1"])).unwrap_err();
    assert_eq!(error.to_failure().message, "invalid recorder start time");
    let error = parse_args(&args(&["--supervise-owner", "4294967296", "1"])).unwrap_err();
    assert_eq!(error.to_failure().message, "invalid owner PID");
    let error = parse_args(&args(&["--watch-session", "1", "2", "3", "x"])).unwrap_err();
    assert_eq!(error.to_failure().message, "invalid recorder start time");
    let error = parse_args(&args(&["history", "list", "a", "1"])).unwrap_err();
    assert_eq!(error.to_failure().message, "history offset must be an integer");
    let error = parse_args(&args(&["history", "list", "1", "b"])).unwrap_err();
    assert_eq!(error.to_failure().message, "history limit must be an integer");
    let error = parse_args(&args(&["history", "delete", "id"])).unwrap_err();
    assert_eq!(error.to_failure().message, "transcript id must be an integer");
}

#[test]
fn rejects_unknown_arguments_and_bad_usage() {
    let error = parse_args(&args(&["--frobnicate"])).unwrap_err();
    assert_eq!(error.to_failure().message, "unknown argument `--frobnicate`");
    let error = parse_args(&args(&["--status", "extra"])).unwrap_err();
    assert_eq!(error.to_failure().message, "unknown argument `--status`");
    let error = parse_args(&args(&["history", "list"])).unwrap_err();
    assert_eq!(error, ArgumentError::HistoryUsage);
    assert_eq!(
        error.to_failure().message,
        "usage: codex-voice history list <offset> <limit> [query]|delete <id>|clear|has"
    );
    let error = parse_args(&args(&["settings", "set", "language"])).unwrap_err();
    assert_eq!(error, ArgumentError::SettingsUsage);
    assert_eq!(
        error.to_failure().message,
        "usage: codex-voice settings get|reset|set <key> <value>"
    );
}

#[test]
fn helper_command_lines_read_back_as_their_commands() {
    let overlay = ProcessIdentity {
        pid: 1234,
        start_time: 5678,
    };
    let recorder = ProcessIdentity {
        pid: -1,
        start_time: u64::MAX,
    };
    let watch = watch_session_args(overlay, recorder);
    assert_eq!(
        watch,
        args(&["--watch-session", "1234", "5678", "-1", "18446744073709551615"])
    );
    assert_eq!(
        parse_args(&watch).unwrap(),
        Command::WatchSession {
            overlay_pid: 1234,
            overlay_start_time: 5678,
            recorder_pid: -1,
            recorder_start_time: u64::MAX,
        }
    );
    let owner = ProcessIdentity {
        pid: i32::MIN,
        start_time: 0,
    };
    let supervise = supervise_owner_args(owner);
    assert_eq!(
        supervise,
        args(&["--supervise-owner", "-2147483648", "0"])
    );
    assert_eq!(
        parse_args(&supervise).unwrap(),
        Command::SuperviseOwner {
            owner_pid: i32::MIN,
            owner_start_time: 0,
        }
    );
}
