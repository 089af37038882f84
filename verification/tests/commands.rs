use codex_voice::failure::{invalid_input, Failure, FailureKind};
use codex_voice::CommandOutput;

#[test]
fn command_outputs() {
    assert_eq!(
        CommandOutput::exit(3),
        CommandOutput { exit_code: 3, stdout: None }
    );
    assert_eq!(
        CommandOutput::text("{}".into()),
        CommandOutput { exit_code: 0, stdout: Some("{}".into()) }
    );
}

#[test]
fn found_exits_zero_and_missing_exits_one() {
    assert_eq!(CommandOutput::found(true), CommandOutput { exit_code: 0, stdout: None });
    assert_eq!(CommandOutput::found(false), CommandOutput { exit_code: 1, stdout: None });
}

#[test]
fn failures_keep_kind_and_message() {
    let failure = invalid_input("bad");
    assert_eq!(failure.kind, FailureKind::InvalidInput);
    assert_eq!(failure.message, "bad");
    let copy = Failure::new(FailureKind::TimedOut, "slow").duplicate();
    assert_eq!(copy.kind, FailureKind::TimedOut);
    assert_eq!(copy.message, "slow");
}
