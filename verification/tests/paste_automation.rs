use codex_voice::failure::FailureKind;
use codex_voice::paste_automation::{
    classify_help, inspection_failed, missing, prepare, readiness_failure, socket_path,
    PasteCommand, Protocol, UinputProblem,
};

#[test]
fn recognizes_supported_ubuntu_protocols() {
    let legacy = "Available commands:\n  type\n  recorder\n  mousemove\n  key\n  click\n";
    let modern = "Available commands:\n  click\n  key\n  debug\n  bakers\n";
    assert_eq!(classify_help(legacy), Some(Protocol::Legacy));
    assert_eq!(classify_help(modern), Some(Protocol::Modern));
    assert_eq!(classify_help("Available commands:\n  key\n"), None);
}

#[test]
fn help_without_the_command_list_is_not_recognised() {
    assert_eq!(classify_help("  recorder\n"), None);
    assert_eq!(classify_help("Available commands:\n  debug\n"), None);
}

#[test]
fn prepare_reads_help_bytes() {
    let modern = b"Available commands:\n  click\n  debug\n  bakers\n";
    assert_eq!(prepare(modern).unwrap(), Protocol::Modern);
    let mut legacy = b"Available commands:\n  recorder\n".to_vec();
    legacy.extend_from_slice(&[0xff, b'\n']);
    assert_eq!(prepare(&legacy).unwrap(), Protocol::Legacy);
    let error = prepare(b"usage: ydotool").unwrap_err();
    assert_eq!(error.kind, FailureKind::Other);
    assert_eq!(
        error.message,
        "automatic paste was not attempted: the installed ydotool version is unsupported; run `sudo apt install --reinstall codex-voice`, then log out and back in. The transcript remains in History and on the clipboard"
    );
}

#[test]
fn paste_arguments_press_shift_insert() {
    assert_eq!(
        PasteCommand { protocol: Protocol::Legacy }.args(),
        vec!["key", "Shift+Insert"]
    );
    assert_eq!(
        PasteCommand { protocol: Protocol::Modern }.args(),
        vec!["key", "42:1", "110:1", "110:0", "42:0"]
    );
}

#[test]
fn daemon_sockets_follow_the_protocol() {
    assert_eq!(
        socket_path(Protocol::Legacy, Some("/s".into()), Some("/run/user/1".into())),
        "/tmp/.ydotool_socket"
    );
    assert_eq!(
        socket_path(Protocol::Modern, Some("/s".into()), Some("/run/user/1".into())),
        "/s"
    );
    assert_eq!(
        socket_path(Protocol::Modern, Some("".into()), Some("/run/user/1".into())),
        "/run/user/1/.ydotool_socket"
    );
    assert_eq!(
        socket_path(Protocol::Modern, None, None),
        "/tmp/.ydotool_socket"
    );
}

#[test]
fn unavailable_daemon_diagnostic_is_actionable_and_preserves_transcript() {
    let error = readiness_failure(
        Protocol::Modern,
        "/run/user/1/.ydotool_socket",
        "Connection refused",
        "/dev/uinput",
        None,
    )
    .message;
    assert!(error.contains("automatic paste was not attempted"));
    assert!(error.contains("systemctl --user restart ydotool.service"));
    assert!(error.contains("History and on the clipboard"));
    let error = readiness_failure(
        Protocol::Legacy,
        "/tmp/.ydotool_socket",
        "refused",
        "/dev/uinput",
        Some((UinputProblem::Missing, "No such file".into())),
    )
    .message;
    assert!(error.contains("/dev/uinput is unavailable (No such file); run `sudo modprobe uinput`"));
    assert!(error.contains("codex-voice-ydotoold.service"));
    let error = readiness_failure(
        Protocol::Modern,
        "/s",
        "refused",
        "/dev/uinput",
        Some((UinputProblem::PermissionDenied, "denied".into())),
    )
    .message;
    assert!(error.contains("this GNOME session cannot access /dev/uinput (denied)"));
    assert!(missing().message.contains("ydotool is not installed"));
    assert_eq!(
        inspection_failed("x").message,
        "automatic paste was not attempted: x. The transcript remains in History and on the clipboard"
    );
}

#[test]
fn every_readiness_failure_names_the_failing_socket_and_a_restart() {
    let problems = vec![
        None,
        Some((UinputProblem::Missing, "No such file".to_string())),
        Some((UinputProblem::PermissionDenied, "denied".to_string())),
    ];
    for problem in problems {
        let message = readiness_failure(
            Protocol::Legacy,
            "/run/user/7/.ydotool_socket",
            "Connection refused",
            "/dev/uinput",
            problem,
        )
        .message;
        assert!(message.starts_with(
            "automatic paste was not attempted: ydotoold is not accepting connections at /run/user/7/.ydotool_socket (Connection refused); "
        ));
        assert!(message.contains("`systemctl --user restart codex-voice-ydotoold.service`"));
    }
}
