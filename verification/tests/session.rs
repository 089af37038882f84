use codex_voice::failure::{Failure, FailureKind};
use codex_voice::process_identity::ProcessIdentity;
use codex_voice::session::{
    abandoned_cleanup, clipboard_commands, clipboard_failure, cancel_target, gnome_shell_version, orphan_repair, os_release_version,
    preview_exit_code, recorder_cancellation, recovery_failure, runtime_directory,
    source_recovery_failure, start_check, status_document, stop_target, toggle_choice,
    wait_step, watch_step, CancellationTargets, OwnedCleanup, Paths, Record, RecoveryPaths,
    SessionCleanup, Signal, Termination, ToggleChoice, WaitStep, WatchStep,
};
use codex_voice::Application;

fn id(pid: i32, start_time: u64) -> ProcessIdentity {
    ProcessIdentity { pid, start_time }
}

#[test]
fn runtime_directory_prefers_xdg_runtime_dir() {
    assert_eq!(
        runtime_directory(Some("/run/user/1000".into()), Some("/c".into()), Some("/h".into()))
            .unwrap(),
        "/run/user/1000"
    );
    assert_eq!(
        runtime_directory(None, Some("/c".into()), Some("/h".into())).unwrap(),
        "/c/codex-voice/runtime"
    );
    assert_eq!(
        runtime_directory(None, None, Some("/home/u".into())).unwrap(),
        "/home/u/.cache/codex-voice/runtime"
    );
    let error = runtime_directory(None, None, None).unwrap_err();
    assert_eq!(error.kind, FailureKind::NotFound);
    assert_eq!(error.message, "HOME is not set");
}

#[test]
fn application_binds_the_runtime_files() {
    let application = Application::from_environment(None, None, Some("/home/u".into())).unwrap();
    let paths = application.paths;
    assert_eq!(paths.directory, "/home/u/.cache/codex-voice/runtime");
    assert_eq!(paths.lock, "/home/u/.cache/codex-voice/runtime/codex-voice.lock");
    assert_eq!(paths.recorder_pid, "/home/u/.cache/codex-voice/runtime/codex-voice.pid");
    assert_eq!(paths.runtime_state, "/home/u/.cache/codex-voice/runtime/codex-voice-state.json");
    let error = Application::from_environment(None, None, None).unwrap_err();
    assert_eq!(error.message, "HOME is not set");
}

#[test]
fn runtime_files_use_the_protocol_names() {
    let paths = Paths::in_directory("/run/user/1000/".into());
    assert_eq!(paths.wav, "/run/user/1000/codex-voice.wav");
    assert_eq!(paths.overlay_pid, "/run/user/1000/codex-voice-overlay.pid");
    assert_eq!(paths.preview_overlay_pid, "/run/user/1000/codex-voice-preview-overlay.pid");
    assert_eq!(paths.transcriber_pid, "/run/user/1000/codex-voice-transcriber.pid");
    assert_eq!(paths.transcript, "/run/user/1000/codex-voice-transcript.txt");
    assert_eq!(paths.cancel, "/run/user/1000/codex-voice-cancelled");
    assert_eq!(paths.typing_pid, "/run/user/1000/codex-voice-typing.pid");
    assert_eq!(paths.session_owner_pid, "/run/user/1000/codex-voice-session-owner.pid");
    assert_eq!(paths.session_recorder_pid, "/run/user/1000/codex-voice-session-recorder.pid");
    let recovery = RecoveryPaths::for_session(&paths, id(42, 99));
    assert_eq!(recovery.audio, "/run/user/1000/codex-voice-audio-recovery-42-99.wav");
    assert_eq!(recovery.transcript, "/run/user/1000/codex-voice-transcript-recovery-42-99.txt");
}

#[test]
fn toggle_stops_then_cancels_then_starts() {
    assert_eq!(toggle_choice(Some(id(1, 2)), Some(id(3, 4))), ToggleChoice::Stop(id(1, 2)));
    assert_eq!(toggle_choice(None, Some(id(3, 4))), ToggleChoice::CancelSession(id(3, 4)));
    assert_eq!(toggle_choice(None, None), ToggleChoice::Start);
}

#[test]
fn lifecycle_refusals() {
    assert!(start_check(false, false).is_ok());
    assert_eq!(start_check(true, false).unwrap_err().message, "dictation is already active");
    assert_eq!(start_check(false, true).unwrap_err().kind, FailureKind::InvalidInput);
    assert_eq!(stop_target(Some(id(5, 6))).unwrap(), id(5, 6));
    assert_eq!(stop_target(None).unwrap_err().message, "dictation is not recording");
    assert_eq!(cancel_target(Some(id(1, 1)), Some(id(2, 2))), Some(id(1, 1)));
    assert_eq!(cancel_target(None, Some(id(2, 2))), Some(id(2, 2)));
    assert_eq!(cancel_target(None, None), None);
}

#[test]
fn dead_recorder_overlay_cannot_cancel_replacement_recording() {
    let old_recorder = id(100, 1);
    let replacement = id(200, 2);
    assert_eq!(recorder_cancellation(old_recorder, Some(replacement), None, None), None);
    assert_eq!(
        recorder_cancellation(old_recorder, Some(replacement), Some(id(300, 3)), Some(replacement)),
        None
    );
    assert_eq!(
        recorder_cancellation(replacement, Some(replacement), None, None),
        Some(replacement)
    );
}

#[test]
fn scoped_overlay_cancel_still_cancels_its_transcribing_session() {
    let recorder = id(42, 99);
    let owner = id(43, 100);
    assert_eq!(recorder_cancellation(recorder, None, Some(owner), Some(recorder)), Some(owner));
    assert_eq!(recorder_cancellation(recorder, None, None, Some(recorder)), None);
}

#[test]
fn cancellation_stops_the_recorder_first_and_the_owner_last() {
    let targets = CancellationTargets {
        owner: Some(id(1, 1)),
        recorder: Some(id(2, 2)),
        transcriber: None,
        typing: Some(id(4, 4)),
        overlay: Some(id(5, 5)),
    };
    assert_eq!(
        targets.terminations(),
        vec![
            Termination { record: Record::Recorder, identity: id(2, 2), signal: Signal::Interrupt },
            Termination { record: Record::Typing, identity: id(4, 4), signal: Signal::Terminate },
            Termination { record: Record::Overlay, identity: id(5, 5), signal: Signal::Terminate },
            Termination {
                record: Record::SessionOwner,
                identity: id(1, 1),
                signal: Signal::Terminate
            },
        ]
    );
    assert_eq!(targets.after_terminations(false, true), (Some(id(1, 1)), Some(id(1, 1))));
    assert_eq!(targets.after_terminations(true, false), (Some(id(1, 1)), None));
    let recording = CancellationTargets {
        owner: None,
        recorder: Some(id(2, 2)),
        transcriber: None,
        typing: None,
        overlay: None,
    };
    assert_eq!(recording.after_terminations(true, false), (None, Some(id(2, 2))));
    assert_eq!(recording.after_terminations(true, true), (None, None));
}

#[test]
fn orphans_and_abandoned_sessions() {
    assert_eq!(orphan_repair(true, true), (false, false));
    assert_eq!(orphan_repair(false, true), (true, false));
    assert_eq!(orphan_repair(false, false), (true, true));
    let owner = id(10, 20);
    let recorder = id(11, 21);
    assert_eq!(abandoned_cleanup(Some(id(12, 22)), owner, Some(recorder), Some(recorder)), None);
    assert_eq!(abandoned_cleanup(None, owner, Some(recorder), Some(recorder)), None);
    assert_eq!(abandoned_cleanup(Some(owner), owner, Some(recorder), Some(recorder)), Some(true));
    assert_eq!(abandoned_cleanup(Some(owner), owner, Some(recorder), Some(id(13, 23))), Some(false));
    assert_eq!(abandoned_cleanup(Some(owner), owner, None, Some(recorder)), Some(false));
}

#[test]
fn session_cleanup_keeps_what_it_is_told_to_keep() {
    let fresh = SessionCleanup::new(id(1, 2), Some(id(3, 4)));
    assert!(fresh.preserve_source_audio);
    assert!(fresh.owned_steps(None).is_empty());
    assert!(fresh.owned_steps(Some(id(9, 9))).is_empty());
    assert_eq!(
        fresh.owned_steps(Some(id(1, 2))),
        vec![
            OwnedCleanup::RemoveOwnerRecord,
            OwnedCleanup::RemoveSessionRecorder,
            OwnedCleanup::ClearRuntimeState,
            OwnedCleanup::RemoveCancelRecord,
            OwnedCleanup::RemoveTranscript,
        ]
    );
    assert_eq!(
        fresh.terminations(),
        vec![Termination { record: Record::Overlay, identity: id(3, 4), signal: Signal::Terminate }]
    );
    let finished = SessionCleanup {
        preserve_source_audio: false,
        recovery: true,
        preserve_recovery: false,
        transcriber: Some(id(5, 6)),
        ..fresh
    };
    assert_eq!(
        finished.owned_steps(Some(id(1, 2))),
        vec![
            OwnedCleanup::RemoveOwnerRecord,
            OwnedCleanup::RemoveSessionRecorder,
            OwnedCleanup::ClearRuntimeState,
            OwnedCleanup::RemoveCancelRecord,
            OwnedCleanup::RemoveSourceAudio,
            OwnedCleanup::RemoveTranscript,
            OwnedCleanup::RemoveRecovery,
        ]
    );
    assert_eq!(finished.terminations().len(), 2);
}

#[test]
fn watchers_and_waits() {
    assert_eq!(watch_step(true, true), WatchStep::Wait);
    assert_eq!(watch_step(false, true), WatchStep::CancelRecording);
    assert_eq!(watch_step(true, false), WatchStep::Finish);
    assert_eq!(watch_step(false, false), WatchStep::Finish);
    assert_eq!(wait_step(true, true, true), WaitStep::Report);
    assert_eq!(wait_step(false, true, true), WaitStep::StopCancelled);
    assert_eq!(wait_step(false, false, true), WaitStep::StopTimedOut);
    assert_eq!(wait_step(false, false, false), WaitStep::Poll);
    assert_eq!(preview_exit_code(Some(3)), 3);
    assert_eq!(preview_exit_code(Some(257)), 1);
    assert_eq!(preview_exit_code(None), 0);
}

#[test]
fn recovery_messages_name_where_the_audio_is() {
    let error = Failure::new(FailureKind::PermissionDenied, "denied");
    let source = source_recovery_failure("could not secure source audio for ASR recovery", &error, "/r/codex-voice.wav", "/r/t.txt");
    assert_eq!(source.kind, FailureKind::PermissionDenied);
    assert_eq!(
        source.message,
        "could not secure source audio for ASR recovery: denied; source audio: /r/codex-voice.wav; recovery transcript: /r/t.txt"
    );
    let recovery = RecoveryPaths { audio: "/r/a.wav".into(), transcript: "/r/t.txt".into() };
    let moved = recovery_failure("codex-asr failed", &Failure::new(FailureKind::Other, "exited with 23"), &recovery);
    assert_eq!(
        moved.message,
        "codex-asr failed: exited with 23; recovery audio: /r/a.wav; recovery transcript: /r/t.txt"
    );
}

#[test]
fn status_reports_idle_and_versions() {
    let idle = status_document(None, false, "24.04".into(), "46.0".into());
    assert_eq!(idle.schema_version, 1);
    assert_eq!(idle.state, "idle");
    let busy = status_document(Some("typing".into()), true, "u".into(), "g".into());
    assert_eq!(busy.state, "typing");
    assert!(busy.extension_active);
    assert_eq!(
        os_release_version(Some("NAME=\"Ubuntu\"\nVERSION_ID=\"24.04\"\nVERSION_ID=\"x\"\n")),
        "24.04"
    );
    assert_eq!(os_release_version(Some("NAME=Ubuntu\n")), "unknown");
    assert_eq!(os_release_version(None), "unknown");
    assert_eq!(gnome_shell_version(Some("GNOME Shell 46.0\n")), "46.0");
    assert_eq!(gnome_shell_version(Some("   ")), "unknown");
    assert_eq!(gnome_shell_version(None), "unknown");
}

#[test]
fn clipboard_writers_are_tried_in_order() {
    let both = clipboard_commands(Some("/usr/bin/wl-copy".into()), Some("/usr/bin/xclip".into()));
    assert_eq!(both.len(), 2);
    assert_eq!(both[0].program, "/usr/bin/wl-copy");
    assert!(both[0].args.is_empty());
    assert_eq!(both[1].program, "/usr/bin/xclip");
    assert_eq!(both[1].args, vec!["-selection", "clipboard", "-in"]);
    assert!(clipboard_commands(None, None).is_empty());
    let error = clipboard_failure(None);
    assert_eq!(error.kind, FailureKind::NotFound);
    assert_eq!(error.message, "neither wl-copy nor xclip was found");
    let last = clipboard_failure(Some(Failure::new(FailureKind::Other, "clipboard command exited with exit status: 1")));
    assert_eq!(last.message, "clipboard command exited with exit status: 1");
}

#[test]
fn killed_owner_supervisor_escalates_hung_asr_and_cleans_session() {
    let owner = id(700, 7);
    let recorder = id(701, 8);
    assert_eq!(abandoned_cleanup(Some(owner), owner, Some(recorder), Some(recorder)), Some(true));
    assert_eq!(abandoned_cleanup(Some(owner), owner, Some(recorder), None), Some(false));
}

#[test]
fn stale_owner_supervisor_does_not_kill_replacement_session() {
    let stale = id(700, 7);
    let replacement = id(702, 9);
    assert_eq!(
        abandoned_cleanup(Some(replacement), stale, Some(id(703, 10)), Some(id(703, 10))),
        None
    );
}
