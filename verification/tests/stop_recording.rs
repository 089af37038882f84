use codex_voice::claim_stop::StopContext;
use codex_voice::failure::{Failure, FailureKind};
use codex_voice::paste_automation::{PasteCommand, Protocol};
use codex_voice::process_identity::ProcessIdentity;
use codex_voice::session::{Paths, SessionCleanup};
use codex_voice::stop_recording::{StopAction, StopEvent, StopMachine, StopStep};

fn id(pid: i32, start_time: u64) -> ProcessIdentity {
    ProcessIdentity { pid, start_time }
}

fn context(overlay: bool) -> StopContext {
    StopContext {
        owner: id(500, 5000),
        recorder: id(400, 4000),
        overlay: if overlay { Some(id(600, 6000)) } else { None },
    }
}

fn paths() -> Paths {
    Paths::in_directory("/run/user/1000".into())
}

fn step(machine: &mut StopMachine, event: StopEvent) -> StopAction {
    assert!(machine.accepts(&event), "{:?} not expected in {:?}", event, machine.stage);
    machine.step(event)
}

fn finished(action: StopAction) -> (Result<u8, Failure>, SessionCleanup) {
    match action {
        StopAction::Finish { result, cleanup } => (result, cleanup),
        other => panic!("expected the session to finish, got {other:?}"),
    }
}

fn failure(kind: FailureKind, message: &str) -> Failure {
    Failure::new(kind, message)
}

/// Runs the session up to the transcriber's start and returns its arguments.
fn to_transcriber(machine: &mut StopMachine, language: &str) -> Vec<String> {
    assert!(matches!(step(machine, StopEvent::Done), StopAction::InspectSourceAudio));
    assert!(matches!(
        step(machine, StopEvent::AudioSize(32000)),
        StopAction::CheckCancelled { .. }
    ));
    assert!(matches!(step(machine, StopEvent::Cancelled(false)), StopAction::PrepareRecovery));
    assert!(matches!(step(machine, StopEvent::Done), StopAction::LoadSettings));
    match step(machine, StopEvent::Language(language.into())) {
        StopAction::StartTranscriber { args } => args,
        other => panic!("unexpected {other:?}"),
    }
}

fn to_transcript(machine: &mut StopMachine, transcript: &str) -> StopAction {
    to_transcriber(machine, "auto");
    let asr = id(700, 7000);
    assert!(matches!(step(machine, StopEvent::Started(asr)), StopAction::WaitTranscriber(_)));
    assert!(matches!(
        step(machine, StopEvent::Exited { success: true, status: "exit status: 0".into() }),
        StopAction::ReleaseTranscriber(_)
    ));
    assert!(matches!(step(machine, StopEvent::Done), StopAction::CheckCancelled { .. }));
    assert!(matches!(step(machine, StopEvent::Cancelled(false)), StopAction::ReadTranscript));
    step(machine, StopEvent::Transcript(transcript.into()))
}

#[test]
fn first_action_stops_the_recorder() {
    let (machine, action) = StopMachine::new(context(true), &paths());
    assert!(matches!(action, StopAction::StopRecorder(r) if r == id(400, 4000)));
    assert_eq!(
        machine.recovery.audio,
        "/run/user/1000/codex-voice-audio-recovery-500-5000.wav"
    );
    assert!(machine.cleanup.preserve_source_audio);
}

#[test]
fn the_overlay_is_told_that_transcription_begins() {
    let (mut machine, _) = StopMachine::new(context(true), &paths());
    step(&mut machine, StopEvent::Done);
    match step(&mut machine, StopEvent::AudioSize(10)) {
        StopAction::CheckCancelled { notify_overlay } => {
            assert_eq!(notify_overlay, Some(id(600, 6000)))
        }
        other => panic!("unexpected {other:?}"),
    }
}

#[test]
fn transcriber_arguments_carry_the_recovery_audio_and_language() {
    let (mut machine, _) = StopMachine::new(context(false), &paths());
    assert_eq!(
        to_transcriber(&mut machine, "es"),
        vec![
            "/run/user/1000/codex-voice-audio-recovery-500-5000.wav".to_string(),
            "--language".to_string(),
            "es".to_string()
        ]
    );
    let (mut machine, _) = StopMachine::new(context(false), &paths());
    assert_eq!(
        to_transcriber(&mut machine, "auto"),
        vec!["/run/user/1000/codex-voice-audio-recovery-500-5000.wav".to_string()]
    );
}

#[test]
fn nonzero_asr_preserves_private_recovery_across_next_recording() {
    let (mut machine, _) = StopMachine::new(context(false), &paths());
    to_transcriber(&mut machine, "auto");
    step(&mut machine, StopEvent::Started(id(700, 7000)));
    step(&mut machine, StopEvent::Exited { success: false, status: "exit status: 23".into() });
    step(&mut machine, StopEvent::Done);
    let (result, cleanup) = finished(step(&mut machine, StopEvent::Cancelled(false)));
    let error = result.unwrap_err();
    assert!(error.message.starts_with("codex-asr failed: exited with exit status: 23"));
    assert!(error.message.contains("codex-voice-audio-recovery-500-5000.wav"));
    assert!(cleanup.recovery && cleanup.preserve_recovery);
    assert!(!cleanup.preserve_source_audio);
}

#[test]
fn asr_spawn_failure_preserves_recovery_across_next_recording() {
    let (mut machine, _) = StopMachine::new(context(false), &paths());
    to_transcriber(&mut machine, "auto");
    let (result, cleanup) = finished(step(
        &mut machine,
        StopEvent::FailedAt(
            StopStep::SpawnTranscriber,
            failure(FailureKind::NotFound, "No such file or directory (os error 2)"),
        ),
    ));
    let error = result.unwrap_err();
    assert_eq!(error.kind, FailureKind::NotFound);
    assert!(error.message.starts_with("could not start codex-asr: No such file"));
    assert!(cleanup.preserve_recovery);
}

#[test]
fn source_metadata_failure_preserves_private_and_reports_original_audio() {
    let (mut machine, _) = StopMachine::new(context(false), &paths());
    step(&mut machine, StopEvent::Done);
    let action = step(
        &mut machine,
        StopEvent::Failed(failure(FailureKind::PermissionDenied, "Permission denied (os error 13)")),
    );
    assert!(matches!(action, StopAction::CheckCancelled { notify_overlay: None }));
    assert!(matches!(step(&mut machine, StopEvent::Cancelled(false)), StopAction::SecureSourceAudio));
    let (result, cleanup) = finished(step(&mut machine, StopEvent::Done));
    let error = result.unwrap_err();
    assert_eq!(error.kind, FailureKind::PermissionDenied);
    assert!(error.message.starts_with("could not inspect recorded source audio: Permission denied"));
    assert!(error.message.contains("source audio: /run/user/1000/codex-voice.wav"));
    assert!(cleanup.preserve_source_audio);
    assert!(!cleanup.recovery);
}

#[test]
fn genuinely_empty_source_audio_is_discarded() {
    let (mut machine, _) = StopMachine::new(context(false), &paths());
    step(&mut machine, StopEvent::Done);
    let (result, cleanup) = finished(step(&mut machine, StopEvent::AudioSize(0)));
    assert_eq!(result.unwrap(), 1);
    assert!(!cleanup.preserve_source_audio);
}

#[test]
fn missing_source_audio_is_not_reported_as_a_recovery_failure() {
    let (mut machine, _) = StopMachine::new(context(false), &paths());
    step(&mut machine, StopEvent::Done);
    let (result, cleanup) = finished(step(
        &mut machine,
        StopEvent::Failed(failure(FailureKind::NotFound, "No such file or directory")),
    ));
    assert_eq!(result.unwrap(), 1);
    assert!(!cleanup.preserve_source_audio);
}

#[test]
fn source_permission_failure_preserves_and_reports_original_audio() {
    let (mut machine, _) = StopMachine::new(context(false), &paths());
    step(&mut machine, StopEvent::Done);
    step(&mut machine, StopEvent::AudioSize(10));
    step(&mut machine, StopEvent::Cancelled(false));
    step(
        &mut machine,
        StopEvent::FailedAt(
            StopStep::SecureSource,
            failure(FailureKind::PermissionDenied, "Operation not permitted"),
        ),
    );
    assert!(matches!(step(&mut machine, StopEvent::Cancelled(false)), StopAction::SecureSourceAudio));
    let (result, cleanup) = finished(step(&mut machine, StopEvent::Done));
    let error = result.unwrap_err();
    assert!(error.message.starts_with("could not secure source audio for ASR recovery"));
    assert!(error.message.contains("recovery transcript: /run/user/1000/codex-voice-transcript-recovery-500-5000.txt"));
    assert!(cleanup.preserve_source_audio);
}

#[test]
fn source_rename_failure_preserves_private_and_reports_original_audio() {
    let (mut machine, _) = StopMachine::new(context(false), &paths());
    step(&mut machine, StopEvent::Done);
    step(&mut machine, StopEvent::AudioSize(10));
    step(&mut machine, StopEvent::Cancelled(false));
    step(
        &mut machine,
        StopEvent::FailedAt(StopStep::MoveSource, failure(FailureKind::Other, "cross-device link")),
    );
    let (result, cleanup) = finished(step(&mut machine, StopEvent::Cancelled(false)));
    let error = result.unwrap_err();
    assert!(error.message.starts_with("could not move source audio into ASR recovery: cross-device link"));
    assert!(cleanup.preserve_source_audio);
    assert!(!cleanup.recovery);
}

#[test]
fn transcript_create_disk_full_preserves_private_recovery_across_next_recording() {
    let (mut machine, _) = StopMachine::new(context(false), &paths());
    step(&mut machine, StopEvent::Done);
    step(&mut machine, StopEvent::AudioSize(10));
    step(&mut machine, StopEvent::Cancelled(false));
    step(
        &mut machine,
        StopEvent::FailedAt(
            StopStep::OpenTranscript,
            failure(FailureKind::Other, "No space left on device (os error 28)"),
        ),
    );
    let (result, cleanup) = finished(step(&mut machine, StopEvent::Cancelled(false)));
    let error = result.unwrap_err();
    assert!(error.message.starts_with("could not create ASR recovery transcript"));
    assert!(error.message.contains("os error 28"));
    assert!(cleanup.recovery && cleanup.preserve_recovery);
}

#[test]
fn cancellation_discards_partial_asr_recovery() {
    let (mut machine, _) = StopMachine::new(context(false), &paths());
    to_transcriber(&mut machine, "auto");
    step(&mut machine, StopEvent::Started(id(700, 7000)));
    step(&mut machine, StopEvent::Exited { success: false, status: "signal: 15".into() });
    step(&mut machine, StopEvent::Done);
    let (result, cleanup) = finished(step(&mut machine, StopEvent::Cancelled(true)));
    assert_eq!(result.unwrap(), 0);
    assert!(!cleanup.preserve_recovery);
    assert!(!cleanup.preserve_source_audio);
}

#[test]
fn cancellation_before_recovery_discards_the_source_audio() {
    let (mut machine, _) = StopMachine::new(context(false), &paths());
    step(&mut machine, StopEvent::Done);
    step(&mut machine, StopEvent::AudioSize(10));
    let (result, cleanup) = finished(step(&mut machine, StopEvent::Cancelled(true)));
    assert_eq!(result.unwrap(), 0);
    assert!(!cleanup.preserve_source_audio);
}

#[test]
fn successful_empty_asr_cleans_recovery_artifacts() {
    let (mut machine, _) = StopMachine::new(context(false), &paths());
    let (result, cleanup) = finished(to_transcript(&mut machine, "\n\n"));
    assert_eq!(result.unwrap(), 1);
    assert!(cleanup.recovery && !cleanup.preserve_recovery);
    let (mut machine, _) = StopMachine::new(context(true), &paths());
    assert!(matches!(to_transcript(&mut machine, "...\n"), StopAction::CloseOverlay(_)));
    let (result, cleanup) = finished(step(&mut machine, StopEvent::Done));
    assert_eq!(result.unwrap(), 1);
    assert!(!cleanup.preserve_recovery);
}

fn to_delivery(machine: &mut StopMachine) {
    match to_transcript(machine, "hello world\n") {
        StopAction::CloseOverlay(o) => assert_eq!(o, id(600, 6000)),
        other => panic!("unexpected {other:?}"),
    }
    match step(machine, StopEvent::Done) {
        StopAction::PublishHistory { text } => assert_eq!(text, "hello world"),
        other => panic!("unexpected {other:?}"),
    }
    match step(machine, StopEvent::Done) {
        StopAction::CopyToClipboard { text } => assert_eq!(text, "hello world"),
        other => panic!("unexpected {other:?}"),
    }
    assert!(!machine.cleanup.preserve_recovery);
    assert!(matches!(step(machine, StopEvent::Done), StopAction::PreparePaste));
    match step(machine, StopEvent::PasteReady(Protocol::Modern)) {
        StopAction::StartPaste(command) => {
            assert_eq!(command, PasteCommand { protocol: Protocol::Modern })
        }
        other => panic!("unexpected {other:?}"),
    }
    assert!(matches!(step(machine, StopEvent::Started(id(800, 8000))), StopAction::WaitPaste(_)));
}

#[test]
fn a_transcript_is_saved_copied_and_pasted_without_output() {
    let (mut machine, _) = StopMachine::new(context(true), &paths());
    to_delivery(&mut machine);
    match step(&mut machine, StopEvent::Exited { success: true, status: "exit status: 0".into() }) {
        StopAction::ReleasePaste { identity, complete } => {
            assert_eq!(identity, id(800, 8000));
            assert!(complete);
        }
        other => panic!("unexpected {other:?}"),
    }
    let (result, cleanup) = finished(step(&mut machine, StopEvent::Done));
    assert_eq!(result.unwrap(), 0);
    assert!(cleanup.typing.is_none());
    assert!(!cleanup.preserve_recovery);
}

#[test]
fn waiting_cancel_rolls_back_only_the_sessions_inserted_history() {
    let (mut machine, _) = StopMachine::new(context(true), &paths());
    to_delivery(&mut machine);
    let action = step(
        &mut machine,
        StopEvent::Failed(failure(FailureKind::Interrupted, "paste interrupted")),
    );
    assert!(matches!(action, StopAction::RollBackHistoryIfCancelled));
    let (result, _) = finished(step(&mut machine, StopEvent::Cancelled(true)));
    assert_eq!(result.unwrap(), 0);
}

#[test]
fn genuine_post_history_error_retains_the_inserted_history() {
    let (mut machine, _) = StopMachine::new(context(true), &paths());
    to_delivery(&mut machine);
    step(
        &mut machine,
        StopEvent::Exited { success: false, status: "exit status: 1".into() },
    );
    let action = step(&mut machine, StopEvent::Done);
    assert!(matches!(action, StopAction::RollBackHistoryIfCancelled));
    let (result, _) = finished(step(&mut machine, StopEvent::Cancelled(false)));
    assert_eq!(
        result.unwrap_err().message,
        "clipboard paste command exited with exit status: 1"
    );
}

#[test]
fn waiting_cancel_wins_over_missing_ydotool_error() {
    let (mut machine, _) = StopMachine::new(context(true), &paths());
    to_transcript(&mut machine, "text");
    step(&mut machine, StopEvent::Done);
    step(&mut machine, StopEvent::Done);
    step(&mut machine, StopEvent::Done);
    let action = step(
        &mut machine,
        StopEvent::Failed(codex_voice::paste_automation::missing()),
    );
    assert!(matches!(action, StopAction::RollBackHistoryIfCancelled));
    let (result, _) = finished(step(&mut machine, StopEvent::Cancelled(true)));
    assert_eq!(result.unwrap(), 0);
}

#[test]
fn a_cancellation_while_pasting_rolls_back_history() {
    let (mut machine, _) = StopMachine::new(context(true), &paths());
    to_transcript(&mut machine, "text");
    step(&mut machine, StopEvent::Done);
    step(&mut machine, StopEvent::Done);
    assert!(!machine.accepts(&StopEvent::Cancelled(false)));
    let action = step(&mut machine, StopEvent::Cancelled(true));
    assert!(matches!(action, StopAction::RollBackHistory));
    let (result, _) = finished(step(&mut machine, StopEvent::Done));
    assert_eq!(result.unwrap(), 0);
}

#[test]
fn a_history_write_failure_keeps_the_recovery_files() {
    let (mut machine, _) = StopMachine::new(context(false), &paths());
    assert!(matches!(to_transcript(&mut machine, "words"), StopAction::PublishHistory { .. }));
    let (result, cleanup) = finished(step(
        &mut machine,
        StopEvent::FailedAt(StopStep::AddHistory, failure(FailureKind::Other, "database is locked")),
    ));
    let error = result.unwrap_err();
    assert!(error.message.starts_with("could not persist transcript history: database is locked"));
    assert!(cleanup.recovery && cleanup.preserve_recovery);
}

#[test]
fn a_recorder_that_survives_is_reported_with_its_audio() {
    let (mut machine, _) = StopMachine::new(context(false), &paths());
    let (result, cleanup) = finished(step(&mut machine, StopEvent::RecorderSurvived));
    let error = result.unwrap_err();
    assert!(error
        .message
        .starts_with("audio recorder did not terminate after SIGKILL; tracking was preserved: recorder remains active"));
    assert!(cleanup.preserve_source_audio);
}

#[test]
fn an_interrupted_transcriber_registration_ends_quietly() {
    let (mut machine, _) = StopMachine::new(context(false), &paths());
    to_transcriber(&mut machine, "auto");
    let (result, cleanup) = finished(step(
        &mut machine,
        StopEvent::FailedAt(
            StopStep::RegisterTranscriber,
            failure(FailureKind::Interrupted, "dictation cancelled"),
        ),
    ));
    assert_eq!(result.unwrap(), 0);
    assert!(!cleanup.preserve_recovery);
}

#[test]
fn unexpected_reports_are_refused() {
    let (machine, _) = StopMachine::new(context(false), &paths());
    assert!(!machine.accepts(&StopEvent::AudioSize(3)));
    assert!(!machine.accepts(&StopEvent::Transcript("x".into())));
    assert!(machine.accepts(&StopEvent::Done));
}

#[test]
fn waiting_cancel_wins_over_paste_process_error() {
    let (mut machine, _) = StopMachine::new(context(true), &paths());
    to_transcript(&mut machine, "text");
    step(&mut machine, StopEvent::Done);
    step(&mut machine, StopEvent::Done);
    step(&mut machine, StopEvent::Done);
    step(&mut machine, StopEvent::PasteReady(Protocol::Legacy));
    let action = step(
        &mut machine,
        StopEvent::Failed(failure(
            FailureKind::Other,
            "could not identify clipboard paste process",
        )),
    );
    assert!(matches!(action, StopAction::RollBackHistoryIfCancelled));
    let (result, _) = finished(step(&mut machine, StopEvent::Cancelled(true)));
    assert_eq!(result.unwrap(), 0);
}
