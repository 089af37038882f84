use codex_voice::failure::{Failure, FailureKind};
use codex_voice::process_identity::ProcessIdentity;
use codex_voice::start_recording::{
    startup_exit_failure, undo_steps, StartAction, StartEvent, StartFacts, StartMachine, Undo,
};

fn id(pid: i32, start_time: u64) -> ProcessIdentity {
    ProcessIdentity { pid, start_time }
}

fn step(machine: &mut StartMachine, event: StartEvent) -> StartAction {
    assert!(machine.accepts(&event), "{:?} not expected in {:?}", event, machine.stage);
    machine.step(event)
}

fn rollback(action: StartAction) -> (Vec<Undo>, Failure) {
    match action {
        StartAction::RollBack { undo, error } => (undo, error),
        other => panic!("expected a rollback, got {other:?}"),
    }
}

#[test]
fn a_recording_starts_recorder_overlay_and_watchdog() {
    let (mut machine, action) = StartMachine::new();
    assert!(matches!(action, StartAction::PrepareNewRecording));
    assert!(matches!(step(&mut machine, StartEvent::Done), StartAction::StartRecorder));
    let recorder = id(10, 100);
    let overlay = id(11, 110);
    assert!(matches!(
        step(&mut machine, StartEvent::Started(recorder)),
        StartAction::WriteRecorderRecord(r) if r == recorder
    ));
    assert!(matches!(step(&mut machine, StartEvent::Done), StartAction::AwaitRecorderStartup(_)));
    assert!(matches!(step(&mut machine, StartEvent::Running), StartAction::PublishRecording(_)));
    assert!(matches!(step(&mut machine, StartEvent::Done), StartAction::StartOverlay(r) if r == recorder));
    assert!(matches!(step(&mut machine, StartEvent::Started(overlay)), StartAction::WriteOverlayRecord(_)));
    assert!(matches!(step(&mut machine, StartEvent::Done), StartAction::AwaitOverlayStartup(_)));
    match step(&mut machine, StartEvent::Running) {
        StartAction::StartWatchdog { overlay: o, recorder: r } => {
            assert_eq!(o, overlay);
            assert_eq!(r, recorder);
        }
        other => panic!("unexpected {other:?}"),
    }
    assert!(matches!(step(&mut machine, StartEvent::Done), StartAction::Finish));
}

#[test]
fn a_missing_recorder_rolls_back_nothing() {
    let (mut machine, _) = StartMachine::new();
    step(&mut machine, StartEvent::Done);
    let (undo, error) = rollback(step(&mut machine, StartEvent::Missing));
    assert!(undo.is_empty());
    assert_eq!(error.kind, FailureKind::NotFound);
    assert_eq!(error.message, "arecord was not found in PATH");
}

#[test]
fn a_recorder_that_dies_at_startup_is_cleaned_up() {
    let (mut machine, _) = StartMachine::new();
    let recorder = id(10, 100);
    step(&mut machine, StartEvent::Done);
    step(&mut machine, StartEvent::Started(recorder));
    step(&mut machine, StartEvent::Done);
    let (undo, error) = rollback(step(
        &mut machine,
        StartEvent::Exited {
            status: "exit status: 1".into(),
            stderr: "  arecord: main:830: audio open error: Device or resource busy\n".into(),
        },
    ));
    assert_eq!(undo, vec![Undo::RemoveRecorderRecord(recorder), Undo::RemoveAudio]);
    assert_eq!(
        error.message,
        "audio recorder exited during startup (exit status: 1): arecord: main:830: audio open error: Device or resource busy"
    );
}

#[test]
fn a_missing_overlay_rolls_back_the_announced_recording() {
    let (mut machine, _) = StartMachine::new();
    let recorder = id(10, 100);
    step(&mut machine, StartEvent::Done);
    step(&mut machine, StartEvent::Started(recorder));
    step(&mut machine, StartEvent::Done);
    step(&mut machine, StartEvent::Running);
    step(&mut machine, StartEvent::Done);
    let (undo, error) = rollback(step(&mut machine, StartEvent::Missing));
    assert_eq!(
        undo,
        vec![
            Undo::TerminateRecorder(recorder),
            Undo::RemoveRecorderRecord(recorder),
            Undo::ClearRuntimeState(recorder),
        ]
    );
    assert_eq!(error.message, "codex-voice overlay is not installed");
}

#[test]
fn a_failed_watchdog_stops_overlay_then_recorder() {
    let (mut machine, _) = StartMachine::new();
    let recorder = id(10, 100);
    let overlay = id(11, 110);
    step(&mut machine, StartEvent::Done);
    step(&mut machine, StartEvent::Started(recorder));
    step(&mut machine, StartEvent::Done);
    step(&mut machine, StartEvent::Running);
    step(&mut machine, StartEvent::Done);
    step(&mut machine, StartEvent::Started(overlay));
    step(&mut machine, StartEvent::Done);
    step(&mut machine, StartEvent::Running);
    let (undo, error) = rollback(step(
        &mut machine,
        StartEvent::Failed(Failure::new(FailureKind::Other, "spawn failed")),
    ));
    assert_eq!(
        undo,
        vec![
            Undo::TerminateOverlay(overlay),
            Undo::RemoveOverlayRecord(overlay),
            Undo::TerminateRecorder(recorder),
            Undo::RemoveRecorderRecord(recorder),
            Undo::ClearRuntimeState(recorder),
        ]
    );
    assert_eq!(error.message, "spawn failed");
}

#[test]
fn an_overlay_that_exits_quietly_is_reported_without_detail() {
    let (mut machine, _) = StartMachine::new();
    step(&mut machine, StartEvent::Done);
    step(&mut machine, StartEvent::Started(id(1, 1)));
    step(&mut machine, StartEvent::Done);
    step(&mut machine, StartEvent::Running);
    step(&mut machine, StartEvent::Done);
    step(&mut machine, StartEvent::Started(id(2, 2)));
    step(&mut machine, StartEvent::Done);
    let (undo, error) = rollback(step(
        &mut machine,
        StartEvent::Exited { status: "exit status: 2".into(), stderr: " \n".into() },
    ));
    assert_eq!(undo[0], Undo::RemoveOverlayRecord(id(2, 2)));
    assert_eq!(error.message, "GTK overlay exited during startup (exit status: 2)");
}

#[test]
fn undo_plans_follow_the_facts() {
    let facts = StartFacts {
        recorder: Some(id(1, 1)),
        recorder_running: false,
        recorder_record: true,
        published: false,
        overlay: None,
        overlay_running: false,
        overlay_record: false,
    };
    assert_eq!(undo_steps(facts), vec![Undo::RemoveRecorderRecord(id(1, 1)), Undo::RemoveAudio]);
    assert_eq!(
        startup_exit_failure("x", "s", "").message,
        "x exited during startup (s)"
    );
}
