use codex_voice::claim_stop::{ClaimAction, ClaimEvent, ClaimMachine, ClaimUndo, StopContext};
use codex_voice::failure::{Failure, FailureKind};
use codex_voice::process_identity::ProcessIdentity;

fn id(pid: i32, start_time: u64) -> ProcessIdentity {
    ProcessIdentity { pid, start_time }
}

fn step(machine: &mut ClaimMachine, event: ClaimEvent) -> ClaimAction {
    assert!(machine.accepts(&event), "{:?} not expected in {:?}", event, machine.stage);
    machine.step(event)
}

#[test]
fn a_claim_records_the_owner_and_reads_the_overlay() {
    let recorder = id(10, 100);
    let owner = id(20, 200);
    let (mut machine, action) = ClaimMachine::new(recorder, false);
    assert!(matches!(action, ClaimAction::IdentifyCurrentProcess));
    assert!(matches!(step(&mut machine, ClaimEvent::Started(owner)), ClaimAction::SpawnSupervisor(o) if o == owner));
    assert!(matches!(step(&mut machine, ClaimEvent::Done), ClaimAction::WriteOwnerRecord(o) if o == owner));
    assert!(matches!(step(&mut machine, ClaimEvent::Done), ClaimAction::WriteSessionRecorder(r) if r == recorder));
    assert!(matches!(step(&mut machine, ClaimEvent::Done), ClaimAction::CheckCancelled(o) if o == owner));
    assert!(matches!(step(&mut machine, ClaimEvent::Cancelled(false)), ClaimAction::PublishTranscribing(_)));
    assert!(matches!(step(&mut machine, ClaimEvent::Done), ClaimAction::ReadOverlay));
    match step(&mut machine, ClaimEvent::Overlay(Some(id(30, 300)))) {
        ClaimAction::Claimed(context) => assert_eq!(
            context,
            StopContext { owner, recorder, overlay: Some(id(30, 300)) }
        ),
        other => panic!("unexpected {other:?}"),
    }
}

#[test]
fn a_claim_is_refused_while_another_session_transcribes() {
    let (_, action) = ClaimMachine::new(id(10, 100), true);
    match action {
        ClaimAction::Fail { undo, error } => {
            assert!(undo.is_empty());
            assert_eq!(error.kind, FailureKind::InvalidInput);
            assert_eq!(error.message, "dictation is already transcribing");
        }
        other => panic!("unexpected {other:?}"),
    }
}

#[test]
fn a_cancelled_claim_removes_what_it_wrote() {
    let owner = id(20, 200);
    let (mut machine, _) = ClaimMachine::new(id(10, 100), false);
    step(&mut machine, ClaimEvent::Started(owner));
    step(&mut machine, ClaimEvent::Done);
    step(&mut machine, ClaimEvent::Done);
    step(&mut machine, ClaimEvent::Done);
    match step(&mut machine, ClaimEvent::Cancelled(true)) {
        ClaimAction::Fail { undo, error } => {
            assert_eq!(undo, vec![ClaimUndo::RemoveOwnerRecord(owner), ClaimUndo::RemoveSessionRecorder]);
            assert_eq!(error.kind, FailureKind::Interrupted);
            assert_eq!(error.message, "dictation cancelled");
        }
        other => panic!("unexpected {other:?}"),
    }
}

#[test]
fn a_failed_owner_record_write_undoes_nothing() {
    let (mut machine, _) = ClaimMachine::new(id(10, 100), false);
    step(&mut machine, ClaimEvent::Started(id(20, 200)));
    step(&mut machine, ClaimEvent::Done);
    match step(&mut machine, ClaimEvent::Failed(Failure::new(FailureKind::Other, "disk full"))) {
        ClaimAction::Fail { undo, error } => {
            assert!(undo.is_empty());
            assert_eq!(error.message, "disk full");
        }
        other => panic!("unexpected {other:?}"),
    }
    assert!(!machine.accepts(&ClaimEvent::Done));
}
