//! Claiming a recording for transcription: the stopping process becomes the
//! session owner, records the recorder it took over, and announces the
//! `transcribing` state.  A failure undoes the claim.
use vstd::prelude::*;

use crate::failure::{invalid_input, Failure, FailureKind, FailureView};
use crate::process_identity::ProcessIdentity;
use crate::session::dictation_cancelled;

verus! {

/// The identities that a claimed session carries into transcription.
#[derive(Debug, Clone, Copy, PartialEq, Eq, Structural)]
pub struct StopContext {
    pub owner: ProcessIdentity,
    pub recorder: ProcessIdentity,
    pub overlay: Option<ProcessIdentity>,
}

#[derive(Debug, Clone, Copy, PartialEq, Eq, Structural)]
pub enum ClaimStage {
    Identifying,
    SpawningSupervisor,
    WritingOwner,
    WritingSessionRecorder,
    CheckingCancellation,
    Publishing,
    ReadingOverlay,
    Finished,
}

/// The claim of a recording.
#[derive(Debug, Clone, Copy, PartialEq, Eq, Structural)]
pub struct ClaimMachine {
    pub stage: ClaimStage,
    pub recorder: ProcessIdentity,
    pub owner: Option<ProcessIdentity>,
    pub owner_record: bool,
    pub session_recorder_record: bool,
}

/// One step of undoing a claim.
#[derive(Debug, Clone, Copy, PartialEq, Eq, Structural)]
pub enum ClaimUndo {
    /// Remove the owner record if it still names this owner.
    RemoveOwnerRecord(ProcessIdentity),
    RemoveSessionRecorder,
}

#[derive(Debug, Clone)]
pub enum ClaimEvent {
    Done,
    Failed(Failure),
    Started(ProcessIdentity),
    Cancelled(bool),
    Overlay(Option<ProcessIdentity>),
}

pub enum ClaimEventView {
    Done,
    Failed(FailureView),
    Started(ProcessIdentity),
    Cancelled(bool),
    Overlay(Option<ProcessIdentity>),
}

impl View for ClaimEvent {
    type V = ClaimEventView;

    open spec fn view(&self) -> ClaimEventView {
        match self {
            ClaimEvent::Done => ClaimEventView::Done,
            ClaimEvent::Failed(f) => ClaimEventView::Failed(f@),
            ClaimEvent::Started(p) => ClaimEventView::Started(*p),
            ClaimEvent::Cancelled(b) => ClaimEventView::Cancelled(*b),
            ClaimEvent::Overlay(o) => ClaimEventView::Overlay(*o),
        }
    }
}

#[derive(Debug, Clone)]
pub enum ClaimAction {
    /// Read this process's identity.
    IdentifyCurrentProcess,
    /// Start the supervisor that cleans up if this owner dies.
    SpawnSupervisor(ProcessIdentity),
    WriteOwnerRecord(ProcessIdentity),
    WriteSessionRecorder(ProcessIdentity),
    /// Check, under the held lock, whether this owner was cancelled.
    CheckCancelled(ProcessIdentity),
    PublishTranscribing(ProcessIdentity),
    /// Read the live overlay record.
    ReadOverlay,
    /// Undo these steps and fail.
    Fail { undo: Vec<ClaimUndo>, error: Failure },
    /// The session is claimed.
    Claimed(StopContext),
}

pub enum ClaimActionView {
    IdentifyCurrentProcess,
    SpawnSupervisor(ProcessIdentity),
    WriteOwnerRecord(ProcessIdentity),
    WriteSessionRecorder(ProcessIdentity),
    CheckCancelled(ProcessIdentity),
    PublishTranscribing(ProcessIdentity),
    ReadOverlay,
    Fail { undo: Seq<ClaimUndo>, error: FailureView },
    Claimed(StopContext),
}

impl View for ClaimAction {
    type V = ClaimActionView;

    open spec fn view(&self) -> ClaimActionView {
        match self {
            ClaimAction::IdentifyCurrentProcess => ClaimActionView::IdentifyCurrentProcess,
            ClaimAction::SpawnSupervisor(p) => ClaimActionView::SpawnSupervisor(*p),
            ClaimAction::WriteOwnerRecord(p) => ClaimActionView::WriteOwnerRecord(*p),
            ClaimAction::WriteSessionRecorder(p) => ClaimActionView::WriteSessionRecorder(*p),
            ClaimAction::CheckCancelled(p) => ClaimActionView::CheckCancelled(*p),
            ClaimAction::PublishTranscribing(p) => ClaimActionView::PublishTranscribing(*p),
            ClaimAction::ReadOverlay => ClaimActionView::ReadOverlay,
            ClaimAction::Fail { undo, error } => ClaimActionView::Fail { undo: undo@, error: error@ },
            ClaimAction::Claimed(c) => ClaimActionView::Claimed(*c),
        }
    }
}

/// The undo of a claim: the owner record and the session recorder record,
/// each only if it was written.
pub open spec fn claim_undo(m: ClaimMachine) -> Seq<ClaimUndo> {
    (if m.owner_record && m.owner is Some {
        seq![ClaimUndo::RemoveOwnerRecord(m.owner->0)]
    } else {
        Seq::empty()
    }) + (if m.session_recorder_record {
        seq![ClaimUndo::RemoveSessionRecorder]
    } else {
        Seq::empty()
    })
}

pub open spec fn claim_fail(m: ClaimMachine, error: FailureView) -> (ClaimMachine, ClaimActionView) {
    (ClaimMachine { stage: ClaimStage::Finished, ..m }, ClaimActionView::Fail { undo: claim_undo(m), error })
}

/// How a claim starts: refused while another owner is transcribing.
pub open spec fn claim_start(recorder: ProcessIdentity, owner_active: bool) -> (
    ClaimMachine,
    ClaimActionView,
) {
    let m = ClaimMachine {
        stage: ClaimStage::Identifying,
        recorder,
        owner: None,
        owner_record: false,
        session_recorder_record: false,
    };
    if owner_active {
        claim_fail(
            m,
            FailureView {
                kind: FailureKind::InvalidInput,
                message: "dictation is already transcribing"@,
            },
        )
    } else {
        (m, ClaimActionView::IdentifyCurrentProcess)
    }
}

pub open spec fn claim_accepts(m: ClaimMachine, e: ClaimEventView) -> bool {
    match m.stage {
        ClaimStage::Identifying => e is Started || e is Failed,
        ClaimStage::SpawningSupervisor | ClaimStage::WritingOwner
        | ClaimStage::WritingSessionRecorder | ClaimStage::Publishing => (e is Done || e is Failed)
            && m.owner is Some,
        ClaimStage::CheckingCancellation => e is Cancelled && m.owner is Some,
        ClaimStage::ReadingOverlay => e is Overlay && m.owner is Some,
        ClaimStage::Finished => false,
    }
}

pub open spec fn claim_transition(m: ClaimMachine, e: ClaimEventView) -> (
    ClaimMachine,
    ClaimActionView,
) {
    match e {
        ClaimEventView::Failed(error) => claim_fail(m, error),
        _ => match m.stage {
            ClaimStage::Identifying => match e {
                ClaimEventView::Started(o) => (
                    ClaimMachine { stage: ClaimStage::SpawningSupervisor, owner: Some(o), ..m },
                    ClaimActionView::SpawnSupervisor(o),
                ),
                _ => (m, ClaimActionView::IdentifyCurrentProcess),
            },
            ClaimStage::SpawningSupervisor => (
                ClaimMachine { stage: ClaimStage::WritingOwner, ..m },
                ClaimActionView::WriteOwnerRecord(m.owner->0),
            ),
            ClaimStage::WritingOwner => (
                ClaimMachine { stage: ClaimStage::WritingSessionRecorder, owner_record: true, ..m },
                ClaimActionView::WriteSessionRecorder(m.recorder),
            ),
            ClaimStage::WritingSessionRecorder => (
                ClaimMachine {
                    stage: ClaimStage::CheckingCancellation,
                    session_recorder_record: true,
                    ..m
                },
                ClaimActionView::CheckCancelled(m.owner->0),
            ),
            ClaimStage::CheckingCancellation => match e {
                ClaimEventView::Cancelled(true) => claim_fail(
                    m,
                    FailureView { kind: FailureKind::Interrupted, message: "dictation cancelled"@ },
                ),
                _ => (
                    ClaimMachine { stage: ClaimStage::Publishing, ..m },
                    ClaimActionView::PublishTranscribing(m.owner->0),
                ),
            },
            ClaimStage::Publishing => (
                ClaimMachine { stage: ClaimStage::ReadingOverlay, ..m },
                ClaimActionView::ReadOverlay,
            ),
            ClaimStage::ReadingOverlay => match e {
                ClaimEventView::Overlay(overlay) => (
                    ClaimMachine { stage: ClaimStage::Finished, ..m },
                    ClaimActionView::Claimed(
                        StopContext { owner: m.owner->0, recorder: m.recorder, overlay },
                    ),
                ),
                _ => (m, ClaimActionView::ReadOverlay),
            },
            ClaimStage::Finished => (m, ClaimActionView::ReadOverlay),
        },
    }
}

impl ClaimMachine {
    /// Starts claiming `recorder`, given whether a session owner is alive.
    pub fn new(recorder: ProcessIdentity, owner_active: bool) -> (r: (ClaimMachine, ClaimAction))
        ensures
            (r.0, r.1@) == claim_start(recorder, owner_active),
    {
        let mut m = ClaimMachine {
            stage: ClaimStage::Identifying,
            recorder,
            owner: None,
            owner_record: false,
            session_recorder_record: false,
        };
        if owner_active {
            let a = m.fail_with(invalid_input("dictation is already transcribing"));
            (m, a)
        } else {
            (m, ClaimAction::IdentifyCurrentProcess)
        }
    }

    pub fn accepts(&self, e: &ClaimEvent) -> (r: bool)
        ensures
            r == claim_accepts(*self, e@),
    {
        match self.stage {
            ClaimStage::Identifying => matches!(e, ClaimEvent::Started(_) | ClaimEvent::Failed(_)),
            ClaimStage::SpawningSupervisor | ClaimStage::WritingOwner
            | ClaimStage::WritingSessionRecorder | ClaimStage::Publishing => matches!(
                e,
                ClaimEvent::Done | ClaimEvent::Failed(_)
            ) && self.owner.is_some(),
            ClaimStage::CheckingCancellation => matches!(e, ClaimEvent::Cancelled(_))
                && self.owner.is_some(),
            ClaimStage::ReadingOverlay => matches!(e, ClaimEvent::Overlay(_)) && self.owner.is_some(),
            ClaimStage::Finished => false,
        }
    }

    fn fail_with(&mut self, error: Failure) -> (a: ClaimAction)
        ensures
            (*final(self), a@) == claim_fail(*old(self), error@),
    {
        let mut undo: Vec<ClaimUndo> = Vec::new();
        if self.owner_record && self.owner.is_some() {
            undo.push(ClaimUndo::RemoveOwnerRecord(self.owner.unwrap()));
        }
        if self.session_recorder_record {
            undo.push(ClaimUndo::RemoveSessionRecorder);
        }
        assert(undo@ =~= claim_undo(*self));
        self.stage = ClaimStage::Finished;
        ClaimAction::Fail { undo, error }
    }

    /// Takes the report of the last step and gives the next step.
    pub fn step(&mut self, e: ClaimEvent) -> (a: ClaimAction)
        requires
            claim_accepts(*old(self), e@),
        ensures
            (*final(self), a@) == claim_transition(*old(self), e@),
    {
        if let ClaimEvent::Failed(error) = e {
            return self.fail_with(error);
        }
        match self.stage {
            ClaimStage::Identifying => match e {
                ClaimEvent::Started(o) => {
                    self.stage = ClaimStage::SpawningSupervisor;
                    self.owner = Some(o);
                    ClaimAction::SpawnSupervisor(o)
                },
                _ => ClaimAction::IdentifyCurrentProcess,
            },
            ClaimStage::SpawningSupervisor => {
                self.stage = ClaimStage::WritingOwner;
                ClaimAction::WriteOwnerRecord(self.owner.unwrap())
            },
            ClaimStage::WritingOwner => {
                self.stage = ClaimStage::WritingSessionRecorder;
                self.owner_record = true;
                ClaimAction::WriteSessionRecorder(self.recorder)
            },
            ClaimStage::WritingSessionRecorder => {
                self.stage = ClaimStage::CheckingCancellation;
                self.session_recorder_record = true;
                ClaimAction::CheckCancelled(self.owner.unwrap())
            },
            ClaimStage::CheckingCancellation => match e {
                ClaimEvent::Cancelled(true) => self.fail_with(dictation_cancelled()),
                _ => {
                    self.stage = ClaimStage::Publishing;
                    ClaimAction::PublishTranscribing(self.owner.unwrap())
                },
            },
            ClaimStage::Publishing => {
                self.stage = ClaimStage::ReadingOverlay;
                ClaimAction::ReadOverlay
            },
            ClaimStage::ReadingOverlay => match e {
                ClaimEvent::Overlay(overlay) => {
                    self.stage = ClaimStage::Finished;
                    ClaimAction::Claimed(
                        StopContext { owner: self.owner.unwrap(), recorder: self.recorder, overlay },
                    )
                },
                _ => ClaimAction::ReadOverlay,
            },
            ClaimStage::Finished => ClaimAction::ReadOverlay,
        }
    }
}

/// A claim that fails removes exactly the records that it wrote: the owner
/// record if it was written (and only while it names this owner), and the
/// session recorder record if it was written.
pub proof fn lemma_failed_claim_removes_what_it_wrote(m: ClaimMachine, e: ClaimEventView)
    requires
        claim_accepts(m, e),
        claim_transition(m, e).1 is Fail,
    ensures
        claim_transition(m, e).1->Fail_undo.contains(ClaimUndo::RemoveSessionRecorder)
            == m.session_recorder_record,
        m.owner is Some ==> claim_transition(m, e).1->Fail_undo.contains(
            ClaimUndo::RemoveOwnerRecord(m.owner->0),
        ) == m.owner_record,
{
    let undo = claim_undo(m);
    let first = if m.owner_record && m.owner is Some {
        seq![ClaimUndo::RemoveOwnerRecord(m.owner->0)]
    } else {
        Seq::<ClaimUndo>::empty()
    };
    let second = if m.session_recorder_record {
        seq![ClaimUndo::RemoveSessionRecorder]
    } else {
        Seq::<ClaimUndo>::empty()
    };
    assert(undo == first + second);
    if m.session_recorder_record {
        assert(undo[first.len() as int] == ClaimUndo::RemoveSessionRecorder);
    }
    if m.owner_record && m.owner is Some {
        assert(undo[0] == ClaimUndo::RemoveOwnerRecord(m.owner->0));
    }
    assert forall|k: int| 0 <= k < undo.len() implies (undo[k] == ClaimUndo::RemoveSessionRecorder
        ==> m.session_recorder_record) && (m.owner is Some && undo[k] == ClaimUndo::RemoveOwnerRecord(
        m.owner->0) ==> m.owner_record) by {
        if k < first.len() {
            assert(undo[k] == first[k]);
        } else {
            assert(undo[k] == second[k - first.len()]);
        }
    }
}

/// A session is announced as transcribing only after its owner found, under
/// the lock, that it had not been cancelled.
pub proof fn lemma_publish_only_when_not_cancelled(m: ClaimMachine, e: ClaimEventView)
    requires
        claim_accepts(m, e),
        claim_transition(m, e).1 is PublishTranscribing,
    ensures
        m.stage == ClaimStage::CheckingCancellation,
        e == ClaimEventView::Cancelled(false),
        claim_transition(m, e).1->PublishTranscribing_0 == m.owner->0,
{
}

/// How far a claim has come; every accepted report raises it.
pub open spec fn claim_progress(s: ClaimStage) -> int {
    match s {
        ClaimStage::Identifying => 0,
        ClaimStage::SpawningSupervisor => 1,
        ClaimStage::WritingOwner => 2,
        ClaimStage::WritingSessionRecorder => 3,
        ClaimStage::CheckingCancellation => 4,
        ClaimStage::Publishing => 5,
        ClaimStage::ReadingOverlay => 6,
        ClaimStage::Finished => 7,
    }
}

/// Every accepted report moves a claim forward; it ends, claimed or failed,
/// after at most seven reports.
pub proof fn lemma_claim_always_ends(m: ClaimMachine, e: ClaimEventView)
    requires
        claim_accepts(m, e),
    ensures
        claim_progress(claim_transition(m, e).0.stage) > claim_progress(m.stage),
        (claim_transition(m, e).1 is Claimed || claim_transition(m, e).1 is Fail)
            <==> claim_transition(m, e).0.stage == ClaimStage::Finished,
{
}

} // verus!
