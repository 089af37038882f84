//! Starting a recording: the audio recorder, its runtime records, the
//! published `recording` state, the GTK overlay and its session watcher.
//! Each step may fail; a failure rolls back exactly what was set up so far.
use vstd::prelude::*;

use crate::failure::{Failure, FailureKind, FailureView};
use crate::process_identity::ProcessIdentity;
use crate::session::overlay_missing;
use crate::text::{chars_of, extend_chars, trim, trimmed};

verus! {

/// Where the start sequence stands.
#[derive(Debug, Clone, Copy, PartialEq, Eq, Structural)]
pub enum StartStage {
    Preparing,
    StartingRecorder,
    WritingRecorderRecord,
    AwaitingRecorder,
    PublishingRecording,
    StartingOverlay,
    WritingOverlayRecord,
    AwaitingOverlay,
    StartingWatchdog,
    Finished,
}

/// What the start sequence has set up so far.
#[derive(Debug, Clone, Copy, PartialEq, Eq, Structural)]
pub struct StartFacts {
    pub recorder: Option<ProcessIdentity>,
    pub recorder_running: bool,
    pub recorder_record: bool,
    pub published: bool,
    pub overlay: Option<ProcessIdentity>,
    pub overlay_running: bool,
    pub overlay_record: bool,
}

/// One step of a rollback.
#[derive(Debug, Clone, Copy, PartialEq, Eq, Structural)]
pub enum Undo {
    TerminateOverlay(ProcessIdentity),
    RemoveOverlayRecord(ProcessIdentity),
    TerminateRecorder(ProcessIdentity),
    RemoveRecorderRecord(ProcessIdentity),
    RemoveAudio,
    ClearRuntimeState(ProcessIdentity),
}

/// The start sequence of a recording.
#[derive(Debug, Clone, Copy, PartialEq, Eq, Structural)]
pub struct StartMachine {
    pub stage: StartStage,
    pub facts: StartFacts,
}

/// What the executable reports after performing a step.
#[derive(Debug, Clone)]
pub enum StartEvent {
    Done,
    Failed(Failure),
    /// The program to run is not installed.
    Missing,
    /// The process was spawned and identified.
    Started(ProcessIdentity),
    /// The process is still running after its startup grace period.
    Running,
    /// The process exited during startup with this status and error output.
    Exited { status: String, stderr: String },
}

pub enum StartEventView {
    Done,
    Failed(FailureView),
    Missing,
    Started(ProcessIdentity),
    Running,
    Exited { status: Seq<char>, stderr: Seq<char> },
}

impl View for StartEvent {
    type V = StartEventView;

    open spec fn view(&self) -> StartEventView {
        match self {
            StartEvent::Done => StartEventView::Done,
            StartEvent::Failed(f) => StartEventView::Failed(f@),
            StartEvent::Missing => StartEventView::Missing,
            StartEvent::Started(p) => StartEventView::Started(*p),
            StartEvent::Running => StartEventView::Running,
            StartEvent::Exited { status, stderr } => StartEventView::Exited {
                status: status@,
                stderr: stderr@,
            },
        }
    }
}

/// The step that the executable performs next.
#[derive(Debug, Clone)]
pub enum StartAction {
    /// Clear stale runtime state, remove the previous audio and transcript
    /// and stop a leftover overlay.
    PrepareNewRecording,
    /// Find `arecord` and start it on the audio file.
    StartRecorder,
    WriteRecorderRecord(ProcessIdentity),
    /// Give the recorder a moment and check that it still runs.
    AwaitRecorderStartup(ProcessIdentity),
    PublishRecording(ProcessIdentity),
    /// Find the overlay script and start the overlay for this recorder.
    StartOverlay(ProcessIdentity),
    WriteOverlayRecord(ProcessIdentity),
    AwaitOverlayStartup(ProcessIdentity),
    /// Start the watcher that cancels the recording if the overlay dies.
    StartWatchdog { overlay: ProcessIdentity, recorder: ProcessIdentity },
    /// Undo these steps, in order, and fail with the error.
    RollBack { undo: Vec<Undo>, error: Failure },
    /// The recording runs.
    Finish,
}

pub enum StartActionView {
    PrepareNewRecording,
    StartRecorder,
    WriteRecorderRecord(ProcessIdentity),
    AwaitRecorderStartup(ProcessIdentity),
    PublishRecording(ProcessIdentity),
    StartOverlay(ProcessIdentity),
    WriteOverlayRecord(ProcessIdentity),
    AwaitOverlayStartup(ProcessIdentity),
    StartWatchdog { overlay: ProcessIdentity, recorder: ProcessIdentity },
    RollBack { undo: Seq<Undo>, error: FailureView },
    Finish,
}

impl View for StartAction {
    type V = StartActionView;

    open spec fn view(&self) -> StartActionView {
        match self {
            StartAction::PrepareNewRecording => StartActionView::PrepareNewRecording,
            StartAction::StartRecorder => StartActionView::StartRecorder,
            StartAction::WriteRecorderRecord(p) => StartActionView::WriteRecorderRecord(*p),
            StartAction::AwaitRecorderStartup(p) => StartActionView::AwaitRecorderStartup(*p),
            StartAction::PublishRecording(p) => StartActionView::PublishRecording(*p),
            StartAction::StartOverlay(p) => StartActionView::StartOverlay(*p),
            StartAction::WriteOverlayRecord(p) => StartActionView::WriteOverlayRecord(*p),
            StartAction::AwaitOverlayStartup(p) => StartActionView::AwaitOverlayStartup(*p),
            StartAction::StartWatchdog { overlay, recorder } => StartActionView::StartWatchdog {
                overlay: *overlay,
                recorder: *recorder,
            },
            StartAction::RollBack { undo, error } => StartActionView::RollBack {
                undo: undo@,
                error: error@,
            },
            StartAction::Finish => StartActionView::Finish,
        }
    }
}

pub open spec fn when(cond: bool, u: Undo) -> Seq<Undo> {
    if cond {
        seq![u]
    } else {
        Seq::empty()
    }
}

/// The rollback for what has been set up: every started process that is
/// still running is stopped (the overlay before the recorder), every
/// written record is removed, the audio file goes while the recording was
/// not yet announced, and an announced recording state is cleared.
pub open spec fn undo_plan(f: StartFacts) -> Seq<Undo> {
    let overlay_steps = match f.overlay {
        Some(o) => when(f.overlay_running, Undo::TerminateOverlay(o)) + when(
            f.overlay_record,
            Undo::RemoveOverlayRecord(o),
        ),
        None => Seq::empty(),
    };
    let recorder_steps = match f.recorder {
        Some(r) => when(f.recorder_running, Undo::TerminateRecorder(r)) + when(
            f.recorder_record,
            Undo::RemoveRecorderRecord(r),
        ) + when(f.recorder_record && !f.published, Undo::RemoveAudio) + when(
            f.published,
            Undo::ClearRuntimeState(r),
        ),
        None => Seq::empty(),
    };
    overlay_steps + recorder_steps
}

/// The message for a process that exited during startup:
/// `<what> exited during startup (<status>)`, followed by its trimmed error
/// output when there is any.
pub open spec fn startup_exit_message(what: Seq<char>, status: Seq<char>, stderr: Seq<char>) -> Seq<
    char,
> {
    what + " exited during startup ("@ + status + ")"@ + if trim(stderr).len() == 0 {
        Seq::<char>::empty()
    } else {
        ": "@ + trim(stderr)
    }
}

pub open spec fn fail(m: StartMachine, error: FailureView) -> (StartMachine, StartActionView) {
    (
        StartMachine { stage: StartStage::Finished, facts: m.facts },
        StartActionView::RollBack { undo: undo_plan(m.facts), error },
    )
}

pub open spec fn not_found(message: Seq<char>) -> FailureView {
    FailureView { kind: FailureKind::NotFound, message }
}

pub open spec fn start_machine_initial() -> StartMachine {
    StartMachine {
        stage: StartStage::Preparing,
        facts: StartFacts {
            recorder: None,
            recorder_running: false,
            recorder_record: false,
            published: false,
            overlay: None,
            overlay_running: false,
            overlay_record: false,
        },
    }
}

/// Which reports each stage expects.
pub open spec fn start_accepts(m: StartMachine, e: StartEventView) -> bool {
    match m.stage {
        StartStage::Preparing => e is Done || e is Failed,
        StartStage::StartingRecorder => e is Missing || e is Failed || e is Started,
        StartStage::WritingRecorderRecord => (e is Done || e is Failed) && m.facts.recorder is Some,
        StartStage::AwaitingRecorder => (e is Running || e is Exited || e is Failed)
            && m.facts.recorder is Some,
        StartStage::PublishingRecording => (e is Done || e is Failed) && m.facts.recorder is Some,
        StartStage::StartingOverlay => (e is Missing || e is Failed || e is Started)
            && m.facts.recorder is Some,
        StartStage::WritingOverlayRecord => (e is Done || e is Failed) && m.facts.overlay is Some,
        StartStage::AwaitingOverlay => (e is Running || e is Exited || e is Failed)
            && m.facts.overlay is Some && m.facts.recorder is Some,
        StartStage::StartingWatchdog => (e is Done || e is Failed) && m.facts.overlay is Some
            && m.facts.recorder is Some,
        StartStage::Finished => false,
    }
}

/// The start sequence: each report leads to the next step, or to the
/// rollback of everything set up so far.
pub open spec fn start_transition(m: StartMachine, e: StartEventView) -> (
    StartMachine,
    StartActionView,
) {
    let f = m.facts;
    match e {
        StartEventView::Failed(error) => fail(m, error),
        _ => match m.stage {
            StartStage::Preparing => (
                StartMachine { stage: StartStage::StartingRecorder, facts: f },
                StartActionView::StartRecorder,
            ),
            StartStage::StartingRecorder => match e {
                StartEventView::Started(r) => (
                    StartMachine {
                        stage: StartStage::WritingRecorderRecord,
                        facts: StartFacts { recorder: Some(r), recorder_running: true, ..f },
                    },
                    StartActionView::WriteRecorderRecord(r),
                ),
                _ => fail(m, not_found("arecord was not found in PATH"@)),
            },
            StartStage::WritingRecorderRecord => (
                StartMachine {
                    stage: StartStage::AwaitingRecorder,
                    facts: StartFacts { recorder_record: true, ..f },
                },
                StartActionView::AwaitRecorderStartup(f.recorder->0),
            ),
            StartStage::AwaitingRecorder => match e {
                StartEventView::Exited { status, stderr } => fail(
                    StartMachine {
                        stage: m.stage,
                        facts: StartFacts { recorder_running: false, ..f },
                    },
                    FailureView {
                        kind: FailureKind::Other,
                        message: startup_exit_message("audio recorder"@, status, stderr),
                    },
                ),
                _ => (
                    StartMachine { stage: StartStage::PublishingRecording, facts: f },
                    StartActionView::PublishRecording(f.recorder->0),
                ),
            },
            StartStage::PublishingRecording => (
                StartMachine {
                    stage: StartStage::StartingOverlay,
                    facts: StartFacts { published: true, ..f },
                },
                StartActionView::StartOverlay(f.recorder->0),
            ),
            StartStage::StartingOverlay => match e {
                StartEventView::Started(o) => (
                    StartMachine {
                        stage: StartStage::WritingOverlayRecord,
                        facts: StartFacts { overlay: Some(o), overlay_running: true, ..f },
                    },
                    StartActionView::WriteOverlayRecord(o),
                ),
                _ => fail(m, not_found("codex-voice overlay is not installed"@)),
            },
            StartStage::WritingOverlayRecord => (
                StartMachine {
                    stage: StartStage::AwaitingOverlay,
                    facts: StartFacts { overlay_record: true, ..f },
                },
                StartActionView::AwaitOverlayStartup(f.overlay->0),
            ),
            StartStage::AwaitingOverlay => match e {
                StartEventView::Exited { status, stderr } => fail(
                    StartMachine {
                        stage: m.stage,
                        facts: StartFacts { overlay_running: false, ..f },
                    },
                    FailureView {
                        kind: FailureKind::Other,
                        message: startup_exit_message("GTK overlay"@, status, stderr),
                    },
                ),
                _ => (
                    StartMachine { stage: StartStage::StartingWatchdog, facts: f },
                    StartActionView::StartWatchdog {
                        overlay: f.overlay->0,
                        recorder: f.recorder->0,
                    },
                ),
            },
            StartStage::StartingWatchdog => (
                StartMachine { stage: StartStage::Finished, facts: f },
                StartActionView::Finish,
            ),
            StartStage::Finished => (m, StartActionView::Finish),
        },
    }
}

fn push_when(list: &mut Vec<Undo>, cond: bool, u: Undo)
    ensures
        final(list)@ == old(list)@ + when(cond, u),
{
    if cond {
        list.push(u);
        assert(final(list)@ =~= old(list)@ + seq![u]);
    } else {
        assert(old(list)@ + Seq::<Undo>::empty() =~= old(list)@);
    }
}

/// The rollback for what has been set up.
pub fn undo_steps(f: StartFacts) -> (list: Vec<Undo>)
    ensures
        list@ == undo_plan(f),
{
    let mut list: Vec<Undo> = Vec::new();
    if let Some(o) = f.overlay {
        push_when(&mut list, f.overlay_running, Undo::TerminateOverlay(o));
        push_when(&mut list, f.overlay_record, Undo::RemoveOverlayRecord(o));
    }
    let ghost mid = list@;
    if let Some(r) = f.recorder {
        push_when(&mut list, f.recorder_running, Undo::TerminateRecorder(r));
        push_when(&mut list, f.recorder_record, Undo::RemoveRecorderRecord(r));
        push_when(&mut list, f.recorder_record && !f.published, Undo::RemoveAudio);
        push_when(&mut list, f.published, Undo::ClearRuntimeState(r));
    }
    assert(list@ =~= undo_plan(f));
    list
}

/// The failure for a process that exited during startup.
pub fn startup_exit_failure(what: &str, status: &str, stderr: &str) -> (f: Failure)
    ensures
        f.kind == FailureKind::Other,
        f.message@ == startup_exit_message(what@, status@, stderr@),
{
    let mut text = chars_of(what);
    extend_chars(&mut text, &chars_of(" exited during startup ("));
    extend_chars(&mut text, &chars_of(status));
    extend_chars(&mut text, &chars_of(")"));
    let detail = trimmed(&chars_of(stderr));
    if detail.len() > 0 {
        extend_chars(&mut text, &chars_of(": "));
        extend_chars(&mut text, &detail);
    } else {
        assert(text@ + Seq::<char>::empty() =~= text@);
    }
    Failure::with_text(FailureKind::Other, &text)
}

impl StartMachine {
    /// A fresh start sequence and its first step.
    pub fn new() -> (r: (StartMachine, StartAction))
        ensures
            r.0 == start_machine_initial(),
            r.1@ == StartActionView::PrepareNewRecording,
    {
        (
            StartMachine {
                stage: StartStage::Preparing,
                facts: StartFacts {
                    recorder: None,
                    recorder_running: false,
                    recorder_record: false,
                    published: false,
                    overlay: None,
                    overlay_running: false,
                    overlay_record: false,
                },
            },
            StartAction::PrepareNewRecording,
        )
    }

    /// Whether the current step expects this report.
    pub fn accepts(&self, e: &StartEvent) -> (r: bool)
        ensures
            r == start_accepts(*self, e@),
    {
        let f = self.facts;
        match self.stage {
            StartStage::Preparing => matches!(e, StartEvent::Done | StartEvent::Failed(_)),
            StartStage::StartingRecorder => matches!(
                e,
                StartEvent::Missing | StartEvent::Failed(_) | StartEvent::Started(_)
            ),
            StartStage::WritingRecorderRecord => matches!(
                e,
                StartEvent::Done | StartEvent::Failed(_)
            ) && f.recorder.is_some(),
            StartStage::AwaitingRecorder => matches!(
                e,
                StartEvent::Running | StartEvent::Exited { .. } | StartEvent::Failed(_)
            ) && f.recorder.is_some(),
            StartStage::PublishingRecording => matches!(
                e,
                StartEvent::Done | StartEvent::Failed(_)
            ) && f.recorder.is_some(),
            StartStage::StartingOverlay => matches!(
                e,
                StartEvent::Missing | StartEvent::Failed(_) | StartEvent::Started(_)
            ) && f.recorder.is_some(),
            StartStage::WritingOverlayRecord => matches!(
                e,
                StartEvent::Done | StartEvent::Failed(_)
            ) && f.overlay.is_some(),
            StartStage::AwaitingOverlay => matches!(
                e,
                StartEvent::Running | StartEvent::Exited { .. } | StartEvent::Failed(_)
            ) && f.overlay.is_some() && f.recorder.is_some(),
            StartStage::StartingWatchdog => matches!(
                e,
                StartEvent::Done | StartEvent::Failed(_)
            ) && f.overlay.is_some() && f.recorder.is_some(),
            StartStage::Finished => false,
        }
    }

    fn fail_with(&mut self, error: Failure) -> (a: StartAction)
        ensures
            (*final(self), a@) == fail(*old(self), error@),
    {
        let undo = undo_steps(self.facts);
        self.stage = StartStage::Finished;
        StartAction::RollBack { undo, error }
    }

    /// Takes the report of the last step and gives the next step.
    pub fn step(&mut self, e: StartEvent) -> (a: StartAction)
        requires
            start_accepts(*old(self), e@),
        ensures
            (*final(self), a@) == start_transition(*old(self), e@),
    {
        let f = self.facts;
        if let StartEvent::Failed(error) = e {
            return self.fail_with(error);
        }
        match self.stage {
            StartStage::Preparing => {
                self.stage = StartStage::StartingRecorder;
                StartAction::StartRecorder
            },
            StartStage::StartingRecorder => match e {
                StartEvent::Started(r) => {
                    self.stage = StartStage::WritingRecorderRecord;
                    self.facts = StartFacts { recorder: Some(r), recorder_running: true, ..f };
                    StartAction::WriteRecorderRecord(r)
                },
                _ => self.fail_with(
                    Failure::new(FailureKind::NotFound, "arecord was not found in PATH"),
                ),
            },
            StartStage::WritingRecorderRecord => {
                self.stage = StartStage::AwaitingRecorder;
                self.facts = StartFacts { recorder_record: true, ..f };
                StartAction::AwaitRecorderStartup(f.recorder.unwrap())
            },
            StartStage::AwaitingRecorder => match e {
                StartEvent::Exited { status, stderr } => {
                    self.facts = StartFacts { recorder_running: false, ..f };
                    self.fail_with(
                        startup_exit_failure("audio recorder", status.as_str(), stderr.as_str()),
                    )
                },
                _ => {
                    self.stage = StartStage::PublishingRecording;
                    StartAction::PublishRecording(f.recorder.unwrap())
                },
            },
            StartStage::PublishingRecording => {
                self.stage = StartStage::StartingOverlay;
                self.facts = StartFacts { published: true, ..f };
                StartAction::StartOverlay(f.recorder.unwrap())
            },
            StartStage::StartingOverlay => match e {
                StartEvent::Started(o) => {
                    self.stage = StartStage::WritingOverlayRecord;
                    self.facts = StartFacts { overlay: Some(o), overlay_running: true, ..f };
                    StartAction::WriteOverlayRecord(o)
                },
                _ => self.fail_with(overlay_missing()),
            },
            StartStage::WritingOverlayRecord => {
                self.stage = StartStage::AwaitingOverlay;
                self.facts = StartFacts { overlay_record: true, ..f };
                StartAction::AwaitOverlayStartup(f.overlay.unwrap())
            },
            StartStage::AwaitingOverlay => match e {
                StartEvent::Exited { status, stderr } => {
                    self.facts = StartFacts { overlay_running: false, ..f };
                    self.fail_with(
                        startup_exit_failure("GTK overlay", status.as_str(), stderr.as_str()),
                    )
                },
                _ => {
                    self.stage = StartStage::StartingWatchdog;
                    StartAction::StartWatchdog {
                        overlay: f.overlay.unwrap(),
                        recorder: f.recorder.unwrap(),
                    }
                },
            },
            StartStage::StartingWatchdog => {
                self.stage = StartStage::Finished;
                StartAction::Finish
            },
            StartStage::Finished => StartAction::Finish,
        }
    }
}

/// Whether the facts can arise in the start sequence: records are written
/// only for started processes, and only a started recorder is announced.
pub open spec fn start_facts_consistent(f: StartFacts) -> bool {
    &&& f.recorder_record ==> f.recorder is Some
    &&& f.recorder_running ==> f.recorder is Some
    &&& f.published ==> f.recorder_record
    &&& f.overlay is Some ==> f.published
    &&& f.overlay_record ==> f.overlay is Some
    &&& f.overlay_running ==> f.overlay is Some
}

/// A failed start leaves nothing behind: for facts that the sequence can
/// reach, the rollback stops every started process that still runs, removes
/// every record written, removes the audio of an unannounced recording and
/// clears an announced state.
pub proof fn lemma_rollback_releases_everything(f: StartFacts)
    requires
        start_facts_consistent(f),
    ensures
        f.recorder_running ==> undo_plan(f).contains(Undo::TerminateRecorder(f.recorder->0)),
        f.recorder_record ==> undo_plan(f).contains(Undo::RemoveRecorderRecord(f.recorder->0)),
        f.recorder_record && !f.published ==> undo_plan(f).contains(Undo::RemoveAudio),
        f.published ==> undo_plan(f).contains(Undo::ClearRuntimeState(f.recorder->0)),
        f.overlay_running ==> undo_plan(f).contains(Undo::TerminateOverlay(f.overlay->0)),
        f.overlay_record ==> undo_plan(f).contains(Undo::RemoveOverlayRecord(f.overlay->0)),
        !f.recorder_running ==> !undo_plan(f).contains(Undo::TerminateRecorder(f.recorder->0)),
        !f.overlay_running ==> !undo_plan(f).contains(Undo::TerminateOverlay(f.overlay->0)),
{
    let plan = undo_plan(f);
    let overlay_steps = match f.overlay {
        Some(o) => when(f.overlay_running, Undo::TerminateOverlay(o)) + when(
            f.overlay_record,
            Undo::RemoveOverlayRecord(o),
        ),
        None => Seq::empty(),
    };
    let recorder_steps = match f.recorder {
        Some(r) => when(f.recorder_running, Undo::TerminateRecorder(r)) + when(
            f.recorder_record,
            Undo::RemoveRecorderRecord(r),
        ) + when(f.recorder_record && !f.published, Undo::RemoveAudio) + when(
            f.published,
            Undo::ClearRuntimeState(r),
        ),
        None => Seq::empty(),
    };
    assert(plan == overlay_steps + recorder_steps);
    if let Some(r) = f.recorder {
        let a = when(f.recorder_running, Undo::TerminateRecorder(r));
        let b = when(f.recorder_record, Undo::RemoveRecorderRecord(r));
        let c = when(f.recorder_record && !f.published, Undo::RemoveAudio);
        let d = when(f.published, Undo::ClearRuntimeState(r));
        assert(recorder_steps == a + b + c + d);
        let o_len = overlay_steps.len();
        if f.recorder_running {
            assert(plan[o_len as int] == Undo::TerminateRecorder(r));
        }
        if f.recorder_record {
            assert(plan[(o_len + a.len()) as int] == Undo::RemoveRecorderRecord(r));
        }
        if f.recorder_record && !f.published {
            assert(plan[(o_len + a.len() + b.len()) as int] == Undo::RemoveAudio);
        }
        if f.published {
            assert(plan[(o_len + a.len() + b.len() + c.len()) as int] == Undo::ClearRuntimeState(r));
        }
        if !f.recorder_running {
            assert forall|k: int| 0 <= k < plan.len() implies plan[k] != Undo::TerminateRecorder(r) by {
                if k >= o_len {
                    assert(plan[k] == recorder_steps[k - o_len]);
                }
            }
        }
    }
    if let Some(o) = f.overlay {
        let a = when(f.overlay_running, Undo::TerminateOverlay(o));
        let b = when(f.overlay_record, Undo::RemoveOverlayRecord(o));
        assert(overlay_steps == a + b);
        if f.overlay_running {
            assert(plan[0] == Undo::TerminateOverlay(o));
        }
        if f.overlay_record {
            assert(plan[a.len() as int] == Undo::RemoveOverlayRecord(o));
        }
        if !f.overlay_running {
            assert forall|k: int| 0 <= k < plan.len() implies plan[k] != Undo::TerminateOverlay(o) by {
                if k < overlay_steps.len() {
                    assert(plan[k] == overlay_steps[k]);
                } else {
                    assert(plan[k] == recorder_steps[k - overlay_steps.len()]);
                }
            }
        }
    }
}

/// How far the start sequence has come; every accepted report raises it.
pub open spec fn start_progress(s: StartStage) -> int {
    match s {
        StartStage::Preparing => 0,
        StartStage::StartingRecorder => 1,
        StartStage::WritingRecorderRecord => 2,
        StartStage::AwaitingRecorder => 3,
        StartStage::PublishingRecording => 4,
        StartStage::StartingOverlay => 5,
        StartStage::WritingOverlayRecord => 6,
        StartStage::AwaitingOverlay => 7,
        StartStage::StartingWatchdog => 8,
        StartStage::Finished => 9,
    }
}

/// Every accepted report moves the start sequence forward; it ends, with
/// the recording running or rolled back, after at most nine reports.
pub proof fn lemma_start_always_ends(m: StartMachine, e: StartEventView)
    requires
        start_accepts(m, e),
    ensures
        start_progress(start_transition(m, e).0.stage) > start_progress(m.stage),
        (start_transition(m, e).1 is Finish || start_transition(m, e).1 is RollBack)
            <==> start_transition(m, e).0.stage == StartStage::Finished,
{
}

/// What holds of every state that the start sequence reaches: its facts
/// are consistent, a recorder whose record is written is announced only
/// after that record, and the overlay is started only for an announced
/// recording.
pub open spec fn start_invariant(m: StartMachine) -> bool {
    &&& start_facts_consistent(m.facts)
    &&& (m.stage == StartStage::Preparing || m.stage == StartStage::StartingRecorder) ==> m.facts
        == start_machine_initial().facts
    &&& (m.stage == StartStage::AwaitingRecorder || m.stage == StartStage::PublishingRecording
        || m.stage == StartStage::StartingOverlay
        || m.stage == StartStage::WritingOverlayRecord || m.stage == StartStage::AwaitingOverlay
        || m.stage == StartStage::StartingWatchdog) ==> m.facts.recorder_record
        && m.facts.recorder_running
    &&& (m.stage == StartStage::StartingOverlay || m.stage == StartStage::WritingOverlayRecord
        || m.stage == StartStage::AwaitingOverlay || m.stage == StartStage::StartingWatchdog)
        ==> m.facts.published
    &&& m.stage == StartStage::WritingRecorderRecord ==> m.facts.recorder_running
        && !m.facts.recorder_record
}

/// The state reached from `m` after the reports `es`.
pub open spec fn start_after(m: StartMachine, es: Seq<StartEventView>) -> StartMachine
    decreases es.len(),
{
    if es.len() == 0 {
        m
    } else {
        start_transition(start_after(m, es.drop_last()), es.last()).0
    }
}

/// Whether every report of `es` was expected when it came.
pub open spec fn start_run_accepted(m: StartMachine, es: Seq<StartEventView>) -> bool
    decreases es.len(),
{
    es.len() == 0 || (start_run_accepted(m, es.drop_last()) && start_accepts(
        start_after(m, es.drop_last()),
        es.last(),
    ))
}

/// Every step keeps the invariant.
pub proof fn lemma_start_invariant_preserved(m: StartMachine, e: StartEventView)
    requires
        start_invariant(m),
        start_accepts(m, e),
    ensures
        start_invariant(start_transition(m, e).0),
{
}

/// Every state of a start sequence satisfies the invariant.
pub proof fn lemma_start_invariant_reachable(es: Seq<StartEventView>)
    requires
        start_run_accepted(start_machine_initial(), es),
    ensures
        start_invariant(start_after(start_machine_initial(), es)),
    decreases es.len(),
{
    if es.len() > 0 {
        lemma_start_invariant_reachable(es.drop_last());
        lemma_start_invariant_preserved(start_after(start_machine_initial(), es.drop_last()), es.last());
    }
}

/// A start that fails at any step leaves nothing behind.  The rollback
/// stops the recorder this call started unless it already exited, removes
/// its record if it was written, removes the audio of an unannounced
/// recording, clears the `recording` state that this call announced, and
/// stops the overlay this call started (unless it already exited) and
/// removes its record; it stops nothing that already exited.
pub proof fn lemma_failed_start_releases_everything(es: Seq<StartEventView>, e: StartEventView)
    requires
        start_run_accepted(start_machine_initial(), es),
        start_accepts(start_after(start_machine_initial(), es), e),
        start_transition(start_after(start_machine_initial(), es), e).1 is RollBack,
    ensures
        ({
            let m = start_after(start_machine_initial(), es);
            let undo = start_transition(m, e).1->RollBack_undo;
            let f = m.facts;
            let recorder_exited = m.stage == StartStage::AwaitingRecorder && e is Exited;
            let overlay_exited = m.stage == StartStage::AwaitingOverlay && e is Exited;
            &&& f.recorder is Some && f.recorder_running && !recorder_exited ==> undo.contains(
                Undo::TerminateRecorder(f.recorder->0),
            )
            &&& f.recorder is Some && recorder_exited ==> !undo.contains(
                Undo::TerminateRecorder(f.recorder->0),
            )
            &&& f.recorder_record ==> undo.contains(Undo::RemoveRecorderRecord(f.recorder->0))
            &&& f.recorder_record && !f.published ==> undo.contains(Undo::RemoveAudio)
            &&& f.published ==> undo.contains(Undo::ClearRuntimeState(f.recorder->0))
            &&& f.overlay is Some && f.overlay_running && !overlay_exited ==> undo.contains(
                Undo::TerminateOverlay(f.overlay->0),
            )
            &&& f.overlay is Some && overlay_exited ==> !undo.contains(
                Undo::TerminateOverlay(f.overlay->0),
            )
            &&& f.overlay_record ==> undo.contains(Undo::RemoveOverlayRecord(f.overlay->0))
        }),
{
    let m = start_after(start_machine_initial(), es);
    lemma_start_invariant_reachable(es);
    lemma_start_invariant_preserved(m, e);
    let next = start_transition(m, e).0;
    assert(start_transition(m, e).1->RollBack_undo == undo_plan(next.facts));
    lemma_rollback_releases_everything(next.facts);
}

} // verus!
