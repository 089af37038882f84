//! Stopping a recording and transcribing it: the recorder is stopped, the
//! audio moves into private recovery files, `codex-asr` transcribes it, the
//! transcript is saved to history before it is copied and pasted, and every
//! way out says what cleanup keeps.
//!
//! The session is a state machine: the executable performs each action and
//! reports what happened; the machine decides what comes next.
use vstd::prelude::*;

use crate::claim_stop::StopContext;
use crate::failure::{Failure, FailureKind, FailureView};
use crate::paste_automation::{PasteCommand, Protocol};
use crate::process_identity::ProcessIdentity;
use crate::session::{
    recovery_audio_for, recovery_failure, recovery_message, recovery_transcript_for,
    source_recovery_failure, source_recovery_message, Paths, RecoveryPaths, SessionCleanup,
    owned_cleanup_list, lemma_owned_cleanup_removes, OwnedCleanup,
};
use crate::settings::{language_args_for, transcriber_language_args};
use crate::text::{
    chars_of, extend_chars, is_text, string_from, trim_trailing_newlines,
    trim_trailing_newlines_spec,
};

verus! {

/// Where the session stands.
#[derive(Debug, Clone, Copy, PartialEq, Eq, Structural)]
pub enum StopStage {
    StoppingRecorder,
    InspectingAudio,
    CheckingCancellation,
    PreparingRecovery,
    LoadingSettings,
    StartingTranscriber,
    WaitingTranscriber,
    ReleasingTranscriber,
    CheckingAsrCancellation,
    ReadingTranscript,
    ClosingOverlay,
    PublishingHistory,
    CopyingToClipboard,
    PreparingPaste,
    StartingPaste,
    WaitingPaste,
    ReleasingPaste,
    RollingBack,
    RollingBackIfCancelled,
    Resolving,
    SecuringSource,
    Finished,
}

/// The part of a compound action that failed.
#[derive(Debug, Clone, Copy, PartialEq, Eq, Structural)]
pub enum StopStep {
    /// Signalling or waiting for the recorder.
    StopRecorder,
    /// Taking the lock after the recorder survived SIGKILL.
    LockAfterFailedStop,
    /// Re-announcing the `recording` state after the recorder survived.
    RestoreRecording,
    /// Taking the lock after the recorder stopped.
    LockAfterStop,
    /// Making the source audio private.
    SecureSource,
    /// Moving the source audio into recovery.
    MoveSource,
    /// Making the recovery audio private.
    SecureRecovery,
    /// Creating the private recovery transcript.
    OpenTranscript,
    SpawnTranscriber,
    IdentifyTranscriber,
    RegisterTranscriber,
    /// Inserting the transcript into history.
    AddHistory,
}

/// What the executable reports after performing an action.
#[derive(Debug, Clone)]
pub enum StopEvent {
    Done,
    Failed(Failure),
    FailedAt(StopStep, Failure),
    /// The recorder survived SIGKILL; the `recording` state was restored and
    /// this session's records were removed.
    RecorderSurvived,
    /// Whether the session was cancelled (or this process interrupted).
    Cancelled(bool),
    /// The size of the recorded audio.
    AudioSize(u64),
    /// The effective transcription language.
    Language(String),
    Started(ProcessIdentity),
    Exited { success: bool, status: String },
    /// What `codex-asr` wrote.
    Transcript(String),
    PasteReady(Protocol),
}

pub enum StopEventView {
    Done,
    Failed(FailureView),
    FailedAt(StopStep, FailureView),
    RecorderSurvived,
    Cancelled(bool),
    AudioSize(u64),
    Language(Seq<char>),
    Started(ProcessIdentity),
    Exited { success: bool, status: Seq<char> },
    Transcript(Seq<char>),
    PasteReady(Protocol),
}

impl View for StopEvent {
    type V = StopEventView;

    open spec fn view(&self) -> StopEventView {
        match self {
            StopEvent::Done => StopEventView::Done,
            StopEvent::Failed(f) => StopEventView::Failed(f@),
            StopEvent::FailedAt(s, f) => StopEventView::FailedAt(*s, f@),
            StopEvent::RecorderSurvived => StopEventView::RecorderSurvived,
            StopEvent::Cancelled(b) => StopEventView::Cancelled(*b),
            StopEvent::AudioSize(n) => StopEventView::AudioSize(*n),
            StopEvent::Language(l) => StopEventView::Language(l@),
            StopEvent::Started(p) => StopEventView::Started(*p),
            StopEvent::Exited { success, status } => StopEventView::Exited {
                success: *success,
                status: status@,
            },
            StopEvent::Transcript(t) => StopEventView::Transcript(t@),
            StopEvent::PasteReady(p) => StopEventView::PasteReady(*p),
        }
    }
}

/// The action that the executable performs next.
#[derive(Debug)]
pub enum StopAction {
    /// Stop the recorder with SIGINT (escalating to SIGKILL).  If it
    /// stopped, release its record under the lock.  If it survived, restore
    /// the `recording` state for it under the lock and drop this session's
    /// owner and session-recorder records.
    StopRecorder(ProcessIdentity),
    /// Read the size of the source audio.
    InspectSourceAudio,
    /// Signal the overlay (if any) that transcription begins, then check
    /// under the lock whether the session was cancelled.
    CheckCancelled { notify_overlay: Option<ProcessIdentity> },
    /// Remove stale recovery files, make the source audio private, move it
    /// into recovery, make that private and create the private recovery
    /// transcript.
    PrepareRecovery,
    /// Load the settings and report the effective language.
    LoadSettings,
    /// Start `codex-asr` with these arguments, writing to the recovery
    /// transcript; identify it and register it for this session.
    StartTranscriber { args: Vec<String> },
    WaitTranscriber(ProcessIdentity),
    /// Release the transcriber record under the lock.
    ReleaseTranscriber(ProcessIdentity),
    /// Read the recovery transcript.
    ReadTranscript,
    /// Stop the overlay so that focus returns to the target window.
    CloseOverlay(ProcessIdentity),
    /// Under the lock: report a cancellation, or insert the transcript into
    /// history; then remove the recovery files.
    PublishHistory { text: String },
    /// Under the lock: report a cancellation, or copy the transcript.
    CopyToClipboard { text: String },
    /// Find ydotool and recognise its protocol; a cancellation during the
    /// inspection is reported as such.
    PreparePaste,
    /// Under the lock: report a cancellation, or announce the paste stage and
    /// start and register the paste process.
    StartPaste(PasteCommand),
    WaitPaste(ProcessIdentity),
    /// Under the lock: release the paste record, report a cancellation, or,
    /// when `complete`, end the session.
    ReleasePaste { identity: ProcessIdentity, complete: bool },
    /// Under the lock, remove the transcript inserted into history.
    RollBackHistory,
    /// Under the lock: if the session was cancelled, remove the transcript
    /// inserted into history and report `Cancelled(true)`.
    RollBackHistoryIfCancelled,
    /// Make the source audio private, ignoring failure.
    SecureSourceAudio,
    /// Run the session cleanup and end with this result.
    Finish { result: Result<u8, Failure>, cleanup: SessionCleanup },
}

pub enum StopActionView {
    StopRecorder(ProcessIdentity),
    InspectSourceAudio,
    CheckCancelled { notify_overlay: Option<ProcessIdentity> },
    PrepareRecovery,
    LoadSettings,
    StartTranscriber { args: Seq<Seq<char>> },
    WaitTranscriber(ProcessIdentity),
    ReleaseTranscriber(ProcessIdentity),
    ReadTranscript,
    CloseOverlay(ProcessIdentity),
    PublishHistory { text: Seq<char> },
    CopyToClipboard { text: Seq<char> },
    PreparePaste,
    StartPaste(PasteCommand),
    WaitPaste(ProcessIdentity),
    ReleasePaste { identity: ProcessIdentity, complete: bool },
    RollBackHistory,
    RollBackHistoryIfCancelled,
    SecureSourceAudio,
    Finish { result: Result<u8, FailureView>, cleanup: SessionCleanup },
}

impl View for StopAction {
    type V = StopActionView;

    open spec fn view(&self) -> StopActionView {
        match self {
            StopAction::StopRecorder(p) => StopActionView::StopRecorder(*p),
            StopAction::InspectSourceAudio => StopActionView::InspectSourceAudio,
            StopAction::CheckCancelled { notify_overlay } => StopActionView::CheckCancelled {
                notify_overlay: *notify_overlay,
            },
            StopAction::PrepareRecovery => StopActionView::PrepareRecovery,
            StopAction::LoadSettings => StopActionView::LoadSettings,
            StopAction::StartTranscriber { args } => StopActionView::StartTranscriber {
                args: args@.map_values(|a: String| a@),
            },
            StopAction::WaitTranscriber(p) => StopActionView::WaitTranscriber(*p),
            StopAction::ReleaseTranscriber(p) => StopActionView::ReleaseTranscriber(*p),
            StopAction::ReadTranscript => StopActionView::ReadTranscript,
            StopAction::CloseOverlay(p) => StopActionView::CloseOverlay(*p),
            StopAction::PublishHistory { text } => StopActionView::PublishHistory { text: text@ },
            StopAction::CopyToClipboard { text } => StopActionView::CopyToClipboard { text: text@ },
            StopAction::PreparePaste => StopActionView::PreparePaste,
            StopAction::StartPaste(p) => StopActionView::StartPaste(*p),
            StopAction::WaitPaste(p) => StopActionView::WaitPaste(*p),
            StopAction::ReleasePaste { identity, complete } => StopActionView::ReleasePaste {
                identity: *identity,
                complete: *complete,
            },
            StopAction::RollBackHistory => StopActionView::RollBackHistory,
            StopAction::RollBackHistoryIfCancelled => StopActionView::RollBackHistoryIfCancelled,
            StopAction::SecureSourceAudio => StopActionView::SecureSourceAudio,
            StopAction::Finish { result, cleanup } => StopActionView::Finish {
                result: match result {
                    Ok(c) => Ok(*c),
                    Err(f) => Err(f@),
                },
                cleanup: *cleanup,
            },
        }
    }
}

/// A transcription session in progress.
#[derive(Debug, Clone)]
pub struct StopMachine {
    pub context: StopContext,
    pub wav: String,
    pub recovery: RecoveryPaths,
    pub cleanup: SessionCleanup,
    pub stage: StopStage,
    /// The failure to report unless the session turns out to be cancelled.
    pub pending: Option<Failure>,
    /// Make the source audio private before reporting `pending`.
    pub secure_on_failure: bool,
    /// A cancellation discards the source audio (rather than the recovery).
    pub discard_source: bool,
    pub asr_success: bool,
    pub asr_status: String,
    pub text: String,
    pub nothing_to_paste: bool,
    pub paste_success: bool,
    pub paste_status: String,
}

pub struct StopMachineView {
    pub context: StopContext,
    pub wav: Seq<char>,
    pub recovery_audio: Seq<char>,
    pub recovery_transcript: Seq<char>,
    pub cleanup: SessionCleanup,
    pub stage: StopStage,
    pub pending: Option<FailureView>,
    pub secure_on_failure: bool,
    pub discard_source: bool,
    pub asr_success: bool,
    pub asr_status: Seq<char>,
    pub text: Seq<char>,
    pub nothing_to_paste: bool,
    pub paste_success: bool,
    pub paste_status: Seq<char>,
}

impl View for StopMachine {
    type V = StopMachineView;

    open spec fn view(&self) -> StopMachineView {
        StopMachineView {
            context: self.context,
            wav: self.wav@,
            recovery_audio: self.recovery.audio@,
            recovery_transcript: self.recovery.transcript@,
            cleanup: self.cleanup,
            stage: self.stage,
            pending: match self.pending {
                Some(f) => Some(f@),
                None => None,
            },
            secure_on_failure: self.secure_on_failure,
            discard_source: self.discard_source,
            asr_success: self.asr_success,
            asr_status: self.asr_status@,
            text: self.text@,
            nothing_to_paste: self.nothing_to_paste,
            paste_success: self.paste_success,
            paste_status: self.paste_status@,
        }
    }
}

// ---------------------------------------------------------------------------
// The transition function
// ---------------------------------------------------------------------------

pub open spec fn finish(m: StopMachineView, result: Result<u8, FailureView>) -> (
    StopMachineView,
    StopActionView,
) {
    (
        StopMachineView { stage: StopStage::Finished, ..m },
        StopActionView::Finish { result, cleanup: m.cleanup },
    )
}

/// A failure before the audio moved into recovery, naming where it is.
pub open spec fn source_failure(m: StopMachineView, context: Seq<char>, e: FailureView) -> FailureView {
    FailureView {
        kind: e.kind,
        message: source_recovery_message(context, e.message, m.wav, m.recovery_transcript),
    }
}

/// A failure after the audio moved into recovery, naming where it is.
pub open spec fn recovery_failure_view(m: StopMachineView, context: Seq<char>, e: FailureView) -> FailureView {
    FailureView {
        kind: e.kind,
        message: recovery_message(context, e.message, m.recovery_audio, m.recovery_transcript),
    }
}

/// A failure that stands unless the session turns out to be cancelled.
pub open spec fn resolve(
    m: StopMachineView,
    failure: FailureView,
    secure: bool,
    discard_source: bool,
) -> (StopMachineView, StopActionView) {
    (
        StopMachineView {
            stage: StopStage::Resolving,
            pending: Some(failure),
            secure_on_failure: secure,
            discard_source,
            ..m
        },
        StopActionView::CheckCancelled { notify_overlay: None },
    )
}

pub open spec fn with_cleanup(m: StopMachineView, c: SessionCleanup) -> StopMachineView {
    StopMachineView { cleanup: c, ..m }
}

/// The cleanup once the audio has moved into recovery: the source is gone
/// and the recovery files are kept unless a later step discards them.
pub open spec fn moved(c: SessionCleanup) -> SessionCleanup {
    SessionCleanup { preserve_source_audio: false, recovery: true, preserve_recovery: true, ..c }
}

pub open spec fn discard_source_audio(c: SessionCleanup) -> SessionCleanup {
    SessionCleanup { preserve_source_audio: false, ..c }
}

pub open spec fn discard_recovery(c: SessionCleanup) -> SessionCleanup {
    SessionCleanup { preserve_recovery: false, ..c }
}

pub open spec fn other(message: Seq<char>) -> FailureView {
    FailureView { kind: FailureKind::Other, message }
}

/// Whether a transcript is worth saving: not empty and not the `...`
/// placeholder.
pub open spec fn is_successful_transcript(text: Seq<char>) -> bool {
    text.len() > 0 && text != "..."@
}

/// The failure after the transcript was saved: it is rolled back only if
/// the session was cancelled meanwhile.
pub open spec fn delivery_failed(m: StopMachineView, e: FailureView) -> (
    StopMachineView,
    StopActionView,
) {
    (
        StopMachineView { stage: StopStage::RollingBackIfCancelled, pending: Some(e), ..m },
        StopActionView::RollBackHistoryIfCancelled,
    )
}

pub open spec fn delivery_cancelled(m: StopMachineView) -> (StopMachineView, StopActionView) {
    (StopMachineView { stage: StopStage::RollingBack, ..m }, StopActionView::RollBackHistory)
}

/// Which reports each stage expects.
pub open spec fn stop_accepts(m: StopMachineView, e: StopEventView) -> bool {
    match m.stage {
        StopStage::StoppingRecorder => e is Done || e is RecorderSurvived || (e is FailedAt
            && (e->FailedAt_0 == StopStep::StopRecorder || e->FailedAt_0
            == StopStep::LockAfterFailedStop || e->FailedAt_0 == StopStep::RestoreRecording
            || e->FailedAt_0 == StopStep::LockAfterStop)),
        StopStage::InspectingAudio => e is AudioSize || e is Failed,
        StopStage::CheckingCancellation | StopStage::CheckingAsrCancellation => e is Cancelled
            || e is Failed,
        StopStage::Resolving => (e is Cancelled || e is Failed) && m.pending is Some,
        StopStage::PreparingRecovery => e is Done || (e is FailedAt && (e->FailedAt_0
            == StopStep::SecureSource || e->FailedAt_0 == StopStep::MoveSource || e->FailedAt_0
            == StopStep::SecureRecovery || e->FailedAt_0 == StopStep::OpenTranscript)),
        StopStage::LoadingSettings => e is Language || e is Failed,
        StopStage::StartingTranscriber => e is Started || (e is FailedAt && (e->FailedAt_0
            == StopStep::SpawnTranscriber || e->FailedAt_0 == StopStep::IdentifyTranscriber
            || e->FailedAt_0 == StopStep::RegisterTranscriber)),
        StopStage::WaitingTranscriber => (e is Exited || e is Failed) && m.cleanup.transcriber is Some,
        StopStage::ReleasingTranscriber => e is Done || e is Failed,
        StopStage::ReadingTranscript => e is Transcript || e is Failed,
        StopStage::ClosingOverlay | StopStage::RollingBack => e is Done
            || e is Failed,
        StopStage::PublishingHistory => e is Done || e is Failed || e == StopEventView::Cancelled(
            true,
        ) || (e is FailedAt && e->FailedAt_0 == StopStep::AddHistory),
        StopStage::CopyingToClipboard => e is Done || e is Failed || e == StopEventView::Cancelled(
            true,
        ),
        StopStage::PreparingPaste => e is PasteReady || e is Failed || e == StopEventView::Cancelled(
            true,
        ),
        StopStage::StartingPaste => e is Started || e is Failed || e == StopEventView::Cancelled(
            true,
        ),
        StopStage::WaitingPaste => (e is Exited || e is Failed) && m.cleanup.typing is Some,
        StopStage::ReleasingPaste => e is Done || e is Failed || e == StopEventView::Cancelled(true),
        StopStage::RollingBackIfCancelled => (e is Cancelled || e is Failed) && m.pending is Some,
        StopStage::SecuringSource => (e is Done || e is Failed) && m.pending is Some,
        StopStage::Finished => false,
    }
}

/// The transcription session, report by report.
pub open spec fn stop_transition(m: StopMachineView, e: StopEventView) -> (
    StopMachineView,
    StopActionView,
) {
    let c = m.cleanup;
    match m.stage {
        StopStage::StoppingRecorder => match e {
            StopEventView::Done => (
                StopMachineView { stage: StopStage::InspectingAudio, ..m },
                StopActionView::InspectSourceAudio,
            ),
            StopEventView::RecorderSurvived => finish(
                m,
                Err(
                    source_failure(
                        m,
                        "audio recorder did not terminate after SIGKILL; tracking was preserved"@,
                        other("recorder remains active"@),
                    ),
                ),
            ),
            StopEventView::FailedAt(step, err) => {
                let context = if step == StopStep::StopRecorder {
                    "could not stop audio recorder"@
                } else if step == StopStep::LockAfterFailedStop {
                    "could not lock session after audio recorder termination failure"@
                } else if step == StopStep::RestoreRecording {
                    "could not restore recording state"@
                } else {
                    "could not lock session after stopping audio recorder"@
                };
                resolve(m, source_failure(m, context, err), true, true)
            },
            _ => (m, StopActionView::InspectSourceAudio),
        },
        StopStage::InspectingAudio => match e {
            StopEventView::AudioSize(n) => if n == 0 {
                finish(with_cleanup(m, discard_source_audio(c)), Ok(1))
            } else {
                (
                    StopMachineView { stage: StopStage::CheckingCancellation, ..m },
                    StopActionView::CheckCancelled { notify_overlay: m.context.overlay },
                )
            },
            StopEventView::Failed(err) => if err.kind == FailureKind::NotFound {
                finish(with_cleanup(m, discard_source_audio(c)), Ok(1))
            } else {
                resolve(
                    m,
                    source_failure(m, "could not inspect recorded source audio"@, err),
                    true,
                    true,
                )
            },
            _ => (m, StopActionView::InspectSourceAudio),
        },
        StopStage::CheckingCancellation => match e {
            StopEventView::Cancelled(true) => finish(with_cleanup(m, discard_source_audio(c)), Ok(0)),
            StopEventView::Failed(err) => finish(
                m,
                Err(source_failure(m, "could not check cancellation before ASR recovery setup"@, err)),
            ),
            _ => (
                StopMachineView { stage: StopStage::PreparingRecovery, ..m },
                StopActionView::PrepareRecovery,
            ),
        },
        StopStage::PreparingRecovery => match e {
            StopEventView::FailedAt(step, err) => if step == StopStep::SecureSource {
                resolve(
                    m,
                    source_failure(m, "could not secure source audio for ASR recovery"@, err),
                    true,
                    true,
                )
            } else if step == StopStep::MoveSource {
                resolve(
                    m,
                    source_failure(m, "could not move source audio into ASR recovery"@, err),
                    false,
                    true,
                )
            } else if step == StopStep::SecureRecovery {
                resolve(
                    with_cleanup(m, moved(c)),
                    recovery_failure_view(m, "could not secure ASR recovery audio"@, err),
                    false,
                    false,
                )
            } else {
                resolve(
                    with_cleanup(m, moved(c)),
                    recovery_failure_view(m, "could not create ASR recovery transcript"@, err),
                    false,
                    false,
                )
            },
            _ => (
                StopMachineView { stage: StopStage::LoadingSettings, cleanup: moved(c), ..m },
                StopActionView::LoadSettings,
            ),
        },
        StopStage::LoadingSettings => match e {
            StopEventView::Language(language) => (
                StopMachineView { stage: StopStage::StartingTranscriber, ..m },
                StopActionView::StartTranscriber {
                    args: seq![m.recovery_audio] + language_args_for(language),
                },
            ),
            StopEventView::Failed(err) => finish(
                m,
                Err(recovery_failure_view(m, "could not load ASR settings"@, err)),
            ),
            _ => (m, StopActionView::LoadSettings),
        },
        StopStage::StartingTranscriber => match e {
            StopEventView::Started(t) => (
                StopMachineView {
                    stage: StopStage::WaitingTranscriber,
                    cleanup: SessionCleanup { transcriber: Some(t), ..c },
                    ..m
                },
                StopActionView::WaitTranscriber(t),
            ),
            StopEventView::FailedAt(step, err) => if step == StopStep::SpawnTranscriber {
                finish(m, Err(recovery_failure_view(m, "could not start codex-asr"@, err)))
            } else if step == StopStep::IdentifyTranscriber {
                finish(
                    m,
                    Err(recovery_failure_view(m, "codex-asr process identification failed"@, err)),
                )
            } else if err.kind == FailureKind::Interrupted {
                finish(with_cleanup(m, discard_recovery(c)), Ok(0))
            } else {
                finish(m, Err(recovery_failure_view(m, "could not register codex-asr"@, err)))
            },
            _ => (m, StopActionView::LoadSettings),
        },
        StopStage::WaitingTranscriber => match e {
            StopEventView::Exited { success, status } => (
                StopMachineView {
                    stage: StopStage::ReleasingTranscriber,
                    asr_success: success,
                    asr_status: status,
                    ..m
                },
                StopActionView::ReleaseTranscriber(c.transcriber->0),
            ),
            StopEventView::Failed(err) => resolve(
                m,
                recovery_failure_view(m, "codex-asr wait failed"@, err),
                false,
                false,
            ),
            _ => (m, StopActionView::ReadTranscript),
        },
        StopStage::ReleasingTranscriber => match e {
            StopEventView::Failed(err) => finish(m, Err(err)),
            _ => (
                StopMachineView {
                    stage: StopStage::CheckingAsrCancellation,
                    cleanup: SessionCleanup { transcriber: None, ..c },
                    ..m
                },
                StopActionView::CheckCancelled { notify_overlay: None },
            ),
        },
        StopStage::CheckingAsrCancellation => match e {
            StopEventView::Cancelled(true) => finish(with_cleanup(m, discard_recovery(c)), Ok(0)),
            StopEventView::Failed(err) => finish(m, Err(err)),
            _ => if !m.asr_success {
                finish(
                    m,
                    Err(
                        recovery_failure_view(
                            m,
                            "codex-asr failed"@,
                            other("exited with "@ + m.asr_status),
                        ),
                    ),
                )
            } else {
                (
                    StopMachineView { stage: StopStage::ReadingTranscript, ..m },
                    StopActionView::ReadTranscript,
                )
            },
        },
        StopStage::ReadingTranscript => match e {
            StopEventView::Transcript(raw) => {
                let text = trim_trailing_newlines_spec(raw);
                let nothing = !is_successful_transcript(text);
                let c2 = if nothing {
                    discard_recovery(c)
                } else {
                    c
                };
                let m2 = StopMachineView { text, nothing_to_paste: nothing, cleanup: c2, ..m };
                match m.context.overlay {
                    Some(o) => (
                        StopMachineView { stage: StopStage::ClosingOverlay, ..m2 },
                        StopActionView::CloseOverlay(o),
                    ),
                    None => if nothing {
                        finish(m2, Ok(1))
                    } else {
                        (
                            StopMachineView { stage: StopStage::PublishingHistory, ..m2 },
                            StopActionView::PublishHistory { text },
                        )
                    },
                }
            },
            StopEventView::Failed(err) => finish(m, Err(err)),
            _ => (m, StopActionView::ReadTranscript),
        },
        StopStage::ClosingOverlay => match e {
            StopEventView::Failed(err) => finish(m, Err(err)),
            _ => if m.nothing_to_paste {
                finish(m, Ok(1))
            } else {
                (
                    StopMachineView { stage: StopStage::PublishingHistory, ..m },
                    StopActionView::PublishHistory { text: m.text },
                )
            },
        },
        StopStage::PublishingHistory => match e {
            StopEventView::Cancelled(true) => finish(with_cleanup(m, discard_recovery(c)), Ok(0)),
            StopEventView::Failed(err) => finish(m, Err(err)),
            StopEventView::FailedAt(_, err) => finish(
                m,
                Err(recovery_failure_view(m, "could not persist transcript history"@, err)),
            ),
            _ => (
                StopMachineView {
                    stage: StopStage::CopyingToClipboard,
                    cleanup: discard_recovery(c),
                    ..m
                },
                StopActionView::CopyToClipboard { text: m.text },
            ),
        },
        StopStage::CopyingToClipboard => match e {
            StopEventView::Cancelled(true) => delivery_cancelled(m),
            StopEventView::Failed(err) => delivery_failed(m, err),
            _ => (
                StopMachineView { stage: StopStage::PreparingPaste, ..m },
                StopActionView::PreparePaste,
            ),
        },
        StopStage::PreparingPaste => match e {
            StopEventView::Cancelled(true) => delivery_cancelled(m),
            StopEventView::Failed(err) => delivery_failed(m, err),
            StopEventView::PasteReady(p) => (
                StopMachineView { stage: StopStage::StartingPaste, ..m },
                StopActionView::StartPaste(PasteCommand { protocol: p }),
            ),
            _ => (m, StopActionView::PreparePaste),
        },
        StopStage::StartingPaste => match e {
            StopEventView::Cancelled(true) => delivery_cancelled(m),
            StopEventView::Failed(err) => delivery_failed(m, err),
            StopEventView::Started(t) => (
                StopMachineView {
                    stage: StopStage::WaitingPaste,
                    cleanup: SessionCleanup { typing: Some(t), ..c },
                    ..m
                },
                StopActionView::WaitPaste(t),
            ),
            _ => (m, StopActionView::PreparePaste),
        },
        StopStage::WaitingPaste => match e {
            StopEventView::Exited { success, status } => (
                StopMachineView {
                    stage: StopStage::ReleasingPaste,
                    paste_success: success,
                    paste_status: status,
                    ..m
                },
                StopActionView::ReleasePaste { identity: c.typing->0, complete: success },
            ),
            StopEventView::Failed(err) => delivery_failed(m, err),
            _ => (m, StopActionView::PreparePaste),
        },
        StopStage::ReleasingPaste => match e {
            StopEventView::Failed(err) => delivery_failed(m, err),
            StopEventView::Cancelled(true) => delivery_cancelled(
                with_cleanup(m, SessionCleanup { typing: None, ..c }),
            ),
            _ => {
                let m2 = with_cleanup(m, SessionCleanup { typing: None, ..c });
                if m.paste_success {
                    finish(m2, Ok(0))
                } else {
                    delivery_failed(m2, other("clipboard paste command exited with "@ + m.paste_status))
                }
            },
        },
        StopStage::RollingBack => match e {
            StopEventView::Failed(err) => finish(m, Err(err)),
            _ => finish(m, Ok(0)),
        },
        StopStage::RollingBackIfCancelled => match e {
            StopEventView::Cancelled(true) => finish(m, Ok(0)),
            StopEventView::Failed(err) => finish(m, Err(err)),
            _ => finish(m, Err(m.pending->0)),
        },
        StopStage::Resolving => match e {
            StopEventView::Cancelled(true) => finish(
                with_cleanup(
                    m,
                    if m.discard_source {
                        discard_source_audio(c)
                    } else {
                        discard_recovery(c)
                    },
                ),
                Ok(0),
            ),
            _ => if m.secure_on_failure {
                (
                    StopMachineView { stage: StopStage::SecuringSource, ..m },
                    StopActionView::SecureSourceAudio,
                )
            } else {
                finish(m, Err(m.pending->0))
            },
        },
        StopStage::SecuringSource => finish(m, Err(m.pending->0)),
        StopStage::Finished => (m, StopActionView::ReadTranscript),
    }
}

/// A fresh session for a claimed recording.
pub open spec fn stop_initial(context: StopContext, paths: Paths) -> StopMachineView {
    StopMachineView {
        context,
        wav: paths.wav@,
        recovery_audio: recovery_audio_for(paths.directory@, context.owner),
        recovery_transcript: recovery_transcript_for(paths.directory@, context.owner),
        cleanup: SessionCleanup {
            owner: context.owner,
            overlay: context.overlay,
            transcriber: None,
            typing: None,
            recovery: false,
            preserve_source_audio: true,
            preserve_recovery: false,
        },
        stage: StopStage::StoppingRecorder,
        pending: None,
        secure_on_failure: false,
        discard_source: false,
        asr_success: false,
        asr_status: Seq::empty(),
        text: Seq::empty(),
        nothing_to_paste: false,
        paste_success: false,
        paste_status: Seq::empty(),
    }
}

// ---------------------------------------------------------------------------
// The executable machine
// ---------------------------------------------------------------------------

pub open spec fn result_view(r: Result<u8, Failure>) -> Result<u8, FailureView> {
    match r {
        Ok(c) => Ok(c),
        Err(f) => Err(f@),
    }
}

fn other_failure(text: &Vec<char>) -> (f: Failure)
    ensures
        f@ == other(text@),
{
    Failure::with_text(FailureKind::Other, text)
}

fn prefixed(prefix: &str, rest: &String) -> (out: Vec<char>)
    ensures
        out@ == prefix@ + rest@,
{
    let mut text = chars_of(prefix);
    extend_chars(&mut text, &chars_of(rest.as_str()));
    text
}

impl StopMachine {
    /// A fresh session for a claimed recording, and its first action: stop
    /// the recorder.
    pub fn new(context: StopContext, paths: &Paths) -> (r: (StopMachine, StopAction))
        ensures
            r.0@ == stop_initial(context, *paths),
            r.1@ == StopActionView::StopRecorder(context.recorder),
    {
        let recovery = RecoveryPaths::for_session(paths, context.owner);
        let m = StopMachine {
            context,
            wav: paths.wav.clone(),
            recovery,
            cleanup: SessionCleanup::new(context.owner, context.overlay),
            stage: StopStage::StoppingRecorder,
            pending: None,
            secure_on_failure: false,
            discard_source: false,
            asr_success: false,
            asr_status: String::new(),
            text: String::new(),
            nothing_to_paste: false,
            paste_success: false,
            paste_status: String::new(),
        };
        (m, StopAction::StopRecorder(context.recorder))
    }

    fn finish_with(&mut self, result: Result<u8, Failure>) -> (a: StopAction)
        ensures
            (final(self)@, a@) == finish(old(self)@, result_view(result)),
    {
        self.stage = StopStage::Finished;
        StopAction::Finish { result, cleanup: self.cleanup }
    }

    fn resolve_with(&mut self, failure: Failure, secure: bool, discard_source: bool) -> (a:
        StopAction)
        ensures
            (final(self)@, a@) == resolve(old(self)@, failure@, secure, discard_source),
    {
        self.stage = StopStage::Resolving;
        self.pending = Some(failure);
        self.secure_on_failure = secure;
        self.discard_source = discard_source;
        StopAction::CheckCancelled { notify_overlay: None }
    }

    fn source_fail(&self, context: &str, err: &Failure) -> (f: Failure)
        ensures
            f@ == source_failure(self@, context@, err@),
    {
        source_recovery_failure(context, err, self.wav.as_str(), self.recovery.transcript.as_str())
    }

    fn recovery_fail(&self, context: &str, err: &Failure) -> (f: Failure)
        ensures
            f@ == recovery_failure_view(self@, context@, err@),
    {
        recovery_failure(context, err, &self.recovery)
    }

    fn delivery_fail(&mut self, err: Failure) -> (a: StopAction)
        ensures
            (final(self)@, a@) == delivery_failed(old(self)@, err@),
    {
        self.stage = StopStage::RollingBackIfCancelled;
        self.pending = Some(err);
        StopAction::RollBackHistoryIfCancelled
    }

    fn delivery_cancel(&mut self) -> (a: StopAction)
        ensures
            (final(self)@, a@) == delivery_cancelled(old(self)@),
    {
        self.stage = StopStage::RollingBack;
        StopAction::RollBackHistory
    }

    /// Whether the current action expects this report.
    pub fn accepts(&self, e: &StopEvent) -> (r: bool)
        ensures
            r == stop_accepts(self@, e@),
    {
        match self.stage {
            StopStage::StoppingRecorder => match e {
                StopEvent::Done | StopEvent::RecorderSurvived => true,
                StopEvent::FailedAt(step, _) => *step == StopStep::StopRecorder || *step
                    == StopStep::LockAfterFailedStop || *step == StopStep::RestoreRecording
                    || *step == StopStep::LockAfterStop,
                _ => false,
            },
            StopStage::InspectingAudio => matches!(e, StopEvent::AudioSize(_) | StopEvent::Failed(_)),
            StopStage::CheckingCancellation | StopStage::CheckingAsrCancellation => matches!(
                e,
                StopEvent::Cancelled(_) | StopEvent::Failed(_)
            ),
            StopStage::Resolving => matches!(e, StopEvent::Cancelled(_) | StopEvent::Failed(_))
                && self.pending.is_some(),
            StopStage::PreparingRecovery => match e {
                StopEvent::Done => true,
                StopEvent::FailedAt(step, _) => *step == StopStep::SecureSource || *step
                    == StopStep::MoveSource || *step == StopStep::SecureRecovery || *step
                    == StopStep::OpenTranscript,
                _ => false,
            },
            StopStage::LoadingSettings => matches!(e, StopEvent::Language(_) | StopEvent::Failed(_)),
            StopStage::StartingTranscriber => match e {
                StopEvent::Started(_) => true,
                StopEvent::FailedAt(step, _) => *step == StopStep::SpawnTranscriber || *step
                    == StopStep::IdentifyTranscriber || *step == StopStep::RegisterTranscriber,
                _ => false,
            },
            StopStage::WaitingTranscriber => matches!(
                e,
                StopEvent::Exited { .. } | StopEvent::Failed(_)
            ) && self.cleanup.transcriber.is_some(),
            StopStage::ReleasingTranscriber => matches!(e, StopEvent::Done | StopEvent::Failed(_)),
            StopStage::ReadingTranscript => matches!(
                e,
                StopEvent::Transcript(_) | StopEvent::Failed(_)
            ),
            StopStage::ClosingOverlay | StopStage::RollingBack => matches!(
                e,
                StopEvent::Done | StopEvent::Failed(_)
            ),
            StopStage::PublishingHistory => match e {
                StopEvent::Done | StopEvent::Failed(_) | StopEvent::Cancelled(true) => true,
                StopEvent::FailedAt(step, _) => *step == StopStep::AddHistory,
                _ => false,
            },
            StopStage::CopyingToClipboard => matches!(
                e,
                StopEvent::Done | StopEvent::Failed(_) | StopEvent::Cancelled(true)
            ),
            StopStage::PreparingPaste => matches!(
                e,
                StopEvent::PasteReady(_) | StopEvent::Failed(_) | StopEvent::Cancelled(true)
            ),
            StopStage::StartingPaste => matches!(
                e,
                StopEvent::Started(_) | StopEvent::Failed(_) | StopEvent::Cancelled(true)
            ),
            StopStage::WaitingPaste => matches!(e, StopEvent::Exited { .. } | StopEvent::Failed(_))
                && self.cleanup.typing.is_some(),
            StopStage::ReleasingPaste => matches!(
                e,
                StopEvent::Done | StopEvent::Failed(_) | StopEvent::Cancelled(true)
            ),
            StopStage::RollingBackIfCancelled => matches!(
                e,
                StopEvent::Cancelled(_) | StopEvent::Failed(_)
            ) && self.pending.is_some(),
            StopStage::SecuringSource => matches!(e, StopEvent::Done | StopEvent::Failed(_))
                && self.pending.is_some(),
            StopStage::Finished => false,
        }
    }

    /// Takes the report of the last action and gives the next action.
    pub fn step(&mut self, e: StopEvent) -> (a: StopAction)
        requires
            stop_accepts(old(self)@, e@),
        ensures
            (final(self)@, a@) == stop_transition(old(self)@, e@),
    {
        match self.stage {
            StopStage::StoppingRecorder => self.on_stopping_recorder(e),
            StopStage::InspectingAudio => self.on_inspecting_audio(e),
            StopStage::CheckingCancellation => self.on_checking_cancellation(e),
            StopStage::PreparingRecovery => self.on_preparing_recovery(e),
            StopStage::LoadingSettings => self.on_loading_settings(e),
            StopStage::StartingTranscriber => self.on_starting_transcriber(e),
            StopStage::WaitingTranscriber => self.on_waiting_transcriber(e),
            StopStage::ReleasingTranscriber => self.on_releasing_transcriber(e),
            StopStage::CheckingAsrCancellation => self.on_checking_asr_cancellation(e),
            StopStage::ReadingTranscript => self.on_reading_transcript(e),
            StopStage::ClosingOverlay => self.on_closing_overlay(e),
            StopStage::PublishingHistory => self.on_publishing_history(e),
            StopStage::CopyingToClipboard => self.on_copying_to_clipboard(e),
            StopStage::PreparingPaste => self.on_preparing_paste(e),
            StopStage::StartingPaste => self.on_starting_paste(e),
            StopStage::WaitingPaste => self.on_waiting_paste(e),
            StopStage::ReleasingPaste => self.on_releasing_paste(e),
            StopStage::RollingBack => self.on_rolling_back(e),
            StopStage::RollingBackIfCancelled => self.on_rolling_back_if_cancelled(e),
            StopStage::Resolving => self.on_resolving(e),
            StopStage::SecuringSource => self.on_securing_source(e),
            StopStage::Finished => self.on_finished(e),
        }
    }

    fn on_stopping_recorder(&mut self, e: StopEvent) -> (a: StopAction)
        requires
            old(self).stage == StopStage::StoppingRecorder,
            stop_accepts(old(self)@, e@),
        ensures
            (final(self)@, a@) == stop_transition(old(self)@, e@),
    {
        match e {
            StopEvent::Done => {
                self.stage = StopStage::InspectingAudio;
                StopAction::InspectSourceAudio
            },
            StopEvent::RecorderSurvived => {
                let err = Failure::new(FailureKind::Other, "recorder remains active");
                let f = self.source_fail(
                    "audio recorder did not terminate after SIGKILL; tracking was preserved",
                    &err,
                );
                self.finish_with(Err(f))
            },
            StopEvent::FailedAt(step, err) => {
                let f = if step == StopStep::StopRecorder {
                    self.source_fail("could not stop audio recorder", &err)
                } else if step == StopStep::LockAfterFailedStop {
                    self.source_fail(
                        "could not lock session after audio recorder termination failure",
                        &err,
                    )
                } else if step == StopStep::RestoreRecording {
                    self.source_fail("could not restore recording state", &err)
                } else {
                    self.source_fail("could not lock session after stopping audio recorder", &err)
                };
                self.resolve_with(f, true, true)
            },
            _ => StopAction::InspectSourceAudio,
        }
    }

    fn on_inspecting_audio(&mut self, e: StopEvent) -> (a: StopAction)
        requires
            old(self).stage == StopStage::InspectingAudio,
            stop_accepts(old(self)@, e@),
        ensures
            (final(self)@, a@) == stop_transition(old(self)@, e@),
    {
        match e {
            StopEvent::AudioSize(n) => {
                if n == 0 {
                    self.cleanup.preserve_source_audio = false;
                    self.finish_with(Ok(1))
                } else {
                    self.stage = StopStage::CheckingCancellation;
                    StopAction::CheckCancelled { notify_overlay: self.context.overlay }
                }
            },
            StopEvent::Failed(err) => {
                if err.kind == FailureKind::NotFound {
                    self.cleanup.preserve_source_audio = false;
                    self.finish_with(Ok(1))
                } else {
                    let f = self.source_fail("could not inspect recorded source audio", &err);
                    self.resolve_with(f, true, true)
                }
            },
            _ => StopAction::InspectSourceAudio,
        }
    }

    fn on_checking_cancellation(&mut self, e: StopEvent) -> (a: StopAction)
        requires
            old(self).stage == StopStage::CheckingCancellation,
            stop_accepts(old(self)@, e@),
        ensures
            (final(self)@, a@) == stop_transition(old(self)@, e@),
    {
        match e {
            StopEvent::Cancelled(true) => {
                self.cleanup.preserve_source_audio = false;
                self.finish_with(Ok(0))
            },
            StopEvent::Failed(err) => {
                let f = self.source_fail(
                    "could not check cancellation before ASR recovery setup",
                    &err,
                );
                self.finish_with(Err(f))
            },
            _ => {
                self.stage = StopStage::PreparingRecovery;
                StopAction::PrepareRecovery
            },
        }
    }

    fn on_preparing_recovery(&mut self, e: StopEvent) -> (a: StopAction)
        requires
            old(self).stage == StopStage::PreparingRecovery,
            stop_accepts(old(self)@, e@),
        ensures
            (final(self)@, a@) == stop_transition(old(self)@, e@),
    {
        let c = self.cleanup;
        match e {
            StopEvent::FailedAt(step, err) => {
                if step == StopStep::SecureSource {
                    let f = self.source_fail("could not secure source audio for ASR recovery", &err);
                    self.resolve_with(f, true, true)
                } else if step == StopStep::MoveSource {
                    let f = self.source_fail("could not move source audio into ASR recovery", &err);
                    self.resolve_with(f, false, true)
                } else if step == StopStep::SecureRecovery {
                    let f = self.recovery_fail("could not secure ASR recovery audio", &err);
                    self.cleanup = SessionCleanup {
                        preserve_source_audio: false,
                        recovery: true,
                        preserve_recovery: true,
                        ..c
                    };
                    self.resolve_with(f, false, false)
                } else {
                    let f = self.recovery_fail("could not create ASR recovery transcript", &err);
                    self.cleanup = SessionCleanup {
                        preserve_source_audio: false,
                        recovery: true,
                        preserve_recovery: true,
                        ..c
                    };
                    self.resolve_with(f, false, false)
                }
            },
            _ => {
                self.stage = StopStage::LoadingSettings;
                self.cleanup = SessionCleanup {
                    preserve_source_audio: false,
                    recovery: true,
                    preserve_recovery: true,
                    ..c
                };
                StopAction::LoadSettings
            },
        }
    }

    fn on_loading_settings(&mut self, e: StopEvent) -> (a: StopAction)
        requires
            old(self).stage == StopStage::LoadingSettings,
            stop_accepts(old(self)@, e@),
        ensures
            (final(self)@, a@) == stop_transition(old(self)@, e@),
    {
        match e {
            StopEvent::Language(language) => {
                let mut args: Vec<String> = Vec::new();
                args.push(self.recovery.audio.clone());
                let mut rest = transcriber_language_args(language.as_str());
                let ghost first = args@;
                let ghost second = rest@;
                args.append(&mut rest);
                assert(args@.map_values(|a: String| a@) =~= seq![self.recovery.audio@]
                    + second.map_values(|a: String| a@));
                self.stage = StopStage::StartingTranscriber;
                StopAction::StartTranscriber { args }
            },
            StopEvent::Failed(err) => {
                let f = self.recovery_fail("could not load ASR settings", &err);
                self.finish_with(Err(f))
            },
            _ => StopAction::LoadSettings,
        }
    }

    fn on_starting_transcriber(&mut self, e: StopEvent) -> (a: StopAction)
        requires
            old(self).stage == StopStage::StartingTranscriber,
            stop_accepts(old(self)@, e@),
        ensures
            (final(self)@, a@) == stop_transition(old(self)@, e@),
    {
        let c = self.cleanup;
        match e {
            StopEvent::Started(t) => {
                self.stage = StopStage::WaitingTranscriber;
                self.cleanup = SessionCleanup { transcriber: Some(t), ..c };
                StopAction::WaitTranscriber(t)
            },
            StopEvent::FailedAt(step, err) => {
                if step == StopStep::SpawnTranscriber {
                    let f = self.recovery_fail("could not start codex-asr", &err);
                    self.finish_with(Err(f))
                } else if step == StopStep::IdentifyTranscriber {
                    let f = self.recovery_fail("codex-asr process identification failed", &err);
                    self.finish_with(Err(f))
                } else if err.kind == FailureKind::Interrupted {
                    self.cleanup.preserve_recovery = false;
                    self.finish_with(Ok(0))
                } else {
                    let f = self.recovery_fail("could not register codex-asr", &err);
                    self.finish_with(Err(f))
                }
            },
            _ => StopAction::LoadSettings,
        }
    }

    fn on_waiting_transcriber(&mut self, e: StopEvent) -> (a: StopAction)
        requires
            old(self).stage == StopStage::WaitingTranscriber,
            stop_accepts(old(self)@, e@),
        ensures
            (final(self)@, a@) == stop_transition(old(self)@, e@),
    {
        let c = self.cleanup;
        match e {
            StopEvent::Exited { success, status } => {
                self.stage = StopStage::ReleasingTranscriber;
                self.asr_success = success;
                self.asr_status = status;
                StopAction::ReleaseTranscriber(c.transcriber.unwrap())
            },
            StopEvent::Failed(err) => {
                let f = self.recovery_fail("codex-asr wait failed", &err);
                self.resolve_with(f, false, false)
            },
            _ => StopAction::ReadTranscript,
        }
    }

    fn on_releasing_transcriber(&mut self, e: StopEvent) -> (a: StopAction)
        requires
            old(self).stage == StopStage::ReleasingTranscriber,
            stop_accepts(old(self)@, e@),
        ensures
            (final(self)@, a@) == stop_transition(old(self)@, e@),
    {
        let c = self.cleanup;
        match e {
            StopEvent::Failed(err) => self.finish_with(Err(err)),
            _ => {
                self.stage = StopStage::CheckingAsrCancellation;
                self.cleanup = SessionCleanup { transcriber: None, ..c };
                StopAction::CheckCancelled { notify_overlay: None }
            },
        }
    }

    fn on_checking_asr_cancellation(&mut self, e: StopEvent) -> (a: StopAction)
        requires
            old(self).stage == StopStage::CheckingAsrCancellation,
            stop_accepts(old(self)@, e@),
        ensures
            (final(self)@, a@) == stop_transition(old(self)@, e@),
    {
        match e {
            StopEvent::Cancelled(true) => {
                self.cleanup.preserve_recovery = false;
                self.finish_with(Ok(0))
            },
            StopEvent::Failed(err) => self.finish_with(Err(err)),
            _ => {
                if !self.asr_success {
                    let detail = other_failure(&prefixed("exited with ", &self.asr_status));
                    let f = self.recovery_fail("codex-asr failed", &detail);
                    self.finish_with(Err(f))
                } else {
                    self.stage = StopStage::ReadingTranscript;
                    StopAction::ReadTranscript
                }
            },
        }
    }

    fn on_reading_transcript(&mut self, e: StopEvent) -> (a: StopAction)
        requires
            old(self).stage == StopStage::ReadingTranscript,
            stop_accepts(old(self)@, e@),
        ensures
            (final(self)@, a@) == stop_transition(old(self)@, e@),
    {
        match e {
            StopEvent::Transcript(raw) => {
                let mut chars = chars_of(raw.as_str());
                trim_trailing_newlines(&mut chars);
                let nothing = chars.len() == 0 || is_text(&chars, "...");
                let text = string_from(&chars);
                if nothing {
                    self.cleanup.preserve_recovery = false;
                }
                self.nothing_to_paste = nothing;
                match self.context.overlay {
                    Some(o) => {
                        self.text = text;
                        self.stage = StopStage::ClosingOverlay;
                        StopAction::CloseOverlay(o)
                    },
                    None => {
                        if nothing {
                            self.text = text;
                            self.finish_with(Ok(1))
                        } else {
                            self.text = text.clone();
                            self.stage = StopStage::PublishingHistory;
                            StopAction::PublishHistory { text }
                        }
                    },
                }
            },
            StopEvent::Failed(err) => self.finish_with(Err(err)),
            _ => StopAction::ReadTranscript,
        }
    }

    fn on_closing_overlay(&mut self, e: StopEvent) -> (a: StopAction)
        requires
            old(self).stage == StopStage::ClosingOverlay,
            stop_accepts(old(self)@, e@),
        ensures
            (final(self)@, a@) == stop_transition(old(self)@, e@),
    {
        match e {
            StopEvent::Failed(err) => self.finish_with(Err(err)),
            _ => {
                if self.nothing_to_paste {
                    self.finish_with(Ok(1))
                } else {
                    self.stage = StopStage::PublishingHistory;
                    StopAction::PublishHistory { text: self.text.clone() }
                }
            },
        }
    }

    fn on_publishing_history(&mut self, e: StopEvent) -> (a: StopAction)
        requires
            old(self).stage == StopStage::PublishingHistory,
            stop_accepts(old(self)@, e@),
        ensures
            (final(self)@, a@) == stop_transition(old(self)@, e@),
    {
        match e {
            StopEvent::Cancelled(true) => {
                self.cleanup.preserve_recovery = false;
                self.finish_with(Ok(0))
            },
            StopEvent::Failed(err) => self.finish_with(Err(err)),
            StopEvent::FailedAt(_, err) => {
                let f = self.recovery_fail("could not persist transcript history", &err);
                self.finish_with(Err(f))
            },
            _ => {
                self.stage = StopStage::CopyingToClipboard;
                self.cleanup.preserve_recovery = false;
                StopAction::CopyToClipboard { text: self.text.clone() }
            },
        }
    }

    fn on_copying_to_clipboard(&mut self, e: StopEvent) -> (a: StopAction)
        requires
            old(self).stage == StopStage::CopyingToClipboard,
            stop_accepts(old(self)@, e@),
        ensures
            (final(self)@, a@) == stop_transition(old(self)@, e@),
    {
        match e {
            StopEvent::Cancelled(true) => self.delivery_cancel(),
            StopEvent::Failed(err) => self.delivery_fail(err),
            _ => {
                self.stage = StopStage::PreparingPaste;
                StopAction::PreparePaste
            },
        }
    }

    fn on_preparing_paste(&mut self, e: StopEvent) -> (a: StopAction)
        requires
            old(self).stage == StopStage::PreparingPaste,
            stop_accepts(old(self)@, e@),
        ensures
            (final(self)@, a@) == stop_transition(old(self)@, e@),
    {
        match e {
            StopEvent::Cancelled(true) => self.delivery_cancel(),
            StopEvent::Failed(err) => self.delivery_fail(err),
            StopEvent::PasteReady(p) => {
                self.stage = StopStage::StartingPaste;
                StopAction::StartPaste(PasteCommand { protocol: p })
            },
            _ => StopAction::PreparePaste,
        }
    }

    fn on_starting_paste(&mut self, e: StopEvent) -> (a: StopAction)
        requires
            old(self).stage == StopStage::StartingPaste,
            stop_accepts(old(self)@, e@),
        ensures
            (final(self)@, a@) == stop_transition(old(self)@, e@),
    {
        let c = self.cleanup;
        match e {
            StopEvent::Cancelled(true) => self.delivery_cancel(),
            StopEvent::Failed(err) => self.delivery_fail(err),
            StopEvent::Started(t) => {
                self.stage = StopStage::WaitingPaste;
                self.cleanup = SessionCleanup { typing: Some(t), ..c };
                StopAction::WaitPaste(t)
            },
            _ => StopAction::PreparePaste,
        }
    }

    fn on_waiting_paste(&mut self, e: StopEvent) -> (a: StopAction)
        requires
            old(self).stage == StopStage::WaitingPaste,
            stop_accepts(old(self)@, e@),
        ensures
            (final(self)@, a@) == stop_transition(old(self)@, e@),
    {
        let c = self.cleanup;
        match e {
            StopEvent::Exited { success, status } => {
                self.stage = StopStage::ReleasingPaste;
                self.paste_success = success;
                self.paste_status = status;
                StopAction::ReleasePaste { identity: c.typing.unwrap(), complete: success }
            },
            StopEvent::Failed(err) => self.delivery_fail(err),
            _ => StopAction::PreparePaste,
        }
    }

    fn on_releasing_paste(&mut self, e: StopEvent) -> (a: StopAction)
        requires
            old(self).stage == StopStage::ReleasingPaste,
            stop_accepts(old(self)@, e@),
        ensures
            (final(self)@, a@) == stop_transition(old(self)@, e@),
    {
        let c = self.cleanup;
        match e {
            StopEvent::Failed(err) => self.delivery_fail(err),
            StopEvent::Cancelled(true) => {
                self.cleanup = SessionCleanup { typing: None, ..c };
                self.delivery_cancel()
            },
            _ => {
                self.cleanup = SessionCleanup { typing: None, ..c };
                if self.paste_success {
                    self.finish_with(Ok(0))
                } else {
                    let detail = other_failure(
                        &prefixed("clipboard paste command exited with ", &self.paste_status),
                    );
                    self.delivery_fail(detail)
                }
            },
        }
    }

    fn on_rolling_back(&mut self, e: StopEvent) -> (a: StopAction)
        requires
            old(self).stage == StopStage::RollingBack,
            stop_accepts(old(self)@, e@),
        ensures
            (final(self)@, a@) == stop_transition(old(self)@, e@),
    {
        match e {
            StopEvent::Failed(err) => self.finish_with(Err(err)),
            _ => self.finish_with(Ok(0)),
        }
    }

    fn on_rolling_back_if_cancelled(&mut self, e: StopEvent) -> (a: StopAction)
        requires
            old(self).stage == StopStage::RollingBackIfCancelled,
            stop_accepts(old(self)@, e@),
        ensures
            (final(self)@, a@) == stop_transition(old(self)@, e@),
    {
        match e {
            StopEvent::Cancelled(true) => self.finish_with(Ok(0)),
            StopEvent::Failed(err) => self.finish_with(Err(err)),
            _ => {
                let f = self.pending.as_ref().unwrap().duplicate();
                self.finish_with(Err(f))
            },
        }
    }

    fn on_resolving(&mut self, e: StopEvent) -> (a: StopAction)
        requires
            old(self).stage == StopStage::Resolving,
            stop_accepts(old(self)@, e@),
        ensures
            (final(self)@, a@) == stop_transition(old(self)@, e@),
    {
        match e {
            StopEvent::Cancelled(true) => {
                if self.discard_source {
                    self.cleanup.preserve_source_audio = false;
                } else {
                    self.cleanup.preserve_recovery = false;
                }
                self.finish_with(Ok(0))
            },
            _ => {
                if self.secure_on_failure {
                    self.stage = StopStage::SecuringSource;
                    StopAction::SecureSourceAudio
                } else {
                    let f = self.pending.as_ref().unwrap().duplicate();
                    self.finish_with(Err(f))
                }
            },
        }
    }

    fn on_securing_source(&mut self, e: StopEvent) -> (a: StopAction)
        requires
            old(self).stage == StopStage::SecuringSource,
            stop_accepts(old(self)@, e@),
        ensures
            (final(self)@, a@) == stop_transition(old(self)@, e@),
    {
        {
            let f = self.pending.as_ref().unwrap().duplicate();
            self.finish_with(Err(f))
        }
    }

    fn on_finished(&mut self, e: StopEvent) -> (a: StopAction)
        requires
            old(self).stage == StopStage::Finished,
            stop_accepts(old(self)@, e@),
        ensures
            (final(self)@, a@) == stop_transition(old(self)@, e@),
    {
        StopAction::ReadTranscript
    }
}

// ---------------------------------------------------------------------------
// What every session keeps
// ---------------------------------------------------------------------------

/// The stages before the audio moves into recovery.
pub open spec fn is_source_stage(s: StopStage) -> bool {
    s == StopStage::StoppingRecorder || s == StopStage::InspectingAudio || s
        == StopStage::CheckingCancellation || s == StopStage::PreparingRecovery
}

/// The stages in which the audio is in recovery and no transcript is known.
pub open spec fn is_asr_stage(s: StopStage) -> bool {
    s == StopStage::LoadingSettings || s == StopStage::StartingTranscriber || s
        == StopStage::WaitingTranscriber || s == StopStage::ReleasingTranscriber || s
        == StopStage::CheckingAsrCancellation || s == StopStage::ReadingTranscript
}

/// The stages after the transcript was saved to history.
pub open spec fn is_delivery_stage(s: StopStage) -> bool {
    s == StopStage::CopyingToClipboard || s == StopStage::PreparingPaste || s
        == StopStage::StartingPaste || s == StopStage::WaitingPaste || s
        == StopStage::ReleasingPaste || s == StopStage::RollingBack || s
        == StopStage::RollingBackIfCancelled
}

/// What holds of every session state that the machine reaches.
pub open spec fn stop_invariant(m: StopMachineView) -> bool {
    let c = m.cleanup;
    &&& is_source_stage(m.stage) ==> c.preserve_source_audio && !c.recovery && !c.preserve_recovery
    &&& is_asr_stage(m.stage) ==> !c.preserve_source_audio && c.recovery && c.preserve_recovery
    &&& (m.stage == StopStage::Resolving || m.stage == StopStage::SecuringSource) ==> m.pending is Some
        && (m.discard_source ==> c.preserve_source_audio && !c.recovery && !c.preserve_recovery)
        && (!m.discard_source ==> !c.preserve_source_audio && c.recovery && c.preserve_recovery
        && !m.secure_on_failure)
    &&& m.stage == StopStage::ClosingOverlay ==> !c.preserve_source_audio && c.recovery && (
    m.nothing_to_paste == !is_successful_transcript(m.text)) && (c.preserve_recovery
        == !m.nothing_to_paste)
    &&& m.stage == StopStage::PublishingHistory ==> !c.preserve_source_audio && c.recovery
        && c.preserve_recovery && is_successful_transcript(m.text)
    &&& is_delivery_stage(m.stage) ==> !c.preserve_source_audio && !c.preserve_recovery
        && is_successful_transcript(m.text)
    &&& m.stage == StopStage::RollingBackIfCancelled ==> m.pending is Some
    &&& (m.stage == StopStage::ReadingTranscript || m.stage == StopStage::ClosingOverlay || m.stage
        == StopStage::PublishingHistory || is_delivery_stage(m.stage)) ==> m.asr_success
}

/// A new session satisfies the invariant.
pub proof fn lemma_stop_invariant_initial(context: StopContext, paths: Paths)
    ensures
        stop_invariant(stop_initial(context, paths)),
{
}

/// Every step keeps the invariant.
#[verifier::rlimit(50)]
pub proof fn lemma_stop_invariant_preserved(m: StopMachineView, e: StopEventView)
    requires
        stop_invariant(m),
        stop_accepts(m, e),
    ensures
        stop_invariant(stop_transition(m, e).0),
{
    reveal_strlit("...");
}

/// A transcript is saved to history only when it is a successful
/// transcript: neither empty nor the `...` placeholder.
pub proof fn lemma_history_only_for_successful_transcripts(m: StopMachineView, e: StopEventView)
    requires
        stop_invariant(m),
        stop_accepts(m, e),
        stop_transition(m, e).1 is PublishHistory,
    ensures
        is_successful_transcript(stop_transition(m, e).1->PublishHistory_text),
{
}

/// A transcript is saved to history only after `codex-asr` exited
/// successfully.
pub proof fn lemma_history_only_after_successful_asr(m: StopMachineView, e: StopEventView)
    requires
        stop_invariant(m),
        stop_accepts(m, e),
        stop_transition(m, e).1 is PublishHistory,
    ensures
        m.asr_success,
        stop_transition(m, e).0.asr_success,
{
}

/// Every successful transcript goes to history next: directly, or once the
/// overlay has been closed.
pub proof fn lemma_successful_transcript_is_saved(m: StopMachineView, raw: Seq<char>)
    requires
        stop_accepts(m, StopEventView::Transcript(raw)),
        is_successful_transcript(trim_trailing_newlines_spec(raw)),
    ensures
        ({
            let (next, action) = stop_transition(m, StopEventView::Transcript(raw));
            &&& next.text == trim_trailing_newlines_spec(raw)
            &&& !next.nothing_to_paste
            &&& match m.context.overlay {
                Some(o) => action == StopActionView::CloseOverlay(o) && next.stage
                    == StopStage::ClosingOverlay && stop_transition(next, StopEventView::Done).1
                    == (StopActionView::PublishHistory { text: next.text }),
                None => action == (StopActionView::PublishHistory { text: next.text }),
            }
        }),
{
}

/// The transcript reaches the clipboard only right after it was saved to
/// history.
pub proof fn lemma_history_before_clipboard(m: StopMachineView, e: StopEventView)
    requires
        stop_accepts(m, e),
        stop_transition(m, e).1 is CopyToClipboard,
    ensures
        m.stage == StopStage::PublishingHistory,
        e is Done,
        stop_transition(m, e).1->CopyToClipboard_text == m.text,
{
}

/// A session that fails before its transcript is saved keeps the audio:
/// the source recording before it moved, the private recovery files after,
/// so its owned cleanup never removes both. (A failure while closing the
/// overlay after an empty transcript has no audio worth keeping.)
pub proof fn lemma_failure_keeps_audio(m: StopMachineView, e: StopEventView)
    requires
        stop_invariant(m),
        stop_accepts(m, e),
        !is_delivery_stage(m.stage),
        !(m.stage == StopStage::ClosingOverlay && m.nothing_to_paste),
        stop_transition(m, e).1 is Finish,
        stop_transition(m, e).1->Finish_result is Err,
    ensures
        stop_transition(m, e).1->Finish_cleanup.preserve_source_audio || (stop_transition(
            m,
            e,
        ).1->Finish_cleanup.preserve_recovery && stop_transition(m, e).1->Finish_cleanup.recovery),
        !owned_cleanup_list(stop_transition(m, e).1->Finish_cleanup).contains(
            OwnedCleanup::RemoveSourceAudio,
        ) || !owned_cleanup_list(stop_transition(m, e).1->Finish_cleanup).contains(
            OwnedCleanup::RemoveRecovery,
        ),
{
    lemma_owned_cleanup_removes(stop_transition(m, e).1->Finish_cleanup);
}

/// A session found cancelled before its transcript was saved ends quietly
/// and keeps no audio.
pub proof fn lemma_cancellation_discards_audio(m: StopMachineView, e: StopEventView)
    requires
        stop_invariant(m),
        stop_accepts(m, e),
        e == StopEventView::Cancelled(true),
        m.stage == StopStage::CheckingCancellation || m.stage == StopStage::CheckingAsrCancellation
            || m.stage == StopStage::PublishingHistory || m.stage == StopStage::Resolving,
    ensures
        stop_transition(m, e).1 is Finish,
        stop_transition(m, e).1->Finish_result == Ok::<u8, FailureView>(0),
        !stop_transition(m, e).1->Finish_cleanup.preserve_source_audio,
        !stop_transition(m, e).1->Finish_cleanup.preserve_recovery,
{
}

/// After the transcript was saved, a cancellation removes it from history,
/// and a failure removes it only if the session was cancelled meanwhile.
pub proof fn lemma_delivery_rolls_back_only_cancelled_history(
    m: StopMachineView,
    e: StopEventView,
)
    requires
        stop_accepts(m, e),
        m.stage == StopStage::CopyingToClipboard || m.stage == StopStage::PreparingPaste
            || m.stage == StopStage::StartingPaste || m.stage == StopStage::WaitingPaste
            || m.stage == StopStage::ReleasingPaste,
    ensures
        e == StopEventView::Cancelled(true) ==> stop_transition(m, e).1 is RollBackHistory,
        e is Failed ==> stop_transition(m, e).1 is RollBackHistoryIfCancelled && stop_transition(
            m,
            e,
        ).0.pending == Some(e->Failed_0),
{
}

/// How far a session has come; every accepted report raises it.
pub open spec fn stop_progress(s: StopStage) -> int {
    match s {
        StopStage::StoppingRecorder => 0,
        StopStage::InspectingAudio => 1,
        StopStage::CheckingCancellation => 2,
        StopStage::PreparingRecovery => 3,
        StopStage::LoadingSettings => 4,
        StopStage::StartingTranscriber => 5,
        StopStage::WaitingTranscriber => 6,
        StopStage::ReleasingTranscriber => 7,
        StopStage::CheckingAsrCancellation => 8,
        StopStage::ReadingTranscript => 9,
        StopStage::ClosingOverlay => 10,
        StopStage::PublishingHistory => 11,
        StopStage::CopyingToClipboard => 12,
        StopStage::PreparingPaste => 13,
        StopStage::StartingPaste => 14,
        StopStage::WaitingPaste => 15,
        StopStage::ReleasingPaste => 16,
        StopStage::RollingBack => 17,
        StopStage::RollingBackIfCancelled => 17,
        StopStage::Resolving => 18,
        StopStage::SecuringSource => 19,
        StopStage::Finished => 20,
    }
}

/// Every accepted report moves the session forward, so a session ends
/// after at most twenty reports; a finished session accepts none.
pub proof fn lemma_session_always_ends(m: StopMachineView, e: StopEventView)
    requires
        stop_accepts(m, e),
    ensures
        stop_progress(stop_transition(m, e).0.stage) > stop_progress(m.stage),
        stop_progress(stop_transition(m, e).0.stage) <= 20,
        stop_transition(m, e).1 is Finish <==> stop_transition(m, e).0.stage == StopStage::Finished,
{
    match m.stage {
        StopStage::StoppingRecorder => {},
        StopStage::InspectingAudio => {},
        StopStage::CheckingCancellation => {},
        StopStage::PreparingRecovery => {},
        StopStage::LoadingSettings => {},
        StopStage::StartingTranscriber => {},
        StopStage::WaitingTranscriber => {},
        StopStage::ReleasingTranscriber => {},
        StopStage::CheckingAsrCancellation => {},
        StopStage::ReadingTranscript => {},
        StopStage::ClosingOverlay => {},
        StopStage::PublishingHistory => {},
        StopStage::CopyingToClipboard => {},
        StopStage::PreparingPaste => {},
        StopStage::StartingPaste => {},
        StopStage::WaitingPaste => {},
        StopStage::ReleasingPaste => {},
        StopStage::RollingBack => {},
        StopStage::RollingBackIfCancelled => {},
        StopStage::Resolving => {},
        StopStage::SecuringSource => {},
        StopStage::Finished => {},
    }
}

// ---------------------------------------------------------------------------
// Whole sessions
// ---------------------------------------------------------------------------

/// The state reached from `m` after the reports `es`.
pub open spec fn stop_after(m: StopMachineView, es: Seq<StopEventView>) -> StopMachineView
    decreases es.len(),
{
    if es.len() == 0 {
        m
    } else {
        stop_transition(stop_after(m, es.drop_last()), es.last()).0
    }
}

/// Whether every report of `es` was expected when it came.
pub open spec fn stop_run_accepted(m: StopMachineView, es: Seq<StopEventView>) -> bool
    decreases es.len(),
{
    es.len() == 0 || (stop_run_accepted(m, es.drop_last()) && stop_accepts(
        stop_after(m, es.drop_last()),
        es.last(),
    ))
}

/// The paste stages, where a failure keeps the saved transcript.
pub open spec fn is_paste_stage(s: StopStage) -> bool {
    s == StopStage::CopyingToClipboard || s == StopStage::PreparingPaste || s
        == StopStage::StartingPaste || s == StopStage::WaitingPaste || s
        == StopStage::ReleasingPaste
}

/// What a session did to the transcript history, and what it was told.
pub struct SessionFacts {
    /// A transcript was inserted into history.
    pub saved: bool,
    /// The text that was inserted.
    pub saved_text: Seq<char>,
    /// The inserted transcript was removed again.
    pub rolled_back: bool,
    /// A cancellation was reported.
    pub cancelled: bool,
    /// A step failed outside the paste stages (history, locks, recorder,
    /// recovery files, `codex-asr`, overlay).
    pub failed: bool,
}

/// The facts of a session from `m` through the reports `es`.
pub open spec fn session_facts(m: StopMachineView, es: Seq<StopEventView>) -> SessionFacts
    decreases es.len(),
{
    if es.len() == 0 {
        SessionFacts {
            saved: false,
            saved_text: Seq::empty(),
            rolled_back: false,
            cancelled: false,
            failed: false,
        }
    } else {
        let f = session_facts(m, es.drop_last());
        let s = stop_after(m, es.drop_last());
        let e = es.last();
        let saves = s.stage == StopStage::PublishingHistory && e == StopEventView::Done;
        SessionFacts {
            saved: f.saved || saves,
            saved_text: if saves {
                s.text
            } else {
                f.saved_text
            },
            rolled_back: f.rolled_back || (s.stage == StopStage::RollingBack && e
                == StopEventView::Done) || (s.stage == StopStage::RollingBackIfCancelled && e
                == StopEventView::Cancelled(true)),
            cancelled: f.cancelled || e == StopEventView::Cancelled(true),
            failed: f.failed || ((e is Failed || e is FailedAt || e is RecorderSurvived)
                && !is_paste_stage(s.stage)),
        }
    }
}

/// What links the state of a session to its facts.
pub open spec fn session_invariant(s: StopMachineView, f: SessionFacts) -> bool {
    &&& stop_invariant(s)
    &&& f.saved ==> s.asr_success && is_successful_transcript(s.text) && f.saved_text == s.text
        && (is_delivery_stage(s.stage) || s.stage == StopStage::Finished)
    &&& !f.saved ==> !is_delivery_stage(s.stage)
    &&& f.rolled_back ==> f.saved && f.cancelled
    &&& f.cancelled && !f.saved ==> s.stage == StopStage::Finished
    &&& f.cancelled && f.saved ==> f.rolled_back || s.stage == StopStage::RollingBack || f.failed
    &&& !f.failed && !f.cancelled && s.stage == StopStage::Finished ==> f.saved || !s.asr_success
        || !is_successful_transcript(s.text)
    &&& s.stage == StopStage::RollingBack ==> f.cancelled
    &&& (s.stage == StopStage::Resolving || s.stage == StopStage::SecuringSource) ==> f.failed
    &&& (is_source_stage(s.stage) || s.stage == StopStage::LoadingSettings || s.stage
        == StopStage::StartingTranscriber || s.stage == StopStage::WaitingTranscriber)
        ==> !s.asr_success
}

#[verifier::rlimit(100)]
proof fn lemma_session_step(s: StopMachineView, f: SessionFacts, e: StopEventView)
    requires
        session_invariant(s, f),
        stop_accepts(s, e),
    ensures
        ({
            let saves = s.stage == StopStage::PublishingHistory && e == StopEventView::Done;
            session_invariant(
                stop_transition(s, e).0,
                SessionFacts {
                    saved: f.saved || saves,
                    saved_text: if saves {
                        s.text
                    } else {
                        f.saved_text
                    },
                    rolled_back: f.rolled_back || (s.stage == StopStage::RollingBack && e
                        == StopEventView::Done) || (s.stage == StopStage::RollingBackIfCancelled
                        && e == StopEventView::Cancelled(true)),
                    cancelled: f.cancelled || e == StopEventView::Cancelled(true),
                    failed: f.failed || ((e is Failed || e is FailedAt || e is RecorderSurvived)
                        && !is_paste_stage(s.stage)),
                },
            )
        }),
{
    lemma_stop_invariant_preserved(s, e);
    match s.stage {
        StopStage::StoppingRecorder => {},
        StopStage::InspectingAudio => {},
        StopStage::CheckingCancellation => {},
        StopStage::PreparingRecovery => {},
        StopStage::LoadingSettings => {},
        StopStage::StartingTranscriber => {},
        StopStage::WaitingTranscriber => {},
        StopStage::ReleasingTranscriber => {},
        StopStage::CheckingAsrCancellation => {},
        StopStage::ReadingTranscript => {},
        StopStage::ClosingOverlay => {},
        StopStage::PublishingHistory => {},
        StopStage::CopyingToClipboard => {},
        StopStage::PreparingPaste => {},
        StopStage::StartingPaste => {},
        StopStage::WaitingPaste => {},
        StopStage::ReleasingPaste => {},
        StopStage::RollingBack => {},
        StopStage::RollingBackIfCancelled => {},
        StopStage::Resolving => {},
        StopStage::SecuringSource => {},
        StopStage::Finished => {},
    }
}

/// Every state of a session satisfies the session invariant.
pub proof fn lemma_session_invariant_reachable(
    context: StopContext,
    paths: Paths,
    es: Seq<StopEventView>,
)
    requires
        stop_run_accepted(stop_initial(context, paths), es),
    ensures
        session_invariant(
            stop_after(stop_initial(context, paths), es),
            session_facts(stop_initial(context, paths), es),
        ),
    decreases es.len(),
{
    let m = stop_initial(context, paths);
    if es.len() == 0 {
        lemma_stop_invariant_initial(context, paths);
    } else {
        lemma_session_invariant_reachable(context, paths, es.drop_last());
        lemma_session_step(stop_after(m, es.drop_last()), session_facts(m, es.drop_last()), es.last());
    }
}

/// Over any session, a transcript goes into history only after `codex-asr`
/// exited successfully and only when it is neither empty nor `...`; the
/// text inserted is the session's transcript; and an inserted transcript
/// is removed again only after a cancellation was reported.
pub proof fn lemma_history_only_from_successful_sessions(
    context: StopContext,
    paths: Paths,
    es: Seq<StopEventView>,
)
    requires
        stop_run_accepted(stop_initial(context, paths), es),
    ensures
        ({
            let s = stop_after(stop_initial(context, paths), es);
            let f = session_facts(stop_initial(context, paths), es);
            &&& f.saved ==> s.asr_success && is_successful_transcript(s.text) && f.saved_text
                == s.text
            &&& f.rolled_back ==> f.saved && f.cancelled
        }),
{
    lemma_session_invariant_reachable(context, paths, es);
}

/// Over a whole session in which history, locks, the recorder, the
/// recovery files, `codex-asr` and the overlay all did their part (failures
/// are allowed only while copying and pasting), the history ends up with
/// one new entry, the session's transcript, exactly when `codex-asr` exited
/// successfully, the transcript is neither empty nor `...`, and no
/// cancellation was reported; otherwise the history is as it was.  A paste
/// failure does not remove the entry.
pub proof fn lemma_history_over_a_session(
    context: StopContext,
    paths: Paths,
    es: Seq<StopEventView>,
)
    requires
        stop_run_accepted(stop_initial(context, paths), es),
        stop_after(stop_initial(context, paths), es).stage == StopStage::Finished,
        !session_facts(stop_initial(context, paths), es).failed,
    ensures
        ({
            let s = stop_after(stop_initial(context, paths), es);
            let f = session_facts(stop_initial(context, paths), es);
            &&& (f.saved && !f.rolled_back) <==> (s.asr_success && is_successful_transcript(s.text)
                && !f.cancelled)
            &&& f.saved && !f.rolled_back ==> f.saved_text == s.text
        }),
{
    lemma_session_invariant_reachable(context, paths, es);
}

/// A completed paste ends the session successfully and quietly: the
/// session finishes with exit status 0 and its cleanup, and no action of
/// the session writes the transcript anywhere but history, the clipboard
/// and the paste.
pub proof fn lemma_completed_paste_finishes(m: StopMachineView)
    requires
        m.stage == StopStage::ReleasingPaste,
        m.paste_success,
    ensures
        stop_transition(m, StopEventView::Done).1 == (StopActionView::Finish {
            result: Ok(0),
            cleanup: SessionCleanup { typing: None, ..m.cleanup },
        }),
        stop_transition(m, StopEventView::Done).0.stage == StopStage::Finished,
{
}

} // verus!
