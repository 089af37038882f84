//! The dictation session: runtime files, the identity-scoped decisions of
//! every lifecycle command, and the cleanup rules that only ever touch state
//! owned by the session in question.
use vstd::prelude::*;

use crate::failure::{invalid_input, Failure, FailureKind};
use crate::process_identity::ProcessIdentity;
use crate::settings::option_view;
use crate::text::{
    chars_of, decimal_text, extend_chars, format_i64, format_u64, has_prefix, join_path, lines,
    lines_of, path_join, starts_with, slice_chars, string_from, words, words_of, decimal_digits,
};

verus! {

// ---------------------------------------------------------------------------
// Runtime files
// ---------------------------------------------------------------------------

/// The runtime directory: `$XDG_RUNTIME_DIR` when set; otherwise the private
/// `codex-voice/runtime` directory under `$XDG_CACHE_HOME` or `~/.cache`.
pub open spec fn runtime_directory_for(
    runtime_dir: Option<Seq<char>>,
    cache_home: Option<Seq<char>>,
    home: Option<Seq<char>>,
) -> Option<Seq<char>> {
    match runtime_dir {
        Some(r) => Some(r),
        None => match cache_home {
            Some(c) => Some(path_join(c, "codex-voice/runtime"@)),
            None => match home {
                Some(h) => Some(path_join(path_join(h, ".cache"@), "codex-voice/runtime"@)),
                None => None,
            },
        },
    }
}

pub fn runtime_directory(
    runtime_dir: Option<String>,
    cache_home: Option<String>,
    home: Option<String>,
) -> (r: Result<String, Failure>)
    ensures
        match r {
            Ok(d) => runtime_directory_for(
                option_view(runtime_dir),
                option_view(cache_home),
                option_view(home),
            ) == Some(d@),
            Err(f) => runtime_directory_for(
                option_view(runtime_dir),
                option_view(cache_home),
                option_view(home),
            ) is None && f.kind == FailureKind::NotFound && f.message@ == "HOME is not set"@,
        },
{
    if let Some(r) = runtime_dir {
        return Ok(r);
    }
    let base = match (&cache_home, &home) {
        (Some(c), _) => chars_of(c.as_str()),
        (None, Some(h)) => join_path(&chars_of(h.as_str()), &chars_of(".cache")),
        (None, None) => {
            return Err(Failure::new(FailureKind::NotFound, "HOME is not set"));
        },
    };
    Ok(string_from(&join_path(&base, &chars_of("codex-voice/runtime"))))
}

/// The files of the runtime directory.
#[derive(Debug, Clone)]
pub struct Paths {
    pub directory: String,
    pub lock: String,
    pub recorder_pid: String,
    pub wav: String,
    pub overlay_pid: String,
    pub preview_overlay_pid: String,
    pub transcriber_pid: String,
    pub transcript: String,
    pub cancel: String,
    pub typing_pid: String,
    pub session_owner_pid: String,
    pub session_recorder_pid: String,
    pub runtime_state: String,
}

/// Whether `p` names the runtime files of directory `dir`.
pub open spec fn paths_in(p: Paths, dir: Seq<char>) -> bool {
    &&& p.directory@ == dir
    &&& p.lock@ == path_join(dir, "codex-voice.lock"@)
    &&& p.recorder_pid@ == path_join(dir, "codex-voice.pid"@)
    &&& p.wav@ == path_join(dir, "codex-voice.wav"@)
    &&& p.overlay_pid@ == path_join(dir, "codex-voice-overlay.pid"@)
    &&& p.preview_overlay_pid@ == path_join(dir, "codex-voice-preview-overlay.pid"@)
    &&& p.transcriber_pid@ == path_join(dir, "codex-voice-transcriber.pid"@)
    &&& p.transcript@ == path_join(dir, "codex-voice-transcript.txt"@)
    &&& p.cancel@ == path_join(dir, "codex-voice-cancelled"@)
    &&& p.typing_pid@ == path_join(dir, "codex-voice-typing.pid"@)
    &&& p.session_owner_pid@ == path_join(dir, "codex-voice-session-owner.pid"@)
    &&& p.session_recorder_pid@ == path_join(dir, "codex-voice-session-recorder.pid"@)
    &&& p.runtime_state@ == path_join(dir, "codex-voice-state.json"@)
}

fn file_in(dir: &Vec<char>, name: &str) -> (p: String)
    ensures
        p@ == path_join(dir@, name@),
{
    string_from(&join_path(dir, &chars_of(name)))
}

impl Paths {
    /// The runtime files of a directory.
    pub fn in_directory(state_dir: String) -> (p: Paths)
        ensures
            paths_in(p, state_dir@),
    {
        let d = chars_of(state_dir.as_str());
        Paths {
            lock: file_in(&d, "codex-voice.lock"),
            recorder_pid: file_in(&d, "codex-voice.pid"),
            wav: file_in(&d, "codex-voice.wav"),
            overlay_pid: file_in(&d, "codex-voice-overlay.pid"),
            preview_overlay_pid: file_in(&d, "codex-voice-preview-overlay.pid"),
            transcriber_pid: file_in(&d, "codex-voice-transcriber.pid"),
            transcript: file_in(&d, "codex-voice-transcript.txt"),
            cancel: file_in(&d, "codex-voice-cancelled"),
            typing_pid: file_in(&d, "codex-voice-typing.pid"),
            session_owner_pid: file_in(&d, "codex-voice-session-owner.pid"),
            session_recorder_pid: file_in(&d, "codex-voice-session-recorder.pid"),
            runtime_state: file_in(&d, "codex-voice-state.json"),
            directory: state_dir,
        }
    }
}

/// A file name made of a prefix, an identity and a suffix:
/// `<prefix><pid>-<start time><suffix>`.
pub open spec fn identity_file_name(prefix: Seq<char>, owner: ProcessIdentity, suffix: Seq<char>) -> Seq<
    char,
> {
    prefix + decimal_text(owner.pid as int) + "-"@ + decimal_digits(owner.start_time as nat) + suffix
}

/// The path of an identity-scoped file of a runtime directory.
pub fn identity_file(
    directory: &str,
    prefix: &str,
    owner: ProcessIdentity,
    suffix: &str,
) -> (p: String)
    ensures
        p@ == path_join(directory@, identity_file_name(prefix@, owner, suffix@)),
{
    let mut name = chars_of(prefix);
    extend_chars(&mut name, &format_i64(owner.pid as i64));
    extend_chars(&mut name, &chars_of("-"));
    extend_chars(&mut name, &format_u64(owner.start_time));
    extend_chars(&mut name, &chars_of(suffix));
    string_from(&join_path(&chars_of(directory), &name))
}

/// The private copies of a session's audio and transcript that survive a
/// failed transcription, named after the owning process.
#[derive(Debug, Clone)]
pub struct RecoveryPaths {
    pub audio: String,
    pub transcript: String,
}

/// The recovery audio of the session owned by `owner`.
pub open spec fn recovery_audio_for(directory: Seq<char>, owner: ProcessIdentity) -> Seq<char> {
    path_join(directory, identity_file_name("codex-voice-audio-recovery-"@, owner, ".wav"@))
}

/// The recovery transcript of the session owned by `owner`.
pub open spec fn recovery_transcript_for(directory: Seq<char>, owner: ProcessIdentity) -> Seq<char> {
    path_join(directory, identity_file_name("codex-voice-transcript-recovery-"@, owner, ".txt"@))
}

impl RecoveryPaths {
    /// The recovery files of the session owned by `owner`.
    pub fn for_session(paths: &Paths, owner: ProcessIdentity) -> (r: RecoveryPaths)
        ensures
            r.audio@ == recovery_audio_for(paths.directory@, owner),
            r.transcript@ == recovery_transcript_for(paths.directory@, owner),
    {
        RecoveryPaths {
            audio: identity_file(
                paths.directory.as_str(),
                "codex-voice-audio-recovery-",
                owner,
                ".wav",
            ),
            transcript: identity_file(
                paths.directory.as_str(),
                "codex-voice-transcript-recovery-",
                owner,
                ".txt",
            ),
        }
    }
}

/// Where the session owner captures `ydotool --help`.
pub fn ydotool_help_path(paths: &Paths, owner: ProcessIdentity) -> (p: String)
    ensures
        p@ == path_join(
            paths.directory@,
            identity_file_name("codex-voice-ydotool-help-"@, owner, ".txt"@),
        ),
{
    identity_file(paths.directory.as_str(), "codex-voice-ydotool-help-", owner, ".txt")
}

/// The identity records of the runtime directory.
#[derive(Debug, Clone, Copy, PartialEq, Eq, Structural)]
pub enum Record {
    Recorder,
    Overlay,
    PreviewOverlay,
    Transcriber,
    Typing,
    SessionOwner,
    SessionRecorder,
    Cancel,
}

/// The signals that the session sends.
#[derive(Debug, Clone, Copy, PartialEq, Eq, Structural)]
pub enum Signal {
    /// SIGINT: lets the recorder finish its audio file.
    Interrupt,
    /// SIGTERM.
    Terminate,
    /// SIGUSR1: tells the overlay that transcription began.
    User1,
}

/// Stop the process of a record, starting with `signal`, and remove the
/// record once it is gone.
#[derive(Debug, Clone, Copy, PartialEq, Eq, Structural)]
pub struct Termination {
    pub record: Record,
    pub identity: ProcessIdentity,
    pub signal: Signal,
}

// ---------------------------------------------------------------------------
// Messages
// ---------------------------------------------------------------------------

/// A failure of the ASR stage before the source audio moved: it names the
/// source audio and the recovery transcript so that nothing is lost.
pub open spec fn source_recovery_message(
    context: Seq<char>,
    error: Seq<char>,
    source_audio: Seq<char>,
    recovery_transcript: Seq<char>,
) -> Seq<char> {
    context + ": "@ + error + "; source audio: "@ + source_audio + "; recovery transcript: "@
        + recovery_transcript
}

/// A failure of the ASR stage after the source audio moved into recovery.
pub open spec fn recovery_message(
    context: Seq<char>,
    error: Seq<char>,
    recovery_audio: Seq<char>,
    recovery_transcript: Seq<char>,
) -> Seq<char> {
    context + ": "@ + error + "; recovery audio: "@ + recovery_audio + "; recovery transcript: "@
        + recovery_transcript
}

/// A failure before the audio moved: the error, keeping its kind, with the places
/// where the source audio and recovery transcript can be found.
pub fn source_recovery_failure(
    context: &str,
    error: &Failure,
    source_audio: &str,
    recovery_transcript: &str,
) -> (f: Failure)
    ensures
        f.kind == error.kind,
        f.message@ == source_recovery_message(
            context@,
            error.message@,
            source_audio@,
            recovery_transcript@,
        ),
{
    let mut text = chars_of(context);
    extend_chars(&mut text, &chars_of(": "));
    extend_chars(&mut text, &chars_of(error.message.as_str()));
    extend_chars(&mut text, &chars_of("; source audio: "));
    extend_chars(&mut text, &chars_of(source_audio));
    extend_chars(&mut text, &chars_of("; recovery transcript: "));
    extend_chars(&mut text, &chars_of(recovery_transcript));
    Failure::with_text(error.kind, &text)
}

/// A failure after the audio moved: the error, keeping its kind, with the places where
/// the recovery audio and transcript can be found.
pub fn recovery_failure(context: &str, error: &Failure, recovery: &RecoveryPaths) -> (f: Failure)
    ensures
        f.kind == error.kind,
        f.message@ == recovery_message(
            context@,
            error.message@,
            recovery.audio@,
            recovery.transcript@,
        ),
{
    let mut text = chars_of(context);
    extend_chars(&mut text, &chars_of(": "));
    extend_chars(&mut text, &chars_of(error.message.as_str()));
    extend_chars(&mut text, &chars_of("; recovery audio: "));
    extend_chars(&mut text, &chars_of(recovery.audio.as_str()));
    extend_chars(&mut text, &chars_of("; recovery transcript: "));
    extend_chars(&mut text, &chars_of(recovery.transcript.as_str()));
    Failure::with_text(error.kind, &text)
}

/// Dictation is paused in Settings.
pub fn dictation_paused() -> (f: Failure)
    ensures
        f.kind == FailureKind::InvalidInput,
        f.message@ == "dictation is paused; enable it in Settings first"@,
{
    invalid_input("dictation is paused; enable it in Settings first")
}

/// The session was cancelled.
pub fn dictation_cancelled() -> (f: Failure)
    ensures
        f.kind == FailureKind::Interrupted,
        f.message@ == "dictation cancelled"@,
{
    Failure::new(FailureKind::Interrupted, "dictation cancelled")
}

/// `codex-asr` is missing.
pub fn codex_asr_missing() -> (f: Failure)
    ensures
        f.kind == FailureKind::NotFound,
        f.message@ == "codex-asr was not found in PATH or ~/.cargo/bin"@,
{
    Failure::new(FailureKind::NotFound, "codex-asr was not found in PATH or ~/.cargo/bin")
}

/// The overlay script is missing.
pub fn overlay_missing() -> (f: Failure)
    ensures
        f.kind == FailureKind::NotFound,
        f.message@ == "codex-voice overlay is not installed"@,
{
    Failure::new(FailureKind::NotFound, "codex-voice overlay is not installed")
}

/// The settings executable is missing.
pub fn settings_missing() -> (f: Failure)
    ensures
        f.kind == FailureKind::NotFound,
        f.message@ == "codex-voice-settings is not installed"@,
{
    Failure::new(FailureKind::NotFound, "codex-voice-settings is not installed")
}

/// A process survived SIGKILL; its record is kept so that it stays tracked.
pub open spec fn survivor_message(pid: i32) -> Seq<char> {
    "process "@ + decimal_text(pid as int) + " did not terminate after SIGKILL; tracking was preserved"@
}

pub fn process_survived(pid: i32) -> (f: Failure)
    ensures
        f.kind == FailureKind::Other,
        f.message@ == survivor_message(pid),
{
    let mut text = chars_of("process ");
    extend_chars(&mut text, &format_i64(pid as i64));
    extend_chars(&mut text, &chars_of(" did not terminate after SIGKILL; tracking was preserved"));
    Failure::with_text(FailureKind::Other, &text)
}

// ---------------------------------------------------------------------------
// Lifecycle decisions
// ---------------------------------------------------------------------------

/// What `--toggle` does.
#[derive(Debug, Clone, Copy, PartialEq, Eq, Structural)]
pub enum ToggleChoice {
    /// Stop this recorder and transcribe.
    Stop(ProcessIdentity),
    /// Cancel the session that this process owns.
    CancelSession(ProcessIdentity),
    /// Start recording.
    Start,
}

/// A live recorder is stopped; otherwise a live session owner is
/// cancelled; otherwise a recording starts.
pub fn toggle_choice(recorder: Option<ProcessIdentity>, owner: Option<ProcessIdentity>) -> (c:
    ToggleChoice)
    ensures
        c == match recorder {
            Some(r) => ToggleChoice::Stop(r),
            None => match owner {
                Some(o) => ToggleChoice::CancelSession(o),
                None => ToggleChoice::Start,
            },
        },
{
    match recorder {
        Some(r) => ToggleChoice::Stop(r),
        None => match owner {
            Some(o) => ToggleChoice::CancelSession(o),
            None => ToggleChoice::Start,
        },
    }
}

/// `--start` refuses while a recorder or a session owner is alive.
pub fn start_check(recorder_active: bool, owner_active: bool) -> (r: Result<(), Failure>)
    ensures
        match r {
            Ok(()) => !recorder_active && !owner_active,
            Err(f) => (recorder_active || owner_active) && f.kind == FailureKind::InvalidInput
                && f.message@ == "dictation is already active"@,
        },
{
    if recorder_active || owner_active {
        Err(invalid_input("dictation is already active"))
    } else {
        Ok(())
    }
}

/// `--stop` needs a live recorder.
pub fn stop_target(recorder: Option<ProcessIdentity>) -> (r: Result<ProcessIdentity, Failure>)
    ensures
        match r {
            Ok(p) => recorder == Some(p),
            Err(f) => recorder is None && f.kind == FailureKind::InvalidInput && f.message@
                == "dictation is not recording"@,
        },
{
    match recorder {
        Some(p) => Ok(p),
        None => Err(invalid_input("dictation is not recording")),
    }
}

/// The identity that `--cancel` marks as cancelled: the session owner when
/// a session is transcribing or pasting, else the recorder.
pub fn cancel_target(owner: Option<ProcessIdentity>, recorder: Option<ProcessIdentity>) -> (t: Option<
    ProcessIdentity,
>)
    ensures
        t == match owner {
            Some(o) => Some(o),
            None => recorder,
        },
{
    match owner {
        Some(o) => Some(o),
        None => recorder,
    }
}

/// What a recorder-scoped cancellation (`--cancel-recording`) marks as
/// cancelled: nothing unless the expected recorder is the live recorder or
/// the originating recorder of the live session; then the session owner if
/// there is one, else that recorder.
pub open spec fn recorder_cancellation_for(
    expected: ProcessIdentity,
    recorder: Option<ProcessIdentity>,
    owner: Option<ProcessIdentity>,
    session_recorder: Option<ProcessIdentity>,
) -> Option<ProcessIdentity> {
    let matches_recorder = recorder == Some(expected);
    let matches_session = owner is Some && session_recorder == Some(expected);
    if !matches_recorder && !matches_session {
        None
    } else {
        match owner {
            Some(o) => Some(o),
            None => Some(expected),
        }
    }
}

pub fn recorder_cancellation(
    expected: ProcessIdentity,
    recorder: Option<ProcessIdentity>,
    owner: Option<ProcessIdentity>,
    session_recorder: Option<ProcessIdentity>,
) -> (t: Option<ProcessIdentity>)
    ensures
        t == recorder_cancellation_for(expected, recorder, owner, session_recorder),
{
    let matches_recorder = match recorder {
        Some(r) => r == expected,
        None => false,
    };
    let matches_session = owner.is_some() && match session_recorder {
        Some(s) => s == expected,
        None => false,
    };
    if !matches_recorder && !matches_session {
        None
    } else {
        match owner {
            Some(o) => Some(o),
            None => Some(expected),
        }
    }
}

/// A cancellation never reaches a session that the expected recorder does
/// not belong to: a stale overlay cannot cancel a replacement recording.
pub proof fn lemma_stale_cancellation_is_refused(
    expected: ProcessIdentity,
    recorder: Option<ProcessIdentity>,
    owner: Option<ProcessIdentity>,
    session_recorder: Option<ProcessIdentity>,
)
    requires
        recorder != Some(expected),
        owner is None || session_recorder != Some(expected),
    ensures
        recorder_cancellation_for(expected, recorder, owner, session_recorder) is None,
{
}

/// The live processes of a session at the moment it is cancelled.
#[derive(Debug, Clone, Copy, PartialEq, Eq, Structural)]
pub struct CancellationTargets {
    pub owner: Option<ProcessIdentity>,
    pub recorder: Option<ProcessIdentity>,
    pub transcriber: Option<ProcessIdentity>,
    pub typing: Option<ProcessIdentity>,
    pub overlay: Option<ProcessIdentity>,
}

pub open spec fn termination_list(t: CancellationTargets) -> Seq<Termination> {
    let one = |record: Record, identity: Option<ProcessIdentity>, signal: Signal|
        match identity {
            Some(i) => seq![Termination { record, identity: i, signal }],
            None => Seq::<Termination>::empty(),
        };
    one(Record::Recorder, t.recorder, Signal::Interrupt) + one(
        Record::Transcriber,
        t.transcriber,
        Signal::Terminate,
    ) + one(Record::Typing, t.typing, Signal::Terminate) + one(
        Record::Overlay,
        t.overlay,
        Signal::Terminate,
    ) + one(Record::SessionOwner, t.owner, Signal::Terminate)
}

/// The live process that a cancellation finds behind a record.
pub open spec fn cancellation_target(t: CancellationTargets, r: Record) -> Option<ProcessIdentity> {
    match r {
        Record::Recorder => t.recorder,
        Record::Transcriber => t.transcriber,
        Record::Typing => t.typing,
        Record::Overlay => t.overlay,
        Record::SessionOwner => t.owner,
        _ => None,
    }
}

/// The order in which a cancellation stops a session's processes.
pub open spec fn cancellation_rank(r: Record) -> int {
    match r {
        Record::Recorder => 0,
        Record::Transcriber => 1,
        Record::Typing => 2,
        Record::Overlay => 3,
        Record::SessionOwner => 4,
        _ => 5,
    }
}

/// The signal with which a cancellation stops the process behind a record.
pub open spec fn cancellation_signal(r: Record) -> Signal {
    if r == Record::Recorder {
        Signal::Interrupt
    } else {
        Signal::Terminate
    }
}

spec fn stop_of(t: CancellationTargets, r: Record) -> Seq<Termination> {
    match cancellation_target(t, r) {
        Some(i) => seq![Termination { record: r, identity: i, signal: cancellation_signal(r) }],
        None => Seq::empty(),
    }
}

spec fn stops_in_order(t: CancellationTargets, l: Seq<Termination>, bound: int) -> bool {
    &&& forall|j: int|
        0 <= j < l.len() ==> cancellation_target(t, (#[trigger] l[j]).record) == Some(l[j].identity)
            && l[j].signal == cancellation_signal(l[j].record) && cancellation_rank(l[j].record)
            < bound
    &&& forall|j: int, k: int|
        0 <= j < k < l.len() ==> cancellation_rank((#[trigger] l[j]).record) < cancellation_rank(
            (#[trigger] l[k]).record,
        )
    &&& forall|r: Record|
        cancellation_rank(r) < bound && (#[trigger] cancellation_target(t, r)) is Some ==> l.contains(
            Termination {
                record: r,
                identity: cancellation_target(t, r)->0,
                signal: cancellation_signal(r),
            },
        )
}

proof fn lemma_stops_extend(t: CancellationTargets, l: Seq<Termination>, r: Record)
    requires
        stops_in_order(t, l, cancellation_rank(r)),
        cancellation_rank(r) < 5,
    ensures
        stops_in_order(t, l + stop_of(t, r), cancellation_rank(r) + 1),
{
    let m = l + stop_of(t, r);
    assert forall|q: Record|
        cancellation_rank(q) < cancellation_rank(r) + 1 && (#[trigger] cancellation_target(
            t,
            q,
        )) is Some implies m.contains(
        Termination { record: q, identity: cancellation_target(t, q)->0, signal: cancellation_signal(q) },
    ) by {
        let x = Termination {
            record: q,
            identity: cancellation_target(t, q)->0,
            signal: cancellation_signal(q),
        };
        if cancellation_rank(q) < cancellation_rank(r) {
            let j = choose|j: int| 0 <= j < l.len() && l[j] == x;
            assert(m[j] == x);
        } else {
            assert(q == r);
            assert(m[l.len() as int] == x);
        }
    }
}

/// A cancellation stops every live process of the session exactly once and
/// nothing else: the recorder first, with SIGINT, then the transcriber, the
/// paste process and the overlay, and the session owner last, each with
/// SIGTERM.
pub proof fn lemma_cancellation_stops_every_target(t: CancellationTargets)
    ensures
        forall|j: int|
            0 <= j < termination_list(t).len() ==> cancellation_target(
                t,
                (#[trigger] termination_list(t)[j]).record,
            ) == Some(termination_list(t)[j].identity) && termination_list(t)[j].signal
                == cancellation_signal(termination_list(t)[j].record),
        forall|r: Record|
            (#[trigger] cancellation_target(t, r)) is Some ==> termination_list(t).contains(
                Termination {
                    record: r,
                    identity: cancellation_target(t, r)->0,
                    signal: cancellation_signal(r),
                },
            ),
        forall|j: int, k: int|
            0 <= j < k < termination_list(t).len() ==> cancellation_rank(
                (#[trigger] termination_list(t)[j]).record,
            ) < cancellation_rank((#[trigger] termination_list(t)[k]).record),
        t.recorder is Some ==> termination_list(t)[0] == (Termination {
            record: Record::Recorder,
            identity: t.recorder->0,
            signal: Signal::Interrupt,
        }),
        t.owner is Some ==> termination_list(t).last() == (Termination {
            record: Record::SessionOwner,
            identity: t.owner->0,
            signal: Signal::Terminate,
        }),
{
    let l0 = Seq::<Termination>::empty();
    let l1 = l0 + stop_of(t, Record::Recorder);
    let l2 = l1 + stop_of(t, Record::Transcriber);
    let l3 = l2 + stop_of(t, Record::Typing);
    let l4 = l3 + stop_of(t, Record::Overlay);
    let l5 = l4 + stop_of(t, Record::SessionOwner);
    assert(termination_list(t) =~= l5);
    assert(stops_in_order(t, l0, 0));
    lemma_stops_extend(t, l0, Record::Recorder);
    lemma_stops_extend(t, l1, Record::Transcriber);
    lemma_stops_extend(t, l2, Record::Typing);
    lemma_stops_extend(t, l3, Record::Overlay);
    lemma_stops_extend(t, l4, Record::SessionOwner);
    assert forall|r: Record| (#[trigger] cancellation_target(t, r)) is Some implies cancellation_rank(
        r,
    ) < 5 by {}
    if t.recorder is Some {
        assert(l1[0] == l5[0]);
    }
}

fn push_termination(
    list: &mut Vec<Termination>,
    record: Record,
    identity: Option<ProcessIdentity>,
    signal: Signal,
)
    ensures
        final(list)@ == old(list)@ + match identity {
            Some(i) => seq![Termination { record, identity: i, signal }],
            None => Seq::<Termination>::empty(),
        },
{
    match identity {
        Some(i) => {
            list.push(Termination { record, identity: i, signal });
            assert(final(list)@ =~= old(list)@ + seq![Termination { record, identity: i, signal }]);
        },
        None => {
            assert(old(list)@ + Seq::<Termination>::empty() =~= old(list)@);
        },
    }
}

impl CancellationTargets {
    /// The processes to stop, in order: the recorder first (with SIGINT, so
    /// that its audio stays valid), then the transcriber, the paste process,
    /// the overlay, and finally the session owner.
    pub fn terminations(&self) -> (list: Vec<Termination>)
        ensures
            list@ == termination_list(*self),
    {
        let mut list: Vec<Termination> = Vec::new();
        push_termination(&mut list, Record::Recorder, self.recorder, Signal::Interrupt);
        push_termination(&mut list, Record::Transcriber, self.transcriber, Signal::Terminate);
        push_termination(&mut list, Record::Typing, self.typing, Signal::Terminate);
        push_termination(&mut list, Record::Overlay, self.overlay, Signal::Terminate);
        push_termination(&mut list, Record::SessionOwner, self.owner, Signal::Terminate);
        assert(list@ =~= termination_list(*self));
        list
    }

    /// After the terminations: the cancelled owner's recovery files are
    /// discarded; the runtime state is cleared for the owner (or, without an
    /// owner, the recorder) once that process is gone.
    pub fn after_terminations(&self, owner_alive: bool, recorder_alive: bool) -> (r: (
        Option<ProcessIdentity>,
        Option<ProcessIdentity>,
    ))
        ensures
            r.0 == self.owner,
            r.1 == match self.owner {
                Some(o) => if owner_alive {
                    None
                } else {
                    Some(o)
                },
                None => match self.recorder {
                    Some(rec) => if recorder_alive {
                        None
                    } else {
                        Some(rec)
                    },
                    None => None,
                },
            },
    {
        let clear = match self.owner {
            Some(o) => if owner_alive {
                None
            } else {
                Some(o)
            },
            None => match self.recorder {
                Some(rec) => if recorder_alive {
                    None
                } else {
                    Some(rec)
                },
                None => None,
            },
        };
        (self.owner, clear)
    }
}

/// What repairing orphans stops: without a live session owner, the session
/// recorder record is dropped and any transcriber or paste process is
/// stopped; without a live owner or recorder, any overlay is stopped too.
pub fn orphan_repair(owner_alive: bool, recorder_alive: bool) -> (r: (bool, bool))
    ensures
        r.0 == !owner_alive,
        r.1 == (!owner_alive && !recorder_alive),
{
    (!owner_alive, !owner_alive && !recorder_alive)
}

/// Cleanup of a session whose owner died: nothing unless the owner record
/// still names that owner; the live recorder is stopped only when it is the
/// session's own recorder.
pub open spec fn abandoned_cleanup_for(
    owner_record: Option<ProcessIdentity>,
    owner: ProcessIdentity,
    session_recorder: Option<ProcessIdentity>,
    recorder_record: Option<ProcessIdentity>,
) -> Option<bool> {
    if owner_record != Some(owner) {
        None
    } else {
        Some(session_recorder is Some && recorder_record == session_recorder)
    }
}

/// A supervisor whose owner is no longer the recorded session owner cleans
/// up nothing, so a stale supervisor never touches a newer session.
pub proof fn lemma_stale_supervisor_cleans_nothing(
    owner_record: Option<ProcessIdentity>,
    owner: ProcessIdentity,
    session_recorder: Option<ProcessIdentity>,
    recorder_record: Option<ProcessIdentity>,
)
    requires
        owner_record != Some(owner),
    ensures
        abandoned_cleanup_for(owner_record, owner, session_recorder, recorder_record) is None,
{
}

pub fn abandoned_cleanup(
    owner_record: Option<ProcessIdentity>,
    owner: ProcessIdentity,
    session_recorder: Option<ProcessIdentity>,
    recorder_record: Option<ProcessIdentity>,
) -> (r: Option<bool>)
    ensures
        r == abandoned_cleanup_for(owner_record, owner, session_recorder, recorder_record),
{
    let owns = match owner_record {
        Some(o) => o == owner,
        None => false,
    };
    if !owns {
        return None;
    }
    let stop_recorder = match (session_recorder, recorder_record) {
        (Some(s), Some(r)) => s == r,
        _ => false,
    };
    Some(stop_recorder)
}

/// The cleanup that a dictation session owes when it ends, whichever way it
/// ends.
#[derive(Debug, Clone, Copy, PartialEq, Eq, Structural)]
pub struct SessionCleanup {
    pub owner: ProcessIdentity,
    pub overlay: Option<ProcessIdentity>,
    pub transcriber: Option<ProcessIdentity>,
    pub typing: Option<ProcessIdentity>,
    /// Whether the recovery files exist.
    pub recovery: bool,
    pub preserve_source_audio: bool,
    pub preserve_recovery: bool,
}

/// One step of the cleanup that runs while the session still owns the
/// runtime directory.
#[derive(Debug, Clone, Copy, PartialEq, Eq, Structural)]
pub enum OwnedCleanup {
    RemoveOwnerRecord,
    RemoveSessionRecorder,
    ClearRuntimeState,
    RemoveCancelRecord,
    RemoveSourceAudio,
    RemoveTranscript,
    RemoveRecovery,
}

pub open spec fn owned_cleanup_list(c: SessionCleanup) -> Seq<OwnedCleanup> {
    seq![
        OwnedCleanup::RemoveOwnerRecord,
        OwnedCleanup::RemoveSessionRecorder,
        OwnedCleanup::ClearRuntimeState,
        OwnedCleanup::RemoveCancelRecord,
    ] + (if !c.preserve_source_audio {
        seq![OwnedCleanup::RemoveSourceAudio]
    } else {
        Seq::empty()
    }) + seq![OwnedCleanup::RemoveTranscript] + (if !c.preserve_recovery && c.recovery {
        seq![OwnedCleanup::RemoveRecovery]
    } else {
        Seq::empty()
    })
}

/// The removals of the owned cleanup, given the identity that the owner
/// record holds.
pub open spec fn owned_steps_for(c: SessionCleanup, owner_record: Option<ProcessIdentity>) -> Seq<
    OwnedCleanup,
> {
    if owner_record == Some(c.owner) {
        owned_cleanup_list(c)
    } else {
        Seq::empty()
    }
}

/// A session whose owner record no longer names it (another owner took
/// over, or the record is gone) removes nothing; one that still owns the
/// record removes its owner record.
pub proof fn lemma_owned_cleanup_needs_ownership(
    c: SessionCleanup,
    owner_record: Option<ProcessIdentity>,
)
    ensures
        owner_record != Some(c.owner) ==> owned_steps_for(c, owner_record).len() == 0,
        owner_record == Some(c.owner) ==> owned_steps_for(c, owner_record).contains(
            OwnedCleanup::RemoveOwnerRecord,
        ) && owned_steps_for(c, owner_record) == owned_cleanup_list(c),
{
    if owner_record == Some(c.owner) {
        lemma_owned_cleanup_removes(c);
    }
}

/// What the owned cleanup removes: the owner, session-recorder, runtime-state
/// and cancel records and the transcript always; the source audio unless it
/// is preserved; the recovery files exactly when they exist and are not
/// preserved, so a session whose transcription failed keeps them. No step
/// comes twice.
pub proof fn lemma_owned_cleanup_removes(c: SessionCleanup)
    ensures
        owned_cleanup_list(c).contains(OwnedCleanup::RemoveRecovery) <==> (c.recovery
            && !c.preserve_recovery),
        c.preserve_recovery ==> !owned_cleanup_list(c).contains(OwnedCleanup::RemoveRecovery),
        owned_cleanup_list(c).contains(OwnedCleanup::RemoveSourceAudio)
            <==> !c.preserve_source_audio,
        owned_cleanup_list(c).contains(OwnedCleanup::RemoveOwnerRecord),
        owned_cleanup_list(c).contains(OwnedCleanup::RemoveSessionRecorder),
        owned_cleanup_list(c).contains(OwnedCleanup::ClearRuntimeState),
        owned_cleanup_list(c).contains(OwnedCleanup::RemoveCancelRecord),
        owned_cleanup_list(c).contains(OwnedCleanup::RemoveTranscript),
        forall|j: int, k: int|
            0 <= j < k < owned_cleanup_list(c).len() ==> owned_cleanup_list(c)[j]
                != owned_cleanup_list(c)[k],
{
    let l = owned_cleanup_list(c);
    let head = seq![
        OwnedCleanup::RemoveOwnerRecord,
        OwnedCleanup::RemoveSessionRecorder,
        OwnedCleanup::ClearRuntimeState,
        OwnedCleanup::RemoveCancelRecord,
    ];
    let audio = if !c.preserve_source_audio {
        seq![OwnedCleanup::RemoveSourceAudio]
    } else {
        Seq::empty()
    };
    let recovery = if !c.preserve_recovery && c.recovery {
        seq![OwnedCleanup::RemoveRecovery]
    } else {
        Seq::empty()
    };
    let expected = head + audio + seq![OwnedCleanup::RemoveTranscript] + recovery;
    assert(l == expected);
    assert(l[0] == OwnedCleanup::RemoveOwnerRecord);
    assert(l[1] == OwnedCleanup::RemoveSessionRecorder);
    assert(l[2] == OwnedCleanup::ClearRuntimeState);
    assert(l[3] == OwnedCleanup::RemoveCancelRecord);
    let t: int = 4 + audio.len() as int;
    assert(l[t] == OwnedCleanup::RemoveTranscript);
    if !c.preserve_source_audio {
        assert(l[4] == OwnedCleanup::RemoveSourceAudio);
    } else {
        assert(forall|j: int| 0 <= j < l.len() ==> l[j] != OwnedCleanup::RemoveSourceAudio);
    }
    if c.recovery && !c.preserve_recovery {
        assert(l[t + 1] == OwnedCleanup::RemoveRecovery);
    } else {
        assert(forall|j: int| 0 <= j < l.len() ==> l[j] != OwnedCleanup::RemoveRecovery);
    }
}

impl SessionCleanup {
    /// The cleanup of a fresh session owned by `owner`: source audio kept
    /// until it is handed to recovery.
    pub fn new(owner: ProcessIdentity, overlay: Option<ProcessIdentity>) -> (c: SessionCleanup)
        ensures
            c == (SessionCleanup {
                owner,
                overlay,
                transcriber: None,
                typing: None,
                recovery: false,
                preserve_source_audio: true,
                preserve_recovery: false,
            }),
    {
        SessionCleanup {
            owner,
            overlay,
            transcriber: None,
            typing: None,
            recovery: false,
            preserve_source_audio: true,
            preserve_recovery: false,
        }
    }

    /// The helper processes to stop first: the transcriber, the paste
    /// process and the overlay, each only if its record still names it.
    pub fn terminations(&self) -> (list: Vec<Termination>)
        ensures
            list@ == (match self.transcriber {
                Some(i) => seq![Termination { record: Record::Transcriber, identity: i, signal: Signal::Terminate }],
                None => Seq::<Termination>::empty(),
            }) + (match self.typing {
                Some(i) => seq![Termination { record: Record::Typing, identity: i, signal: Signal::Terminate }],
                None => Seq::<Termination>::empty(),
            }) + (match self.overlay {
                Some(i) => seq![Termination { record: Record::Overlay, identity: i, signal: Signal::Terminate }],
                None => Seq::<Termination>::empty(),
            }),
    {
        let mut list: Vec<Termination> = Vec::new();
        push_termination(&mut list, Record::Transcriber, self.transcriber, Signal::Terminate);
        push_termination(&mut list, Record::Typing, self.typing, Signal::Terminate);
        push_termination(&mut list, Record::Overlay, self.overlay, Signal::Terminate);
        assert(Seq::<Termination>::empty() + (match self.transcriber {
            Some(i) => seq![Termination { record: Record::Transcriber, identity: i, signal: Signal::Terminate }],
            None => Seq::<Termination>::empty(),
        }) =~= (match self.transcriber {
            Some(i) => seq![Termination { record: Record::Transcriber, identity: i, signal: Signal::Terminate }],
            None => Seq::<Termination>::empty(),
        }));
        list
    }

    /// The removals performed while the session still owns the runtime
    /// directory, given the identity that the owner record holds: with
    /// another owner (or none) in place nothing is removed.
    pub fn owned_steps(&self, owner_record: Option<ProcessIdentity>) -> (list: Vec<OwnedCleanup>)
        ensures
            list@ == owned_steps_for(*self, owner_record),
    {
        let mut list: Vec<OwnedCleanup> = Vec::new();
        let owns = match owner_record {
            Some(o) => o.pid == self.owner.pid && o.start_time == self.owner.start_time,
            None => false,
        };
        if !owns {
            return list;
        }
        list.push(OwnedCleanup::RemoveOwnerRecord);
        list.push(OwnedCleanup::RemoveSessionRecorder);
        list.push(OwnedCleanup::ClearRuntimeState);
        list.push(OwnedCleanup::RemoveCancelRecord);
        if !self.preserve_source_audio {
            list.push(OwnedCleanup::RemoveSourceAudio);
        }
        list.push(OwnedCleanup::RemoveTranscript);
        if !self.preserve_recovery && self.recovery {
            list.push(OwnedCleanup::RemoveRecovery);
        }
        assert(list@ =~= owned_cleanup_list(*self));
        list
    }
}

/// What a session watcher does next: keep waiting while both the overlay
/// and the recorder live; cancel the recording when only the overlay has
/// gone; stop otherwise.
#[derive(Debug, Clone, Copy, PartialEq, Eq, Structural)]
pub enum WatchStep {
    Wait,
    CancelRecording,
    Finish,
}

pub fn watch_step(overlay_alive: bool, recorder_alive: bool) -> (s: WatchStep)
    ensures
        s == (if overlay_alive && recorder_alive {
            WatchStep::Wait
        } else if !overlay_alive && recorder_alive {
            WatchStep::CancelRecording
        } else {
            WatchStep::Finish
        }),
{
    if overlay_alive && recorder_alive {
        WatchStep::Wait
    } else if !overlay_alive && recorder_alive {
        WatchStep::CancelRecording
    } else {
        WatchStep::Finish
    }
}

/// What waiting for a child does next.
#[derive(Debug, Clone, Copy, PartialEq, Eq, Structural)]
pub enum WaitStep {
    /// The child exited; report its status.
    Report,
    /// Cancellation was requested; stop and reap the child.
    StopCancelled,
    /// The time limit passed; stop the child and fail.
    StopTimedOut,
    /// Poll again.
    Poll,
}

/// An exited child is reported; otherwise cancellation wins over the time
/// limit.
pub fn wait_step(exited: bool, cancelled: bool, deadline_passed: bool) -> (s: WaitStep)
    ensures
        s == (if exited {
            WaitStep::Report
        } else if cancelled {
            WaitStep::StopCancelled
        } else if deadline_passed {
            WaitStep::StopTimedOut
        } else {
            WaitStep::Poll
        }),
{
    if exited {
        WaitStep::Report
    } else if cancelled {
        WaitStep::StopCancelled
    } else if deadline_passed {
        WaitStep::StopTimedOut
    } else {
        WaitStep::Poll
    }
}

/// The exit status of `--preview`: the overlay's exit code truncated to a
/// byte, or 0 when it was ended by a signal.
pub fn preview_exit_code(code: Option<i32>) -> (c: u8)
    ensures
        c == match code {
            Some(v) => v as u8,
            None => 0u8,
        },
{
    match code {
        Some(v) => #[verifier::truncate] (v as u8),
        None => 0,
    }
}

// ---------------------------------------------------------------------------
// Clipboard
// ---------------------------------------------------------------------------

/// A clipboard writer: the program and its arguments; the text goes to its
/// standard input.
#[derive(Debug, Clone)]
pub struct ClipboardCommand {
    pub program: String,
    pub args: Vec<String>,
}

pub open spec fn clipboard_plan(wl_copy: Option<Seq<char>>, xclip: Option<Seq<char>>) -> Seq<
    (Seq<char>, Seq<Seq<char>>),
> {
    (match wl_copy {
        Some(w) => seq![(w, Seq::<Seq<char>>::empty())],
        None => Seq::empty(),
    }) + (match xclip {
        Some(x) => seq![(x, seq!["-selection"@, "clipboard"@, "-in"@])],
        None => Seq::empty(),
    })
}

pub open spec fn clipboard_view(c: ClipboardCommand) -> (Seq<char>, Seq<Seq<char>>) {
    (c.program@, c.args@.map_values(|a: String| a@))
}

/// The clipboard writers to try, in order: `wl-copy`, then `xclip` on the
/// clipboard selection; each only where it was found.
pub fn clipboard_commands(wl_copy: Option<String>, xclip: Option<String>) -> (c: Vec<
    ClipboardCommand,
>)
    ensures
        c@.map_values(|x: ClipboardCommand| clipboard_view(x)) == clipboard_plan(
            option_view(wl_copy),
            option_view(xclip),
        ),
{
    let mut c: Vec<ClipboardCommand> = Vec::new();
    if let Some(w) = wl_copy {
        let args: Vec<String> = Vec::new();
        assert(args@.map_values(|a: String| a@) =~= Seq::<Seq<char>>::empty());
        c.push(ClipboardCommand { program: w, args });
    }
    let ghost first = c@;
    if let Some(x) = xclip {
        let mut args: Vec<String> = Vec::new();
        args.push(string_from(&chars_of("-selection")));
        args.push(string_from(&chars_of("clipboard")));
        args.push(string_from(&chars_of("-in")));
        assert(args@.map_values(|a: String| a@) =~= seq!["-selection"@, "clipboard"@, "-in"@]);
        c.push(ClipboardCommand { program: x, args });
    }
    assert(c@.map_values(|x: ClipboardCommand| clipboard_view(x)) =~= clipboard_plan(
        option_view(wl_copy),
        option_view(xclip),
    ));
    c
}

/// The failure when no clipboard writer succeeded: the last writer's error,
/// or, when none was found, that neither is installed.
pub fn clipboard_failure(last_error: Option<Failure>) -> (f: Failure)
    ensures
        match last_error {
            Some(e) => f@ == e@,
            None => f.kind == FailureKind::NotFound && f.message@
                == "neither wl-copy nor xclip was found"@,
        },
{
    match last_error {
        Some(e) => e,
        None => Failure::new(FailureKind::NotFound, "neither wl-copy nor xclip was found"),
    }
}

// ---------------------------------------------------------------------------
// Status
// ---------------------------------------------------------------------------

/// The status JSON document of the desktop protocol.
#[derive(Debug, Clone, PartialEq, Eq)]
pub struct StatusDocument {
    pub schema_version: u8,
    pub state: String,
    pub extension_active: bool,
    pub ubuntu: String,
    pub gnome_shell: String,
}

/// The status document: the active stage or `idle`.
pub fn status_document(
    state: Option<String>,
    extension_active: bool,
    ubuntu: String,
    gnome_shell: String,
) -> (d: StatusDocument)
    ensures
        d.schema_version == 1,
        d.state@ == match state {
            Some(s) => s@,
            None => "idle"@,
        },
        d.extension_active == extension_active,
        d.ubuntu == ubuntu,
        d.gnome_shell == gnome_shell,
{
    let state = match state {
        Some(s) => s,
        None => string_from(&chars_of("idle")),
    };
    StatusDocument { schema_version: 1, state, extension_active, ubuntu, gnome_shell }
}

/// `str::trim_matches('"')`.
pub open spec fn trim_quotes(s: Seq<char>) -> Seq<char>
    decreases s.len(),
{
    if s.len() > 0 && s[0] == '"' {
        trim_quotes(s.drop_first())
    } else if s.len() > 0 && s.last() == '"' {
        trim_quotes(s.drop_last())
    } else {
        s
    }
}

fn strip_quotes(s: &Vec<char>) -> (out: Vec<char>)
    ensures
        out@ == trim_quotes(s@),
{
    let mut i: usize = 0;
    let mut j: usize = s.len();
    assert(s@.subrange(0, s@.len() as int) =~= s@);
    while i < j && (s[i] == '"' || s[j - 1] == '"')
        invariant
            i <= j <= s@.len(),
            trim_quotes(s@.subrange(i as int, j as int)) == trim_quotes(s@),
        decreases j - i,
    {
        let ghost t = s@.subrange(i as int, j as int);
        if s[i] == '"' {
            assert(t.drop_first() =~= s@.subrange(i + 1, j as int));
            i = i + 1;
        } else {
            assert(t.last() == s@[j - 1]);
            assert(t.drop_last() =~= s@.subrange(i as int, j - 1));
            j = j - 1;
        }
    }
    proof {
        let t = s@.subrange(i as int, j as int);
        if i < j {
            assert(t[0] == s@[i as int]);
            assert(t.last() == s@[j - 1]);
        }
    }
    slice_chars(s, i, j)
}

/// The first of a list of lines that starts with `VERSION_ID=`.
pub open spec fn first_version_line(ls: Seq<Seq<char>>) -> Option<Seq<char>>
    decreases ls.len(),
{
    if ls.len() == 0 {
        None
    } else if has_prefix(ls[0], "VERSION_ID="@) {
        Some(ls[0])
    } else {
        first_version_line(ls.drop_first())
    }
}

/// The Ubuntu version in `/etc/os-release`: the first `VERSION_ID=` line
/// without its quotes, or `unknown`.
pub open spec fn os_release_version_of(text: Option<Seq<char>>) -> Seq<char> {
    match text {
        Some(t) => match first_version_line(lines(t)) {
            Some(line) => trim_quotes(line.skip(11)),
            None => "unknown"@,
        },
        None => "unknown"@,
    }
}

pub fn os_release_version(text: Option<&str>) -> (v: String)
    ensures
        v@ == os_release_version_of(
            match text {
                Some(t) => Some(t@),
                None => None,
            },
        ),
{
    let t = match text {
        Some(t) => t,
        None => {
            return string_from(&chars_of("unknown"));
        },
    };
    let all = lines_of(&chars_of(t));
    let prefix = chars_of("VERSION_ID=");
    proof {
        reveal_strlit("VERSION_ID=");
    }
    let ghost ls = lines(t@);
    let mut k: usize = 0;
    assert(ls.skip(0) =~= ls);
    while k < all.len()
        invariant
            k <= all@.len(),
            prefix@ == "VERSION_ID="@,
            "VERSION_ID="@.len() == 11,
            ls == lines(t@),
            text == Some(t),
            all@.len() == ls.len(),
            forall|m: int| 0 <= m < all@.len() ==> (#[trigger] all@[m])@ == ls[m],
            first_version_line(ls.skip(k as int)) == first_version_line(ls),
        decreases all@.len() - k,
    {
        let ghost rest_lines = ls.skip(k as int);
        assert(rest_lines[0] == ls[k as int]);
        if starts_with(&all[k], &prefix) {
            let rest = slice_chars(&all[k], 11, all[k].len());
            assert(rest@ =~= all@[k as int]@.skip(11));
            return string_from(&strip_quotes(&rest));
        }
        assert(rest_lines.drop_first() =~= ls.skip(k + 1));
        k = k + 1;
    }
    assert(ls.skip(k as int) =~= Seq::<Seq<char>>::empty());
    string_from(&chars_of("unknown"))
}

/// The GNOME Shell version from `gnome-shell --version`: its last word, or
/// `unknown` when the command failed or printed nothing.
pub open spec fn gnome_shell_version_of(output: Option<Seq<char>>) -> Seq<char> {
    match output {
        Some(o) => if words(o).len() > 0 {
            words(o).last()
        } else {
            "unknown"@
        },
        None => "unknown"@,
    }
}

pub fn gnome_shell_version(output: Option<&str>) -> (v: String)
    ensures
        v@ == gnome_shell_version_of(
            match output {
                Some(o) => Some(o@),
                None => None,
            },
        ),
{
    match output {
        Some(o) => {
            let all = words_of(&chars_of(o));
            if all.len() > 0 {
                string_from(&all[all.len() - 1])
            } else {
                string_from(&chars_of("unknown"))
            }
        },
        None => string_from(&chars_of("unknown")),
    }
}

} // verus!
