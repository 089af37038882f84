//! The command-line grammar of the desktop protocol.
use vstd::prelude::*;

use crate::failure::{invalid_input, Failure, FailureKind};
use crate::process_identity::ProcessIdentity;
use crate::text::{
    chars_of, decimal_text, extend_chars, format_i64, format_u64, is_text, lemma_decimal_round_trip,
    parse_i32, parse_i64, parse_u64, parse_usize, spec_parse_i32, spec_parse_i64, spec_parse_u64,
    spec_parse_usize, string_from,
};
use crate::{Command, CommandView};

verus! {

/// An argument that holds a number and did not parse.
#[derive(Debug, Clone, Copy, PartialEq, Eq, Structural)]
pub enum NumericArgument {
    RecorderPid,
    RecorderStartTime,
    OverlayPid,
    OverlayStartTime,
    OwnerPid,
    OwnerStartTime,
    HistoryOffset,
    HistoryLimit,
    TranscriptId,
}

/// Why a command line was rejected.
#[derive(Debug, Clone, PartialEq, Eq)]
pub enum ArgumentError {
    Invalid(NumericArgument),
    HistoryUsage,
    SettingsUsage,
    Unknown(String),
}

pub enum ArgumentErrorView {
    Invalid(NumericArgument),
    HistoryUsage,
    SettingsUsage,
    Unknown(Seq<char>),
}

impl View for ArgumentError {
    type V = ArgumentErrorView;

    open spec fn view(&self) -> ArgumentErrorView {
        match self {
            ArgumentError::Invalid(a) => ArgumentErrorView::Invalid(*a),
            ArgumentError::HistoryUsage => ArgumentErrorView::HistoryUsage,
            ArgumentError::SettingsUsage => ArgumentErrorView::SettingsUsage,
            ArgumentError::Unknown(flag) => ArgumentErrorView::Unknown(flag@),
        }
    }
}

/// The text printed for a numeric argument that did not parse.
pub open spec fn numeric_argument_message(a: NumericArgument) -> Seq<char> {
    match a {
        NumericArgument::RecorderPid => "invalid recorder PID"@,
        NumericArgument::RecorderStartTime => "invalid recorder start time"@,
        NumericArgument::OverlayPid => "invalid overlay PID"@,
        NumericArgument::OverlayStartTime => "invalid overlay start time"@,
        NumericArgument::OwnerPid => "invalid owner PID"@,
        NumericArgument::OwnerStartTime => "invalid owner start time"@,
        NumericArgument::HistoryOffset => "history offset must be an integer"@,
        NumericArgument::HistoryLimit => "history limit must be an integer"@,
        NumericArgument::TranscriptId => "transcript id must be an integer"@,
    }
}

/// The text printed for a rejected command line.
pub open spec fn argument_error_message(e: ArgumentErrorView) -> Seq<char> {
    match e {
        ArgumentErrorView::Invalid(a) => numeric_argument_message(a),
        ArgumentErrorView::HistoryUsage => "usage: codex-voice history list <offset> <limit> [query]|delete <id>|clear|has"@,
        ArgumentErrorView::SettingsUsage => "usage: codex-voice settings get|reset|set <key> <value>"@,
        ArgumentErrorView::Unknown(flag) => "unknown argument `"@ + flag + "`"@,
    }
}

impl ArgumentError {
    /// The message that the command-line adapter prints, as an invalid-input
    /// failure.
    pub fn to_failure(&self) -> (f: Failure)
        ensures
            f.kind == FailureKind::InvalidInput,
            f.message@ == argument_error_message(self@),
    {
        match self {
            ArgumentError::Invalid(a) => match a {
                NumericArgument::RecorderPid => invalid_input("invalid recorder PID"),
                NumericArgument::RecorderStartTime => invalid_input("invalid recorder start time"),
                NumericArgument::OverlayPid => invalid_input("invalid overlay PID"),
                NumericArgument::OverlayStartTime => invalid_input("invalid overlay start time"),
                NumericArgument::OwnerPid => invalid_input("invalid owner PID"),
                NumericArgument::OwnerStartTime => invalid_input("invalid owner start time"),
                NumericArgument::HistoryOffset => invalid_input("history offset must be an integer"),
                NumericArgument::HistoryLimit => invalid_input("history limit must be an integer"),
                NumericArgument::TranscriptId => invalid_input("transcript id must be an integer"),
            },
            ArgumentError::HistoryUsage => invalid_input(
                "usage: codex-voice history list <offset> <limit> [query]|delete <id>|clear|has",
            ),
            ArgumentError::SettingsUsage => invalid_input(
                "usage: codex-voice settings get|reset|set <key> <value>",
            ),
            ArgumentError::Unknown(flag) => {
                let mut text = chars_of("unknown argument `");
                extend_chars(&mut text, &chars_of(flag.as_str()));
                extend_chars(&mut text, &chars_of("`"));
                Failure::with_text(FailureKind::InvalidInput, &text)
            },
        }
    }
}

/// A numeric field: its parsed value or the argument that failed.
pub open spec fn pid_field(s: Seq<char>, which: NumericArgument) -> Result<i32, ArgumentErrorView> {
    match spec_parse_i32(s) {
        Some(v) => Ok(v),
        None => Err(ArgumentErrorView::Invalid(which)),
    }
}

pub open spec fn time_field(s: Seq<char>, which: NumericArgument) -> Result<
    u64,
    ArgumentErrorView,
> {
    match spec_parse_u64(s) {
        Some(v) => Ok(v),
        None => Err(ArgumentErrorView::Invalid(which)),
    }
}

pub open spec fn history_list(
    offset: Seq<char>,
    limit: Seq<char>,
    query: Seq<char>,
) -> Result<CommandView, ArgumentErrorView> {
    match spec_parse_usize(offset) {
        None => Err(ArgumentErrorView::Invalid(NumericArgument::HistoryOffset)),
        Some(o) => match spec_parse_usize(limit) {
            None => Err(ArgumentErrorView::Invalid(NumericArgument::HistoryLimit)),
            Some(l) => Ok(CommandView::HistoryList { offset: o, limit: l, query }),
        },
    }
}

/// The command that an argument list (without the program name) selects,
/// or why it is rejected.  Arms are tried in order, as the CLI documents.
pub open spec fn command_for(args: Seq<Seq<char>>) -> Result<CommandView, ArgumentErrorView> {
    let n = args.len();
    if n == 0 {
        Ok(CommandView::Toggle)
    } else if n == 1 && args[0] == "--toggle"@ {
        Ok(CommandView::Toggle)
    } else if n == 1 && args[0] == "--start"@ {
        Ok(CommandView::Start)
    } else if n == 1 && args[0] == "--stop"@ {
        Ok(CommandView::Stop)
    } else if n == 1 && args[0] == "--cancel"@ {
        Ok(CommandView::Cancel)
    } else if n == 3 && args[0] == "--cancel-recording"@ {
        match pid_field(args[1], NumericArgument::RecorderPid) {
            Err(e) => Err(e),
            Ok(pid) => match time_field(args[2], NumericArgument::RecorderStartTime) {
                Err(e) => Err(e),
                Ok(start) => Ok(
                    CommandView::CancelRecording { recorder_pid: pid, recorder_start_time: start },
                ),
            },
        }
    } else if n == 1 && args[0] == "--status"@ {
        Ok(CommandView::Status)
    } else if n == 1 && args[0] == "--settings"@ {
        Ok(CommandView::LaunchSettings)
    } else if n == 1 && args[0] == "--preview"@ {
        Ok(CommandView::Preview)
    } else if n == 1 && args[0] == "--close-preview"@ {
        Ok(CommandView::ClosePreview)
    } else if n == 1 && args[0] == "--version"@ {
        Ok(CommandView::Version)
    } else if n == 1 && args[0] == "--copy-last"@ {
        Ok(CommandView::CopyLastTranscript)
    } else if n == 5 && args[0] == "--watch-session"@ {
        match pid_field(args[1], NumericArgument::OverlayPid) {
            Err(e) => Err(e),
            Ok(overlay_pid) => match time_field(args[2], NumericArgument::OverlayStartTime) {
                Err(e) => Err(e),
                Ok(overlay_start_time) => match pid_field(args[3], NumericArgument::RecorderPid) {
                    Err(e) => Err(e),
                    Ok(recorder_pid) => match time_field(
                        args[4],
                        NumericArgument::RecorderStartTime,
                    ) {
                        Err(e) => Err(e),
                        Ok(recorder_start_time) => Ok(
                            CommandView::WatchSession {
                                overlay_pid,
                                overlay_start_time,
                                recorder_pid,
                                recorder_start_time,
                            },
                        ),
                    },
                },
            },
        }
    } else if n == 3 && args[0] == "--supervise-owner"@ {
        match pid_field(args[1], NumericArgument::OwnerPid) {
            Err(e) => Err(e),
            Ok(pid) => match time_field(args[2], NumericArgument::OwnerStartTime) {
                Err(e) => Err(e),
                Ok(start) => Ok(
                    CommandView::SuperviseOwner { owner_pid: pid, owner_start_time: start },
                ),
            },
        }
    } else if n == 2 && args[0] == "settings"@ && args[1] == "get"@ {
        Ok(CommandView::SettingsGet)
    } else if n == 2 && args[0] == "settings"@ && args[1] == "reset"@ {
        Ok(CommandView::SettingsReset)
    } else if n == 4 && args[0] == "settings"@ && args[1] == "set"@ {
        Ok(CommandView::SettingsSet { key: args[2], value: args[3] })
    } else if n == 4 && args[0] == "history"@ && args[1] == "list"@ {
        history_list(args[2], args[3], Seq::empty())
    } else if n == 5 && args[0] == "history"@ && args[1] == "list"@ {
        history_list(args[2], args[3], args[4])
    } else if n == 3 && args[0] == "history"@ && args[1] == "delete"@ {
        match spec_parse_i64(args[2]) {
            None => Err(ArgumentErrorView::Invalid(NumericArgument::TranscriptId)),
            Some(id) => Ok(CommandView::HistoryDelete { id }),
        }
    } else if n == 2 && args[0] == "history"@ && args[1] == "clear"@ {
        Ok(CommandView::HistoryClear)
    } else if n == 2 && args[0] == "history"@ && args[1] == "has"@ {
        Ok(CommandView::HistoryHasEntries)
    } else if args[0] == "history"@ {
        Err(ArgumentErrorView::HistoryUsage)
    } else if args[0] == "settings"@ {
        Err(ArgumentErrorView::SettingsUsage)
    } else {
        Err(ArgumentErrorView::Unknown(args[0]))
    }
}

/// The views of the strings of an argument list.
pub open spec fn arg_views(args: Seq<String>) -> Seq<Seq<char>> {
    args.map_values(|a: String| a@)
}

pub open spec fn result_view(r: Result<Command, ArgumentError>) -> Result<
    CommandView,
    ArgumentErrorView,
> {
    match r {
        Ok(c) => Ok(c@),
        Err(e) => Err(e@),
    }
}

fn parse_pid(s: &Vec<char>, which: NumericArgument) -> (r: Result<i32, ArgumentError>)
    ensures
        match r {
            Ok(v) => pid_field(s@, which) == Ok::<i32, ArgumentErrorView>(v),
            Err(e) => pid_field(s@, which) == Err::<i32, ArgumentErrorView>(e@),
        },
{
    match parse_i32(s) {
        Some(v) => Ok(v),
        None => Err(ArgumentError::Invalid(which)),
    }
}

fn parse_time(s: &Vec<char>, which: NumericArgument) -> (r: Result<u64, ArgumentError>)
    ensures
        match r {
            Ok(v) => time_field(s@, which) == Ok::<u64, ArgumentErrorView>(v),
            Err(e) => time_field(s@, which) == Err::<u64, ArgumentErrorView>(e@),
        },
{
    match parse_u64(s) {
        Some(v) => Ok(v),
        None => Err(ArgumentError::Invalid(which)),
    }
}

fn parse_history_list(offset: &Vec<char>, limit: &Vec<char>, query: &Vec<char>) -> (r: Result<
    Command,
    ArgumentError,
>)
    ensures
        result_view(r) == history_list(offset@, limit@, query@),
{
    let offset = match parse_usize(offset) {
        Some(v) => v,
        None => {
            return Err(ArgumentError::Invalid(NumericArgument::HistoryOffset));
        },
    };
    let limit = match parse_usize(limit) {
        Some(v) => v,
        None => {
            return Err(ArgumentError::Invalid(NumericArgument::HistoryLimit));
        },
    };
    Ok(Command::HistoryList { offset, limit, query: string_from(query) })
}

/// Reads the command that an argument list (without the program name)
/// selects.
pub fn parse_args(args: &[String]) -> (r: Result<Command, ArgumentError>)
    ensures
        result_view(r) == command_for(arg_views(args@)),
{
    let ghost views = arg_views(args@);
    let mut a: Vec<Vec<char>> = Vec::new();
    let mut i: usize = 0;
    while i < args.len()
        invariant
            i <= args@.len(),
            views == arg_views(args@),
            a@.len() == i,
            forall|k: int| 0 <= k < i ==> (#[trigger] a@[k])@ == views[k],
        decreases args@.len() - i,
    {
        a.push(chars_of(args[i].as_str()));
        i = i + 1;
    }
    let n = a.len();
    assert(n == views.len());
    if n == 0 {
        return Ok(Command::Toggle);
    }
    let first = &a[0];
    if n == 1 && is_text(first, "--toggle") {
        Ok(Command::Toggle)
    } else if n == 1 && is_text(first, "--start") {
        Ok(Command::Start)
    } else if n == 1 && is_text(first, "--stop") {
        Ok(Command::Stop)
    } else if n == 1 && is_text(first, "--cancel") {
        Ok(Command::Cancel)
    } else if n == 3 && is_text(first, "--cancel-recording") {
        let pid = parse_pid(&a[1], NumericArgument::RecorderPid)?;
        let start = parse_time(&a[2], NumericArgument::RecorderStartTime)?;
        Ok(Command::CancelRecording { recorder_pid: pid, recorder_start_time: start })
    } else if n == 1 && is_text(first, "--status") {
        Ok(Command::Status)
    } else if n == 1 && is_text(first, "--settings") {
        Ok(Command::LaunchSettings)
    } else if n == 1 && is_text(first, "--preview") {
        Ok(Command::Preview)
    } else if n == 1 && is_text(first, "--close-preview") {
        Ok(Command::ClosePreview)
    } else if n == 1 && is_text(first, "--version") {
        Ok(Command::Version)
    } else if n == 1 && is_text(first, "--copy-last") {
        Ok(Command::CopyLastTranscript)
    } else if n == 5 && is_text(first, "--watch-session") {
        let overlay_pid = parse_pid(&a[1], NumericArgument::OverlayPid)?;
        let overlay_start_time = parse_time(&a[2], NumericArgument::OverlayStartTime)?;
        let recorder_pid = parse_pid(&a[3], NumericArgument::RecorderPid)?;
        let recorder_start_time = parse_time(&a[4], NumericArgument::RecorderStartTime)?;
        Ok(
            Command::WatchSession {
                overlay_pid,
                overlay_start_time,
                recorder_pid,
                recorder_start_time,
            },
        )
    } else if n == 3 && is_text(first, "--supervise-owner") {
        let pid = parse_pid(&a[1], NumericArgument::OwnerPid)?;
        let start = parse_time(&a[2], NumericArgument::OwnerStartTime)?;
        Ok(Command::SuperviseOwner { owner_pid: pid, owner_start_time: start })
    } else if n == 2 && is_text(first, "settings") && is_text(&a[1], "get") {
        Ok(Command::SettingsGet)
    } else if n == 2 && is_text(first, "settings") && is_text(&a[1], "reset") {
        Ok(Command::SettingsReset)
    } else if n == 4 && is_text(first, "settings") && is_text(&a[1], "set") {
        Ok(Command::SettingsSet { key: string_from(&a[2]), value: string_from(&a[3]) })
    } else if n == 4 && is_text(first, "history") && is_text(&a[1], "list") {
        let empty: Vec<char> = Vec::new();
        assert(empty@ =~= Seq::<char>::empty());
        parse_history_list(&a[2], &a[3], &empty)
    } else if n == 5 && is_text(first, "history") && is_text(&a[1], "list") {
        parse_history_list(&a[2], &a[3], &a[4])
    } else if n == 3 && is_text(first, "history") && is_text(&a[1], "delete") {
        match parse_i64(&a[2]) {
            Some(id) => Ok(Command::HistoryDelete { id }),
            None => Err(ArgumentError::Invalid(NumericArgument::TranscriptId)),
        }
    } else if n == 2 && is_text(first, "history") && is_text(&a[1], "clear") {
        Ok(Command::HistoryClear)
    } else if n == 2 && is_text(first, "history") && is_text(&a[1], "has") {
        Ok(Command::HistoryHasEntries)
    } else if is_text(first, "history") {
        Err(ArgumentError::HistoryUsage)
    } else if is_text(first, "settings") {
        Err(ArgumentError::SettingsUsage)
    } else {
        Err(ArgumentError::Unknown(string_from(first)))
    }
}

// ---------------------------------------------------------------------------
// The command lines that the program hands to its own helper processes
// ---------------------------------------------------------------------------

/// The arguments of the session watchdog for an overlay and a recorder.
pub open spec fn watch_session_line(overlay: ProcessIdentity, recorder: ProcessIdentity) -> Seq<
    Seq<char>,
> {
    seq![
        "--watch-session"@,
        decimal_text(overlay.pid as int),
        decimal_text(overlay.start_time as int),
        decimal_text(recorder.pid as int),
        decimal_text(recorder.start_time as int),
    ]
}

/// The arguments of the supervisor that cleans up after a session owner.
pub open spec fn supervise_owner_line(owner: ProcessIdentity) -> Seq<Seq<char>> {
    seq!["--supervise-owner"@, decimal_text(owner.pid as int), decimal_text(owner.start_time as int)]
}

fn pid_text(pid: i32) -> (s: String)
    ensures
        s@ == decimal_text(pid as int),
{
    string_from(&format_i64(pid as i64))
}

fn time_text(t: u64) -> (s: String)
    ensures
        s@ == decimal_text(t as int),
{
    string_from(&format_u64(t))
}

/// The command line that starts the session watchdog for an overlay and a
/// recorder.
pub fn watch_session_args(overlay: ProcessIdentity, recorder: ProcessIdentity) -> (args: Vec<
    String,
>)
    ensures
        arg_views(args@) == watch_session_line(overlay, recorder),
{
    let mut args: Vec<String> = Vec::new();
    args.push(string_from(&chars_of("--watch-session")));
    args.push(pid_text(overlay.pid));
    args.push(time_text(overlay.start_time));
    args.push(pid_text(recorder.pid));
    args.push(time_text(recorder.start_time));
    assert(arg_views(args@) =~= watch_session_line(overlay, recorder));
    args
}

/// The command line that starts the supervisor of a session owner.
pub fn supervise_owner_args(owner: ProcessIdentity) -> (args: Vec<String>)
    ensures
        arg_views(args@) == supervise_owner_line(owner),
{
    let mut args: Vec<String> = Vec::new();
    args.push(string_from(&chars_of("--supervise-owner")));
    args.push(pid_text(owner.pid));
    args.push(time_text(owner.start_time));
    assert(arg_views(args@) =~= supervise_owner_line(owner));
    args
}

proof fn lemma_pid_round_trip(pid: i32, which: NumericArgument)
    ensures
        pid_field(decimal_text(pid as int), which) == Ok::<i32, ArgumentErrorView>(pid),
{
    lemma_decimal_round_trip(pid as int, true);
}

proof fn lemma_time_round_trip(t: u64, which: NumericArgument)
    ensures
        time_field(decimal_text(t as int), which) == Ok::<u64, ArgumentErrorView>(t),
{
    lemma_decimal_round_trip(t as int, false);
}

/// The watchdog's command line reads back as the watch command for the
/// same overlay and recorder.
pub proof fn lemma_watch_session_line_round_trip(
    overlay: ProcessIdentity,
    recorder: ProcessIdentity,
)
    ensures
        command_for(watch_session_line(overlay, recorder)) == Ok::<
            CommandView,
            ArgumentErrorView,
        >(
            CommandView::WatchSession {
                overlay_pid: overlay.pid,
                overlay_start_time: overlay.start_time,
                recorder_pid: recorder.pid,
                recorder_start_time: recorder.start_time,
            },
        ),
{
    lemma_pid_round_trip(overlay.pid, NumericArgument::OverlayPid);
    lemma_time_round_trip(overlay.start_time, NumericArgument::OverlayStartTime);
    lemma_pid_round_trip(recorder.pid, NumericArgument::RecorderPid);
    lemma_time_round_trip(recorder.start_time, NumericArgument::RecorderStartTime);
}

/// The supervisor's command line reads back as the supervise command for
/// the same owner.
pub proof fn lemma_supervise_owner_line_round_trip(owner: ProcessIdentity)
    ensures
        command_for(supervise_owner_line(owner)) == Ok::<CommandView, ArgumentErrorView>(
            CommandView::SuperviseOwner {
                owner_pid: owner.pid,
                owner_start_time: owner.start_time,
            },
        ),
{
    reveal_strlit("--supervise-owner");
    reveal_strlit("--cancel-recording");
    assert("--supervise-owner"@.len() != "--cancel-recording"@.len());
    lemma_pid_round_trip(owner.pid, NumericArgument::OwnerPid);
    lemma_time_round_trip(owner.start_time, NumericArgument::OwnerStartTime);
}

} // verus!
