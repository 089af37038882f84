//! Codex Voice: push-to-talk dictation for GNOME.
//!
//! This crate holds the product's decisions: the command-line grammar, the
//! settings rules, the runtime-state protocol, the dictation-session state
//! machines and the transcript-history queries.  The executable around it
//! performs the processes, files and database work that the decisions ask for.
use vstd::prelude::*;

pub mod claim_stop;
pub mod cli;
pub mod failure;
pub mod paste_automation;
pub mod process_identity;
pub mod product_package;
pub mod protocol;
pub mod runtime_state;
pub mod session;
pub mod start_recording;
pub mod stop_recording;
pub mod settings;
pub mod text;
pub mod transcript_history;

use crate::failure::{Failure, FailureKind};
use crate::session::{paths_in, runtime_directory, runtime_directory_for, Paths};
use crate::settings::option_view;

verus! {

/// The product version that `--version` prints.
pub const VERSION: &'static str = "0.2.0";

/// Every operation supported by the command-line desktop adapter.
#[derive(Debug, Clone, PartialEq, Eq)]
pub enum Command {
    Toggle,
    Start,
    Stop,
    Cancel,
    CancelRecording { recorder_pid: i32, recorder_start_time: u64 },
    Status,
    LaunchSettings,
    Preview,
    ClosePreview,
    SettingsGet,
    SettingsReset,
    SettingsSet { key: String, value: String },
    HistoryList { offset: usize, limit: usize, query: String },
    HistoryDelete { id: i64 },
    HistoryClear,
    HistoryHasEntries,
    CopyLastTranscript,
    WatchSession {
        overlay_pid: i32,
        overlay_start_time: u64,
        recorder_pid: i32,
        recorder_start_time: u64,
    },
    SuperviseOwner { owner_pid: i32, owner_start_time: u64 },
    Version,
}

/// A `Command` with its strings taken as character sequences.
pub enum CommandView {
    Toggle,
    Start,
    Stop,
    Cancel,
    CancelRecording { recorder_pid: i32, recorder_start_time: u64 },
    Status,
    LaunchSettings,
    Preview,
    ClosePreview,
    SettingsGet,
    SettingsReset,
    SettingsSet { key: Seq<char>, value: Seq<char> },
    HistoryList { offset: usize, limit: usize, query: Seq<char> },
    HistoryDelete { id: i64 },
    HistoryClear,
    HistoryHasEntries,
    CopyLastTranscript,
    WatchSession {
        overlay_pid: i32,
        overlay_start_time: u64,
        recorder_pid: i32,
        recorder_start_time: u64,
    },
    SuperviseOwner { owner_pid: i32, owner_start_time: u64 },
    Version,
}

impl View for Command {
    type V = CommandView;

    open spec fn view(&self) -> CommandView {
        match self {
            Command::Toggle => CommandView::Toggle,
            Command::Start => CommandView::Start,
            Command::Stop => CommandView::Stop,
            Command::Cancel => CommandView::Cancel,
            Command::CancelRecording { recorder_pid, recorder_start_time } => CommandView::CancelRecording {
                recorder_pid: *recorder_pid,
                recorder_start_time: *recorder_start_time,
            },
            Command::Status => CommandView::Status,
            Command::LaunchSettings => CommandView::LaunchSettings,
            Command::Preview => CommandView::Preview,
            Command::ClosePreview => CommandView::ClosePreview,
            Command::SettingsGet => CommandView::SettingsGet,
            Command::SettingsReset => CommandView::SettingsReset,
            Command::SettingsSet { key, value } => CommandView::SettingsSet {
                key: key@,
                value: value@,
            },
            Command::HistoryList { offset, limit, query } => CommandView::HistoryList {
                offset: *offset,
                limit: *limit,
                query: query@,
            },
            Command::HistoryDelete { id } => CommandView::HistoryDelete { id: *id },
            Command::HistoryClear => CommandView::HistoryClear,
            Command::HistoryHasEntries => CommandView::HistoryHasEntries,
            Command::CopyLastTranscript => CommandView::CopyLastTranscript,
            Command::WatchSession {
                overlay_pid,
                overlay_start_time,
                recorder_pid,
                recorder_start_time,
            } => CommandView::WatchSession {
                overlay_pid: *overlay_pid,
                overlay_start_time: *overlay_start_time,
                recorder_pid: *recorder_pid,
                recorder_start_time: *recorder_start_time,
            },
            Command::SuperviseOwner { owner_pid, owner_start_time } => CommandView::SuperviseOwner {
                owner_pid: *owner_pid,
                owner_start_time: *owner_start_time,
            },
            Command::Version => CommandView::Version,
        }
    }
}

/// What a command prints and the status it exits with.
#[derive(Debug, Clone, PartialEq, Eq)]
pub struct CommandOutput {
    pub exit_code: u8,
    pub stdout: Option<String>,
}

impl CommandOutput {
    /// Exits with `exit_code` and prints nothing.
    pub fn exit(exit_code: u8) -> (out: CommandOutput)
        ensures
            out.exit_code == exit_code,
            out.stdout is None,
    {
        CommandOutput { exit_code, stdout: None }
    }

    /// Exits 0 when what the command asks about was found and 1 otherwise:
    /// `--cancel-recording` for a matching recording, `history has` for a
    /// saved entry, `--copy-last` for a transcript to copy.
    pub fn found(found: bool) -> (out: CommandOutput)
        ensures
            out.exit_code == (if found {
                0u8
            } else {
                1u8
            }),
            out.stdout is None,
    {
        CommandOutput { exit_code: if found {
            0
        } else {
            1
        }, stdout: None }
    }

    /// Prints `stdout` and exits successfully.
    pub fn text(stdout: String) -> (out: CommandOutput)
        ensures
            out.exit_code == 0,
            out.stdout == Some(stdout),
    {
        CommandOutput { exit_code: 0, stdout: Some(stdout) }
    }
}

/// The product, bound to the runtime directory that its environment names.
#[derive(Debug, Clone)]
pub struct Application {
    pub paths: Paths,
}

impl Application {
    /// The application for an environment with `$XDG_RUNTIME_DIR`,
    /// `$XDG_CACHE_HOME` and `$HOME` as given: its runtime files live in
    /// `$XDG_RUNTIME_DIR` when set, otherwise in `codex-voice/runtime` under
    /// `$XDG_CACHE_HOME` or `$HOME/.cache`.  Fails when none of the three is
    /// set.
    pub fn from_environment(
        runtime_dir: Option<String>,
        cache_home: Option<String>,
        home: Option<String>,
    ) -> (r: Result<Application, Failure>)
        ensures
            match runtime_directory_for(
                option_view(runtime_dir),
                option_view(cache_home),
                option_view(home),
            ) {
                Some(dir) => r is Ok && paths_in(r->Ok_0.paths, dir),
                None => r is Err && r->Err_0.kind == FailureKind::NotFound && r->Err_0.message@
                    == "HOME is not set"@,
            },
    {
        let directory = runtime_directory(runtime_dir, cache_home, home)?;
        Ok(Application { paths: Paths::in_directory(directory) })
    }
}

} // verus!
