//! Paste automation through ydotool: recognising the installed protocol from
//! its help text, the key sequence that pastes, and the diagnostics shown
//! when the daemon cannot be reached.
use vstd::prelude::*;
use vstd::utf8::{decode_utf8, valid_utf8};

use crate::failure::{Failure, FailureKind};
use crate::settings::option_view;
use crate::text::{
    chars_of, contains, contains_text, extend_chars, is_text, join_path, lemma_contains_extend,
    lemma_contains_piece,
    lines, lines_of, path_join, string_from, trim, trimmed,
};

verus! {

/// The most output read from `ydotool --help`.
pub const INSPECTION_OUTPUT_LIMIT: u64 = 65536;

/// The two ydotool generations shipped by supported Ubuntu releases.
#[derive(Clone, Copy, Debug, PartialEq, Eq, Structural)]
pub enum Protocol {
    /// ydotool 0.1 (Ubuntu 24.04): a stream socket and named keys.
    Legacy,
    /// ydotool 1.x (Ubuntu 26.04): a datagram socket and key codes.
    Modern,
}

/// What the library reads from bytes that should be UTF-8, with invalid
/// sequences replaced (`String::from_utf8_lossy`).
pub uninterp spec fn utf8_lossy(bytes: Seq<u8>) -> Seq<char>;

/// `String::from_utf8_lossy`: its result is a function of the bytes, and
/// the decoded text itself when the bytes are valid UTF-8.
#[verifier::external_body]
fn decode_lossy(bytes: &[u8]) -> (text: String)
    ensures
        text@ == utf8_lossy(bytes@),
        valid_utf8(bytes@) ==> text@ == decode_utf8(bytes@),
{
    String::from_utf8_lossy(bytes).into_owned()
}

/// Whether some line of `help`, trimmed, is exactly `word`.
pub open spec fn has_line(help: Seq<char>, word: Seq<char>) -> bool {
    exists|k: int| 0 <= k < lines(help).len() && trim(#[trigger] lines(help)[k]) == word
}

/// The protocol that a `ydotool --help` text describes: legacy builds list
/// a `recorder` command, modern builds list `debug` and `bakers`.
pub open spec fn help_protocol(help: Seq<char>) -> Option<Protocol> {
    if !contains_text(help, "Available commands:"@) {
        None
    } else if has_line(help, "recorder"@) {
        Some(Protocol::Legacy)
    } else if has_line(help, "debug"@) && has_line(help, "bakers"@) {
        Some(Protocol::Modern)
    } else {
        None
    }
}

fn has_line_exec(all: &Vec<Vec<char>>, Ghost(help): Ghost<Seq<char>>, word: &str) -> (r: bool)
    requires
        all@.len() == lines(help).len(),
        forall|m: int| 0 <= m < all@.len() ==> (#[trigger] all@[m])@ == lines(help)[m],
    ensures
        r == has_line(help, word@),
{
    let w = chars_of(word);
    let mut k: usize = 0;
    while k < all.len()
        invariant
            k <= all@.len(),
            w@ == word@,
            all@.len() == lines(help).len(),
            forall|m: int| 0 <= m < all@.len() ==> (#[trigger] all@[m])@ == lines(help)[m],
            forall|m: int| 0 <= m < k ==> trim(#[trigger] lines(help)[m]) != word@,
        decreases all@.len() - k,
    {
        if is_text(&trimmed(&all[k]), word) {
            return true;
        }
        k = k + 1;
    }
    false
}

/// Recognises the ydotool protocol from its help text.
pub fn classify_help(help: &str) -> (r: Option<Protocol>)
    ensures
        r == help_protocol(help@),
{
    let text = chars_of(help);
    if !contains(&text, &chars_of("Available commands:")) {
        return None;
    }
    let all = lines_of(&text);
    if has_line_exec(&all, Ghost(help@), "recorder") {
        Some(Protocol::Legacy)
    } else if has_line_exec(&all, Ghost(help@), "debug") && has_line_exec(&all, Ghost(help@), "bakers") {
        Some(Protocol::Modern)
    } else {
        None
    }
}

/// The message of every paste-automation failure: paste was skipped and the
/// transcript is still recoverable.
pub open spec fn unavailable_message(detail: Seq<char>) -> Seq<char> {
    "automatic paste was not attempted: "@ + detail
        + ". The transcript remains in History and on the clipboard"@
}

/// The failure reported when automatic paste cannot be attempted.
pub fn unavailable(detail: &str) -> (f: Failure)
    ensures
        f.kind == FailureKind::Other,
        f.message@ == unavailable_message(detail@),
{
    let mut text = chars_of("automatic paste was not attempted: ");
    extend_chars(&mut text, &chars_of(detail));
    extend_chars(&mut text, &chars_of(". The transcript remains in History and on the clipboard"));
    Failure::with_text(FailureKind::Other, &text)
}

/// ydotool is not installed.
pub fn missing() -> (f: Failure)
    ensures
        f.kind == FailureKind::Other,
        f.message@ == unavailable_message(
            "ydotool is not installed; run `sudo apt install --reinstall codex-voice`, then log out and back in"@,
        ),
{
    unavailable(
        "ydotool is not installed; run `sudo apt install --reinstall codex-voice`, then log out and back in",
    )
}

/// Inspecting ydotool failed for the given reason.
pub fn inspection_failed(detail: &str) -> (f: Failure)
    ensures
        f.kind == FailureKind::Other,
        f.message@ == unavailable_message(detail@),
{
    unavailable(detail)
}

/// The protocol of the installed ydotool, read from its `--help` output, or
/// the failure telling the user that the version is unsupported.  The daemon
/// readiness check for that protocol follows.
pub fn prepare(help: &[u8]) -> (r: Result<Protocol, Failure>)
    ensures
        match r {
            Ok(p) => help_protocol(utf8_lossy(help@)) == Some(p),
            Err(f) => help_protocol(utf8_lossy(help@)) is None && f.kind == FailureKind::Other
                && f.message@ == unavailable_message(
                "the installed ydotool version is unsupported; run `sudo apt install --reinstall codex-voice`, then log out and back in"@,
            ),
        },
{
    let text = decode_lossy(help);
    match classify_help(text.as_str()) {
        Some(p) => Ok(p),
        None => Err(
            unavailable(
                "the installed ydotool version is unsupported; run `sudo apt install --reinstall codex-voice`, then log out and back in",
            ),
        ),
    }
}

/// The ydotool arguments that paste the clipboard for a protocol.
pub open spec fn paste_args(p: Protocol) -> Seq<Seq<char>> {
    match p {
        Protocol::Legacy => seq!["key"@, "Shift+Insert"@],
        Protocol::Modern => seq!["key"@, "42:1"@, "110:1"@, "110:0"@, "42:0"@],
    }
}

/// The command that pastes: Shift+Insert, which both graphical text controls
/// and terminal emulators understand as paste.
#[derive(Clone, Copy, Debug, PartialEq, Eq)]
pub struct PasteCommand {
    pub protocol: Protocol,
}

impl PasteCommand {
    /// The ydotool arguments that paste.
    pub fn args(&self) -> (out: Vec<String>)
        ensures
            out@.map_values(|a: String| a@) == paste_args(self.protocol),
    {
        let mut out: Vec<String> = Vec::new();
        out.push(string_from(&chars_of("key")));
        match self.protocol {
            Protocol::Legacy => {
                out.push(string_from(&chars_of("Shift+Insert")));
            },
            Protocol::Modern => {
                out.push(string_from(&chars_of("42:1")));
                out.push(string_from(&chars_of("110:1")));
                out.push(string_from(&chars_of("110:0")));
                out.push(string_from(&chars_of("42:0")));
            },
        }
        assert(out@.map_values(|a: String| a@) =~= paste_args(self.protocol));
        out
    }
}

/// The daemon socket for a protocol: the legacy daemon listens at a fixed
/// path; the modern one at `$YDOTOOL_SOCKET`, else in `$XDG_RUNTIME_DIR`,
/// else at the same fixed path.  Empty variables count as unset.
pub open spec fn socket_for(
    p: Protocol,
    ydotool_socket: Option<Seq<char>>,
    runtime_dir: Option<Seq<char>>,
) -> Seq<char> {
    match p {
        Protocol::Legacy => "/tmp/.ydotool_socket"@,
        Protocol::Modern => match ydotool_socket {
            Some(s) if s.len() > 0 => s,
            _ => match runtime_dir {
                Some(r) if r.len() > 0 => path_join(r, ".ydotool_socket"@),
                _ => "/tmp/.ydotool_socket"@,
            },
        },
    }
}

/// Where the modern daemon listens: a non-empty `YDOTOOL_SOCKET` names the
/// socket; otherwise (unset or empty alike) `.ydotool_socket` under a
/// non-empty `XDG_RUNTIME_DIR`; otherwise `/tmp/.ydotool_socket`. The legacy
/// daemon always listens on `/tmp/.ydotool_socket`.
pub proof fn lemma_socket_lookup(
    ydotool_socket: Option<Seq<char>>,
    runtime_dir: Option<Seq<char>>,
)
    ensures
        socket_for(Protocol::Modern, None, runtime_dir) == socket_for(
            Protocol::Modern,
            Some(Seq::empty()),
            runtime_dir,
        ),
        forall|s: Seq<char>|
            s.len() > 0 ==> socket_for(Protocol::Modern, Some(s), runtime_dir) == s,
        forall|r: Seq<char>|
            r.len() > 0 && (ydotool_socket is None || ydotool_socket->0.len() == 0) ==> socket_for(
                Protocol::Modern,
                ydotool_socket,
                Some(r),
            ) == path_join(r, ".ydotool_socket"@),
        (ydotool_socket is None || ydotool_socket->0.len() == 0) && (runtime_dir is None
            || runtime_dir->0.len() == 0) ==> socket_for(Protocol::Modern, ydotool_socket, runtime_dir)
            == "/tmp/.ydotool_socket"@,
        socket_for(Protocol::Legacy, ydotool_socket, runtime_dir) == "/tmp/.ydotool_socket"@,
{
}

pub fn socket_path(p: Protocol, ydotool_socket: Option<String>, runtime_dir: Option<String>) -> (out:
    String)
    ensures
        out@ == socket_for(p, option_view(ydotool_socket), option_view(runtime_dir)),
{
    match p {
        Protocol::Legacy => string_from(&chars_of("/tmp/.ydotool_socket")),
        Protocol::Modern => {
            if let Some(s) = &ydotool_socket {
                let c = chars_of(s.as_str());
                if c.len() > 0 {
                    return string_from(&c);
                }
            }
            if let Some(r) = &runtime_dir {
                let c = chars_of(r.as_str());
                if c.len() > 0 {
                    return string_from(&join_path(&c, &chars_of(".ydotool_socket")));
                }
            }
            string_from(&chars_of("/tmp/.ydotool_socket"))
        },
    }
}

/// The user service that runs the daemon for a protocol.
pub open spec fn service_for(p: Protocol) -> Seq<char> {
    match p {
        Protocol::Legacy => "codex-voice-ydotoold.service"@,
        Protocol::Modern => "ydotool.service"@,
    }
}

/// Why `/dev/uinput` could not be opened, when that is what blocks the
/// daemon.
#[derive(Clone, Copy, Debug, PartialEq, Eq, Structural)]
pub enum UinputProblem {
    PermissionDenied,
    Missing,
}

/// The diagnostic when the daemon socket refuses connections: it always
/// names the failing socket and its error; then a permission problem or a
/// missing device on `/dev/uinput`, since the daemon cannot run without it,
/// or otherwise the service; and always the command that repairs it.
pub open spec fn readiness_detail(
    p: Protocol,
    socket: Seq<char>,
    socket_error: Seq<char>,
    uinput: Seq<char>,
    uinput_problem: Option<(UinputProblem, Seq<char>)>,
) -> Seq<char> {
    let restart = "`systemctl --user restart "@ + service_for(p) + "`"@;
    "ydotoold is not accepting connections at "@ + socket + " ("@ + socket_error + "); "@
        + match uinput_problem {
        Some((UinputProblem::PermissionDenied, error)) => "this GNOME session cannot access "@
            + uinput + " ("@ + error
            + "); log out and back in after installing Codex Voice; if already restarted, run `sudo udevadm control --reload-rules && sudo udevadm trigger --action=change --name-match=/dev/uinput`, then "@
            + restart,
        Some((UinputProblem::Missing, error)) => uinput + " is unavailable ("@ + error
            + "); run `sudo modprobe uinput`, then "@ + restart,
        None => "run "@ + restart + "; if it fails, inspect `systemctl --user status "@
            + service_for(p) + "`"@,
    }
}

/// Whatever blocks the daemon, the diagnostic names the failing socket and
/// the command that restarts the daemon's service.
pub proof fn lemma_readiness_names_socket_and_repair(
    p: Protocol,
    socket: Seq<char>,
    socket_error: Seq<char>,
    uinput: Seq<char>,
    uinput_problem: Option<(UinputProblem, Seq<char>)>,
)
    ensures
        contains_text(
            unavailable_message(readiness_detail(p, socket, socket_error, uinput, uinput_problem)),
            socket,
        ),
        contains_text(
            unavailable_message(readiness_detail(p, socket, socket_error, uinput, uinput_problem)),
            "`systemctl --user restart "@ + service_for(p) + "`"@,
        ),
{
    let restart = "`systemctl --user restart "@ + service_for(p) + "`"@;
    let opening = "ydotoold is not accepting connections at "@;
    let named = opening + socket;
    lemma_contains_piece(opening, socket, Seq::empty());
    assert(opening + socket + Seq::<char>::empty() =~= named);
    let branch = match uinput_problem {
        Some((UinputProblem::PermissionDenied, error)) => "this GNOME session cannot access "@
            + uinput + " ("@ + error
            + "); log out and back in after installing Codex Voice; if already restarted, run `sudo udevadm control --reload-rules && sudo udevadm trigger --action=change --name-match=/dev/uinput`, then "@
            + restart,
        Some((UinputProblem::Missing, error)) => uinput + " is unavailable ("@ + error
            + "); run `sudo modprobe uinput`, then "@ + restart,
        None => "run "@ + restart + "; if it fails, inspect `systemctl --user status "@
            + service_for(p) + "`"@,
    };
    let detail = named + " ("@ + socket_error + "); "@ + branch;
    assert(detail == readiness_detail(p, socket, socket_error, uinput, uinput_problem));
    lemma_contains_extend(named, " ("@, socket);
    lemma_contains_extend(named + " ("@, socket_error, socket);
    lemma_contains_extend(named + " ("@ + socket_error, "); "@, socket);
    lemma_contains_extend(named + " ("@ + socket_error + "); "@, branch, socket);
    match uinput_problem {
        Some((UinputProblem::PermissionDenied, error)) => {
            let lead = "this GNOME session cannot access "@ + uinput + " ("@ + error
                + "); log out and back in after installing Codex Voice; if already restarted, run `sudo udevadm control --reload-rules && sudo udevadm trigger --action=change --name-match=/dev/uinput`, then "@;
            lemma_contains_piece(lead, restart, Seq::empty());
            assert(lead + restart + Seq::<char>::empty() =~= branch);
        },
        Some((UinputProblem::Missing, error)) => {
            let lead = uinput + " is unavailable ("@ + error + "); run `sudo modprobe uinput`, then "@;
            lemma_contains_piece(lead, restart, Seq::empty());
            assert(lead + restart + Seq::<char>::empty() =~= branch);
        },
        None => {
            let rest = "; if it fails, inspect `systemctl --user status "@ + service_for(p) + "`"@;
            lemma_contains_piece("run "@, restart, rest);
            assert("run "@ + restart + rest =~= branch);
        },
    }
    lemma_contains_extend(named + " ("@ + socket_error + "); "@, branch, restart);
    let head = "automatic paste was not attempted: "@;
    let tail_text = ". The transcript remains in History and on the clipboard"@;
    lemma_contains_extend(head, detail, socket);
    lemma_contains_extend(head, detail, restart);
    lemma_contains_extend(head + detail, tail_text, socket);
    lemma_contains_extend(head + detail, tail_text, restart);
}

fn service_name(p: Protocol) -> (s: Vec<char>)
    ensures
        s@ == service_for(p),
{
    match p {
        Protocol::Legacy => chars_of("codex-voice-ydotoold.service"),
        Protocol::Modern => chars_of("ydotool.service"),
    }
}

/// The failure when the daemon socket refused a connection.
pub fn readiness_failure(
    p: Protocol,
    socket: &str,
    socket_error: &str,
    uinput: &str,
    uinput_problem: Option<(UinputProblem, String)>,
) -> (f: Failure)
    ensures
        f.kind == FailureKind::Other,
        f.message@ == unavailable_message(
            readiness_detail(
                p,
                socket@,
                socket_error@,
                uinput@,
                match uinput_problem {
                    Some((k, e)) => Some((k, e@)),
                    None => None,
                },
            ),
        ),
        contains_text(f.message@, socket@),
        contains_text(f.message@, "`systemctl --user restart "@ + service_for(p) + "`"@),
{
    let service = service_name(p);
    let mut restart = chars_of("`systemctl --user restart ");
    extend_chars(&mut restart, &service);
    extend_chars(&mut restart, &chars_of("`"));
    let mut detail = chars_of("ydotoold is not accepting connections at ");
    extend_chars(&mut detail, &chars_of(socket));
    extend_chars(&mut detail, &chars_of(" ("));
    extend_chars(&mut detail, &chars_of(socket_error));
    extend_chars(&mut detail, &chars_of("); "));
    match &uinput_problem {
        Some((UinputProblem::PermissionDenied, error)) => {
            extend_chars(&mut detail, &chars_of("this GNOME session cannot access "));
            extend_chars(&mut detail, &chars_of(uinput));
            extend_chars(&mut detail, &chars_of(" ("));
            extend_chars(&mut detail, &chars_of(error.as_str()));
            extend_chars(
                &mut detail,
                &chars_of(
                    "); log out and back in after installing Codex Voice; if already restarted, run `sudo udevadm control --reload-rules && sudo udevadm trigger --action=change --name-match=/dev/uinput`, then ",
                ),
            );
            extend_chars(&mut detail, &restart);
        },
        Some((UinputProblem::Missing, error)) => {
            extend_chars(&mut detail, &chars_of(uinput));
            extend_chars(&mut detail, &chars_of(" is unavailable ("));
            extend_chars(&mut detail, &chars_of(error.as_str()));
            extend_chars(&mut detail, &chars_of("); run `sudo modprobe uinput`, then "));
            extend_chars(&mut detail, &restart);
        },
        None => {
            extend_chars(&mut detail, &chars_of("run "));
            extend_chars(&mut detail, &restart);
            extend_chars(&mut detail, &chars_of("; if it fails, inspect `systemctl --user status "));
            extend_chars(&mut detail, &service);
            extend_chars(&mut detail, &chars_of("`"));
        },
    }
    let f = unavailable(string_from(&detail).as_str());
    proof {
        let problem = match uinput_problem {
            Some((k, e)) => Some((k, e@)),
            None => None,
        };
        assert(f.message@ == unavailable_message(
            readiness_detail(p, socket@, socket_error@, uinput@, problem),
        ));
        lemma_readiness_names_socket_and_repair(p, socket@, socket_error@, uinput@, problem);
    }
    f
}

} // verus!
