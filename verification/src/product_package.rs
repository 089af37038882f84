//! Where the product package keeps its resources: the candidate locations
//! of the overlay script, the GSettings schemas, the settings executable
//! and the helper commands, in the order in which they are preferred.
use vstd::prelude::*;

use crate::settings::option_view;
use crate::text::{
    chars_of, contains_char, join_path, path_join, split_chars, split_on, string_from,
};

verus! {

/// Where the installed package keeps its shared resources.
pub const SYSTEM_SHARE: &'static str = "/usr/share/codex-voice";

/// The directories from which resources may be resolved.
#[derive(Debug, Clone)]
pub struct Layout {
    pub source_root: Option<String>,
    pub executable_dir: Option<String>,
    pub user_share: Option<String>,
}

pub open spec fn strings_view(v: Seq<String>) -> Seq<Seq<char>> {
    v.map_values(|s: String| s@)
}

/// The overlay script locations, most preferred first: beside the
/// executable (installed, library, source-tree and build-tree forms), the
/// source tree of the working directory, the per-user share, and the system
/// share.
pub open spec fn overlay_candidates_for(
    source_root: Option<Seq<char>>,
    executable_dir: Option<Seq<char>>,
    user_share: Option<Seq<char>>,
) -> Seq<Seq<char>> {
    let beside = match executable_dir {
        Some(d) => seq![
            path_join(d, "../share/codex-voice/overlay.py"@),
            path_join(d, "../lib/codex-voice/overlay.py"@),
            path_join(d, "../src/overlay.py"@),
            path_join(d, "../../src/overlay.py"@),
        ],
        None => Seq::empty(),
    };
    let source = match source_root {
        Some(r) => seq![path_join(r, "src/overlay.py"@)],
        None => Seq::empty(),
    };
    let user = match user_share {
        Some(s) => seq![path_join(s, "overlay.py"@)],
        None => Seq::empty(),
    };
    beside + source + user + seq![path_join("/usr/share/codex-voice"@, "overlay.py"@)]
}

/// The schema directories: the per-user one, then the system one.
pub open spec fn schema_directories_for(user_share: Option<Seq<char>>) -> Seq<Seq<char>> {
    match user_share {
        Some(s) => seq![path_join(s, "schemas"@), "/usr/share/glib-2.0/schemas"@],
        None => seq!["/usr/share/glib-2.0/schemas"@],
    }
}

fn push_joined(out: &mut Vec<String>, base: &str, name: &str)
    ensures
        final(out)@.len() == old(out)@.len() + 1,
        forall|k: int| 0 <= k < old(out)@.len() ==> final(out)@[k] == old(out)@[k],
        final(out)@[old(out)@.len() as int]@ == path_join(base@, name@),
{
    out.push(string_from(&join_path(&chars_of(base), &chars_of(name))));
}

impl Layout {
    /// The layout given the working directory, the directory of the running
    /// executable and `$HOME`.
    pub fn new(current_dir: Option<String>, executable_dir: Option<String>, home: Option<String>) -> (l:
        Layout)
        ensures
            option_view(l.source_root) == option_view(current_dir),
            option_view(l.executable_dir) == option_view(executable_dir),
            option_view(l.user_share) == match option_view(home) {
                Some(h) => Some(path_join(h, ".local/share/codex-voice"@)),
                None => None,
            },
    {
        let user_share = match &home {
            Some(h) => Some(string_from(&join_path(&chars_of(h.as_str()), &chars_of(".local/share/codex-voice")))),
            None => None,
        };
        Layout { source_root: current_dir, executable_dir, user_share }
    }

    /// The overlay script locations, most preferred first.
    pub fn overlay_candidates(&self) -> (c: Vec<String>)
        ensures
            strings_view(c@) == overlay_candidates_for(
                option_view(self.source_root),
                option_view(self.executable_dir),
                option_view(self.user_share),
            ),
    {
        let mut c: Vec<String> = Vec::new();
        if let Some(dir) = &self.executable_dir {
            push_joined(&mut c, dir.as_str(), "../share/codex-voice/overlay.py");
            push_joined(&mut c, dir.as_str(), "../lib/codex-voice/overlay.py");
            push_joined(&mut c, dir.as_str(), "../src/overlay.py");
            push_joined(&mut c, dir.as_str(), "../../src/overlay.py");
        }
        if let Some(root) = &self.source_root {
            push_joined(&mut c, root.as_str(), "src/overlay.py");
        }
        if let Some(share) = &self.user_share {
            push_joined(&mut c, share.as_str(), "overlay.py");
        }
        push_joined(&mut c, SYSTEM_SHARE, "overlay.py");
        assert(strings_view(c@) =~= overlay_candidates_for(
            option_view(self.source_root),
            option_view(self.executable_dir),
            option_view(self.user_share),
        ));
        c
    }

    /// The schema directories, per-user first.
    pub fn schema_directories(&self) -> (d: Vec<String>)
        ensures
            strings_view(d@) == schema_directories_for(option_view(self.user_share)),
    {
        let mut d: Vec<String> = Vec::new();
        if let Some(share) = &self.user_share {
            push_joined(&mut d, share.as_str(), "schemas");
        }
        d.push(string_from(&chars_of("/usr/share/glib-2.0/schemas")));
        assert(strings_view(d@) =~= schema_directories_for(option_view(self.user_share)));
        d
    }
}

/// Where to look for the overlay script: an override named by
/// `CODEX_VOICE_OVERLAY` first, then the layout's candidates.  The first
/// existing file is used.
pub fn overlay_script_candidates(override_path: Option<String>, layout: &Layout) -> (c: Vec<String>)
    ensures
        strings_view(c@) == match option_view(override_path) {
            Some(o) => seq![o],
            None => Seq::<Seq<char>>::empty(),
        } + overlay_candidates_for(
            option_view(layout.source_root),
            option_view(layout.executable_dir),
            option_view(layout.user_share),
        ),
{
    let mut c: Vec<String> = Vec::new();
    if let Some(o) = override_path {
        c.push(o);
    }
    let rest = layout.overlay_candidates();
    let ghost first = c@;
    let mut i: usize = 0;
    while i < rest.len()
        invariant
            i <= rest@.len(),
            c@ == first + rest@.take(i as int),
        decreases rest@.len() - i,
    {
        c.push(rest[i].clone());
        assert(first + rest@.take(i + 1) =~= (first + rest@.take(i as int)).push(rest@[i as int]));
        i = i + 1;
    }
    assert(rest@.take(rest@.len() as int) =~= rest@);
    assert(strings_view(first + rest@) =~= strings_view(first) + strings_view(rest@));
    assert(strings_view(c@) =~= match option_view(override_path) {
        Some(o) => seq![o],
        None => Seq::<Seq<char>>::empty(),
    } + strings_view(rest@));
    c
}

/// Where to look for the settings executable: the `CODEX_VOICE_SETTINGS_BIN`
/// override alone when it is set; otherwise the installed and per-user
/// locations, which need `$HOME`.
pub open spec fn settings_binary_candidates_for(
    override_path: Option<Seq<char>>,
    home: Option<Seq<char>>,
) -> Seq<Seq<char>> {
    match override_path {
        Some(o) => seq![o],
        None => match home {
            Some(h) => seq![
                "/usr/bin/codex-voice-settings"@,
                path_join(h, ".local/bin/codex-voice-settings"@),
            ],
            None => Seq::empty(),
        },
    }
}

pub fn settings_binary_candidates(override_path: Option<String>, home: Option<String>) -> (c: Vec<
    String,
>)
    ensures
        strings_view(c@) == settings_binary_candidates_for(
            option_view(override_path),
            option_view(home),
        ),
{
    let mut c: Vec<String> = Vec::new();
    match override_path {
        Some(o) => {
            c.push(o);
        },
        None => {
            if let Some(h) = &home {
                c.push(string_from(&chars_of("/usr/bin/codex-voice-settings")));
                push_joined(&mut c, h.as_str(), ".local/bin/codex-voice-settings");
            }
        },
    }
    assert(strings_view(c@) =~= settings_binary_candidates_for(
        option_view(override_path),
        option_view(home),
    ));
    c
}

/// Where to look for a helper command: a name with a `/` is used as given;
/// otherwise each `$PATH` entry in order, and for `codex-asr` also its
/// packaged location and `~/.cargo/bin`.  The first existing file is used.
pub open spec fn command_candidates_for(
    name: Seq<char>,
    path_env: Option<Seq<char>>,
    home: Option<Seq<char>>,
) -> Seq<Seq<char>> {
    if name.contains('/') {
        seq![name]
    } else {
        let searched = match path_env {
            Some(p) => split_on(p, ':').map_values(|dir: Seq<char>| path_join(dir, name)),
            None => Seq::empty(),
        };
        let fallback = if name == "codex-asr"@ {
            match home {
                Some(h) => seq!["/usr/lib/codex-voice/codex-asr"@, path_join(h, ".cargo/bin/codex-asr"@)],
                None => seq!["/usr/lib/codex-voice/codex-asr"@],
            }
        } else {
            Seq::empty()
        };
        searched + fallback
    }
}

pub fn command_candidates(name: &str, path_env: Option<String>, home: Option<String>) -> (c: Vec<
    String,
>)
    ensures
        strings_view(c@) == command_candidates_for(name@, option_view(path_env), option_view(home)),
{
    let n = chars_of(name);
    let mut c: Vec<String> = Vec::new();
    if contains_char(&n, '/') {
        c.push(string_from(&n));
        assert(strings_view(c@) =~= seq![name@]);
        return c;
    }
    let ghost searched = match option_view(path_env) {
        Some(p) => split_on(p, ':').map_values(|dir: Seq<char>| path_join(dir, name@)),
        None => Seq::<Seq<char>>::empty(),
    };
    if let Some(p) = &path_env {
        let dirs = split_chars(&chars_of(p.as_str()), ':');
        let mut i: usize = 0;
        while i < dirs.len()
            invariant
                i <= dirs@.len(),
                n@ == name@,
                dirs@.len() == split_on(p@, ':').len(),
                forall|k: int| 0 <= k < dirs@.len() ==> (#[trigger] dirs@[k])@ == split_on(p@, ':')[k],
                searched == split_on(p@, ':').map_values(|dir: Seq<char>| path_join(dir, name@)),
                strings_view(c@) == searched.take(i as int),
            decreases dirs@.len() - i,
        {
            let ghost before = c@;
            let entry = string_from(&join_path(&dirs[i], &n));
            assert(searched[i as int] == path_join(split_on(p@, ':')[i as int], name@));
            assert(entry@ == searched[i as int]);
            c.push(entry);
            assert(c@ == before.push(entry));
            assert(strings_view(c@) =~= strings_view(before).push(entry@));
            assert(searched.take(i + 1) =~= searched.take(i as int).push(searched[i as int]));
            i = i + 1;
        }
        assert(searched.take(dirs@.len() as int) =~= searched);
    } else {
        assert(strings_view(c@) =~= searched);
    }
    let ghost before = c@;
    if is_codex_asr(&n) {
        c.push(string_from(&chars_of("/usr/lib/codex-voice/codex-asr")));
        if let Some(h) = &home {
            push_joined(&mut c, h.as_str(), ".cargo/bin/codex-asr");
        }
    }
    assert(strings_view(c@) =~= command_candidates_for(
        name@,
        option_view(path_env),
        option_view(home),
    ));
    c
}

fn is_codex_asr(n: &Vec<char>) -> (r: bool)
    ensures
        r == (n@ == "codex-asr"@),
{
    crate::text::is_text(n, "codex-asr")
}

/// The GDK backend for the overlay: `CODEX_VOICE_OVERLAY_BACKEND`, then the
/// deprecated `CODEX_VOICE_GDK_BACKEND`, then `x11` when a `DISPLAY` is
/// set; empty values count as unset.
pub open spec fn overlay_backend_for(
    backend: Option<Seq<char>>,
    legacy_backend: Option<Seq<char>>,
    display: Option<Seq<char>>,
) -> Option<Seq<char>> {
    match backend {
        Some(b) if b.len() > 0 => Some(b),
        _ => match legacy_backend {
            Some(b) if b.len() > 0 => Some(b),
            _ => match display {
                Some(d) if d.len() > 0 => Some("x11"@),
                _ => None,
            },
        },
    }
}

pub fn overlay_backend(
    backend: Option<String>,
    legacy_backend: Option<String>,
    display: Option<String>,
) -> (r: Option<String>)
    ensures
        option_view(r) == overlay_backend_for(
            option_view(backend),
            option_view(legacy_backend),
            option_view(display),
        ),
{
    if let Some(b) = &backend {
        if chars_of(b.as_str()).len() > 0 {
            return backend;
        }
    }
    if let Some(b) = &legacy_backend {
        if chars_of(b.as_str()).len() > 0 {
            return legacy_backend;
        }
    }
    if let Some(d) = &display {
        if chars_of(d.as_str()).len() > 0 {
            return Some(string_from(&chars_of("x11")));
        }
    }
    None
}

} // verus!
