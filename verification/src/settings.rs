//! Settings rules: validation and normalisation of the values stored under
//! the `io.github.andy_spike.CodexVoice` GSettings schema, and the document
//! that `settings get` prints.
use vstd::prelude::*;

use crate::failure::{invalid_input, Failure, FailureKind};
use crate::text::{
    all_digits, chars_of, contains, contains_text, decimal_value, eq_ignore_ascii_case,
    extend_chars, has_prefix, has_suffix, is_ascii_alphanumeric, is_text, join_chars, joined,
    lemma_lowercase_idempotent, lemma_replaced_absent, lemma_split_pieces_alphanumeric,
    lemma_split_without_separator, lemma_trim_identity, lines, lines_of, lowercase, parse_u8,
    replace_all, replaced, sign_and_digits, slice_chars, spec_eq_ignore_ascii_case,
    spec_is_ascii_alphanumeric, spec_is_ascii_digit, spec_lowercase, spec_parse_u8, split_chars,
    split_on, string_from, strip_prefix, strip_suffix, trim, trimmed, lemma_trim_ends, lemma_split_nonempty,
    occurs_at, spec_is_whitespace,
};

verus! {

/// The GSettings schema that holds the product's preferences.
pub const SCHEMA: &'static str = "io.github.andy_spike.CodexVoice";

/// The shortcut used until the user picks another.
pub const DEFAULT_KEYBINDING: &'static str = "<Control><Super>space";

/// The effective preferences: the stored values and the environment
/// override of the transcription language.
#[derive(Debug, Clone)]
pub struct Settings {
    pub enabled: bool,
    pub show_tray_icon: bool,
    pub keybinding: String,
    pub language: String,
    pub language_override: Option<String>,
}

/// The `overrides` object of the settings document.
#[derive(Debug, Clone, PartialEq, Eq)]
pub struct Overrides {
    pub language: Option<String>,
}

/// The settings JSON document of the desktop protocol.
#[derive(Debug, Clone, PartialEq, Eq)]
pub struct SettingsDocument {
    pub schema_version: u8,
    pub enabled: bool,
    pub show_tray_icon: bool,
    pub keybinding: String,
    pub language: String,
    pub overrides: Overrides,
}

pub open spec fn option_view(o: Option<String>) -> Option<Seq<char>> {
    match o {
        Some(s) => Some(s@),
        None => None,
    }
}

impl Settings {
    /// The document that `settings get` prints.
    pub fn document(&self) -> (d: SettingsDocument)
        ensures
            d.schema_version == 1,
            d.enabled == self.enabled,
            d.show_tray_icon == self.show_tray_icon,
            d.keybinding@ == self.keybinding@,
            d.language@ == self.language@,
            option_view(d.overrides.language) == option_view(self.language_override),
    {
        SettingsDocument {
            schema_version: 1,
            enabled: self.enabled,
            show_tray_icon: self.show_tray_icon,
            keybinding: self.keybinding.clone(),
            language: self.language.clone(),
            overrides: Overrides { language: self.language_override.clone() },
        }
    }

    /// The language used for transcription: the override when present,
    /// otherwise the saved language.
    pub fn effective_language(&self) -> (language: String)
        ensures
            language@ == match self.language_override {
                Some(o) => o@,
                None => self.language@,
            },
    {
        match &self.language_override {
            Some(o) => o.clone(),
            None => self.language.clone(),
        }
    }
}

// ---------------------------------------------------------------------------
// Language
// ---------------------------------------------------------------------------

/// One `-`-separated part of a language tag: one to eight ASCII letters or
/// digits.
pub open spec fn valid_language_part(p: Seq<char>) -> bool {
    0 < p.len() <= 8 && forall|i: int| 0 <= i < p.len() ==> spec_is_ascii_alphanumeric(#[trigger] p[i])
}

/// The normalised language for a user-supplied value: `auto` for an empty
/// value or `auto`, the lower-cased tag when it has at most 35 characters
/// and every part is valid, and nothing otherwise.  (A valid tag is ASCII,
/// so its length in characters is its length in bytes.)
pub open spec fn normalized_language(v: Seq<char>) -> Option<Seq<char>> {
    let value = spec_lowercase(trim(v));
    if value.len() == 0 || value == "auto"@ {
        Some("auto"@)
    } else if value.len() <= 35 && forall|k: int|
        0 <= k < split_on(value, '-').len() ==> valid_language_part(
            #[trigger] split_on(value, '-')[k],
        ) {
        Some(value)
    } else {
        None
    }
}

fn valid_part(p: &Vec<char>) -> (r: bool)
    ensures
        r == valid_language_part(p@),
{
    if p.len() == 0 || p.len() > 8 {
        return false;
    }
    let mut i: usize = 0;
    while i < p.len()
        invariant
            i <= p@.len(),
            forall|k: int| 0 <= k < i ==> spec_is_ascii_alphanumeric(#[trigger] p@[k]),
        decreases p@.len() - i,
    {
        if !is_ascii_alphanumeric(p[i]) {
            return false;
        }
        i = i + 1;
    }
    true
}

/// Normalises a language value; `None` when it is neither `auto` nor a
/// BCP-47-like tag.
pub fn normalize_language(value: &str) -> (r: Option<String>)
    ensures
        option_view(r) == normalized_language(value@),
{
    let v = lowercase(&trimmed(&chars_of(value)));
    if v.len() == 0 || is_text(&v, "auto") {
        return Some(string_from(&chars_of("auto")));
    }
    if v.len() > 35 {
        return None;
    }
    let parts = split_chars(&v, '-');
    let mut k: usize = 0;
    while k < parts.len()
        invariant
            v@ == spec_lowercase(trim(value@)),
            0 < v@.len() <= 35,
            v@ != "auto"@,
            k <= parts@.len(),
            parts@.len() == split_on(v@, '-').len(),
            forall|m: int| 0 <= m < parts@.len() ==> (#[trigger] parts@[m])@ == split_on(v@, '-')[m],
            forall|m: int| 0 <= m < k ==> valid_language_part(#[trigger] split_on(v@, '-')[m]),
        decreases parts@.len() - k,
    {
        if !valid_part(&parts[k]) {
            return None;
        }
        k = k + 1;
    }
    Some(string_from(&v))
}

/// The arguments that select the transcription language for `codex-asr`:
/// none for `auto`, `--language <code>` otherwise.
pub open spec fn language_args_for(language: Seq<char>) -> Seq<Seq<char>> {
    if language == "auto"@ {
        Seq::empty()
    } else {
        seq!["--language"@, language]
    }
}

pub fn transcriber_language_args(language: &str) -> (args: Vec<String>)
    ensures
        args@.map_values(|a: String| a@) == language_args_for(language@),
{
    let mut args: Vec<String> = Vec::new();
    if !is_text(&chars_of(language), "auto") {
        args.push(string_from(&chars_of("--language")));
        args.push(string_from(&chars_of(language)));
    }
    assert(args@.map_values(|a: String| a@) =~= language_args_for(language@));
    args
}

// ---------------------------------------------------------------------------
// GVariant text
// ---------------------------------------------------------------------------

/// The string that a GVariant string literal such as `'en'` denotes, with
/// the `\'` and `\\` escapes undone.
pub open spec fn gvariant_string(v: Seq<char>) -> Option<Seq<char>> {
    let t = trim(v);
    if has_prefix(t, "'"@) && has_suffix(t.skip(1), "'"@) {
        let inner = t.skip(1).take(t.skip(1).len() - 1);
        Some(replaced(replaced(inner, "\\'"@, "'"@), "\\\\"@, "\\"@))
    } else {
        None
    }
}

/// Reads a GVariant string literal as printed by `gsettings get`.
pub fn parse_gvariant_string(value: &str) -> (r: Option<String>)
    ensures
        option_view(r) == gvariant_string(value@),
{
    match gvariant_string_chars(&chars_of(value)) {
        Some(v) => Some(string_from(&v)),
        None => None,
    }
}

fn gvariant_string_chars(value: &Vec<char>) -> (r: Option<Vec<char>>)
    ensures
        match r {
            Some(v) => gvariant_string(value@) == Some(v@),
            None => gvariant_string(value@) is None,
        },
{
    let t = trimmed(value);
    let quote = chars_of("'");
    proof {
        reveal_strlit("'");
    }
    let after = match strip_prefix(&t, &quote) {
        Some(a) => a,
        None => {
            return None;
        },
    };
    let inner = match strip_suffix(&after, &quote) {
        Some(i) => i,
        None => {
            return None;
        },
    };
    let escaped_quote = chars_of("\\'");
    let escaped_backslash = chars_of("\\\\");
    proof {
        reveal_strlit("\\'");
        reveal_strlit("\\\\");
    }
    let once = replace_all(&inner, &escaped_quote, &quote);
    let backslash = chars_of("\\");
    Some(replace_all(&once, &escaped_backslash, &backslash))
}

/// The strings of a list of pieces that are GVariant string literals, in
/// order; other pieces are skipped.
pub open spec fn gvariant_strings(pieces: Seq<Seq<char>>) -> Seq<Seq<char>>
    decreases pieces.len(),
{
    if pieces.len() == 0 {
        Seq::empty()
    } else {
        let rest = gvariant_strings(pieces.drop_last());
        match gvariant_string(pieces.last()) {
            Some(s) => rest.push(s),
            None => rest,
        }
    }
}

/// The body of a GVariant array literal such as `['a', 'b']`: the text
/// between the brackets, or nothing when the brackets are missing.
pub open spec fn gvariant_array_body(v: Seq<char>) -> Seq<char> {
    let t = trim(v);
    if has_prefix(t, "["@) && has_suffix(t.skip(1), "]"@) {
        t.skip(1).take(t.skip(1).len() - 1)
    } else {
        Seq::empty()
    }
}

/// The strings of a GVariant string array as printed by `gsettings get`.
pub open spec fn gvariant_string_array(v: Seq<char>) -> Seq<Seq<char>> {
    gvariant_strings(split_on(gvariant_array_body(v), ','))
}

/// Reads a GVariant string array such as `['<Control><Super>space']`.
pub fn parse_gvariant_string_array(value: &str) -> (r: Vec<String>)
    ensures
        r@.len() == gvariant_string_array(value@).len(),
        forall|k: int| 0 <= k < r@.len() ==> (#[trigger] r@[k])@ == gvariant_string_array(value@)[k],
{
    let t = trimmed(&chars_of(value));
    let open_bracket = chars_of("[");
    let close_bracket = chars_of("]");
    proof {
        reveal_strlit("[");
        reveal_strlit("]");
    }
    let body = match strip_prefix(&t, &open_bracket) {
        Some(after) => match strip_suffix(&after, &close_bracket) {
            Some(inner) => inner,
            None => Vec::new(),
        },
        None => Vec::new(),
    };
    assert(body@ == gvariant_array_body(value@));
    let pieces = split_chars(&body, ',');
    let ghost spieces = split_on(body@, ',');
    let mut out: Vec<String> = Vec::new();
    let mut k: usize = 0;
    while k < pieces.len()
        invariant
            k <= pieces@.len(),
            pieces@.len() == spieces.len(),
            forall|m: int| 0 <= m < pieces@.len() ==> (#[trigger] pieces@[m])@ == spieces[m],
            out@.len() == gvariant_strings(spieces.take(k as int)).len(),
            forall|m: int|
                0 <= m < out@.len() ==> (#[trigger] out@[m])@ == gvariant_strings(
                    spieces.take(k as int),
                )[m],
        decreases pieces@.len() - k,
    {
        assert(spieces.take(k + 1).drop_last() =~= spieces.take(k as int));
        assert(spieces.take(k + 1).last() == spieces[k as int]);
        match gvariant_string_chars(&pieces[k]) {
            Some(s) => {
                out.push(string_from(&s));
            },
            None => {},
        }
        k = k + 1;
    }
    assert(spieces.take(pieces@.len() as int) =~= spieces);
    out
}

/// The GVariant literal that stores a one-element string array holding
/// `text`, with `\` and `'` escaped.
pub open spec fn gvariant_single_array(text: Seq<char>) -> Seq<char> {
    "['"@ + replaced(replaced(text, "\\"@, "\\\\"@), "'"@, "\\'"@) + "']"@
}

pub fn gvariant_single_array_text(text: &Vec<char>) -> (out: Vec<char>)
    ensures
        out@ == gvariant_single_array(text@),
{
    let backslash = chars_of("\\");
    let quote = chars_of("'");
    proof {
        reveal_strlit("\\");
        reveal_strlit("'");
    }
    let once = replace_all(text, &backslash, &chars_of("\\\\"));
    let escaped = replace_all(&once, &quote, &chars_of("\\'"));
    let mut out = chars_of("['");
    extend_chars(&mut out, &escaped);
    extend_chars(&mut out, &chars_of("']"));
    out
}

// ---------------------------------------------------------------------------
// Accelerators
// ---------------------------------------------------------------------------

/// Strips every leading copy of `needle` from `rest`, recording `canonical`
/// once in `modifiers`.
pub open spec fn consume_modifier(
    rest: Seq<char>,
    modifiers: Seq<char>,
    needle: Seq<char>,
    canonical: Seq<char>,
) -> (Seq<char>, Seq<char>)
    decreases rest.len(),
{
    if needle.len() > 0 && has_prefix(rest, needle) {
        consume_modifier(
            rest.skip(needle.len() as int),
            if contains_text(modifiers, canonical) {
                modifiers
            } else {
                modifiers + canonical
            },
            needle,
            canonical,
        )
    } else {
        (rest, modifiers)
    }
}

/// The modifier spellings that GNOME accepts, each with the canonical form
/// stored in settings, in the order in which they are recognised.
pub open spec fn modifier_table() -> Seq<(Seq<char>, Seq<char>)> {
    seq![
        ("<Primary>"@, "<Control>"@),
        ("<Ctrl>"@, "<Control>"@),
        ("<Control>"@, "<Control>"@),
        ("<Alt>"@, "<Alt>"@),
        ("<Super>"@, "<Super>"@),
        ("<Shift>"@, "<Shift>"@),
    ]
}

/// The text left and the canonical modifiers after stripping the first `k`
/// kinds of modifier prefix.
pub open spec fn strip_modifiers(value: Seq<char>, k: nat) -> (Seq<char>, Seq<char>)
    decreases k,
{
    if k == 0 {
        (value, Seq::empty())
    } else {
        let (rest, modifiers) = strip_modifiers(value, (k - 1) as nat);
        let entry = modifier_table()[k - 1];
        consume_modifier(rest, modifiers, entry.0, entry.1)
    }
}

/// `F1` to `F35`, possibly written with a `+` before the number.
pub open spec fn is_function_key(key: Seq<char>) -> bool {
    key.len() >= 2 && key[0] == 'F' && match spec_parse_u8(key.skip(1)) {
        Some(n) => 1 <= n <= 35,
        None => false,
    }
}

/// A single ASCII letter or digit (or a space).
pub open spec fn is_normal_key(key: Seq<char>) -> bool {
    key.len() == 1 && (spec_is_ascii_alphanumeric(key[0]) || key[0] == ' ')
}

/// The canonical form of a GNOME accelerator, or nothing when GNOME would
/// not accept it as a dictation shortcut: a function key, or a letter,
/// digit or `space` with at least one of Control, Alt or Super.
pub open spec fn normalized_accelerator(v: Seq<char>) -> Option<Seq<char>> {
    let value = trim(v);
    let (rest, modifiers) = strip_modifiers(value, 6);
    let key = trim(rest);
    let function = is_function_key(key);
    let allowed_modifier = contains_text(modifiers, "<Control>"@) || contains_text(
        modifiers,
        "<Alt>"@,
    ) || contains_text(modifiers, "<Super>"@);
    if value.len() == 0 {
        None
    } else if (allowed_modifier || function) && (is_normal_key(key) || function || key
        == "space"@) {
        Some(
            modifiers + if key == " "@ {
                "space"@
            } else {
                key
            },
        )
    } else {
        None
    }
}

fn consume_modifier_exec(
    rest: Vec<char>,
    modifiers: Vec<char>,
    needle: &str,
    canonical: &str,
) -> (r: (Vec<char>, Vec<char>))
    requires
        needle@.len() > 0,
    ensures
        (r.0@, r.1@) == consume_modifier(rest@, modifiers@, needle@, canonical@),
{
    let ghost target = consume_modifier(rest@, modifiers@, needle@, canonical@);
    let needle_chars = chars_of(needle);
    let canonical_chars = chars_of(canonical);
    let mut rest = rest;
    let mut modifiers = modifiers;
    loop
        invariant
            needle_chars@ == needle@,
            canonical_chars@ == canonical@,
            needle@.len() > 0,
            consume_modifier(rest@, modifiers@, needle@, canonical@) == target,
        ensures
            (rest@, modifiers@) == target,
        decreases rest@.len(),
    {
        match strip_prefix(&rest, &needle_chars) {
            Some(after) => {
                if !contains(&modifiers, &canonical_chars) {
                    extend_chars(&mut modifiers, &canonical_chars);
                }
                rest = after;
            },
            None => {
                break;
            },
        }
    }
    (rest, modifiers)
}

fn is_function_key_exec(key: &Vec<char>) -> (r: bool)
    ensures
        r == is_function_key(key@),
{
    if key.len() < 2 || key[0] != 'F' {
        return false;
    }
    let number = slice_chars(key, 1, key.len());
    assert(number@ =~= key@.skip(1));
    match parse_u8(&number) {
        Some(n) => 1 <= n && n <= 35,
        None => false,
    }
}

/// Normalises a GNOME accelerator; `None` when it is not a usable shortcut.
pub fn normalize_accelerator(value: &str) -> (r: Option<String>)
    ensures
        option_view(r) == normalized_accelerator(value@),
{
    let v = trimmed(&chars_of(value));
    if v.len() == 0 {
        return None;
    }
    reveal_with_fuel(strip_modifiers, 7);
    let none: Vec<char> = Vec::new();
    assert(none@ =~= Seq::<char>::empty());
    proof {
        reveal_strlit("<Primary>");
        reveal_strlit("<Ctrl>");
        reveal_strlit("<Control>");
        reveal_strlit("<Alt>");
        reveal_strlit("<Super>");
        reveal_strlit("<Shift>");
    }
    let (rest, modifiers) = consume_modifier_exec(v.clone(), none, "<Primary>", "<Control>");
    let (rest, modifiers) = consume_modifier_exec(rest, modifiers, "<Ctrl>", "<Control>");
    let (rest, modifiers) = consume_modifier_exec(rest, modifiers, "<Control>", "<Control>");
    let (rest, modifiers) = consume_modifier_exec(rest, modifiers, "<Alt>", "<Alt>");
    let (rest, modifiers) = consume_modifier_exec(rest, modifiers, "<Super>", "<Super>");
    let (rest, modifiers) = consume_modifier_exec(rest, modifiers, "<Shift>", "<Shift>");
    assert((rest@, modifiers@) == strip_modifiers(v@, 6));
    let key = trimmed(&rest);
    let function = is_function_key_exec(&key);
    let normal = key.len() == 1 && (is_ascii_alphanumeric(key[0]) || key[0] == ' ');
    let allowed_modifier = contains(&modifiers, &chars_of("<Control>")) || contains(
        &modifiers,
        &chars_of("<Alt>"),
    ) || contains(&modifiers, &chars_of("<Super>"));
    if (allowed_modifier || function) && (normal || function || is_text(&key, "space")) {
        let mut out = modifiers;
        if is_text(&key, " ") {
            extend_chars(&mut out, &chars_of("space"));
        } else {
            extend_chars(&mut out, &key);
        }
        Some(string_from(&out))
    } else {
        None
    }
}

// ---------------------------------------------------------------------------
// Reading and writing GSettings
// ---------------------------------------------------------------------------

/// The outcome of a `gsettings` invocation: its trimmed output on success;
/// otherwise its trimmed error text, or a generic message when that is
/// empty.
pub open spec fn gsettings_outcome(success: bool, stdout: Seq<char>, stderr: Seq<char>) -> Result<
    Seq<char>,
    Seq<char>,
> {
    if success {
        Ok(trim(stdout))
    } else if trim(stderr).len() == 0 {
        Err("GSettings operation failed"@)
    } else {
        Err(trim(stderr))
    }
}

/// Interprets what `gsettings` printed, given whether it exited successfully.
pub fn gsettings_result(success: bool, stdout: &str, stderr: &str) -> (r: Result<String, Failure>)
    ensures
        match r {
            Ok(out) => gsettings_outcome(success, stdout@, stderr@) == Ok::<Seq<char>, Seq<char>>(
                out@,
            ),
            Err(f) => f.kind == FailureKind::Other && gsettings_outcome(success, stdout@, stderr@)
                == Err::<Seq<char>, Seq<char>>(f.message@),
        },
{
    if success {
        return Ok(string_from(&trimmed(&chars_of(stdout))));
    }
    let message = trimmed(&chars_of(stderr));
    if message.len() == 0 {
        Err(Failure::new(FailureKind::Other, "GSettings operation failed"))
    } else {
        Err(Failure::with_text(FailureKind::Other, &message))
    }
}

/// The first string of a GVariant string array, if any.
pub open spec fn first_gvariant_string(v: Seq<char>) -> Option<Seq<char>> {
    if gvariant_string_array(v).len() > 0 {
        Some(gvariant_string_array(v)[0])
    } else {
        None
    }
}

/// The saved language read from `gsettings get`: the normalised string, or
/// `auto` when it is missing or invalid.
pub open spec fn loaded_language(output: Option<Seq<char>>) -> Seq<char> {
    match output {
        Some(v) => match gvariant_string(v) {
            Some(s) => match normalized_language(s) {
                Some(n) => n,
                None => "auto"@,
            },
            None => "auto"@,
        },
        None => "auto"@,
    }
}

impl Settings {
    /// The preferences given what `gsettings get` printed for each key
    /// (`None` when it failed) and the `CODEX_VOICE_LANG` environment value.
    /// Booleans default to `true`, the shortcut to the default keybinding and
    /// the language to `auto`.
    pub fn from_gsettings(
        enabled: Option<String>,
        show_tray_icon: Option<String>,
        keybinding: Option<String>,
        language: Option<String>,
        language_env: Option<String>,
    ) -> (s: Settings)
        ensures
            s.enabled == match enabled {
                Some(v) => v@ == "true"@,
                None => true,
            },
            s.show_tray_icon == match show_tray_icon {
                Some(v) => v@ == "true"@,
                None => true,
            },
            s.keybinding@ == match keybinding {
                Some(v) => match first_gvariant_string(v@) {
                    Some(k) => k,
                    None => DEFAULT_KEYBINDING@,
                },
                None => DEFAULT_KEYBINDING@,
            },
            s.language@ == loaded_language(option_view(language)),
            option_view(s.language_override) == match language_env {
                Some(v) => normalized_language(v@),
                None => None,
            },
    {
        let enabled = match &enabled {
            Some(v) => is_text(&chars_of(v.as_str()), "true"),
            None => true,
        };
        let show_tray_icon = match &show_tray_icon {
            Some(v) => is_text(&chars_of(v.as_str()), "true"),
            None => true,
        };
        let keybinding = match &keybinding {
            Some(v) => {
                let mut all = parse_gvariant_string_array(v.as_str());
                if all.len() > 0 {
                    all.swap_remove(0)
                } else {
                    string_from(&chars_of(DEFAULT_KEYBINDING))
                }
            },
            None => string_from(&chars_of(DEFAULT_KEYBINDING)),
        };
        let language = match &language {
            Some(v) => match parse_gvariant_string(v.as_str()) {
                Some(s) => match normalize_language(s.as_str()) {
                    Some(n) => n,
                    None => string_from(&chars_of("auto")),
                },
                None => string_from(&chars_of("auto")),
            },
            None => string_from(&chars_of("auto")),
        };
        let language_override = match &language_env {
            Some(v) => normalize_language(v.as_str()),
            None => None,
        };
        Settings { enabled, show_tray_icon, keybinding, language, language_override }
    }
}

/// What follows a successful settings write.
#[derive(Debug, Clone, Copy, PartialEq, Eq, Structural)]
pub enum AfterWrite {
    Nothing,
    /// Install (`true`) or remove (`false`) the fallback global shortcut.
    SyncShortcut(bool),
    /// Install the fallback global shortcut if dictation is enabled.
    SyncShortcutIfEnabled,
}

/// A validated `settings set`: the GSettings key, the value text passed to
/// `gsettings set`, and the follow-up.
#[derive(Debug, Clone)]
pub struct SettingsWrite {
    pub key: String,
    pub value: String,
    pub after: AfterWrite,
}

/// The write that `settings set <key> <value>` performs, or the message
/// with which it is rejected.
pub open spec fn settings_write_for(key: Seq<char>, value: Seq<char>) -> Result<
    (Seq<char>, AfterWrite),
    Seq<char>,
> {
    if key == "enabled"@ || key == "show-tray-icon"@ {
        if value != "true"@ && value != "false"@ {
            Err("boolean setting must be true or false"@)
        } else {
            Ok(
                (
                    value,
                    if key == "enabled"@ {
                        AfterWrite::SyncShortcut(value == "true"@)
                    } else {
                        AfterWrite::Nothing
                    },
                ),
            )
        }
    } else if key == "keybinding"@ {
        match normalized_accelerator(value) {
            Some(a) => Ok((gvariant_single_array(a), AfterWrite::SyncShortcutIfEnabled)),
            None => Err("invalid GNOME accelerator"@),
        }
    } else if key == "language"@ {
        match normalized_language(value) {
            Some(l) => Ok((l, AfterWrite::Nothing)),
            None => Err("language must be auto or a BCP-47-like code"@),
        }
    } else {
        Err("unknown settings key"@)
    }
}

/// Validates `settings set <key> <value>` and gives the write to perform.
pub fn plan_settings_set(key: &str, value: &str) -> (r: Result<SettingsWrite, Failure>)
    ensures
        match r {
            Ok(w) => w.key@ == key@ && settings_write_for(key@, value@) == Ok::<
                (Seq<char>, AfterWrite),
                Seq<char>,
            >((w.value@, w.after)),
            Err(f) => f.kind == FailureKind::InvalidInput && settings_write_for(key@, value@)
                == Err::<(Seq<char>, AfterWrite), Seq<char>>(f.message@),
        },
{
    let k = chars_of(key);
    let v = chars_of(value);
    if is_text(&k, "enabled") || is_text(&k, "show-tray-icon") {
        if !is_text(&v, "true") && !is_text(&v, "false") {
            return Err(invalid_input("boolean setting must be true or false"));
        }
        let after = if is_text(&k, "enabled") {
            AfterWrite::SyncShortcut(is_text(&v, "true"))
        } else {
            AfterWrite::Nothing
        };
        Ok(SettingsWrite { key: string_from(&k), value: string_from(&v), after })
    } else if is_text(&k, "keybinding") {
        match normalize_accelerator(value) {
            Some(a) => {
                let text = gvariant_single_array_text(&chars_of(a.as_str()));
                Ok(
                    SettingsWrite {
                        key: string_from(&k),
                        value: string_from(&text),
                        after: AfterWrite::SyncShortcutIfEnabled,
                    },
                )
            },
            None => Err(invalid_input("invalid GNOME accelerator")),
        }
    } else if is_text(&k, "language") {
        match normalize_language(value) {
            Some(l) => Ok(SettingsWrite { key: string_from(&k), value: l, after: AfterWrite::Nothing }),
            None => Err(invalid_input("language must be auto or a BCP-47-like code")),
        }
    } else {
        Err(invalid_input("unknown settings key"))
    }
}

/// What the fallback-shortcut helper is asked to do.
#[derive(Debug, Clone, Copy, PartialEq, Eq, Structural)]
pub enum ShortcutAction {
    Install,
    Remove,
}

/// The fallback global shortcut is installed only while dictation is enabled
/// and the GNOME Shell extension (which owns the real shortcut) is inactive.
pub fn fallback_shortcut_action(enabled: bool, extension_active: bool) -> (a: ShortcutAction)
    ensures
        a == (if enabled && !extension_active {
            ShortcutAction::Install
        } else {
            ShortcutAction::Remove
        }),
{
    if enabled && !extension_active {
        ShortcutAction::Install
    } else {
        ShortcutAction::Remove
    }
}

pub open spec fn shortcut_action_name(a: ShortcutAction) -> Seq<char> {
    match a {
        ShortcutAction::Install => "install"@,
        ShortcutAction::Remove => "remove"@,
    }
}

impl ShortcutAction {
    /// The helper's argument for this action.
    pub fn name(&self) -> (n: String)
        ensures
            n@ == shortcut_action_name(*self),
    {
        match self {
            ShortcutAction::Install => string_from(&chars_of("install")),
            ShortcutAction::Remove => string_from(&chars_of("remove")),
        }
    }

    /// The error when the helper fails.
    pub fn failure(&self) -> (f: Failure)
        ensures
            f.kind == FailureKind::Other,
            f.message@ == "could not "@ + shortcut_action_name(*self)
                + " the fallback global shortcut"@,
    {
        let mut text = chars_of("could not ");
        extend_chars(&mut text, &chars_of(self.name().as_str()));
        extend_chars(&mut text, &chars_of(" the fallback global shortcut"));
        Failure::with_text(FailureKind::Other, &text)
    }
}

/// Whether `gnome-extensions info` reports the extension as active: some
/// line reads `State: ACTIVE`, ignoring case and surrounding whitespace.
pub open spec fn extension_state_active(info: Seq<char>) -> bool {
    exists|k: int|
        0 <= k < lines(info).len() && spec_eq_ignore_ascii_case(
            trim(#[trigger] lines(info)[k]),
            "State: ACTIVE"@,
        )
}

pub fn extension_is_active(info: &str) -> (r: bool)
    ensures
        r == extension_state_active(info@),
{
    let all = lines_of(&chars_of(info));
    let expected = chars_of("State: ACTIVE");
    let mut k: usize = 0;
    while k < all.len()
        invariant
            k <= all@.len(),
            expected@ == "State: ACTIVE"@,
            all@.len() == lines(info@).len(),
            forall|m: int| 0 <= m < all@.len() ==> (#[trigger] all@[m])@ == lines(info@)[m],
            forall|m: int|
                0 <= m < k ==> !spec_eq_ignore_ascii_case(
                    trim(#[trigger] lines(info@)[m]),
                    "State: ACTIVE"@,
                ),
        decreases all@.len() - k,
    {
        if eq_ignore_ascii_case(&trimmed(&all[k]), &expected) {
            return true;
        }
        k = k + 1;
    }
    false
}

/// The `GSETTINGS_SCHEMA_DIR` value for `gsettings`: the product's schema
/// directories followed by any existing value, joined with `:`; nothing
/// when the product has no schema directory.
pub open spec fn schema_search_path(dirs: Seq<Seq<char>>, existing: Option<Seq<char>>) -> Option<
    Seq<char>,
> {
    if dirs.len() == 0 {
        None
    } else {
        Some(
            joined(
                match existing {
                    Some(e) => dirs.push(e),
                    None => dirs,
                },
                ':',
            ),
        )
    }
}

pub fn gsettings_schema_path(dirs: &Vec<String>, existing: Option<String>) -> (r: Option<String>)
    ensures
        option_view(r) == schema_search_path(
            dirs@.map_values(|d: String| d@),
            option_view(existing),
        ),
{
    if dirs.len() == 0 {
        return None;
    }
    let ghost dviews = dirs@.map_values(|d: String| d@);
    let mut parts: Vec<Vec<char>> = Vec::new();
    let mut i: usize = 0;
    while i < dirs.len()
        invariant
            i <= dirs@.len(),
            dviews == dirs@.map_values(|d: String| d@),
            parts@.len() == i,
            forall|k: int| 0 <= k < i ==> (#[trigger] parts@[k])@ == dviews[k],
        decreases dirs@.len() - i,
    {
        parts.push(chars_of(dirs[i].as_str()));
        i = i + 1;
    }
    let ghost all = match option_view(existing) {
        Some(e) => dviews.push(e),
        None => dviews,
    };
    match &existing {
        Some(e) => {
            parts.push(chars_of(e.as_str()));
        },
        None => {},
    }
    assert(parts@.map_values(|p: Vec<char>| p@) =~= all);
    Some(string_from(&join_chars(&parts, ':')))
}

// ---------------------------------------------------------------------------
// What a saved setting reads back as
// ---------------------------------------------------------------------------

/// A character that survives GVariant quoting and array splitting as is.
pub open spec fn is_plain_char(c: char) -> bool {
    c != ',' && c != '\'' && c != '\\'
}

pub open spec fn is_plain(s: Seq<char>) -> bool {
    forall|i: int| 0 <= i < s.len() ==> is_plain_char(#[trigger] s[i])
}

proof fn lemma_settings_keys_distinct()
    ensures
        "language"@ != "enabled"@,
        "language"@ != "show-tray-icon"@,
        "language"@ != "keybinding"@,
        "keybinding"@ != "enabled"@,
        "keybinding"@ != "show-tray-icon"@,
        "enabled"@ != "show-tray-icon"@,
{
    reveal_strlit("language");
    reveal_strlit("enabled");
    reveal_strlit("show-tray-icon");
    reveal_strlit("keybinding");
    assert("language"@.len() != "enabled"@.len());
    assert("language"@.len() != "show-tray-icon"@.len());
    assert("language"@.len() != "keybinding"@.len());
    assert("keybinding"@.len() != "enabled"@.len());
    assert("keybinding"@.len() != "show-tray-icon"@.len());
    assert("enabled"@.len() != "show-tray-icon"@.len());
}

/// What `settings set` does with each key: the two boolean keys accept only
/// `true` and `false` (and only `enabled` resyncs the shortcut), `keybinding`
/// accepts a normalizable GNOME accelerator, `language` accepts `auto` or a
/// BCP-47-like code, and every other key is rejected as unknown.
pub proof fn lemma_settings_write_per_key(key: Seq<char>, value: Seq<char>)
    ensures
        settings_write_for("enabled"@, value) == if value == "true"@ || value == "false"@ {
            Ok::<(Seq<char>, AfterWrite), Seq<char>>(
                (value, AfterWrite::SyncShortcut(value == "true"@)),
            )
        } else {
            Err::<(Seq<char>, AfterWrite), Seq<char>>("boolean setting must be true or false"@)
        },
        settings_write_for("show-tray-icon"@, value) == if value == "true"@ || value == "false"@ {
            Ok::<(Seq<char>, AfterWrite), Seq<char>>((value, AfterWrite::Nothing))
        } else {
            Err::<(Seq<char>, AfterWrite), Seq<char>>("boolean setting must be true or false"@)
        },
        settings_write_for("keybinding"@, value) == match normalized_accelerator(value) {
            Some(a) => Ok::<(Seq<char>, AfterWrite), Seq<char>>(
                (gvariant_single_array(a), AfterWrite::SyncShortcutIfEnabled),
            ),
            None => Err::<(Seq<char>, AfterWrite), Seq<char>>("invalid GNOME accelerator"@),
        },
        settings_write_for("language"@, value) == match normalized_language(value) {
            Some(l) => Ok::<(Seq<char>, AfterWrite), Seq<char>>((l, AfterWrite::Nothing)),
            None => Err::<(Seq<char>, AfterWrite), Seq<char>>(
                "language must be auto or a BCP-47-like code"@,
            ),
        },
        key != "enabled"@ && key != "show-tray-icon"@ && key != "keybinding"@ && key
            != "language"@ ==> settings_write_for(key, value) == Err::<
            (Seq<char>, AfterWrite),
            Seq<char>,
        >("unknown settings key"@),
{
    lemma_settings_keys_distinct();
}

/// A language whose trimmed text holds a character that is neither an ASCII
/// letter or digit nor `-` is rejected by `settings set language`.
pub proof fn lemma_language_with_other_character_rejected(v: Seq<char>, i: int)
    requires
        0 <= i < trim(v).len(),
        trim(v)[i] != '-',
        !spec_is_ascii_alphanumeric(trim(v)[i]),
    ensures
        normalized_language(v) is None,
        settings_write_for("language"@, v) == Err::<(Seq<char>, AfterWrite), Seq<char>>(
            "language must be auto or a BCP-47-like code"@,
        ),
{
    reveal_strlit("auto");
    lemma_settings_keys_distinct();
    let value = spec_lowercase(trim(v));
    assert(value[i] == trim(v)[i]);
    if normalized_language(v) is Some {
        lemma_normalized_language_chars(v);
        if value.len() == 0 || value == "auto"@ {
            assert("auto"@[i] == value[i]);
        } else {
            assert(normalized_language(v)->0 == value);
            assert(value[i] == '-' || spec_is_ascii_alphanumeric(value[i]));
        }
    }
}

/// A language tag whose lower-cased, trimmed text is at most 35 characters
/// and whose `-`-separated parts each hold 1 to 8 ASCII letters or digits is
/// accepted by `settings set language` and stored in lower case.
pub proof fn lemma_well_formed_language_accepted(v: Seq<char>)
    requires
        spec_lowercase(trim(v)).len() <= 35,
        forall|k: int|
            0 <= k < split_on(spec_lowercase(trim(v)), '-').len() ==> 0 < (#[trigger] split_on(
                spec_lowercase(trim(v)),
                '-',
            )[k]).len() <= 8,
        forall|k: int, j: int|
            0 <= k < split_on(spec_lowercase(trim(v)), '-').len() && 0 <= j < split_on(
                spec_lowercase(trim(v)),
                '-',
            )[k].len() ==> spec_is_ascii_alphanumeric(
                #[trigger] split_on(spec_lowercase(trim(v)), '-')[k][j],
            ),
    ensures
        normalized_language(v) == Some(spec_lowercase(trim(v))),
        settings_write_for("language"@, v) == Ok::<(Seq<char>, AfterWrite), Seq<char>>(
            (spec_lowercase(trim(v)), AfterWrite::Nothing),
        ),
{
    lemma_settings_keys_distinct();
    let value = spec_lowercase(trim(v));
    let parts = split_on(value, '-');
    lemma_split_nonempty(value, '-');
    if value.len() == 0 {
        assert(parts == seq![Seq::<char>::empty()]);
        assert(parts[0].len() == 0);
    }
    assert forall|k: int| 0 <= k < parts.len() implies valid_language_part(#[trigger] parts[k]) by {
        assert forall|i: int| 0 <= i < parts[k].len() implies spec_is_ascii_alphanumeric(
            #[trigger] parts[k][i],
        ) by {
            assert(spec_is_ascii_alphanumeric(split_on(value, '-')[k][i]));
        }
    }
}

/// A language other than `auto` or the empty text is rejected by
/// `settings set language` when its lower-cased, trimmed text is longer than
/// 35 characters or has an empty `-`-separated part or one longer than 8.
pub proof fn lemma_malformed_language_rejected(v: Seq<char>, k: int)
    requires
        spec_lowercase(trim(v)).len() > 0,
        spec_lowercase(trim(v)) != "auto"@,
        spec_lowercase(trim(v)).len() > 35 || (0 <= k < split_on(spec_lowercase(trim(v)), '-').len()
            && (split_on(spec_lowercase(trim(v)), '-')[k].len() == 0 || split_on(
            spec_lowercase(trim(v)),
            '-',
        )[k].len() > 8)),
    ensures
        normalized_language(v) is None,
        settings_write_for("language"@, v) == Err::<(Seq<char>, AfterWrite), Seq<char>>(
            "language must be auto or a BCP-47-like code"@,
        ),
{
    lemma_settings_keys_distinct();
    let value = spec_lowercase(trim(v));
    if value.len() <= 35 {
        assert(!valid_language_part(split_on(value, '-')[k]));
    }
}

/// A GVariant string literal without escapes reads back as its contents.
proof fn lemma_quoted_reads_back(s: Seq<char>)
    requires
        forall|i: int| 0 <= i < s.len() ==> s[i] != '\\',
    ensures
        gvariant_string("'"@ + s + "'"@) == Some(s),
{
    reveal_strlit("'");
    reveal_strlit("\\'");
    reveal_strlit("\\\\");
    let q = "'"@ + s + "'"@;
    lemma_trim_identity(q);
    assert(q.take(1) =~= "'"@);
    let after = q.skip(1);
    assert(after =~= s + "'"@);
    assert(after.skip(after.len() - 1) =~= "'"@);
    assert(after.take(after.len() - 1) =~= s);
    lemma_replaced_absent(s, "\\'"@, "'"@);
    lemma_replaced_absent(s, "\\\\"@, "\\"@);
}

/// Every character of a normalised language is an ASCII letter, digit or
/// `-`.
proof fn lemma_normalized_language_chars(v: Seq<char>)
    requires
        normalized_language(v) is Some,
    ensures
        forall|i: int|
            0 <= i < normalized_language(v)->0.len() ==> #[trigger] normalized_language(v)->0[i]
                == '-' || spec_is_ascii_alphanumeric(normalized_language(v)->0[i]),
{
    reveal_strlit("auto");
    let value = spec_lowercase(trim(v));
    if value.len() == 0 || value == "auto"@ {
    } else {
        assert forall|k: int, j: int|
            0 <= k < split_on(value, '-').len() && 0 <= j < split_on(value, '-')[k].len()
                implies spec_is_ascii_alphanumeric(#[trigger] split_on(value, '-')[k][j]) by {
            assert(valid_language_part(split_on(value, '-')[k]));
        }
        lemma_split_pieces_alphanumeric(value, '-');
    }
}

/// Normalising a normalised language changes nothing.
pub proof fn lemma_normalized_language_is_stable(v: Seq<char>)
    requires
        normalized_language(v) is Some,
    ensures
        normalized_language(normalized_language(v)->0) == normalized_language(v),
{
    reveal_strlit("auto");
    let l = normalized_language(v)->0;
    lemma_normalized_language_chars(v);
    if l.len() > 0 {
        assert(l[0] == '-' || spec_is_ascii_alphanumeric(l[0]));
        assert(l[l.len() - 1] == '-' || spec_is_ascii_alphanumeric(l[l.len() - 1]));
    }
    lemma_trim_identity(l);
    let value = spec_lowercase(trim(v));
    if value.len() == 0 || value == "auto"@ {
        assert(spec_lowercase(l) =~= l);
    } else {
        lemma_lowercase_idempotent(trim(v));
    }
}

/// A language saved by `settings set language`, printed back by
/// `gsettings get` as a quoted string literal, loads as the same language.
pub proof fn lemma_saved_language_reads_back(value: Seq<char>)
    requires
        settings_write_for("language"@, value) is Ok,
    ensures
        loaded_language(Some("'"@ + settings_write_for("language"@, value)->Ok_0.0 + "'"@))
            == settings_write_for("language"@, value)->Ok_0.0,
{
    lemma_settings_keys_distinct();
    let l = normalized_language(value)->0;
    lemma_normalized_language_chars(value);
    lemma_quoted_reads_back(l);
    lemma_normalized_language_is_stable(value);
}

proof fn lemma_consume_modifier_plain(
    rest: Seq<char>,
    modifiers: Seq<char>,
    needle: Seq<char>,
    canonical: Seq<char>,
)
    requires
        is_plain(modifiers),
        is_plain(canonical),
    ensures
        is_plain(consume_modifier(rest, modifiers, needle, canonical).1),
    decreases rest.len(),
{
    if needle.len() > 0 && has_prefix(rest, needle) {
        let next = if contains_text(modifiers, canonical) {
            modifiers
        } else {
            modifiers + canonical
        };
        assert(is_plain(next)) by {
            if !contains_text(modifiers, canonical) {
                assert forall|i: int| 0 <= i < next.len() implies is_plain_char(#[trigger] next[i]) by {
                    if i >= modifiers.len() {
                        assert(next[i] == canonical[i - modifiers.len()]);
                    }
                }
            }
        }
        lemma_consume_modifier_plain(rest.skip(needle.len() as int), next, needle, canonical);
    }
}

proof fn lemma_strip_modifiers_plain(value: Seq<char>, k: nat)
    requires
        k <= 6,
    ensures
        is_plain(strip_modifiers(value, k).1),
    decreases k,
{
    if k > 0 {
        lemma_strip_modifiers_plain(value, (k - 1) as nat);
        reveal_strlit("<Control>");
        reveal_strlit("<Alt>");
        reveal_strlit("<Super>");
        reveal_strlit("<Shift>");
        let entry = modifier_table()[k - 1];
        assert(is_plain(entry.1));
        let (rest, modifiers) = strip_modifiers(value, (k - 1) as nat);
        lemma_consume_modifier_plain(rest, modifiers, entry.0, entry.1);
    }
}

proof fn lemma_function_key_plain(key: Seq<char>)
    requires
        is_function_key(key),
    ensures
        is_plain(key),
{
    let number = key.skip(1);
    let (negative, digits) = sign_and_digits(number, false);
    assert(decimal_value(number, false) is Some);
    assert(all_digits(digits));
    assert forall|i: int| 0 <= i < key.len() implies is_plain_char(#[trigger] key[i]) by {
        if i > 0 {
            assert(key[i] == number[i - 1]);
            if number.len() > 0 && number[0] == '+' {
                if i > 1 {
                    assert(number[i - 1] == digits[i - 2]);
                    assert(spec_is_ascii_digit(digits[i - 2]));
                }
            } else {
                assert(number[i - 1] == digits[i - 1]);
                assert(spec_is_ascii_digit(digits[i - 1]));
            }
        }
    }
}

/// A normalised accelerator has no character that GVariant quoting or array
/// splitting would change.
proof fn lemma_normalized_accelerator_plain(v: Seq<char>)
    requires
        normalized_accelerator(v) is Some,
    ensures
        is_plain(normalized_accelerator(v)->0),
{
    reveal_strlit("space");
    reveal_strlit(" ");
    let value = trim(v);
    let (rest, modifiers) = strip_modifiers(value, 6);
    let key = trim(rest);
    lemma_strip_modifiers_plain(value, 6);
    let shown = if key == " "@ {
        "space"@
    } else {
        key
    };
    if is_function_key(key) {
        lemma_function_key_plain(key);
    } else if key == "space"@ {
    } else {
        assert(is_normal_key(key));
    }
    assert(is_plain(shown));
    let a = modifiers + shown;
    assert(a == normalized_accelerator(v)->0);
    assert forall|i: int| 0 <= i < a.len() implies is_plain_char(#[trigger] a[i]) by {
        if i < modifiers.len() {
            assert(a[i] == modifiers[i]);
        } else {
            assert(a[i] == shown[i - modifiers.len()]);
        }
    }
}

/// A shortcut saved by `settings set keybinding` reads back from the stored
/// GVariant array as the same, normalised shortcut.
pub proof fn lemma_saved_keybinding_reads_back(value: Seq<char>)
    requires
        settings_write_for("keybinding"@, value) is Ok,
    ensures
        first_gvariant_string(settings_write_for("keybinding"@, value)->Ok_0.0)
            == normalized_accelerator(value),
{
    lemma_settings_keys_distinct();
    reveal_strlit("\\");
    reveal_strlit("'");
    reveal_strlit("['");
    reveal_strlit("']");
    reveal_strlit("[");
    reveal_strlit("]");
    let a = normalized_accelerator(value)->0;
    lemma_normalized_accelerator_plain(value);
    lemma_replaced_absent(a, "\\"@, "\\\\"@);
    lemma_replaced_absent(a, "'"@, "\\'"@);
    let stored = gvariant_single_array(a);
    assert(stored =~= "['"@ + a + "']"@);
    lemma_trim_identity(stored);
    assert(stored.take(1) =~= "["@);
    let after = stored.skip(1);
    assert(after.skip(after.len() - 1) =~= "]"@);
    let body = after.take(after.len() - 1);
    assert(body =~= "'"@ + a + "'"@);
    assert(gvariant_array_body(stored) == body);
    lemma_split_without_separator(body, ',');
    lemma_quoted_reads_back(a);
    assert(gvariant_strings(seq![body]) =~= seq![a]) by {
        assert(seq![body].drop_last() =~= Seq::<Seq<char>>::empty());
        assert(gvariant_strings(Seq::<Seq<char>>::empty()) == Seq::<Seq<char>>::empty());
        assert(seq![body].last() == body);
        assert(gvariant_string(body) == Some(a));
    }
}

// ---------------------------------------------------------------------------
// The canonical form of a shortcut
// ---------------------------------------------------------------------------

/// `text` when `present`, nothing otherwise.
pub open spec fn optional_text(present: bool, text: Seq<char>) -> Seq<char> {
    if present {
        text
    } else {
        Seq::empty()
    }
}

/// The canonical modifiers, each at most once, in the order
/// `<Control><Alt><Super><Shift>`.
pub open spec fn modifier_text(control: bool, alt: bool, sup: bool, shift: bool) -> Seq<char> {
    optional_text(control, "<Control>"@) + optional_text(alt, "<Alt>"@) + optional_text(
        sup,
        "<Super>"@,
    ) + optional_text(shift, "<Shift>"@)
}

/// The key of a canonical shortcut: one ASCII letter or digit, `space`, or
/// a function key `F1` to `F35`.
pub open spec fn is_shortcut_key(key: Seq<char>) -> bool {
    (key.len() == 1 && spec_is_ascii_alphanumeric(key[0])) || key == "space"@ || is_function_key(
        key,
    )
}

/// A canonical shortcut: canonical modifiers followed by one key, with
/// Control, Alt or Super unless the key is a function key.
pub open spec fn is_canonical_shortcut(a: Seq<char>) -> bool {
    exists|control: bool, alt: bool, sup: bool, shift: bool, key: Seq<char>|
        a == modifier_text(control, alt, sup, shift) + key && is_shortcut_key(key) && (control
            || alt || sup || is_function_key(key))
}

pub open spec fn lacks(s: Seq<char>, c: char) -> bool {
    forall|i: int| 0 <= i < s.len() ==> s[i] != c
}

proof fn lemma_lacks_concat(x: Seq<char>, y: Seq<char>, c: char)
    requires
        lacks(x, c),
        lacks(y, c),
    ensures
        lacks(x + y, c),
{
    assert forall|i: int| 0 <= i < (x + y).len() implies (x + y)[i] != c by {
        if i < x.len() {
            assert((x + y)[i] == x[i]);
        } else {
            assert((x + y)[i] == y[i - x.len()]);
        }
    }
}

proof fn lemma_not_contained(s: Seq<char>, p: Seq<char>, j: int)
    requires
        0 <= j < p.len(),
        lacks(s, p[j]),
    ensures
        !contains_text(s, p),
{
    assert forall|i: int| !occurs_at(s, p, i) by {
        if occurs_at(s, p, i) {
            assert(s.subrange(i, i + p.len())[j] == s[i + j]);
        }
    }
}

proof fn lemma_contains_suffix(s: Seq<char>, p: Seq<char>)
    ensures
        contains_text(s + p, p),
{
    assert((s + p).subrange(s.len() as int, (s.len() + p.len()) as int) =~= p);
    assert(occurs_at(s + p, p, s.len() as int));
}

proof fn lemma_not_prefix(x: Seq<char>, p: Seq<char>, j: int)
    requires
        0 <= j < p.len(),
        j < x.len() ==> x[j] != p[j],
    ensures
        !has_prefix(x, p),
{
    if has_prefix(x, p) {
        assert(x.take(p.len() as int)[j] == x[j]);
    }
}

proof fn lemma_modifier_literals()
    ensures
        "<Control>"@.len() == 9,
        "<Alt>"@.len() == 5,
        "<Super>"@.len() == 7,
        "<Shift>"@.len() == 7,
        "<Primary>"@.len() == 9,
        "<Ctrl>"@.len() == 6,
        "<Control>"@[0] == '<' && "<Control>"@[1] == 'C' && "<Control>"@[2] == 'o',
        "<Alt>"@[0] == '<' && "<Alt>"@[1] == 'A',
        "<Super>"@[0] == '<' && "<Super>"@[1] == 'S' && "<Super>"@[2] == 'u',
        "<Shift>"@[0] == '<' && "<Shift>"@[1] == 'S' && "<Shift>"@[2] == 'h',
        "<Primary>"@[0] == '<' && "<Primary>"@[1] == 'P',
        "<Ctrl>"@[0] == '<' && "<Ctrl>"@[1] == 'C' && "<Ctrl>"@[2] == 't',
        lacks("<Control>"@, 'A') && lacks("<Control>"@, 'u') && lacks("<Control>"@, 'h'),
        lacks("<Alt>"@, 'C') && lacks("<Alt>"@, 'u') && lacks("<Alt>"@, 'h'),
        lacks("<Super>"@, 'C') && lacks("<Super>"@, 'A') && lacks("<Super>"@, 'h'),
        lacks("<Shift>"@, 'C') && lacks("<Shift>"@, 'A') && lacks("<Shift>"@, 'u'),
{
    reveal_strlit("<Control>");
    reveal_strlit("<Alt>");
    reveal_strlit("<Super>");
    reveal_strlit("<Shift>");
    reveal_strlit("<Primary>");
    reveal_strlit("<Ctrl>");
}

/// What `consume_modifier` records: the canonical form once, when the
/// needle leads the text and the form is not recorded yet.
proof fn lemma_consume_modifiers(
    rest: Seq<char>,
    modifiers: Seq<char>,
    needle: Seq<char>,
    canonical: Seq<char>,
)
    requires
        needle.len() > 0,
    ensures
        consume_modifier(rest, modifiers, needle, canonical).1 == if has_prefix(rest, needle)
            && !contains_text(modifiers, canonical) {
            modifiers + canonical
        } else {
            modifiers
        },
    decreases rest.len(),
{
    if has_prefix(rest, needle) {
        let next = if contains_text(modifiers, canonical) {
            modifiers
        } else {
            modifiers + canonical
        };
        lemma_contains_suffix(modifiers, canonical);
        lemma_consume_modifiers(rest.skip(needle.len() as int), next, needle, canonical);
    }
}

/// Stripping a needle that leads the text once, and not again.
proof fn lemma_consume_once(
    rest: Seq<char>,
    modifiers: Seq<char>,
    needle: Seq<char>,
    canonical: Seq<char>,
)
    requires
        needle.len() > 0,
        !has_prefix(rest, needle),
        !contains_text(modifiers, canonical),
    ensures
        consume_modifier(needle + rest, modifiers, needle, canonical) == (
            rest,
            modifiers + canonical,
        ),
{
    assert((needle + rest).take(needle.len() as int) =~= needle);
    assert((needle + rest).skip(needle.len() as int) =~= rest);
    assert(consume_modifier(rest, modifiers + canonical, needle, canonical) == (
        rest,
        modifiers + canonical,
    ));
}

/// The modifiers that stripping records are canonical: each at most once,
/// in the canonical order.
proof fn lemma_strip_modifiers_canonical(value: Seq<char>) -> (flags: (bool, bool, bool, bool))
    ensures
        strip_modifiers(value, 6).1 == modifier_text(flags.0, flags.1, flags.2, flags.3),
{
    lemma_modifier_literals();
    let t = modifier_table();
    let e: Seq<char> = Seq::empty();
    let control = "<Control>"@;
    let s0 = strip_modifiers(value, 0);
    assert(s0 == (value, e));
    let s1 = strip_modifiers(value, 1);
    let s2 = strip_modifiers(value, 2);
    let s3 = strip_modifiers(value, 3);
    let s4 = strip_modifiers(value, 4);
    let s5 = strip_modifiers(value, 5);
    let s6 = strip_modifiers(value, 6);
    assert(s1 == consume_modifier(s0.0, s0.1, t[0].0, t[0].1));
    assert(s2 == consume_modifier(s1.0, s1.1, t[1].0, t[1].1));
    assert(s3 == consume_modifier(s2.0, s2.1, t[2].0, t[2].1));
    assert(s4 == consume_modifier(s3.0, s3.1, t[3].0, t[3].1));
    assert(s5 == consume_modifier(s4.0, s4.1, t[4].0, t[4].1));
    assert(s6 == consume_modifier(s5.0, s5.1, t[5].0, t[5].1));
    lemma_consume_modifiers(s0.0, s0.1, t[0].0, t[0].1);
    lemma_consume_modifiers(s1.0, s1.1, t[1].0, t[1].1);
    lemma_consume_modifiers(s2.0, s2.1, t[2].0, t[2].1);
    lemma_consume_modifiers(s3.0, s3.1, t[3].0, t[3].1);
    lemma_consume_modifiers(s4.0, s4.1, t[4].0, t[4].1);
    lemma_consume_modifiers(s5.0, s5.1, t[5].0, t[5].1);
    assert(lacks(e, 'C'));
    lemma_not_contained(e, control, 1);
    assert(e + control =~= control);
    lemma_contains_suffix(e, control);
    // After the three spellings of Control: nothing, or `<Control>` once.
    let c1 = has_prefix(s0.0, t[0].0);
    assert(s1.1 == optional_text(c1, control));
    let c2 = c1 || has_prefix(s1.0, t[1].0);
    assert(s2.1 == optional_text(c2, control));
    let c3 = c2 || has_prefix(s2.0, t[2].0);
    assert(s3.1 == optional_text(c3, control));
    let a = has_prefix(s3.0, t[3].0);
    let u = has_prefix(s4.0, t[4].0);
    let h = has_prefix(s5.0, t[5].0);
    let m3 = optional_text(c3, control);
    assert(lacks(m3, 'A') && lacks(m3, 'u') && lacks(m3, 'h'));
    lemma_not_contained(m3, "<Alt>"@, 1);
    let m4 = m3 + optional_text(a, "<Alt>"@);
    assert(s4.1 =~= m4);
    assert(lacks(optional_text(a, "<Alt>"@), 'u') && lacks(optional_text(a, "<Alt>"@), 'h'));
    lemma_lacks_concat(m3, optional_text(a, "<Alt>"@), 'u');
    lemma_lacks_concat(m3, optional_text(a, "<Alt>"@), 'h');
    lemma_not_contained(m4, "<Super>"@, 2);
    let m5 = m4 + optional_text(u, "<Super>"@);
    assert(s5.1 =~= m5);
    assert(lacks(optional_text(u, "<Super>"@), 'h'));
    lemma_lacks_concat(m4, optional_text(u, "<Super>"@), 'h');
    lemma_not_contained(m5, "<Shift>"@, 2);
    let m6 = m5 + optional_text(h, "<Shift>"@);
    assert(s6.1 =~= m6);
    assert(m6 =~= modifier_text(c3, a, u, h));
    (c3, a, u, h)
}

proof fn lemma_modifier_text_lacks(control: bool, alt: bool, sup: bool, shift: bool)
    ensures
        !control ==> lacks(modifier_text(control, alt, sup, shift), 'C'),
        !alt ==> lacks(modifier_text(control, alt, sup, shift), 'A'),
        !sup ==> lacks(modifier_text(control, alt, sup, shift), 'u'),
{
    lemma_modifier_literals();
    let c = optional_text(control, "<Control>"@);
    let a = optional_text(alt, "<Alt>"@);
    let u = optional_text(sup, "<Super>"@);
    let h = optional_text(shift, "<Shift>"@);
    if !control {
        lemma_lacks_concat(c, a, 'C');
        lemma_lacks_concat(c + a, u, 'C');
        lemma_lacks_concat(c + a + u, h, 'C');
    }
    if !alt {
        lemma_lacks_concat(c, a, 'A');
        lemma_lacks_concat(c + a, u, 'A');
        lemma_lacks_concat(c + a + u, h, 'A');
    }
    if !sup {
        lemma_lacks_concat(c, a, 'u');
        lemma_lacks_concat(c + a, u, 'u');
        lemma_lacks_concat(c + a + u, h, 'u');
    }
}

proof fn lemma_contains_middle(x: Seq<char>, p: Seq<char>, y: Seq<char>)
    ensures
        contains_text(x + p + y, p),
{
    assert((x + p + y).subrange(x.len() as int, (x.len() + p.len()) as int) =~= p);
    assert(occurs_at(x + p + y, p, x.len() as int));
}

proof fn lemma_function_key_ends(key: Seq<char>)
    requires
        is_function_key(key),
    ensures
        spec_is_ascii_digit(key.last()),
{
    let number = key.skip(1);
    let (negative, digits) = sign_and_digits(number, false);
    assert(decimal_value(number, false) is Some);
    assert(all_digits(digits) && digits.len() > 0);
    assert(number.last() == digits.last());
    assert(key.last() == number.last());
}

proof fn lemma_shortcut_key_ends(key: Seq<char>)
    requires
        is_shortcut_key(key),
    ensures
        key.len() > 0,
        key[0] != '<',
        !spec_is_whitespace(key[0]),
        !spec_is_whitespace(key.last()),
        key != " "@,
{
    reveal_strlit("space");
    reveal_strlit(" ");
    if is_function_key(key) {
        lemma_function_key_ends(key);
    }
    if key == " "@ {
        assert(key[0] == ' ');
    }
}

/// The key and modifiers of a normalised shortcut are canonical.
proof fn lemma_normalized_accelerator_shape(v: Seq<char>)
    requires
        normalized_accelerator(v) is Some,
    ensures
        is_canonical_shortcut(normalized_accelerator(v)->0),
{
    reveal_strlit("space");
    reveal_strlit(" ");
    lemma_modifier_literals();
    let value = trim(v);
    let (rest, modifiers) = strip_modifiers(value, 6);
    let key = trim(rest);
    let flags = lemma_strip_modifiers_canonical(value);
    lemma_modifier_text_lacks(flags.0, flags.1, flags.2, flags.3);
    if !flags.0 {
        lemma_not_contained(modifiers, "<Control>"@, 1);
    }
    if !flags.1 {
        lemma_not_contained(modifiers, "<Alt>"@, 1);
    }
    if !flags.2 {
        lemma_not_contained(modifiers, "<Super>"@, 2);
    }
    lemma_trim_ends(rest);
    if !is_function_key(key) && key != "space"@ {
        assert(is_normal_key(key));
        assert(key[0] != ' ');
    }
    if key == " "@ {
        assert(key[0] == ' ');
    }
    assert(is_shortcut_key(key));
    assert(normalized_accelerator(v)->0 == modifier_text(flags.0, flags.1, flags.2, flags.3)
        + key);
}

proof fn lemma_consume_none(
    rest: Seq<char>,
    modifiers: Seq<char>,
    needle: Seq<char>,
    canonical: Seq<char>,
)
    requires
        !has_prefix(rest, needle),
    ensures
        consume_modifier(rest, modifiers, needle, canonical) == (rest, modifiers),
{
}

/// A canonical shortcut normalises to itself.
proof fn lemma_canonical_shortcut_is_stable(
    control: bool,
    alt: bool,
    sup: bool,
    shift: bool,
    key: Seq<char>,
)
    requires
        is_shortcut_key(key),
        control || alt || sup || is_function_key(key),
    ensures
        normalized_accelerator(modifier_text(control, alt, sup, shift) + key) == Some(
            modifier_text(control, alt, sup, shift) + key,
        ),
{
    reveal_strlit("space");
    reveal_strlit(" ");
    lemma_modifier_literals();
    lemma_shortcut_key_ends(key);
    let cc = "<Control>"@;
    let aa = "<Alt>"@;
    let uu = "<Super>"@;
    let hh = "<Shift>"@;
    let e: Seq<char> = Seq::empty();
    let y3 = optional_text(shift, hh) + key;
    let y2 = optional_text(sup, uu) + y3;
    let y1 = optional_text(alt, aa) + y2;
    let y0 = optional_text(control, cc) + y1;
    let mt = modifier_text(control, alt, sup, shift);
    assert(mt + key =~= y0);
    // The first characters of each remainder.
    if shift {
        assert(y3[0] == '<' && y3[1] == 'S' && y3[2] == 'h');
    } else {
        assert(y3 =~= key);
    }
    if sup {
        assert(y2[0] == '<' && y2[1] == 'S' && y2[2] == 'u');
    } else {
        assert(y2 =~= y3);
    }
    if alt {
        assert(y1[0] == '<' && y1[1] == 'A');
    } else {
        assert(y1 =~= y2);
    }
    if control {
        assert(y0[0] == '<' && y0[1] == 'C' && y0[2] == 'o');
    } else {
        assert(y0 =~= y1);
    }
    assert(y0.len() > 0 && y0[0] != '<' ==> y0[0] == key[0]);
    // No remainder begins with a needle other than its own leading modifier.
    if y0[0] != '<' {
        lemma_not_prefix(y0, "<Primary>"@, 0);
        lemma_not_prefix(y0, "<Ctrl>"@, 0);
    } else {
        lemma_not_prefix(y0, "<Primary>"@, 1);
        if y0[1] == 'C' {
            lemma_not_prefix(y0, "<Ctrl>"@, 2);
        } else {
            lemma_not_prefix(y0, "<Ctrl>"@, 1);
        }
    }
    if y1[0] != '<' {
        lemma_not_prefix(y1, cc, 0);
    } else {
        lemma_not_prefix(y1, cc, 1);
    }
    if y2[0] != '<' {
        lemma_not_prefix(y2, aa, 0);
    } else {
        lemma_not_prefix(y2, aa, 1);
    }
    if y3[0] != '<' {
        lemma_not_prefix(y3, uu, 0);
    } else {
        lemma_not_prefix(y3, uu, 2);
    }
    lemma_not_prefix(key, hh, 0);
    // Trimming changes nothing.
    assert(y0.last() == key.last());
    lemma_trim_identity(y0);
    assert(trim(y0) == y0);
    // Stripping, table entry by table entry.
    let t = modifier_table();
    let s0 = strip_modifiers(y0, 0);
    let s1 = strip_modifiers(y0, 1);
    let s2 = strip_modifiers(y0, 2);
    let s3 = strip_modifiers(y0, 3);
    let s4 = strip_modifiers(y0, 4);
    let s5 = strip_modifiers(y0, 5);
    let s6 = strip_modifiers(y0, 6);
    assert(s0 == (y0, e));
    assert(s1 == consume_modifier(s0.0, s0.1, t[0].0, t[0].1));
    lemma_consume_none(y0, e, "<Primary>"@, cc);
    assert(s1 == (y0, e));
    assert(s2 == consume_modifier(s1.0, s1.1, t[1].0, t[1].1));
    lemma_consume_none(y0, e, "<Ctrl>"@, cc);
    assert(s2 == (y0, e));
    assert(s3 == consume_modifier(s2.0, s2.1, t[2].0, t[2].1));
    let m3 = optional_text(control, cc);
    assert(lacks(e, 'C'));
    lemma_not_contained(e, cc, 1);
    if control {
        assert(y0 =~= cc + y1);
        lemma_consume_once(y1, e, cc, cc);
        assert(e + cc =~= cc);
    } else {
        lemma_consume_none(y0, e, cc, cc);
    }
    assert(s3 == (y1, m3));
    assert(s4 == consume_modifier(s3.0, s3.1, t[3].0, t[3].1));
    lemma_modifier_text_lacks(control, false, false, false);
    assert(modifier_text(control, false, false, false) =~= m3);
    lemma_not_contained(m3, aa, 1);
    let m4 = m3 + optional_text(alt, aa);
    if alt {
        assert(y1 =~= aa + y2);
        lemma_consume_once(y2, m3, aa, aa);
    } else {
        lemma_consume_none(y1, m3, aa, aa);
        assert(m4 =~= m3);
    }
    assert(s4 == (y2, m4));
    assert(s5 == consume_modifier(s4.0, s4.1, t[4].0, t[4].1));
    lemma_modifier_text_lacks(control, alt, false, false);
    assert(modifier_text(control, alt, false, false) =~= m4);
    lemma_not_contained(m4, uu, 2);
    let m5 = m4 + optional_text(sup, uu);
    if sup {
        assert(y2 =~= uu + y3);
        lemma_consume_once(y3, m4, uu, uu);
    } else {
        lemma_consume_none(y2, m4, uu, uu);
        assert(m5 =~= m4);
    }
    assert(s5 == (y3, m5));
    assert(s6 == consume_modifier(s5.0, s5.1, t[5].0, t[5].1));
    let m6 = m5 + optional_text(shift, hh);
    if shift {
        assert(y3 =~= hh + key);
        assert(lacks(m5, 'h')) by {
            lemma_lacks_concat(optional_text(control, cc), optional_text(alt, aa), 'h');
            lemma_lacks_concat(m4, optional_text(sup, uu), 'h');
        }
        lemma_not_contained(m5, hh, 2);
        lemma_consume_once(key, m5, hh, hh);
    } else {
        lemma_consume_none(y3, m5, hh, hh);
        assert(m6 =~= m5);
    }
    assert(m6 =~= mt);
    assert(s6 == (key, mt));
    // The key and the modifiers pass the checks unchanged.
    lemma_trim_identity(key);
    if control {
        assert(mt =~= e + cc + (optional_text(alt, aa) + optional_text(sup, uu) + optional_text(
            shift,
            hh,
        )));
        lemma_contains_middle(e, cc, optional_text(alt, aa) + optional_text(sup, uu)
            + optional_text(shift, hh));
    } else if alt {
        assert(mt =~= optional_text(control, cc) + aa + (optional_text(sup, uu) + optional_text(
            shift,
            hh,
        )));
        lemma_contains_middle(optional_text(control, cc), aa, optional_text(sup, uu)
            + optional_text(shift, hh));
    } else if sup {
        assert(mt =~= optional_text(control, cc) + optional_text(alt, aa) + uu + optional_text(
            shift,
            hh,
        ));
        lemma_contains_middle(optional_text(control, cc) + optional_text(alt, aa), uu,
            optional_text(shift, hh));
    }
    if !is_function_key(key) && key != "space"@ {
        assert(is_normal_key(key));
    }
}

/// A normalised shortcut is canonical (each of `<Control>`, `<Alt>`,
/// `<Super>`, `<Shift>` at most once and in that order, then one letter or
/// digit, `space` or a function key, with Control, Alt or Super unless the
/// key is a function key), and normalising it again changes nothing.
pub proof fn lemma_normalized_accelerator_is_stable(v: Seq<char>)
    requires
        normalized_accelerator(v) is Some,
    ensures
        is_canonical_shortcut(normalized_accelerator(v)->0),
        normalized_accelerator(normalized_accelerator(v)->0) == normalized_accelerator(v),
{
    lemma_normalized_accelerator_shape(v);
    let a = normalized_accelerator(v)->0;
    let (control, alt, sup, shift, key) = choose|
        control: bool,
        alt: bool,
        sup: bool,
        shift: bool,
        key: Seq<char>,
    |
        a == modifier_text(control, alt, sup, shift) + key && is_shortcut_key(key) && (control
            || alt || sup || is_function_key(key));
    lemma_canonical_shortcut_is_stable(control, alt, sup, shift, key);
}

} // verus!
