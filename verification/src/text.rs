//! Character-level text operations with their mathematical meaning.
//!
//! The product parses command lines, GSettings output, `/proc` records and
//! tool help texts.  These helpers give each operation a specification over
//! `Seq<char>` so that the parsers built on them can state exact contracts.
use vstd::prelude::*;
use vstd::std_specs::iter::IteratorSpec;

verus! {

broadcast use vstd::string::group_string_axioms;

// ---------------------------------------------------------------------------
// Conversions between strings and character vectors
// ---------------------------------------------------------------------------

/// The characters of a string slice, in order.
pub fn chars_of(s: &str) -> (out: Vec<char>)
    ensures
        out@ == s@,
{
    let mut out: Vec<char> = Vec::new();
    for c in it: s.chars()
        invariant
            out@ == it.seq().take(it.index() as int),
    {
        out.push(c);
    }
    out
}

/// Appends one character to a string (`String::push`).
#[verifier::external_body]
fn push_char(s: &mut String, c: char)
    ensures
        final(s)@ == old(s)@.push(c),
{
    s.push(c);
}

/// The string made of the given characters.
pub fn string_from(chars: &Vec<char>) -> (out: String)
    ensures
        out@ == chars@,
{
    let mut out = String::new();
    let mut i: usize = 0;
    while i < chars.len()
        invariant
            i <= chars@.len(),
            out@ == chars@.take(i as int),
        decreases chars@.len() - i,
    {
        push_char(&mut out, chars[i]);
        assert(chars@.take(i as int).push(chars@[i as int]) =~= chars@.take(i + 1));
        i = i + 1;
    }
    assert(chars@.take(chars@.len() as int) =~= chars@);
    out
}

/// Appends all of `tail` to `head`.
pub fn extend_chars(head: &mut Vec<char>, tail: &Vec<char>)
    ensures
        final(head)@ == old(head)@ + tail@,
{
    let mut i: usize = 0;
    while i < tail.len()
        invariant
            i <= tail@.len(),
            head@ == old(head)@ + tail@.take(i as int),
        decreases tail@.len() - i,
    {
        head.push(tail[i]);
        assert(old(head)@ + tail@.take(i + 1) =~= (old(head)@ + tail@.take(i as int)).push(
            tail@[i as int],
        ));
        i = i + 1;
    }
    assert(tail@.take(tail@.len() as int) =~= tail@);
}

/// Whether two character vectors hold the same characters.
pub fn chars_eq(a: &Vec<char>, b: &Vec<char>) -> (r: bool)
    ensures
        r == (a@ == b@),
{
    if a.len() != b.len() {
        return false;
    }
    let mut i: usize = 0;
    while i < a.len()
        invariant
            a@.len() == b@.len(),
            i <= a@.len(),
            forall|k: int| 0 <= k < i ==> a@[k] == b@[k],
        decreases a@.len() - i,
    {
        if a[i] != b[i] {
            return false;
        }
        i = i + 1;
    }
    assert(a@ =~= b@);
    true
}

/// Whether a character vector spells the given string.
pub fn is_text(a: &Vec<char>, s: &str) -> (r: bool)
    ensures
        r == (a@ == s@),
{
    let b = chars_of(s);
    chars_eq(a, &b)
}

/// A copy of `s@.subrange(from, to)`.
pub fn slice_chars(s: &Vec<char>, from: usize, to: usize) -> (out: Vec<char>)
    requires
        from <= to <= s@.len(),
    ensures
        out@ == s@.subrange(from as int, to as int),
{
    let mut out: Vec<char> = Vec::new();
    let mut i = from;
    while i < to
        invariant
            from <= i <= to <= s@.len(),
            out@ == s@.subrange(from as int, i as int),
        decreases to - i,
    {
        out.push(s[i]);
        assert(s@.subrange(from as int, i + 1) =~= s@.subrange(from as int, i as int).push(
            s@[i as int],
        ));
        i = i + 1;
    }
    out
}

// ---------------------------------------------------------------------------
// Character classes
// ---------------------------------------------------------------------------

/// Unicode `White_Space`, the property behind `char::is_whitespace` and
/// `str::trim`.
pub open spec fn spec_is_whitespace(c: char) -> bool {
    ||| ('\u{9}' <= c && c <= '\u{d}')
    ||| c == ' '
    ||| c == '\u{85}'
    ||| c == '\u{a0}'
    ||| c == '\u{1680}'
    ||| ('\u{2000}' <= c && c <= '\u{200a}')
    ||| c == '\u{2028}'
    ||| c == '\u{2029}'
    ||| c == '\u{202f}'
    ||| c == '\u{205f}'
    ||| c == '\u{3000}'
}

pub fn is_whitespace(c: char) -> (r: bool)
    ensures
        r == spec_is_whitespace(c),
{
    ('\u{9}' <= c && c <= '\u{d}') || c == ' ' || c == '\u{85}' || c == '\u{a0}' || c
        == '\u{1680}' || ('\u{2000}' <= c && c <= '\u{200a}') || c == '\u{2028}' || c
        == '\u{2029}' || c == '\u{202f}' || c == '\u{205f}' || c == '\u{3000}'
}

pub open spec fn spec_is_ascii_digit(c: char) -> bool {
    '0' <= c && c <= '9'
}

pub open spec fn spec_is_ascii_alphanumeric(c: char) -> bool {
    spec_is_ascii_digit(c) || ('a' <= c && c <= 'z') || ('A' <= c && c <= 'Z')
}

pub fn is_ascii_alphanumeric(c: char) -> (r: bool)
    ensures
        r == spec_is_ascii_alphanumeric(c),
{
    ('0' <= c && c <= '9') || ('a' <= c && c <= 'z') || ('A' <= c && c <= 'Z')
}

/// `char::to_ascii_lowercase`.
pub open spec fn spec_ascii_lower(c: char) -> char {
    if 'A' <= c && c <= 'Z' {
        ((c as u8) + 32u8) as char
    } else {
        c
    }
}

/// `str::to_ascii_lowercase`.
pub open spec fn spec_lowercase(s: Seq<char>) -> Seq<char> {
    s.map_values(|c: char| spec_ascii_lower(c))
}

/// Lower-casing twice is lower-casing once.
pub proof fn lemma_lowercase_idempotent(s: Seq<char>)
    ensures
        spec_lowercase(spec_lowercase(s)) == spec_lowercase(s),
        forall|i: int| 0 <= i < s.len() ==> (spec_is_whitespace(#[trigger] spec_lowercase(s)[i])
            == spec_is_whitespace(s[i])),
{
    assert(spec_lowercase(spec_lowercase(s)) =~= spec_lowercase(s));
}

pub fn ascii_lower(c: char) -> (r: char)
    ensures
        r == spec_ascii_lower(c),
{
    if 'A' <= c && c <= 'Z' {
        ((c as u8) + 32u8) as char
    } else {
        c
    }
}

pub fn lowercase(s: &Vec<char>) -> (out: Vec<char>)
    ensures
        out@ == spec_lowercase(s@),
{
    let mut out: Vec<char> = Vec::new();
    let mut i: usize = 0;
    while i < s.len()
        invariant
            i <= s@.len(),
            out@ == spec_lowercase(s@.take(i as int)),
        decreases s@.len() - i,
    {
        out.push(ascii_lower(s[i]));
        assert(spec_lowercase(s@.take(i + 1)) =~= spec_lowercase(s@.take(i as int)).push(
            spec_ascii_lower(s@[i as int]),
        ));
        i = i + 1;
    }
    assert(s@.take(s@.len() as int) =~= s@);
    out
}

/// `str::eq_ignore_ascii_case`.
pub open spec fn spec_eq_ignore_ascii_case(a: Seq<char>, b: Seq<char>) -> bool {
    a.len() == b.len() && forall|i: int|
        0 <= i < a.len() ==> spec_ascii_lower(#[trigger] a[i]) == spec_ascii_lower(b[i])
}

pub fn eq_ignore_ascii_case(a: &Vec<char>, b: &Vec<char>) -> (r: bool)
    ensures
        r == spec_eq_ignore_ascii_case(a@, b@),
{
    if a.len() != b.len() {
        return false;
    }
    let mut i: usize = 0;
    while i < a.len()
        invariant
            a@.len() == b@.len(),
            i <= a@.len(),
            forall|k: int| 0 <= k < i ==> spec_ascii_lower(#[trigger] a@[k]) == spec_ascii_lower(b@[k]),
        decreases a@.len() - i,
    {
        if ascii_lower(a[i]) != ascii_lower(b[i]) {
            return false;
        }
        i = i + 1;
    }
    true
}

// ---------------------------------------------------------------------------
// Trimming
// ---------------------------------------------------------------------------

/// `str::trim_start`: drops leading whitespace.
pub open spec fn trim_start(s: Seq<char>) -> Seq<char>
    decreases s.len(),
{
    if s.len() > 0 && spec_is_whitespace(s[0]) {
        trim_start(s.drop_first())
    } else {
        s
    }
}

/// `str::trim_end`: drops trailing whitespace.
pub open spec fn trim_end(s: Seq<char>) -> Seq<char>
    decreases s.len(),
{
    if s.len() > 0 && spec_is_whitespace(s.last()) {
        trim_end(s.drop_last())
    } else {
        s
    }
}

/// `str::trim`: drops leading and trailing whitespace.
pub open spec fn trim(s: Seq<char>) -> Seq<char> {
    trim_end(trim_start(s))
}

proof fn lemma_trim_start_skip(s: Seq<char>, i: int)
    requires
        0 <= i <= s.len(),
        forall|k: int| 0 <= k < i ==> spec_is_whitespace(#[trigger] s[k]),
        i == s.len() || !spec_is_whitespace(s[i]),
    ensures
        trim_start(s) == s.skip(i),
    decreases i,
{
    if i == 0 {
        assert(s.skip(0) =~= s);
    } else {
        assert(spec_is_whitespace(s[0]));
        let t = s.drop_first();
        assert forall|k: int| 0 <= k < i - 1 implies spec_is_whitespace(#[trigger] t[k]) by {
            assert(t[k] == s[k + 1]);
        }
        lemma_trim_start_skip(t, i - 1);
        assert(t.skip(i - 1) =~= s.skip(i));
    }
}

proof fn lemma_trim_end_take(s: Seq<char>, j: int)
    requires
        0 <= j <= s.len(),
        forall|k: int| j <= k < s.len() ==> spec_is_whitespace(#[trigger] s[k]),
        j == 0 || !spec_is_whitespace(s[j - 1]),
    ensures
        trim_end(s) == s.take(j),
    decreases s.len() - j,
{
    if j == s.len() {
        assert(s.take(j) =~= s);
    } else {
        assert(spec_is_whitespace(s.last()));
        let t = s.drop_last();
        lemma_trim_end_take(t, j);
        assert(t.take(j) =~= s.take(j));
    }
}

proof fn lemma_trim_start_first(s: Seq<char>)
    ensures
        trim_start(s).len() > 0 ==> !spec_is_whitespace(trim_start(s)[0]),
    decreases s.len(),
{
    if s.len() > 0 && spec_is_whitespace(s[0]) {
        lemma_trim_start_first(s.drop_first());
    }
}

proof fn lemma_trim_end_last(s: Seq<char>)
    ensures
        trim_end(s).len() > 0 ==> !spec_is_whitespace(trim_end(s).last()),
        trim_end(s).len() <= s.len(),
        trim_end(s) == s.take(trim_end(s).len() as int),
    decreases s.len(),
{
    if s.len() > 0 && spec_is_whitespace(s.last()) {
        lemma_trim_end_last(s.drop_last());
        let t = trim_end(s.drop_last());
        assert(s.drop_last().take(t.len() as int) =~= s.take(t.len() as int));
    } else {
        assert(s.take(s.len() as int) =~= s);
    }
}

/// `trim` leaves no whitespace at either end.
pub proof fn lemma_trim_ends(s: Seq<char>)
    ensures
        trim(s).len() > 0 ==> !spec_is_whitespace(trim(s)[0]) && !spec_is_whitespace(
            trim(s).last(),
        ),
{
    let t = trim_start(s);
    lemma_trim_start_first(s);
    lemma_trim_end_last(t);
    if trim(s).len() > 0 {
        assert(trim(s)[0] == t[0]);
    }
}

/// A text without whitespace at either end is its own trim.
pub proof fn lemma_trim_identity(s: Seq<char>)
    requires
        s.len() > 0 ==> !spec_is_whitespace(s[0]) && !spec_is_whitespace(s.last()),
    ensures
        trim(s) == s,
{
}

/// `str::trim` on a character vector.
pub fn trimmed(s: &Vec<char>) -> (out: Vec<char>)
    ensures
        out@ == trim(s@),
{
    let mut i: usize = 0;
    while i < s.len() && is_whitespace(s[i])
        invariant
            i <= s@.len(),
            forall|k: int| 0 <= k < i ==> spec_is_whitespace(#[trigger] s@[k]),
        decreases s@.len() - i,
    {
        i = i + 1;
    }
    proof {
        lemma_trim_start_skip(s@, i as int);
    }
    let mut j: usize = s.len();
    while j > i && is_whitespace(s[j - 1])
        invariant
            i <= j <= s@.len(),
            forall|k: int| j <= k < s@.len() ==> spec_is_whitespace(#[trigger] s@[k]),
        decreases j,
    {
        j = j - 1;
    }
    let ghost t = s@.skip(i as int);
    proof {
        assert forall|k: int| j - i <= k < t.len() implies spec_is_whitespace(#[trigger] t[k]) by {
            assert(t[k] == s@[k + i]);
        }
        if j > i {
            assert(t[j - i - 1] == s@[j - 1]);
        }
        lemma_trim_end_take(t, j - i);
        assert(t.take(j - i) =~= s@.subrange(i as int, j as int));
    }
    slice_chars(s, i, j)
}

/// Drops trailing `'\n'` and `'\r'` characters.
pub open spec fn trim_trailing_newlines_spec(s: Seq<char>) -> Seq<char>
    decreases s.len(),
{
    if s.len() > 0 && (s.last() == '\n' || s.last() == '\r') {
        trim_trailing_newlines_spec(s.drop_last())
    } else {
        s
    }
}

/// Removes trailing line terminators from a transcript.
pub fn trim_trailing_newlines(text: &mut Vec<char>)
    ensures
        final(text)@ == trim_trailing_newlines_spec(old(text)@),
{
    while text.len() > 0 && (text[text.len() - 1] == '\n' || text[text.len() - 1] == '\r')
        invariant
            trim_trailing_newlines_spec(text@) == trim_trailing_newlines_spec(old(text)@),
        decreases text@.len(),
    {
        let ghost before = text@;
        text.pop();
        assert(text@ =~= before.drop_last());
    }
}

// ---------------------------------------------------------------------------
// Prefixes, suffixes and substrings
// ---------------------------------------------------------------------------

pub open spec fn has_prefix(s: Seq<char>, p: Seq<char>) -> bool {
    p.len() <= s.len() && s.take(p.len() as int) == p
}

pub open spec fn has_suffix(s: Seq<char>, p: Seq<char>) -> bool {
    p.len() <= s.len() && s.skip(s.len() - p.len()) == p
}

/// Whether `p` occurs in `s` starting at index `i`.
pub open spec fn occurs_at(s: Seq<char>, p: Seq<char>, i: int) -> bool {
    0 <= i && i + p.len() <= s.len() && s.subrange(i, i + p.len()) == p
}

/// `str::contains` with a string pattern.
pub open spec fn contains_text(s: Seq<char>, p: Seq<char>) -> bool {
    exists|i: int| occurs_at(s, p, i)
}

pub fn matches_at(s: &Vec<char>, i: usize, p: &Vec<char>) -> (r: bool)
    ensures
        r == occurs_at(s@, p@, i as int),
{
    if i > s.len() || p.len() > s.len() - i {
        return false;
    }
    let mut k: usize = 0;
    while k < p.len()
        invariant
            i <= s@.len(),
            i + p@.len() <= s@.len(),
            k <= p@.len(),
            forall|m: int| 0 <= m < k ==> s@[i + m] == p@[m],
        decreases p@.len() - k,
    {
        assert(i + k < s.len());
        let pos: usize = i + k;
        if s[pos] != p[k] {
            assert(s@.subrange(i as int, i + p@.len())[k as int] == s@[i + k]);
            return false;
        }
        k = k + 1;
    }
    assert(s@.subrange(i as int, i + p@.len()) =~= p@);
    true
}

pub fn starts_with(s: &Vec<char>, p: &Vec<char>) -> (r: bool)
    ensures
        r == has_prefix(s@, p@),
{
    let r = matches_at(s, 0, p);
    assert(s@.subrange(0, p@.len() as int) =~= s@.take(p@.len() as int));
    r
}

pub fn ends_with(s: &Vec<char>, p: &Vec<char>) -> (r: bool)
    ensures
        r == has_suffix(s@, p@),
{
    if p.len() > s.len() {
        return false;
    }
    let r = matches_at(s, s.len() - p.len(), p);
    assert(s@.subrange(s@.len() - p@.len(), s@.len() - p@.len() + p@.len()) =~= s@.skip(
        s@.len() - p@.len(),
    ));
    r
}

/// `str::strip_prefix`.
pub fn strip_prefix(s: &Vec<char>, p: &Vec<char>) -> (r: Option<Vec<char>>)
    ensures
        match r {
            Some(rest) => has_prefix(s@, p@) && rest@ == s@.skip(p@.len() as int),
            None => !has_prefix(s@, p@),
        },
{
    if starts_with(s, p) {
        Some(slice_chars(s, p.len(), s.len()))
    } else {
        None
    }
}

/// `str::strip_suffix`.
pub fn strip_suffix(s: &Vec<char>, p: &Vec<char>) -> (r: Option<Vec<char>>)
    ensures
        match r {
            Some(rest) => has_suffix(s@, p@) && rest@ == s@.take(s@.len() - p@.len()),
            None => !has_suffix(s@, p@),
        },
{
    if ends_with(s, p) {
        Some(slice_chars(s, 0, s.len() - p.len()))
    } else {
        None
    }
}

pub fn contains(s: &Vec<char>, p: &Vec<char>) -> (r: bool)
    ensures
        r == contains_text(s@, p@),
{
    if p.len() > s.len() {
        return false;
    }
    let last = s.len() - p.len();
    let mut i: usize = 0;
    loop
        invariant
            i <= last,
            last == s@.len() - p@.len(),
            forall|k: int| 0 <= k < i ==> !occurs_at(s@, p@, k),
        ensures
            forall|k: int| 0 <= k <= last ==> !occurs_at(s@, p@, k),
        decreases last - i,
    {
        if matches_at(s, i, p) {
            return true;
        }
        if i >= last {
            break;
        }
        i = i + 1;
    }
    assert forall|k: int| !occurs_at(s@, p@, k) by {
        if 0 <= k <= last {
        }
    }
    false
}

/// Whether the character occurs anywhere in `s`.
pub fn contains_char(s: &Vec<char>, c: char) -> (r: bool)
    ensures
        r == s@.contains(c),
{
    let mut i: usize = 0;
    while i < s.len()
        invariant
            i <= s@.len(),
            forall|k: int| 0 <= k < i ==> s@[k] != c,
        decreases s@.len() - i,
    {
        if s[i] == c {
            return true;
        }
        i = i + 1;
    }
    false
}

// ---------------------------------------------------------------------------
// Replacement
// ---------------------------------------------------------------------------

/// `str::replace`: every non-overlapping occurrence of `from`, scanning left
/// to right, becomes `to`.
pub open spec fn replaced(s: Seq<char>, from: Seq<char>, to: Seq<char>) -> Seq<char>
    decreases s.len(),
{
    if s.len() == 0 || from.len() == 0 {
        s
    } else if has_prefix(s, from) {
        to + replaced(s.skip(from.len() as int), from, to)
    } else {
        seq![s[0]] + replaced(s.drop_first(), from, to)
    }
}

/// A text occurs in any text that it is a piece of.
pub proof fn lemma_contains_piece(x: Seq<char>, p: Seq<char>, y: Seq<char>)
    ensures
        contains_text(x + p + y, p),
{
    assert((x + p + y).subrange(x.len() as int, (x.len() + p.len()) as int) =~= p);
    assert(occurs_at(x + p + y, p, x.len() as int));
}

/// A text that occurs in a piece occurs in the whole.
pub proof fn lemma_contains_extend(x: Seq<char>, y: Seq<char>, p: Seq<char>)
    ensures
        contains_text(x, p) ==> contains_text(x + y, p),
        contains_text(y, p) ==> contains_text(x + y, p),
{
    if contains_text(x, p) {
        let i = choose|i: int| occurs_at(x, p, i);
        assert((x + y).subrange(i, i + p.len()) =~= x.subrange(i, i + p.len()));
        assert(occurs_at(x + y, p, i));
    }
    if contains_text(y, p) {
        let i = choose|i: int| occurs_at(y, p, i);
        assert((x + y).subrange(x.len() + i, x.len() + i + p.len()) =~= y.subrange(i, i + p.len()));
        assert(occurs_at(x + y, p, x.len() + i));
    }
}

/// Replacing a pattern whose first character does not occur changes
/// nothing.
pub proof fn lemma_replaced_absent(s: Seq<char>, from: Seq<char>, to: Seq<char>)
    requires
        from.len() > 0,
        forall|i: int| 0 <= i < s.len() ==> s[i] != from[0],
    ensures
        replaced(s, from, to) == s,
    decreases s.len(),
{
    if s.len() > 0 {
        if has_prefix(s, from) {
            assert(s.take(from.len() as int)[0] == s[0]);
        }
        lemma_replaced_absent(s.drop_first(), from, to);
        assert(seq![s[0]] + s.drop_first() =~= s);
    }
}

pub fn replace_all(s: &Vec<char>, from: &Vec<char>, to: &Vec<char>) -> (out: Vec<char>)
    requires
        from@.len() > 0,
    ensures
        out@ == replaced(s@, from@, to@),
{
    let mut out: Vec<char> = Vec::new();
    let mut i: usize = 0;
    assert(s@.skip(0) =~= s@);
    while i < s.len()
        invariant
            from@.len() > 0,
            i <= s@.len(),
            out@ + replaced(s@.skip(i as int), from@, to@) == replaced(s@, from@, to@),
        decreases s@.len() - i,
    {
        let ghost rest = s@.skip(i as int);
        if matches_at(s, i, from) {
            proof {
                assert(rest.take(from@.len() as int) =~= s@.subrange(i as int, i + from@.len()));
                assert(rest.skip(from@.len() as int) =~= s@.skip(i + from@.len()));
                assert(out@ + (to@ + replaced(s@.skip(i + from@.len()), from@, to@)) =~= (out@
                    + to@) + replaced(s@.skip(i + from@.len()), from@, to@));
            }
            extend_chars(&mut out, to);
            i = i + from.len();
        } else {
            proof {
                if from@.len() <= rest.len() {
                    assert(rest.take(from@.len() as int) =~= s@.subrange(
                        i as int,
                        i + from@.len(),
                    ));
                }
                assert(rest.drop_first() =~= s@.skip(i + 1));
                assert(rest[0] == s@[i as int]);
                assert(out@ + (seq![s@[i as int]] + replaced(s@.skip(i + 1), from@, to@))
                    =~= out@.push(s@[i as int]) + replaced(s@.skip(i + 1), from@, to@));
            }
            out.push(s[i]);
            i = i + 1;
        }
    }
    assert(s@.skip(i as int) =~= Seq::<char>::empty());
    assert(out@ + Seq::<char>::empty() =~= out@);
    out
}

// ---------------------------------------------------------------------------
// Splitting
// ---------------------------------------------------------------------------

/// `str::split` with a character pattern: the pieces between separators,
/// empty pieces included.
pub open spec fn split_on(s: Seq<char>, sep: char) -> Seq<Seq<char>>
    decreases s.len(),
{
    if s.len() == 0 {
        seq![Seq::<char>::empty()]
    } else {
        let pieces = split_on(s.drop_last(), sep);
        if s.last() == sep {
            pieces.push(Seq::<char>::empty())
        } else {
            pieces.update(pieces.len() - 1, pieces.last().push(s.last()))
        }
    }
}

/// A text without the separator is a single piece.
pub proof fn lemma_split_without_separator(s: Seq<char>, sep: char)
    requires
        forall|i: int| 0 <= i < s.len() ==> s[i] != sep,
    ensures
        split_on(s, sep) == seq![s],
    decreases s.len(),
{
    if s.len() > 0 {
        lemma_split_without_separator(s.drop_last(), sep);
        assert(s.drop_last().push(s.last()) =~= s);
    } else {
        assert(s =~= Seq::<char>::empty());
    }
}

/// Every character of a text is a separator or a character of one of its
/// pieces; when every piece holds only ASCII letters and digits, so does the
/// text outside its separators.
pub proof fn lemma_split_pieces_alphanumeric(s: Seq<char>, sep: char)
    requires
        forall|k: int, j: int|
            0 <= k < split_on(s, sep).len() && 0 <= j < split_on(s, sep)[k].len()
                ==> spec_is_ascii_alphanumeric(#[trigger] split_on(s, sep)[k][j]),
    ensures
        forall|i: int| 0 <= i < s.len() ==> s[i] == sep || spec_is_ascii_alphanumeric(#[trigger] s[i]),
    decreases s.len(),
{
    if s.len() > 0 {
        let t = s.drop_last();
        let before = split_on(t, sep);
        let after = split_on(s, sep);
        lemma_split_nonempty(t, sep);
        if s.last() == sep {
            assert forall|k: int, j: int|
                0 <= k < before.len() && 0 <= j < before[k].len() implies spec_is_ascii_alphanumeric(
                #[trigger] before[k][j],
            ) by {
                assert(after[k] == before[k]);
            }
        } else {
            let n = before.len() - 1;
            assert(after[n] == before[n].push(s.last()));
            assert forall|k: int, j: int|
                0 <= k < before.len() && 0 <= j < before[k].len() implies spec_is_ascii_alphanumeric(
                #[trigger] before[k][j],
            ) by {
                if k == n {
                    assert(after[n][j] == before[n][j]);
                } else {
                    assert(after[k] == before[k]);
                }
            }
            assert(after[n][before[n].len() as int] == s.last());
        }
        lemma_split_pieces_alphanumeric(t, sep);
        assert forall|i: int| 0 <= i < s.len() implies s[i] == sep || spec_is_ascii_alphanumeric(
            #[trigger] s[i],
        ) by {
            if i < s.len() - 1 {
                assert(s[i] == t[i]);
            }
        }
    }
}

pub proof fn lemma_split_nonempty(s: Seq<char>, sep: char)
    ensures
        split_on(s, sep).len() >= 1,
    decreases s.len(),
{
    if s.len() > 0 {
        lemma_split_nonempty(s.drop_last(), sep);
    }
}

pub fn split_chars(s: &Vec<char>, sep: char) -> (pieces: Vec<Vec<char>>)
    ensures
        pieces@.len() == split_on(s@, sep).len(),
        forall|k: int| 0 <= k < pieces@.len() ==> (#[trigger] pieces@[k])@ == split_on(s@, sep)[k],
{
    let mut pieces: Vec<Vec<char>> = Vec::new();
    let mut current: Vec<char> = Vec::new();
    let mut i: usize = 0;
    while i < s.len()
        invariant
            i <= s@.len(),
            pieces@.len() + 1 == split_on(s@.take(i as int), sep).len(),
            forall|k: int|
                0 <= k < pieces@.len() ==> (#[trigger] pieces@[k])@ == split_on(
                    s@.take(i as int),
                    sep,
                )[k],
            current@ == split_on(s@.take(i as int), sep).last(),
        decreases s@.len() - i,
    {
        let ghost prefix = s@.take(i + 1);
        assert(prefix.drop_last() =~= s@.take(i as int));
        proof {
            lemma_split_nonempty(s@.take(i as int), sep);
        }
        if s[i] == sep {
            let finished = current;
            pieces.push(finished);
            current = Vec::new();
        } else {
            current.push(s[i]);
        }
        i = i + 1;
    }
    assert(s@.take(s@.len() as int) =~= s@);
    pieces.push(current);
    pieces
}

/// `str::lines`: pieces between `'\n'`, a `'\r'` before a `'\n'` dropped,
/// and no final empty line after a trailing `'\n'`.
pub open spec fn lines(s: Seq<char>) -> Seq<Seq<char>> {
    let pieces = split_on(s, '\n');
    let n = pieces.len() as int;
    let kept = if pieces.last().len() == 0 { n - 1 } else { n };
    Seq::new(
        kept as nat,
        |k: int|
            if k < n - 1 && pieces[k].len() > 0 && pieces[k].last() == '\r' {
                pieces[k].drop_last()
            } else {
                pieces[k]
            },
    )
}

pub fn lines_of(s: &Vec<char>) -> (out: Vec<Vec<char>>)
    ensures
        out@.len() == lines(s@).len(),
        forall|k: int| 0 <= k < out@.len() ==> (#[trigger] out@[k])@ == lines(s@)[k],
{
    let pieces = split_chars(s, '\n');
    proof {
        lemma_split_nonempty(s@, '\n');
    }
    let n = pieces.len();
    let kept = if pieces[n - 1].len() == 0 {
        n - 1
    } else {
        n
    };
    let mut out: Vec<Vec<char>> = Vec::new();
    let mut k: usize = 0;
    while k < kept
        invariant
            n == pieces@.len(),
            n == split_on(s@, '\n').len(),
            kept <= n,
            kept == lines(s@).len(),
            k <= kept,
            out@.len() == k,
            forall|m: int| 0 <= m < pieces@.len() ==> (#[trigger] pieces@[m])@ == split_on(s@, '\n')[m],
            forall|m: int| 0 <= m < k ==> (#[trigger] out@[m])@ == lines(s@)[m],
        decreases kept - k,
    {
        let piece = &pieces[k];
        let line = if k + 1 < n && piece.len() > 0 && piece[piece.len() - 1] == '\r' {
            slice_chars(piece, 0, piece.len() - 1)
        } else {
            slice_chars(piece, 0, piece.len())
        };
        assert(piece@.subrange(0, piece@.len() as int) =~= piece@);
        assert(piece@.subrange(0, piece@.len() - 1) =~= piece@.drop_last());
        out.push(line);
        k = k + 1;
    }
    out
}

/// `str::split_whitespace`: the maximal runs of non-whitespace characters.
pub open spec fn words(s: Seq<char>) -> Seq<Seq<char>>
    decreases s.len(),
{
    if s.len() == 0 {
        Seq::empty()
    } else {
        let w = words(s.drop_last());
        let c = s.last();
        if spec_is_whitespace(c) {
            w
        } else if s.len() >= 2 && !spec_is_whitespace(s[s.len() - 2]) {
            w.update(w.len() - 1, w.last().push(c))
        } else {
            w.push(seq![c])
        }
    }
}

proof fn lemma_words_nonempty_after_word(s: Seq<char>)
    requires
        s.len() > 0,
        !spec_is_whitespace(s.last()),
    ensures
        words(s).len() > 0,
    decreases s.len(),
{
    if s.len() >= 2 && !spec_is_whitespace(s[s.len() - 2]) {
        let t = s.drop_last();
        assert(t.last() == s[s.len() - 2]);
        lemma_words_nonempty_after_word(t);
    }
}

pub fn words_of(s: &Vec<char>) -> (out: Vec<Vec<char>>)
    ensures
        out@.len() == words(s@).len(),
        forall|k: int| 0 <= k < out@.len() ==> (#[trigger] out@[k])@ == words(s@)[k],
{
    let mut out: Vec<Vec<char>> = Vec::new();
    let mut i: usize = 0;
    while i < s.len()
        invariant
            i <= s@.len(),
            out@.len() == words(s@.take(i as int)).len(),
            forall|k: int|
                0 <= k < out@.len() ==> (#[trigger] out@[k])@ == words(s@.take(i as int))[k],
        decreases s@.len() - i,
    {
        let ghost prefix = s@.take(i + 1);
        assert(prefix.drop_last() =~= s@.take(i as int));
        assert(prefix.last() == s@[i as int]);
        let c = s[i];
        if is_whitespace(c) {
        } else if i >= 1 && !is_whitespace(s[i - 1]) {
            assert(prefix[prefix.len() - 2] == s@[i - 1]);
            proof {
                let t = s@.take(i as int);
                assert(t.last() == s@[i - 1]);
                lemma_words_nonempty_after_word(t);
            }
            let last = out.len() - 1;
            let mut word = out[last].clone();
            word.push(c);
            out.set(last, word);
        } else {
            proof {
                if i >= 1 {
                    assert(prefix[prefix.len() - 2] == s@[i - 1]);
                }
            }
            let mut word: Vec<char> = Vec::new();
            word.push(c);
            assert(word@ =~= seq![c]);
            out.push(word);
        }
        i = i + 1;
    }
    assert(s@.take(s@.len() as int) =~= s@);
    out
}

/// `slice::join` of strings with a one-character separator.
pub open spec fn joined(parts: Seq<Seq<char>>, sep: char) -> Seq<char>
    decreases parts.len(),
{
    if parts.len() == 0 {
        Seq::empty()
    } else if parts.len() == 1 {
        parts[0]
    } else {
        joined(parts.drop_last(), sep).push(sep) + parts.last()
    }
}

pub fn join_chars(parts: &Vec<Vec<char>>, sep: char) -> (out: Vec<char>)
    ensures
        out@ == joined(parts@.map_values(|p: Vec<char>| p@), sep),
{
    let ghost views = parts@.map_values(|p: Vec<char>| p@);
    let mut out: Vec<char> = Vec::new();
    let mut i: usize = 0;
    while i < parts.len()
        invariant
            i <= parts@.len(),
            views == parts@.map_values(|p: Vec<char>| p@),
            out@ == joined(views.take(i as int), sep),
        decreases parts@.len() - i,
    {
        assert(views.take(i + 1).drop_last() =~= views.take(i as int));
        assert(views.take(i + 1).last() == parts@[i as int]@);
        if i > 0 {
            out.push(sep);
        } else {
            assert(views.take(1)[0] == parts@[0]@);
            assert(out@ =~= Seq::<char>::empty());
        }
        extend_chars(&mut out, &parts[i]);
        if i == 0 {
            assert(out@ =~= views.take(1)[0]);
        }
        i = i + 1;
    }
    assert(views.take(parts@.len() as int) =~= views);
    out
}

/// `Path::join` on Unix: an absolute `name` replaces `base`; otherwise a
/// `/` separates them unless `base` is empty or already ends with one.
pub open spec fn path_join(base: Seq<char>, name: Seq<char>) -> Seq<char> {
    if name.len() > 0 && name[0] == '/' {
        name
    } else if base.len() == 0 || base.last() == '/' {
        base + name
    } else {
        base.push('/') + name
    }
}

pub fn join_path(base: &Vec<char>, name: &Vec<char>) -> (out: Vec<char>)
    ensures
        out@ == path_join(base@, name@),
{
    if name.len() > 0 && name[0] == '/' {
        return slice_chars(name, 0, name.len());
    }
    let mut out = slice_chars(base, 0, base.len());
    if !(base.len() == 0 || base[base.len() - 1] == '/') {
        out.push('/');
    }
    extend_chars(&mut out, name);
    assert(base@.subrange(0, base@.len() as int) =~= base@);
    assert(name@.subrange(0, name@.len() as int) =~= name@);
    out
}

// ---------------------------------------------------------------------------
// Decimal integers
// ---------------------------------------------------------------------------

pub open spec fn all_digits(s: Seq<char>) -> bool {
    forall|i: int| 0 <= i < s.len() ==> spec_is_ascii_digit(#[trigger] s[i])
}

pub open spec fn digit_value(c: char) -> int {
    c as int - '0' as int
}

/// The number that a run of decimal digits denotes.
pub open spec fn digits_value(s: Seq<char>) -> nat
    decreases s.len(),
{
    if s.len() == 0 {
        0
    } else {
        (digits_value(s.drop_last()) * 10 + digit_value(s.last())) as nat
    }
}

/// The sign and digits of an integer literal as `FromStr` for Rust integers
/// reads it: an optional `+` (or, for signed types, `-`) and then the digits.
pub open spec fn sign_and_digits(s: Seq<char>, signed: bool) -> (bool, Seq<char>) {
    if s.len() > 0 && s[0] == '+' {
        (false, s.drop_first())
    } else if signed && s.len() > 0 && s[0] == '-' {
        (true, s.drop_first())
    } else {
        (false, s)
    }
}

/// The value of a decimal integer literal, before any range check.
pub open spec fn decimal_value(s: Seq<char>, signed: bool) -> Option<int> {
    let (negative, digits) = sign_and_digits(s, signed);
    if digits.len() > 0 && all_digits(digits) {
        Some(
            if negative {
                -digits_value(digits)
            } else {
                digits_value(digits) as int
            },
        )
    } else {
        None
    }
}

/// What `str::parse` gives for an integer type whose values are `lo..=hi`.
pub open spec fn parsed_integer(s: Seq<char>, signed: bool, lo: int, hi: int) -> Option<int> {
    match decimal_value(s, signed) {
        Some(v) => if lo <= v && v <= hi {
            Some(v)
        } else {
            None
        },
        None => None,
    }
}

proof fn lemma_digits_value_monotone(s: Seq<char>, k: int)
    requires
        0 <= k <= s.len(),
        all_digits(s),
    ensures
        digits_value(s.take(k)) <= digits_value(s),
    decreases s.len() - k,
{
    if k < s.len() {
        let t = s.drop_last();
        assert(all_digits(t)) by {
            assert forall|i: int| 0 <= i < t.len() implies spec_is_ascii_digit(#[trigger] t[i]) by {
                assert(t[i] == s[i]);
            }
        }
        lemma_digits_value_monotone(t, k);
        assert(t.take(k) =~= s.take(k));
        assert(spec_is_ascii_digit(s.last()));
    } else {
        assert(s.take(k) =~= s);
    }
}

/// Reads an optional sign and decimal digits; `None` unless the value lies in
/// `-neg_bound..=pos_bound`.  The magnitude and sign come back separately.
fn parse_bounded(s: &Vec<char>, signed: bool, pos_bound: u64, neg_bound: u64) -> (r: Option<
    (bool, u64),
>)
    ensures
        match r {
            Some((negative, magnitude)) => decimal_value(s@, signed) == Some(
                if negative {
                    -(magnitude as int)
                } else {
                    magnitude as int
                },
            ) && (if negative {
                magnitude <= neg_bound
            } else {
                magnitude <= pos_bound
            }) && (negative ==> magnitude > 0),
            None => match decimal_value(s@, signed) {
                Some(v) => v > pos_bound || v < -(neg_bound as int),
                None => true,
            },
        },
{
    let mut start: usize = 0;
    let mut negative = false;
    if s.len() > 0 && s[0] == '+' {
        start = 1;
    } else if signed && s.len() > 0 && s[0] == '-' {
        start = 1;
        negative = true;
    }
    let ghost digits = sign_and_digits(s@, signed).1;
    assert(digits =~= s@.skip(start as int));
    assert(sign_and_digits(s@, signed).0 == negative);
    if start >= s.len() {
        return None;
    }
    let bound: u64 = if negative {
        neg_bound
    } else {
        pos_bound
    };
    let mut value: u64 = 0;
    let mut i: usize = start;
    while i < s.len()
        invariant
            start <= i <= s@.len(),
            start < s@.len(),
            digits == s@.skip(start as int),
            digits == sign_and_digits(s@, signed).1,
            negative == sign_and_digits(s@, signed).0,
            bound == (if negative {
                neg_bound
            } else {
                pos_bound
            }),
            value as int == digits_value(digits.take(i - start)),
            value <= bound,
            all_digits(digits.take(i - start)),
        decreases s@.len() - i,
    {
        let c = s[i];
        let ghost pre = digits.take(i - start);
        let ghost next = digits.take(i - start + 1);
        assert(next.drop_last() =~= pre);
        assert(next.last() == c);
        if c < '0' || c > '9' {
            assert(digits[i - start] == s@[i as int]);
            assert(!spec_is_ascii_digit(digits[i - start]));
            return None;
        }
        let d = (c as u32 - '0' as u32) as u64;
        if d > bound || value > (bound - d) / 10 {
            // The prefix already exceeds the bound, and so does every extension.
            proof {
                assert(digits_value(next) == value * 10 + d);
                if d <= bound {
                    assert(value * 10 + d > bound) by (nonlinear_arith)
                        requires
                            value > (bound - d) / 10,
                            d <= bound,
                    ;
                }
                if all_digits(digits) {
                    lemma_digits_value_monotone(digits, i - start + 1);
                }
            }
            return None;
        }
        proof {
            assert(value * 10 + d <= bound) by (nonlinear_arith)
                requires
                    value <= (bound - d) / 10,
                    d <= bound,
            ;
        }
        value = value * 10 + d;
        assert(all_digits(next)) by {
            assert forall|k: int| 0 <= k < next.len() implies spec_is_ascii_digit(#[trigger] next[k]) by {
                if k < pre.len() {
                    assert(next[k] == pre[k]);
                }
            }
        }
        i = i + 1;
    }
    assert(digits.take(digits.len() as int) =~= digits);
    if negative && value == 0 {
        // "-0" is zero.
        return Some((false, 0));
    }
    Some((negative, value))
}

/// What `str::parse::<u64>` returns, as an option.
pub open spec fn spec_parse_u64(s: Seq<char>) -> Option<u64> {
    match parsed_integer(s, false, 0, u64::MAX as int) {
        Some(v) => Some(v as u64),
        None => None,
    }
}

/// `str::parse::<u64>`.
pub fn parse_u64(s: &Vec<char>) -> (r: Option<u64>)
    ensures
        r == spec_parse_u64(s@),
{
    match parse_bounded(s, false, u64::MAX, 0) {
        Some((_, magnitude)) => Some(magnitude),
        None => None,
    }
}

/// What `str::parse::<usize>` returns, as an option.
pub open spec fn spec_parse_usize(s: Seq<char>) -> Option<usize> {
    match parsed_integer(s, false, 0, usize::MAX as int) {
        Some(v) => Some(v as usize),
        None => None,
    }
}

/// `str::parse::<usize>`.
pub fn parse_usize(s: &Vec<char>) -> (r: Option<usize>)
    ensures
        r == spec_parse_usize(s@),
{
    match parse_bounded(s, false, usize::MAX as u64, 0) {
        Some((_, magnitude)) => Some(magnitude as usize),
        None => None,
    }
}

/// What `str::parse::<u8>` returns, as an option.
pub open spec fn spec_parse_u8(s: Seq<char>) -> Option<u8> {
    match parsed_integer(s, false, 0, u8::MAX as int) {
        Some(v) => Some(v as u8),
        None => None,
    }
}

/// `str::parse::<u8>`.
pub fn parse_u8(s: &Vec<char>) -> (r: Option<u8>)
    ensures
        r == spec_parse_u8(s@),
{
    match parse_bounded(s, false, u8::MAX as u64, 0) {
        Some((_, magnitude)) => Some(magnitude as u8),
        None => None,
    }
}

/// What `str::parse::<i32>` returns, as an option.
pub open spec fn spec_parse_i32(s: Seq<char>) -> Option<i32> {
    match parsed_integer(s, true, i32::MIN as int, i32::MAX as int) {
        Some(v) => Some(v as i32),
        None => None,
    }
}

/// `str::parse::<i32>`.
pub fn parse_i32(s: &Vec<char>) -> (r: Option<i32>)
    ensures
        r == spec_parse_i32(s@),
{
    match parse_bounded(s, true, i32::MAX as u64, 2147483648u64) {
        Some((negative, magnitude)) => if negative {
            Some((0i64 - magnitude as i64) as i32)
        } else {
            Some(magnitude as i32)
        },
        None => None,
    }
}

/// What `str::parse::<i64>` returns, as an option.
pub open spec fn spec_parse_i64(s: Seq<char>) -> Option<i64> {
    match parsed_integer(s, true, i64::MIN as int, i64::MAX as int) {
        Some(v) => Some(v as i64),
        None => None,
    }
}

/// `str::parse::<i64>`.
pub fn parse_i64(s: &Vec<char>) -> (r: Option<i64>)
    ensures
        r == spec_parse_i64(s@),
{
    match parse_bounded(s, true, i64::MAX as u64, 9223372036854775808u64) {
        Some((negative, magnitude)) => if negative {
            if magnitude == 9223372036854775808u64 {
                Some(i64::MIN)
            } else {
                Some(0i64 - magnitude as i64)
            }
        } else {
            Some(magnitude as i64)
        },
        None => None,
    }
}

/// The decimal digits of a natural number, most significant first.
pub open spec fn decimal_digits(n: nat) -> Seq<char>
    decreases n,
{
    if n < 10 {
        seq![(48u8 + (n as u8)) as char]
    } else {
        decimal_digits(n / 10).push((48u8 + ((n % 10) as u8)) as char)
    }
}

/// `i64::to_string`/`u64::to_string`: a `-` for negative values, then the
/// digits of the magnitude.
pub open spec fn decimal_text(v: int) -> Seq<char> {
    if v < 0 {
        seq!['-'] + decimal_digits((-v) as nat)
    } else {
        decimal_digits(v as nat)
    }
}

pub fn format_u64(n: u64) -> (out: Vec<char>)
    ensures
        out@ == decimal_digits(n as nat),
    decreases n,
{
    if n < 10 {
        let mut out: Vec<char> = Vec::new();
        out.push((48u8 + (n as u8)) as char);
        assert(out@ =~= decimal_digits(n as nat));
        out
    } else {
        let mut out = format_u64(n / 10);
        out.push((48u8 + ((n % 10) as u8)) as char);
        out
    }
}

pub fn format_i64(v: i64) -> (out: Vec<char>)
    ensures
        out@ == decimal_text(v as int),
{
    if v < 0 {
        let magnitude: u64 = if v == i64::MIN {
            9223372036854775808u64
        } else {
            (0 - v) as u64
        };
        let digits = format_u64(magnitude);
        let mut out: Vec<char> = Vec::new();
        out.push('-');
        extend_chars(&mut out, &digits);
        assert(out@ =~= seq!['-'] + decimal_digits((-v) as nat));
        out
    } else {
        format_u64(v as u64)
    }
}

proof fn lemma_decimal_digits_shape(n: nat)
    ensures
        decimal_digits(n).len() > 0,
        all_digits(decimal_digits(n)),
        decimal_digits(n)[0] != '+',
        decimal_digits(n)[0] != '-',
        digits_value(decimal_digits(n)) == n,
    decreases n,
{
    if n < 10 {
        let e = decimal_digits(n);
        assert(e.drop_last() =~= Seq::<char>::empty());
        assert(digit_value(e.last()) == n);
        assert(digits_value(e) == digits_value(e.drop_last()) * 10 + digit_value(e.last()));
        assert(digits_value(Seq::<char>::empty()) == 0);
    } else {
        lemma_decimal_digits_shape(n / 10);
        let d = decimal_digits(n / 10);
        let e = d.push((48u8 + ((n % 10) as u8)) as char);
        assert(e.drop_last() =~= d);
        assert(digit_value(e.last()) == n % 10);
        assert(n == (n / 10) * 10 + n % 10);
        assert(digits_value(e) == digits_value(d) * 10 + digit_value(e.last()));
        assert forall|i: int| 0 <= i < e.len() implies spec_is_ascii_digit(#[trigger] e[i]) by {
            if i < d.len() {
                assert(e[i] == d[i]);
            }
        }
        assert(e[0] == d[0]);
    }
}

/// Reading back the decimal text of an integer gives the integer again.
pub proof fn lemma_decimal_round_trip(v: int, signed: bool)
    requires
        signed || v >= 0,
    ensures
        decimal_value(decimal_text(v), signed) == Some(v),
{
    if v < 0 {
        let d = decimal_digits((-v) as nat);
        lemma_decimal_digits_shape((-v) as nat);
        let t = seq!['-'] + d;
        assert(t.drop_first() =~= d);
        assert(t[0] == '-');
    } else {
        lemma_decimal_digits_shape(v as nat);
    }
}

} // verus!
