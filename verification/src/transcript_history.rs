//! Transcript history: where the database lives, how a history page is
//! queried, and how the page document is assembled from the rows.
use vstd::prelude::*;

use crate::failure::{Failure, FailureKind};
use crate::settings::option_view;
use crate::text::{chars_of, join_path, path_join, string_from};

verus! {

/// A durable transcript: its identifier, creation time in Unix epoch
/// milliseconds, and text.
#[derive(Debug, Clone, PartialEq, Eq)]
pub struct TranscriptEntry {
    pub id: i64,
    pub created_at: i64,
    pub text: String,
}

/// A page of history, newest first, and whether older entries follow.
#[derive(Debug, Clone, PartialEq, Eq)]
pub struct HistoryDocument {
    pub schema_version: u8,
    pub entries: Vec<TranscriptEntry>,
    pub has_more: bool,
}

/// The history database: `$XDG_DATA_HOME/codex-voice/transcripts.sqlite3`,
/// falling back to `~/.local/share`.
pub open spec fn database_path_for(data_home: Option<Seq<char>>, home: Option<Seq<char>>) -> Option<
    Seq<char>,
> {
    match data_home {
        Some(d) => Some(path_join(d, "codex-voice/transcripts.sqlite3"@)),
        None => match home {
            Some(h) => Some(
                path_join(path_join(h, ".local/share"@), "codex-voice/transcripts.sqlite3"@),
            ),
            None => None,
        },
    }
}

pub fn database_path(data_home: Option<String>, home: Option<String>) -> (r: Result<String, Failure>)
    ensures
        match r {
            Ok(p) => database_path_for(option_view(data_home), option_view(home)) == Some(p@),
            Err(f) => database_path_for(option_view(data_home), option_view(home)) is None
                && f.kind == FailureKind::NotFound && f.message@ == "HOME is not set"@,
        },
{
    let base = match (&data_home, &home) {
        (Some(d), _) => chars_of(d.as_str()),
        (None, Some(h)) => join_path(&chars_of(h.as_str()), &chars_of(".local/share")),
        (None, None) => {
            return Err(Failure::new(FailureKind::NotFound, "HOME is not set"));
        },
    };
    Ok(string_from(&join_path(&base, &chars_of("codex-voice/transcripts.sqlite3"))))
}

/// A search text as a SQL `LIKE` pattern body with `\` as the escape
/// character: every `\`, `%` and `_` is escaped, so the text matches
/// literally.
pub open spec fn like_escaped(q: Seq<char>) -> Seq<char>
    decreases q.len(),
{
    if q.len() == 0 {
        Seq::empty()
    } else {
        let c = q.last();
        if c == '\\' || c == '%' || c == '_' {
            like_escaped(q.drop_last()).push('\\').push(c)
        } else {
            like_escaped(q.drop_last()).push(c)
        }
    }
}

/// The literal text that a `LIKE` pattern body without wildcards matches,
/// reading `\` as the escape character; nothing when it holds an unescaped
/// wildcard or ends in a lone `\`.
pub open spec fn like_literal(p: Seq<char>) -> Option<Seq<char>>
    decreases p.len(),
{
    if p.len() == 0 {
        Some(Seq::empty())
    } else if p[0] == '\\' {
        if p.len() >= 2 {
            match like_literal(p.skip(2)) {
                Some(rest) => Some(seq![p[1]] + rest),
                None => None,
            }
        } else {
            None
        }
    } else if p[0] == '%' || p[0] == '_' {
        None
    } else {
        match like_literal(p.drop_first()) {
            Some(rest) => Some(seq![p[0]] + rest),
            None => None,
        }
    }
}

/// The query for one page: at most `limit` entries (clamped to 1–100)
/// after `offset` whose text contains the search text, asking for one row
/// more to learn whether more entries follow.
#[derive(Debug, Clone)]
pub struct HistoryQuery {
    pub pattern: String,
    pub limit: usize,
    pub fetch: i64,
    pub offset: i64,
}

pub open spec fn clamped_limit(limit: usize) -> usize {
    if limit < 1 {
        1
    } else if limit > 100 {
        100
    } else {
        limit
    }
}

/// A page holds exactly the requested number of entries when that lies in
/// 1–100, one entry below that range and a hundred above it.
pub proof fn lemma_history_limit_is_clamped(limit: usize)
    ensures
        1 <= limit <= 100 ==> clamped_limit(limit) == limit,
        limit < 1 ==> clamped_limit(limit) == 1,
        limit > 100 ==> clamped_limit(limit) == 100,
        1 <= clamped_limit(limit) <= 100,
{
}

fn escape_like(q: &Vec<char>) -> (out: Vec<char>)
    ensures
        out@ == like_escaped(q@),
{
    let mut out: Vec<char> = Vec::new();
    let mut i: usize = 0;
    while i < q.len()
        invariant
            i <= q@.len(),
            out@ == like_escaped(q@.take(i as int)),
        decreases q@.len() - i,
    {
        let c = q[i];
        assert(q@.take(i + 1).drop_last() =~= q@.take(i as int));
        assert(q@.take(i + 1).last() == c);
        if c == '\\' || c == '%' || c == '_' {
            out.push('\\');
        }
        out.push(c);
        i = i + 1;
    }
    assert(q@.take(q@.len() as int) =~= q@);
    out
}

impl HistoryQuery {
    /// The query for `history list <offset> <limit> [query]`.
    pub fn new(offset: usize, limit: usize, query: &str) -> (q: HistoryQuery)
        ensures
            q.pattern@ == seq!['%'] + like_escaped(query@) + seq!['%'],
            q.limit == clamped_limit(limit),
            q.fetch == clamped_limit(limit) + 1,
            q.offset == offset as i64,
    {
        let limit = if limit < 1 {
            1
        } else if limit > 100 {
            100
        } else {
            limit
        };
        let mut pattern: Vec<char> = Vec::new();
        pattern.push('%');
        let escaped = escape_like(&chars_of(query));
        crate::text::extend_chars(&mut pattern, &escaped);
        pattern.push('%');
        assert(pattern@ =~= seq!['%'] + like_escaped(query@) + seq!['%']);
        HistoryQuery {
            pattern: string_from(&pattern),
            limit,
            fetch: (limit + 1) as i64,
            offset: #[verifier::truncate] (offset as i64),
        }
    }
}

/// The page document for the rows that the query returned: the first
/// `limit` rows, and whether a further row came back.
pub fn history_page(rows: Vec<TranscriptEntry>, limit: usize) -> (d: HistoryDocument)
    ensures
        d.schema_version == 1,
        d.has_more == (rows@.len() > limit),
        d.entries@ == rows@.take(if rows@.len() > limit {
            limit as int
        } else {
            rows@.len() as int
        }),
{
    let has_more = rows.len() > limit;
    let mut entries = rows;
    let ghost all = entries@;
    if has_more {
        entries.truncate(limit);
    }
    assert(all.take(all.len() as int) =~= all);
    HistoryDocument { schema_version: 1, entries, has_more }
}

/// Escaping loses nothing: the pattern body built from a search text matches
/// exactly that text, literally.
pub proof fn lemma_like_escape_round_trip(q: Seq<char>)
    ensures
        like_literal(like_escaped(q)) == Some(q),
    decreases q.len(),
{
    if q.len() > 0 {
        lemma_like_escape_round_trip(q.drop_last());
        lemma_like_literal_append(like_escaped(q.drop_last()), q.drop_last(), q.last());
        assert(q.drop_last().push(q.last()) =~= q);
    }
}

proof fn lemma_like_literal_append(p: Seq<char>, lit: Seq<char>, c: char)
    requires
        like_literal(p) == Some(lit),
    ensures
        c == '\\' || c == '%' || c == '_' ==> like_literal(p.push('\\').push(c)) == Some(
            lit.push(c),
        ),
        !(c == '\\' || c == '%' || c == '_') ==> like_literal(p.push(c)) == Some(lit.push(c)),
    decreases p.len(),
{
    let e = p.push('\\').push(c);
    let f = p.push(c);
    if p.len() == 0 {
        assert(lit =~= Seq::<char>::empty());
        assert(e[0] == '\\');
        assert(e[1] == c);
        assert(e.skip(2) =~= Seq::<char>::empty());
        assert(like_literal(e.skip(2)) == Some(Seq::<char>::empty()));
        assert(seq![c] + Seq::<char>::empty() =~= lit.push(c));
        assert(f[0] == c);
        assert(f.drop_first() =~= Seq::<char>::empty());
        assert(like_literal(f.drop_first()) == Some(Seq::<char>::empty()));
    } else if p[0] == '\\' {
        assert(p.len() >= 2);
        let rest = like_literal(p.skip(2))->0;
        lemma_like_literal_append(p.skip(2), rest, c);
        assert(lit =~= seq![p[1]] + rest);
        assert(e[0] == p[0] && e[1] == p[1]);
        assert(f[0] == p[0] && f[1] == p[1]);
        assert(e.skip(2) =~= p.skip(2).push('\\').push(c));
        assert(f.skip(2) =~= p.skip(2).push(c));
        assert(seq![p[1]] + rest.push(c) =~= lit.push(c));
    } else {
        let rest = like_literal(p.drop_first())->0;
        lemma_like_literal_append(p.drop_first(), rest, c);
        assert(lit =~= seq![p[0]] + rest);
        assert(e[0] == p[0]);
        assert(f[0] == p[0]);
        assert(e.drop_first() =~= p.drop_first().push('\\').push(c));
        assert(f.drop_first() =~= p.drop_first().push(c));
        assert(seq![p[0]] + rest.push(c) =~= lit.push(c));
    }
}

} // verus!
