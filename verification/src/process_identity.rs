//! Process identities: a PID together with the process start time from
//! `/proc/<pid>/stat`, so that a recycled PID is never mistaken for the
//! process that was recorded.
use vstd::prelude::*;

use crate::text::{
    chars_of, extend_chars, format_i64, decimal_text, occurs_at, parse_u64, slice_chars,
    spec_parse_u64, string_from, words, words_of, matches_at,
};

verus! {

/// A process, identified by its PID and its start time in clock ticks
/// since boot.
#[derive(Debug, Clone, Copy, PartialEq, Eq, Structural)]
pub struct ProcessIdentity {
    pub pid: i32,
    pub start_time: u64,
}

/// The fields of a `/proc/<pid>/stat` line after the command name: the text
/// after the last `") "`, since the command name itself may hold `") "`.
pub open spec fn stat_fields(stat: Seq<char>) -> Option<Seq<char>> {
    if exists|i: int| occurs_at(stat, ") "@, i) {
        let i = choose|i: int|
            occurs_at(stat, ") "@, i) && forall|j: int| occurs_at(stat, ") "@, j) ==> j <= i;
        Some(stat.skip(i + 2))
    } else {
        None
    }
}

/// The start time in a `/proc/<pid>/stat` line: the twentieth field after
/// the command name (field 22 of the line).
pub open spec fn stat_start_time(stat: Seq<char>) -> Option<u64> {
    match stat_fields(stat) {
        Some(rest) => if words(rest).len() > 19 {
            spec_parse_u64(words(rest)[19])
        } else {
            None
        },
        None => None,
    }
}

/// The last position at which `p` occurs in `s`.
fn last_occurrence(s: &Vec<char>, p: &Vec<char>) -> (r: Option<usize>)
    ensures
        match r {
            Some(i) => occurs_at(s@, p@, i as int) && forall|j: int|
                occurs_at(s@, p@, j) ==> j <= i,
            None => forall|j: int| !occurs_at(s@, p@, j),
        },
{
    let mut i: usize = s.len();
    loop
        invariant
            i <= s@.len(),
            forall|j: int| i < j ==> !occurs_at(s@, p@, j),
        decreases i,
    {
        if matches_at(s, i, p) {
            return Some(i);
        }
        if i == 0 {
            return None;
        }
        i = i - 1;
    }
}

/// Reads the start time from the contents of `/proc/<pid>/stat`.
pub fn proc_start_time(stat: &str) -> (r: Option<u64>)
    ensures
        r == stat_start_time(stat@),
{
    let s = chars_of(stat);
    let pattern = chars_of(") ");
    proof {
        reveal_strlit(") ");
    }
    let found = match last_occurrence(&s, &pattern) {
        Some(i) => i,
        None => {
            return None;
        },
    };
    proof {
        let chosen = choose|k: int|
            occurs_at(s@, ") "@, k) && forall|j: int| occurs_at(s@, ") "@, j) ==> j <= k;
        assert(chosen == found as int);
    }
    let rest = slice_chars(&s, found + 2, s.len());
    assert(rest@ =~= s@.skip(found + 2));
    let fields = words_of(&rest);
    if fields.len() <= 19 {
        return None;
    }
    parse_u64(&fields[19])
}

/// The `/proc` file that describes a process.
pub open spec fn proc_stat_path_for(pid: i32) -> Seq<char> {
    "/proc/"@ + decimal_text(pid as int) + "/stat"@
}

pub fn proc_stat_path(pid: i32) -> (path: String)
    ensures
        path@ == proc_stat_path_for(pid),
{
    let mut text = chars_of("/proc/");
    extend_chars(&mut text, &format_i64(pid as i64));
    extend_chars(&mut text, &chars_of("/stat"));
    string_from(&text)
}

/// The identity of the process with a PID, given the contents of its
/// `/proc/<pid>/stat` (`None` when that could not be read).
pub open spec fn identity_for(pid: i32, stat: Option<Seq<char>>) -> Option<ProcessIdentity> {
    if pid > 0 {
        match stat {
            Some(text) => match stat_start_time(text) {
                Some(start_time) => Some(ProcessIdentity { pid, start_time }),
                None => None,
            },
            None => None,
        }
    } else {
        None
    }
}

impl ProcessIdentity {
    /// The identity of the process `pid`, given the contents of its
    /// `/proc/<pid>/stat` file; only positive PIDs identify a process.
    pub fn for_pid(pid: i32, stat: Option<&str>) -> (r: Option<ProcessIdentity>)
        ensures
            r == identity_for(
                pid,
                match stat {
                    Some(t) => Some(t@),
                    None => None,
                },
            ),
    {
        if pid <= 0 {
            return None;
        }
        match stat {
            Some(text) => match proc_start_time(text) {
                Some(start_time) => Some(ProcessIdentity { pid, start_time }),
                None => None,
            },
            None => None,
        }
    }

    /// Whether this identity still names a live process, given the identity
    /// currently found for its PID.
    pub fn is_alive(self, current: Option<ProcessIdentity>) -> (r: bool)
        ensures
            r == (current == Some(self)),
    {
        match current {
            Some(c) => c.pid == self.pid && c.start_time == self.start_time,
            None => false,
        }
    }
}

/// Whether an identity record may be removed on behalf of `expected`: only
/// when it still holds exactly that identity.
pub fn record_matches(record: Option<ProcessIdentity>, expected: ProcessIdentity) -> (r: bool)
    ensures
        r == (record == Some(expected)),
{
    match record {
        Some(c) => c.pid == expected.pid && c.start_time == expected.start_time,
        None => false,
    }
}

} // verus!
