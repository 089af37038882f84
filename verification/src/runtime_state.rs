//! The runtime-state document: what an active dictation session publishes
//! for desktop adapters, and the rules for reading and clearing it.
use vstd::prelude::*;

use crate::process_identity::ProcessIdentity;
use crate::protocol::{
    active_state_of, json_object_members, member, parse_active_runtime_state,
    ActiveRuntimeState, ActiveRuntimeStateView, JsonScalarView,
};
use crate::text::{chars_of, string_from};

verus! {

/// The active stages of a dictation session.
#[derive(Debug, Clone, Copy, PartialEq, Eq, Structural)]
pub enum State {
    Recording,
    Transcribing,
    /// The paste stage; the protocol keeps its legacy name.
    Typing,
}

pub open spec fn state_name(s: State) -> Seq<char> {
    match s {
        State::Recording => "recording"@,
        State::Transcribing => "transcribing"@,
        State::Typing => "typing"@,
    }
}

impl State {
    /// The protocol name of the stage.
    pub fn name(&self) -> (n: String)
        ensures
            n@ == state_name(*self),
    {
        match self {
            State::Recording => string_from(&chars_of("recording")),
            State::Transcribing => string_from(&chars_of("transcribing")),
            State::Typing => string_from(&chars_of("typing")),
        }
    }
}

/// The runtime-state document that an active session publishes.
#[derive(Debug, Clone, Copy, PartialEq, Eq)]
pub struct Document {
    pub schema_version: u8,
    pub state: State,
    pub owner_pid: i32,
    pub owner_start_time: u64,
    /// Unix epoch milliseconds.
    pub started_at: u128,
}

/// The document announcing that `owner` runs the session in stage `state`,
/// started at `started_at` milliseconds after the epoch.
pub fn document(state: State, owner: ProcessIdentity, started_at: u128) -> (d: Document)
    ensures
        d.schema_version == 1,
        d.state == state,
        d.owner_pid == owner.pid,
        d.owner_start_time == owner.start_time,
        d.started_at == started_at,
{
    Document {
        schema_version: 1,
        state,
        owner_pid: owner.pid,
        owner_start_time: owner.start_time,
        started_at,
    }
}

/// Whether runtime-state contents (`None` when they are not UTF-8) describe
/// an active session owned by exactly `owner`.
pub open spec fn owned_by(contents: Option<Seq<char>>, owner: ProcessIdentity) -> bool {
    match contents {
        Some(text) => match json_object_members(text) {
            Some(m) => match active_state_of(m) {
                Some(a) => a.owner_pid == owner.pid && a.owner_start_time == owner.start_time,
                None => false,
            },
            None => false,
        },
        None => false,
    }
}

/// Whether the runtime state may be cleared on behalf of `owner`: only when
/// it describes a session of that exact owner, so that cleanup never removes
/// a replacement session's state.
pub fn belongs_to_owner(contents: Option<&str>, owner: ProcessIdentity) -> (r: bool)
    ensures
        r == owned_by(
            match contents {
                Some(t) => Some(t@),
                None => None,
            },
            owner,
        ),
{
    match contents {
        Some(text) => match parse_active_runtime_state(text) {
            Some(a) => a.owner_pid == owner.pid && a.owner_start_time == owner.start_time,
            None => false,
        },
        None => false,
    }
}

/// What reading the runtime state yields: the stage of the session when the
/// document is active and its owner is still alive; otherwise nothing, and
/// the stale file is removed if it has not changed meanwhile.
pub fn active_stage(document: Option<ActiveRuntimeState>, owner_alive: bool) -> (r: Option<String>)
    ensures
        match r {
            Some(s) => owner_alive && document is Some && s@ == document->0.state@,
            None => !owner_alive || document is None,
        },
{
    match document {
        Some(d) => if owner_alive {
            Some(d.state)
        } else {
            None
        },
        None => None,
    }
}

/// An integer as a JSON number: what `as_i64` and `as_u64` give for it.
pub open spec fn json_integer(n: int) -> JsonScalarView {
    JsonScalarView::Number {
        signed: if i64::MIN <= n <= i64::MAX {
            Some(n as i64)
        } else {
            None
        },
        unsigned: if 0 <= n <= u64::MAX {
            Some(n as u64)
        } else {
            None
        },
    }
}

/// The members of a runtime-state document as JSON, in key order.
pub open spec fn document_members(d: Document) -> Seq<(Seq<char>, JsonScalarView)> {
    seq![
        ("ownerPid"@, json_integer(d.owner_pid as int)),
        ("ownerStartTime"@, json_integer(d.owner_start_time as int)),
        ("schemaVersion"@, json_integer(d.schema_version as int)),
        ("startedAt"@, json_integer(d.started_at as int)),
        ("state"@, JsonScalarView::Text(state_name(d.state))),
    ]
}

proof fn lemma_member_at(m: Seq<(Seq<char>, JsonScalarView)>, k: int)
    requires
        0 <= k < m.len(),
        forall|j: int| 0 <= j < m.len() && j != k ==> m[j].0 != m[k].0,
    ensures
        member(m, m[k].0) == Some(m[k].1),
{
    let key = m[k].0;
    assert(0 <= k < m.len() && m[k].0 == key);
    let i = choose|i: int|
        0 <= i < m.len() && m[i].0 == key && forall|j: int| 0 <= j < i ==> m[j].0 != key;
    assert(i == k);
}

/// A published document reads back as an active session of the same stage
/// and owner, provided the owner's PID and start time are positive and the
/// start fits an unsigned 64-bit number; a reader therefore recognises
/// exactly what the session announced.
pub proof fn lemma_published_document_reads_back(
    state: State,
    owner: ProcessIdentity,
    started_at: u128,
)
    requires
        owner.pid > 0,
        owner.start_time > 0,
        started_at <= u64::MAX,
    ensures
        active_state_of(
            document_members(
                Document {
                    schema_version: 1,
                    state,
                    owner_pid: owner.pid,
                    owner_start_time: owner.start_time,
                    started_at,
                },
            ),
        ) == Some(
            ActiveRuntimeStateView {
                state: state_name(state),
                owner_pid: owner.pid,
                owner_start_time: owner.start_time,
            },
        ),
{
    let d = Document {
        schema_version: 1,
        state,
        owner_pid: owner.pid,
        owner_start_time: owner.start_time,
        started_at,
    };
    let m = document_members(d);
    lemma_document_keys(d);
    lemma_member_at(m, 0);
    lemma_member_at(m, 1);
    lemma_member_at(m, 2);
    lemma_member_at(m, 3);
    lemma_member_at(m, 4);
    assert(member(m, "state"@) == Some(JsonScalarView::Text(state_name(state))));
    assert(member(m, "ownerPid"@) == Some(json_integer(owner.pid as int)));
    assert(member(m, "ownerStartTime"@) == Some(json_integer(owner.start_time as int)));
    assert(member(m, "schemaVersion"@) == Some(json_integer(1)));
    assert(member(m, "startedAt"@) == Some(json_integer(started_at as int)));
    lemma_state_names_active(state);
}

proof fn lemma_state_names_active(state: State)
    ensures
        crate::protocol::is_active_state(state_name(state)),
{
}

proof fn lemma_document_keys(d: Document)
    ensures
        forall|j: int, k: int|
            0 <= j < 5 && 0 <= k < 5 && j != k ==> (#[trigger] document_members(d)[j]).0
                != (#[trigger] document_members(d)[k]).0,
        document_members(d).len() == 5,
        document_members(d)[0].0 == "ownerPid"@,
        document_members(d)[1].0 == "ownerStartTime"@,
        document_members(d)[2].0 == "schemaVersion"@,
        document_members(d)[3].0 == "startedAt"@,
        document_members(d)[4].0 == "state"@,
{
    reveal_strlit("ownerPid");
    reveal_strlit("ownerStartTime");
    reveal_strlit("schemaVersion");
    reveal_strlit("startedAt");
    reveal_strlit("state");
    let m = document_members(d);
    assert(m[0].0.len() == 8);
    assert(m[1].0.len() == 14);
    assert(m[2].0.len() == 13);
    assert(m[3].0.len() == 9);
    assert(m[4].0.len() == 5);
}

} // verus!
