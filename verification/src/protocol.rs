//! Version 1 of the desktop protocol: the runtime-state document that
//! describes an active dictation session.
use vstd::prelude::*;

use crate::text::{chars_of, is_text};

verus! {

/// The desktop protocol version that this library speaks.
pub const SCHEMA_VERSION: u8 = 1;

/// An active runtime-state document: the session's stage and the identity
/// of the process that owns it.
#[derive(Debug, Clone, PartialEq, Eq)]
pub struct ActiveRuntimeState {
    pub state: String,
    pub owner_pid: i32,
    pub owner_start_time: u64,
}

pub struct ActiveRuntimeStateView {
    pub state: Seq<char>,
    pub owner_pid: i32,
    pub owner_start_time: u64,
}

impl View for ActiveRuntimeState {
    type V = ActiveRuntimeStateView;

    open spec fn view(&self) -> ActiveRuntimeStateView {
        ActiveRuntimeStateView {
            state: self.state@,
            owner_pid: self.owner_pid,
            owner_start_time: self.owner_start_time,
        }
    }
}

/// A member value of a JSON object, as far as the protocol reads it: a
/// string, a number (with what `as_i64` and `as_u64` give for it), or
/// anything else.
#[derive(Debug, Clone)]
pub enum JsonScalar {
    Text(String),
    Number { signed: Option<i64>, unsigned: Option<u64> },
    Other,
}

pub enum JsonScalarView {
    Text(Seq<char>),
    Number { signed: Option<i64>, unsigned: Option<u64> },
    Other,
}

impl View for JsonScalar {
    type V = JsonScalarView;

    open spec fn view(&self) -> JsonScalarView {
        match self {
            JsonScalar::Text(s) => JsonScalarView::Text(s@),
            JsonScalar::Number { signed, unsigned } => JsonScalarView::Number {
                signed: *signed,
                unsigned: *unsigned,
            },
            JsonScalar::Other => JsonScalarView::Other,
        }
    }
}

pub open spec fn members_view(m: Seq<(String, JsonScalar)>) -> Seq<(Seq<char>, JsonScalarView)> {
    m.map_values(|e: (String, JsonScalar)| (e.0@, e.1@))
}

/// The members of the JSON object that a text holds, with their values as
/// `JsonScalarView`s; nothing when the text is not a JSON object.
pub uninterp spec fn json_object_members(text: Seq<char>) -> Option<
    Seq<(Seq<char>, JsonScalarView)>,
>;

/// `serde_json::from_str::<serde_json::Value>`, keeping the members of an
/// object: their order and values are those of the parsed object, a
/// function of the text alone.
#[verifier::external_body]
fn parse_json_object(text: &str) -> (r: Option<Vec<(String, JsonScalar)>>)
    ensures
        match r {
            Some(m) => json_object_members(text@) == Some(members_view(m@)),
            None => json_object_members(text@) is None,
        },
{
    match serde_json::from_str::<serde_json::Value>(text) {
        Ok(serde_json::Value::Object(map)) => Some(map.iter().map(|(key, value)| (key.clone(), match value {
            serde_json::Value::String(s) => JsonScalar::Text(s.clone()),
            serde_json::Value::Number(n) => JsonScalar::Number { signed: n.as_i64(), unsigned: n.as_u64() },
            _ => JsonScalar::Other,
        })).collect()),
        _ => None,
    }
}

/// The value of the first member named `key`.
pub open spec fn member(m: Seq<(Seq<char>, JsonScalarView)>, key: Seq<char>) -> Option<
    JsonScalarView,
> {
    if exists|i: int| 0 <= i < m.len() && m[i].0 == key {
        let i = choose|i: int|
            0 <= i < m.len() && m[i].0 == key && forall|j: int| 0 <= j < i ==> m[j].0 != key;
        Some(m[i].1)
    } else {
        None
    }
}

/// `Value::as_str`.
pub open spec fn as_text(v: Option<JsonScalarView>) -> Option<Seq<char>> {
    match v {
        Some(JsonScalarView::Text(s)) => Some(s),
        _ => None,
    }
}

/// `Value::as_i64`.
pub open spec fn as_signed(v: Option<JsonScalarView>) -> Option<i64> {
    match v {
        Some(JsonScalarView::Number { signed, .. }) => signed,
        _ => None,
    }
}

/// `Value::as_u64`.
pub open spec fn as_unsigned(v: Option<JsonScalarView>) -> Option<u64> {
    match v {
        Some(JsonScalarView::Number { unsigned, .. }) => unsigned,
        _ => None,
    }
}

/// The states of an active session; `typing` is the protocol name of the
/// paste stage.
pub open spec fn is_active_state(s: Seq<char>) -> bool {
    s == "recording"@ || s == "transcribing"@ || s == "typing"@
}

/// The active session that a runtime-state object describes: schema version
/// 1, an active state, a positive owner PID that fits `i32`, a positive
/// owner start time and an unsigned `startedAt`.  Anything else describes no
/// active session and must not select a destructive action.
pub open spec fn active_state_of(m: Seq<(Seq<char>, JsonScalarView)>) -> Option<
    ActiveRuntimeStateView,
> {
    match (
        as_text(member(m, "state"@)),
        as_signed(member(m, "ownerPid"@)),
        as_unsigned(member(m, "ownerStartTime"@)),
        as_unsigned(member(m, "schemaVersion"@)),
        as_unsigned(member(m, "startedAt"@)),
    ) {
        (Some(state), Some(pid), Some(start), Some(version), Some(_)) => if version == 1
            && is_active_state(state) && i32::MIN <= pid <= i32::MAX && pid > 0 && start > 0 {
            Some(ActiveRuntimeStateView { state, owner_pid: pid as i32, owner_start_time: start })
        } else {
            None
        },
        _ => None,
    }
}

pub open spec fn active_state_view(r: Option<ActiveRuntimeState>) -> Option<ActiveRuntimeStateView> {
    match r {
        Some(a) => Some(a@),
        None => None,
    }
}

fn find_member(m: &Vec<(String, JsonScalar)>, key: &str) -> (r: Option<JsonScalar>)
    ensures
        match r {
            Some(v) => member(members_view(m@), key@) == Some(v@),
            None => member(members_view(m@), key@) is None,
        },
{
    let ghost mv = members_view(m@);
    let mut i: usize = 0;
    while i < m.len()
        invariant
            i <= m@.len(),
            mv == members_view(m@),
            forall|j: int| 0 <= j < i ==> mv[j].0 != key@,
        decreases m@.len() - i,
    {
        if is_text(&chars_of(m[i].0.as_str()), key) {
            proof {
                let chosen = choose|k: int|
                    0 <= k < mv.len() && mv[k].0 == key@ && forall|j: int|
                        0 <= j < k ==> mv[j].0 != key@;
                assert(mv[i as int].0 == key@);
                if chosen < i {
                } else if chosen > i {
                    assert(mv[i as int].0 != key@);
                }
            }
            return Some(m[i].1.clone_scalar());
        }
        i = i + 1;
    }
    None
}

impl JsonScalar {
    /// A copy of this value.
    pub fn clone_scalar(&self) -> (c: JsonScalar)
        ensures
            c@ == self@,
    {
        match self {
            JsonScalar::Text(s) => JsonScalar::Text(s.clone()),
            JsonScalar::Number { signed, unsigned } => JsonScalar::Number {
                signed: *signed,
                unsigned: *unsigned,
            },
            JsonScalar::Other => JsonScalar::Other,
        }
    }
}

/// The active session that the members of a runtime-state object describe.
pub fn active_runtime_state_from(m: &Vec<(String, JsonScalar)>) -> (r: Option<ActiveRuntimeState>)
    ensures
        active_state_view(r) == active_state_of(members_view(m@)),
{
    let state = match find_member(m, "state") {
        Some(JsonScalar::Text(s)) => s,
        _ => {
            return None;
        },
    };
    let pid = match find_member(m, "ownerPid") {
        Some(JsonScalar::Number { signed: Some(p), .. }) => p,
        _ => {
            return None;
        },
    };
    let start = match find_member(m, "ownerStartTime") {
        Some(JsonScalar::Number { unsigned: Some(t), .. }) => t,
        _ => {
            return None;
        },
    };
    let version = match find_member(m, "schemaVersion") {
        Some(JsonScalar::Number { unsigned: Some(v), .. }) => v,
        _ => {
            return None;
        },
    };
    match find_member(m, "startedAt") {
        Some(JsonScalar::Number { unsigned: Some(_), .. }) => {},
        _ => {
            return None;
        },
    }
    let state_chars = chars_of(state.as_str());
    let active = is_text(&state_chars, "recording") || is_text(&state_chars, "transcribing")
        || is_text(&state_chars, "typing");
    if version == 1 && active && pid >= i32::MIN as i64 && pid <= i32::MAX as i64 && pid > 0
        && start > 0 {
        Some(ActiveRuntimeState { state, owner_pid: pid as i32, owner_start_time: start })
    } else {
        None
    }
}

/// Reads a runtime-state document; `None` for anything that does not
/// describe an active session of protocol version 1.
pub fn parse_active_runtime_state(text: &str) -> (r: Option<ActiveRuntimeState>)
    ensures
        active_state_view(r) == match json_object_members(text@) {
            Some(m) => active_state_of(m),
            None => None,
        },
{
    match parse_json_object(text) {
        Some(m) => active_runtime_state_from(&m),
        None => None,
    }
}

} // verus!
