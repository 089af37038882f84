use codex_voice::process_identity::ProcessIdentity;
use codex_voice::protocol::{parse_active_runtime_state, SCHEMA_VERSION};
use codex_voice::runtime_state::{active_stage, belongs_to_owner, document, State};

const VALID: &str = r#"{"schemaVersion":1,"state":"recording","ownerPid":4242,"ownerStartTime":987654,"startedAt":1760000000000}"#;
const UNKNOWN_STATE: &str = r#"{"schemaVersion":1,"state":"dancing","ownerPid":4242,"ownerStartTime":987654,"startedAt":1760000000000}"#;
const MALFORMED: &str = r#"{"schemaVersion":1,"state":"recording","#;
const UNSUPPORTED_VERSION: &str = r#"{"schemaVersion":2,"state":"recording","ownerPid":4242,"ownerStartTime":987654,"startedAt":1760000000000}"#;
const MISSING_OWNER_START_TIME: &str = r#"{"schemaVersion":1,"state":"recording","ownerPid":4242,"startedAt":1760000000000}"#;

#[test]
fn shared_runtime_fixtures_define_v1_compatibility() {
    assert_eq!(
        parse_active_runtime_state(VALID).unwrap().state,
        "recording"
    );
    for fixture in [
        UNKNOWN_STATE,
        MALFORMED,
        UNSUPPORTED_VERSION,
        MISSING_OWNER_START_TIME,
    ] {
        assert!(parse_active_runtime_state(fixture).is_none());
    }
}

#[test]
fn active_documents_carry_the_owner_identity() {
    let active = parse_active_runtime_state(
        r#"{"startedAt":0,"ownerStartTime":5,"ownerPid":7,"state":"typing","schemaVersion":1,"extra":true}"#,
    )
    .unwrap();
    assert_eq!(active.state, "typing");
    assert_eq!(active.owner_pid, 7);
    assert_eq!(active.owner_start_time, 5);
    assert_eq!(SCHEMA_VERSION, 1);
}

#[test]
fn invalid_owner_fields_are_not_active() {
    for text in [
        r#"{"schemaVersion":1,"state":"recording","ownerPid":0,"ownerStartTime":5,"startedAt":1}"#,
        r#"{"schemaVersion":1,"state":"recording","ownerPid":-4,"ownerStartTime":5,"startedAt":1}"#,
        r#"{"schemaVersion":1,"state":"recording","ownerPid":4294967297,"ownerStartTime":5,"startedAt":1}"#,
        r#"{"schemaVersion":1,"state":"recording","ownerPid":4,"ownerStartTime":0,"startedAt":1}"#,
        r#"{"schemaVersion":1,"state":"recording","ownerPid":4,"ownerStartTime":5,"startedAt":-1}"#,
        r#"{"schemaVersion":1,"state":"recording","ownerPid":4,"ownerStartTime":5}"#,
        r#"{"schemaVersion":1,"state":"idle","ownerPid":4,"ownerStartTime":5,"startedAt":1}"#,
        r#"{"schemaVersion":1,"state":7,"ownerPid":4,"ownerStartTime":5,"startedAt":1}"#,
        r#"{"schemaVersion":"1","state":"recording","ownerPid":4,"ownerStartTime":5,"startedAt":1}"#,
        r#"[1,2,3]"#,
        "",
    ] {
        assert!(parse_active_runtime_state(text).is_none(), "{text}");
    }
}

#[test]
fn document_has_protocol_identity_fields() {
    let value = document(
        State::Recording,
        ProcessIdentity {
            pid: 42,
            start_time: 99,
        },
        1,
    );
    assert_eq!(value.state.name(), "recording");
    assert_eq!(value.schema_version, 1);
    assert_eq!(value.owner_pid, 42);
    assert_eq!(value.owner_start_time, 99);
}

#[test]
fn stage_names_follow_the_protocol() {
    assert_eq!(State::Transcribing.name(), "transcribing");
    assert_eq!(State::Typing.name(), "typing");
}

#[test]
fn owner_cleanup_does_not_remove_replacement_state() {
    let owner = ProcessIdentity {
        pid: 4242,
        start_time: 987654,
    };
    assert!(belongs_to_owner(Some(VALID), owner));
    assert!(!belongs_to_owner(
        Some(VALID),
        ProcessIdentity {
            pid: 4242,
            start_time: 987655
        }
    ));
    assert!(!belongs_to_owner(Some(UNSUPPORTED_VERSION), owner));
    assert!(!belongs_to_owner(None, owner));
}

#[test]
fn publish_and_stale_cleanup_verify_full_owner_identity() {
    let active = parse_active_runtime_state(VALID);
    assert_eq!(active_stage(active.clone(), true), Some("recording".into()));
    assert_eq!(active_stage(active, false), None);
    assert_eq!(active_stage(None, true), None);
}

#[test]
fn a_published_document_reads_back_as_its_owner() {
    let owner = ProcessIdentity {
        pid: 31337,
        start_time: 18446744073709551615,
    };
    let published = document(State::Transcribing, owner, 1760000000123);
    let text = format!(
        "{{\"schemaVersion\":{},\"state\":\"{}\",\"ownerPid\":{},\"ownerStartTime\":{},\"startedAt\":{}}}",
        published.schema_version,
        published.state.name(),
        published.owner_pid,
        published.owner_start_time,
        published.started_at
    );
    let active = parse_active_runtime_state(&text).unwrap();
    assert_eq!(active.state, "transcribing");
    assert_eq!(active.owner_pid, 31337);
    assert_eq!(active.owner_start_time, u64::MAX);
    assert!(belongs_to_owner(Some(&text), owner));
}
