use codex_voice::transcript_history::{database_path, history_page, HistoryQuery, TranscriptEntry};

fn entry(id: i64, text: &str) -> TranscriptEntry {
    TranscriptEntry { id, created_at: id * 1000, text: text.into() }
}

#[test]
fn database_lives_under_the_data_home() {
    assert_eq!(
        database_path(Some("/d".into()), Some("/h".into())).unwrap(),
        "/d/codex-voice/transcripts.sqlite3"
    );
    assert_eq!(
        database_path(None, Some("/home/u".into())).unwrap(),
        "/home/u/.local/share/codex-voice/transcripts.sqlite3"
    );
    assert_eq!(database_path(None, None).unwrap_err().message, "HOME is not set");
}

#[test]
fn queries_clamp_limits_and_match_literally() {
    let query = HistoryQuery::new(5, 0, "50%_off\\");
    assert_eq!(query.limit, 1);
    assert_eq!(query.fetch, 2);
    assert_eq!(query.offset, 5);
    assert_eq!(query.pattern, "%50\\%\\_off\\\\%");
    let query = HistoryQuery::new(0, 1000, "");
    assert_eq!(query.limit, 100);
    assert_eq!(query.fetch, 101);
    assert_eq!(query.pattern, "%%");
    let query = HistoryQuery::new(0, 20, "ph");
    assert_eq!(query.limit, 20);
    assert_eq!(query.pattern, "%ph%");
}

#[test]
fn pages_report_whether_more_entries_follow() {
    let page = history_page(vec![entry(3, "gamma"), entry(2, "beta"), entry(1, "alpha")], 2);
    assert_eq!(page.schema_version, 1);
    assert!(page.has_more);
    assert_eq!(page.entries, vec![entry(3, "gamma"), entry(2, "beta")]);
    let page = history_page(vec![entry(1, "alpha")], 2);
    assert!(!page.has_more);
    assert_eq!(page.entries, vec![entry(1, "alpha")]);
}
