use codex_voice::process_identity::{proc_start_time, proc_stat_path, record_matches, ProcessIdentity};

const STAT: &str = "1234 (arecord) S 1 1234 1234 0 -1 4194560 100 0 0 0 1 2 0 0 20 0 1 0 555666 1000 100 18446744073709551615";

#[test]
fn owner_checked_removal_preserves_replacement() {
    let first = ProcessIdentity {
        pid: 10,
        start_time: 20,
    };
    let replacement = ProcessIdentity {
        pid: 30,
        start_time: 40,
    };
    let record = Some(replacement);
    assert!(!record_matches(record, first));
    assert!(record_matches(record, replacement));
    assert!(!record_matches(record, ProcessIdentity { pid: 30, start_time: 20 }));
    assert!(!record_matches(record, ProcessIdentity { pid: 10, start_time: 40 }));
    assert!(!record_matches(None, first));
}

#[test]
fn start_time_is_the_twenty_second_stat_field() {
    assert_eq!(proc_start_time(STAT), Some(555666));
    assert_eq!(
        proc_start_time("1 (odd) name) S 1 1 1 0 -1 0 0 0 0 0 0 0 0 0 20 0 1 0 77 0"),
        Some(77)
    );
    assert_eq!(proc_start_time("1 (short) S 1"), None);
    assert_eq!(proc_start_time("no parenthesis"), None);
}

#[test]
fn identities_need_a_positive_pid_and_a_readable_stat() {
    assert_eq!(
        ProcessIdentity::for_pid(1234, Some(STAT)),
        Some(ProcessIdentity {
            pid: 1234,
            start_time: 555666
        })
    );
    assert_eq!(ProcessIdentity::for_pid(0, Some(STAT)), None);
    assert_eq!(ProcessIdentity::for_pid(-5, Some(STAT)), None);
    assert_eq!(ProcessIdentity::for_pid(1234, None), None);
    assert_eq!(proc_stat_path(1234), "/proc/1234/stat");
}

#[test]
fn identity_mismatch_is_never_signalled() {
    let recorded = ProcessIdentity {
        pid: 1234,
        start_time: 555666,
    };
    assert!(recorded.is_alive(Some(recorded)));
    assert!(!recorded.is_alive(Some(ProcessIdentity {
        pid: 1234,
        start_time: 555667
    })));
    assert!(!recorded.is_alive(None));
}
