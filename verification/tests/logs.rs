use runkit::logs::parse_svlogd_line;
use runkit::manager::ServiceManager;

#[test]
fn svlogd_line_with_stamp_decodes() {
    let entry = parse_svlogd_line("@400000005a0b1c2d0000002a  hello world");
    assert_eq!(entry.timestamp_unix, Some(0x5a0b1c2d));
    assert_eq!(entry.timestamp_nanos, Some(42));
    assert_eq!(entry.timestamp_raw.as_deref(), Some("400000005a0b1c2d0000002a"));
    assert_eq!(entry.message, "hello world");
}

#[test]
fn svlogd_line_with_bad_stamp_keeps_raw() {
    let entry = parse_svlogd_line("@zz0000005a0b1c2d0000002a message");
    assert_eq!(entry.timestamp_unix, None);
    assert_eq!(entry.timestamp_nanos, None);
    assert_eq!(entry.timestamp_raw.as_deref(), Some("zz0000005a0b1c2d0000002a"));
    assert_eq!(entry.message, "message");
}

#[test]
fn svlogd_plain_line_has_no_stamp() {
    let entry = parse_svlogd_line("plain message");
    assert_eq!(entry.timestamp_unix, None);
    assert_eq!(entry.timestamp_nanos, None);
    assert!(entry.timestamp_raw.is_none());
    assert_eq!(entry.message, "plain message");
}

#[test]
fn tail_zero_returns_empty_without_lines() {
    let manager = ServiceManager::default();
    let entries = manager.tail_logs("svc", 0, None).expect("zero limit is fine");
    assert!(entries.is_empty());
}

#[test]
fn tail_keeps_last_lines_in_order() {
    let manager = ServiceManager::default();
    let lines = vec![
        "one".to_string(),
        "two".to_string(),
        "three".to_string(),
        "four".to_string(),
        "five".to_string(),
    ];
    let entries = manager.tail_logs("svc", 2, Some(&lines)).expect("tail should succeed");
    assert_eq!(entries.len(), 2);
    assert_eq!(entries[0].message, "four");
    assert_eq!(entries[1].message, "five");
}

#[test]
fn tail_without_log_file_is_empty() {
    let manager = ServiceManager::default();
    let entries = manager.tail_logs("svc", 10, None).expect("missing logger is fine");
    assert!(entries.is_empty());
}

#[test]
fn tail_rejects_invalid_name() {
    let manager = ServiceManager::default();
    assert!(manager.tail_logs("../bad", 10, None).is_err());
}
