use runkit::manager::ServiceManager;
use runkit::state::ServiceRuntimeState;
use runkit::tai64n::decode_tai64n;

#[test]
fn parses_running_status() {
    let state = ServiceRuntimeState::from_sv_status("run: sshd: (pid 1234) 42s\n");
    match state {
        ServiceRuntimeState::Running { pid, uptime_seconds } => {
            assert_eq!(pid, 1234);
            assert_eq!(uptime_seconds, 42);
        }
        other => panic!("unexpected state: {:?}", other),
    }
}

#[test]
fn parses_down_status() {
    let state = ServiceRuntimeState::from_sv_status("down: cron: 5s, normally up\n");
    match state {
        ServiceRuntimeState::Down { since_seconds, normally_up } => {
            assert_eq!(since_seconds, 5);
            assert!(normally_up);
        }
        other => panic!("unexpected state: {:?}", other),
    }
}

#[test]
fn decodes_tai64n_timestamp() {
    let stamp = "400000000000000000000000";
    let parsed = decode_tai64n(stamp).expect("failed to parse tai64n epoch");
    assert_eq!(parsed.0, 0);
    assert_eq!(parsed.1, 0);
}

#[test]
fn validates_service_name() {
    let manager = ServiceManager::default();
    assert!(manager.validate_service_name("valid_name-01").is_ok());
    assert!(manager.validate_service_name("../bad").is_err());
    assert!(manager.validate_service_name("").is_err());
}

#[test]
fn parses_down_status_without_suffix() {
    let state = ServiceRuntimeState::from_sv_status("down: cron: 5s\n");
    match state {
        ServiceRuntimeState::Down { since_seconds, normally_up } => {
            assert_eq!(since_seconds, 5);
            assert!(!normally_up);
        }
        other => panic!("unexpected state: {:?}", other),
    }
}

#[test]
fn parses_fail_status_with_negative_exit() {
    let state = ServiceRuntimeState::from_sv_status("fail: nginx: (pid 77) 3s, exit -3\n");
    match state {
        ServiceRuntimeState::Failed { pid, uptime_seconds, exit_code } => {
            assert_eq!(pid, 77);
            assert_eq!(uptime_seconds, 3);
            assert_eq!(exit_code, -3);
        }
        other => panic!("unexpected state: {:?}", other),
    }
}

#[test]
fn unmatched_line_becomes_unknown() {
    let state = ServiceRuntimeState::from_sv_status("  something odd happened \nsecond line\n");
    match state {
        ServiceRuntimeState::Unknown { raw } => {
            assert_eq!(raw, "something odd happened");
        }
        other => panic!("unexpected state: {:?}", other),
    }
}

#[test]
fn token_spacing_is_flexible() {
    let state = ServiceRuntimeState::from_sv_status("run:  svc-1:   (pid  007)    9s extra\n");
    match state {
        ServiceRuntimeState::Running { pid, uptime_seconds } => {
            assert_eq!(pid, 7);
            assert_eq!(uptime_seconds, 9);
        }
        other => panic!("unexpected state: {:?}", other),
    }
}

#[test]
fn normally_up_counts_only_after_the_since_field() {
    let state = ServiceRuntimeState::from_sv_status("down: normally up: 5s\n");
    match state {
        ServiceRuntimeState::Down { since_seconds, normally_up } => {
            assert_eq!(since_seconds, 5);
            assert!(!normally_up);
        }
        other => panic!("unexpected state: {:?}", other),
    }
}

#[test]
fn oversized_pid_becomes_unknown() {
    let state = ServiceRuntimeState::from_sv_status("run: big: (pid 99999999999) 1s\n");
    assert!(matches!(state, ServiceRuntimeState::Unknown { .. }));
}

#[test]
fn oversized_since_count_becomes_unknown() {
    let state = ServiceRuntimeState::from_sv_status("down: big: 99999999999999999999999s\n");
    assert!(matches!(state, ServiceRuntimeState::Unknown { .. }));
}

#[test]
fn oversized_exit_code_becomes_unknown() {
    let state = ServiceRuntimeState::from_sv_status("fail: big: (pid 1) 2s, exit 99999999999\n");
    assert!(matches!(state, ServiceRuntimeState::Unknown { .. }));
    let state = ServiceRuntimeState::from_sv_status("fail: big: (pid 1) 2s, exit -2147483649\n");
    assert!(matches!(state, ServiceRuntimeState::Unknown { .. }));
}

#[test]
fn extreme_exit_codes_still_fit() {
    let state = ServiceRuntimeState::from_sv_status("fail: x: (pid 1) 2s, exit -2147483648\n");
    assert!(matches!(state, ServiceRuntimeState::Failed { exit_code: -2147483648, .. }));
    let state = ServiceRuntimeState::from_sv_status("fail: x: (pid 1) 2s, exit 2147483647\n");
    assert!(matches!(state, ServiceRuntimeState::Failed { exit_code: 2147483647, .. }));
}

#[test]
fn unicode_whitespace_is_trimmed() {
    let state = ServiceRuntimeState::from_sv_status("\u{a0}\u{2003}run: sshd: (pid 5) 7s\u{a0}\n");
    match state {
        ServiceRuntimeState::Running { pid, uptime_seconds } => {
            assert_eq!(pid, 5);
            assert_eq!(uptime_seconds, 7);
        }
        other => panic!("unexpected state: {:?}", other),
    }
}

#[test]
fn tai64n_rejects_short_and_non_hex() {
    assert!(decode_tai64n("40000000000000000000000").is_none());
    assert!(decode_tai64n("40000000000000000000000g").is_none());
    assert!(decode_tai64n("3fffffffffffffff00000000").is_none());
}

#[test]
fn tai64n_decodes_seconds_and_nanos() {
    let parsed = decode_tai64n("400000005a0b1c2d0000002a").expect("stamp should decode");
    assert_eq!(parsed.0, 0x5a0b1c2d);
    assert_eq!(parsed.1, 42);
}
