use runkit::decimal::{i64_to_string, u64_to_string};
use runkit::dispatch::LogEntry;
use runkit::manager::{DesiredState, ServiceInfo};
use runkit::present::{
    detail_description_text, format_log_entry, is_auto_start, is_running, list_row_subtitle,
    runtime_state_detail, runtime_state_short, status_level, StatusLevel,
};
use runkit::state::ServiceRuntimeState;

fn service(state: ServiceRuntimeState, enabled: bool, description: Option<&str>) -> ServiceInfo {
    ServiceInfo {
        name: "svc".to_string(),
        definition_path: "/etc/sv/svc".to_string(),
        enabled,
        desired_state: if enabled { DesiredState::AutoStart } else { DesiredState::Manual },
        runtime_state: state,
        description: description.map(|d| d.to_string()),
    }
}

#[test]
fn short_state_words() {
    let s = service(ServiceRuntimeState::Running { pid: 1, uptime_seconds: 2 }, false, None);
    assert_eq!(runtime_state_short(&s), "Running");
    let s = service(ServiceRuntimeState::Down { since_seconds: 2, normally_up: true }, false, None);
    assert_eq!(runtime_state_short(&s), "Stopped");
    let s = service(ServiceRuntimeState::Down { since_seconds: 2, normally_up: true }, true, None);
    assert_eq!(runtime_state_short(&s), "Stopped");
    let s = service(ServiceRuntimeState::Down { since_seconds: 2, normally_up: false }, true, None);
    assert_eq!(runtime_state_short(&s), "Idle");
    let s = service(
        ServiceRuntimeState::Failed { pid: 1, uptime_seconds: 2, exit_code: 1 },
        true,
        None,
    );
    assert_eq!(runtime_state_short(&s), "Error");
    let s = service(ServiceRuntimeState::Unknown { raw: String::new() }, true, None);
    assert_eq!(runtime_state_short(&s), "Unavailable");
}

#[test]
fn detail_renders_pid_and_duration() {
    let s = service(ServiceRuntimeState::Running { pid: 7, uptime_seconds: 42 }, true, None);
    assert_eq!(runtime_state_detail(&s), "Running (PID 7) for 42s");
    let s = service(ServiceRuntimeState::Running { pid: 7, uptime_seconds: 3700 }, true, None);
    assert_eq!(runtime_state_detail(&s), "Running (PID 7) for 1h 1m 40s");
}

#[test]
fn detail_explains_down_and_failed_states() {
    let s = service(ServiceRuntimeState::Down { since_seconds: 5, normally_up: true }, true, None);
    assert_eq!(runtime_state_detail(&s), "Stopped 5s ago; runit will restart automatically");
    let s = service(ServiceRuntimeState::Down { since_seconds: 5, normally_up: false }, true, None);
    assert_eq!(runtime_state_detail(&s), "Stopped 5s ago; waiting for manual start");
    let s = service(ServiceRuntimeState::Down { since_seconds: 5, normally_up: true }, false, None);
    assert_eq!(runtime_state_detail(&s), "Stopped (disabled); last ran 5s ago");
    let s = service(
        ServiceRuntimeState::Failed { pid: 3, uptime_seconds: 9, exit_code: -3 },
        true,
        None,
    );
    assert_eq!(runtime_state_detail(&s), "Stopped due to error; exited with code -3 after 9s");
    let s = service(ServiceRuntimeState::Unknown { raw: String::new() }, true, None);
    assert_eq!(runtime_state_detail(&s), "Status unavailable; runit did not report details");
}

#[test]
fn subtitle_appends_the_description() {
    let s = service(
        ServiceRuntimeState::Running { pid: 1, uptime_seconds: 2 },
        true,
        Some("Secure shell daemon"),
    );
    assert_eq!(list_row_subtitle(&s), "Running — Secure shell daemon");
    let s = service(ServiceRuntimeState::Running { pid: 1, uptime_seconds: 2 }, true, Some(""));
    assert_eq!(list_row_subtitle(&s), "Running");
    let s = service(ServiceRuntimeState::Running { pid: 1, uptime_seconds: 2 }, true, None);
    assert_eq!(list_row_subtitle(&s), "Running");
}

#[test]
fn description_text_has_a_placeholder() {
    let s = service(ServiceRuntimeState::Unknown { raw: String::new() }, false, Some("text"));
    assert_eq!(detail_description_text(&s), "text");
    let s = service(ServiceRuntimeState::Unknown { raw: String::new() }, false, None);
    assert_eq!(detail_description_text(&s), "This service has no description yet.");
}

#[test]
fn running_and_auto_start_predicates() {
    assert!(is_running(&ServiceRuntimeState::Running { pid: 1, uptime_seconds: 1 }));
    assert!(!is_running(&ServiceRuntimeState::Unknown { raw: String::new() }));
    assert!(is_auto_start(DesiredState::AutoStart));
    assert!(!is_auto_start(DesiredState::Manual));
}

#[test]
fn status_levels_follow_the_state() {
    let s = service(ServiceRuntimeState::Running { pid: 1, uptime_seconds: 1 }, false, None);
    assert_eq!(status_level(&s), StatusLevel::Good);
    let s = service(ServiceRuntimeState::Failed { pid: 1, uptime_seconds: 1, exit_code: 1 }, false, None);
    assert_eq!(status_level(&s), StatusLevel::Neutral);
    let s = service(ServiceRuntimeState::Failed { pid: 1, uptime_seconds: 1, exit_code: 1 }, true, None);
    assert_eq!(status_level(&s), StatusLevel::Critical);
    let s = service(ServiceRuntimeState::Down { since_seconds: 1, normally_up: true }, true, None);
    assert_eq!(status_level(&s), StatusLevel::Warning);
    let s = service(ServiceRuntimeState::Down { since_seconds: 1, normally_up: false }, true, None);
    assert_eq!(status_level(&s), StatusLevel::Neutral);
    let s = service(ServiceRuntimeState::Unknown { raw: String::new() }, true, None);
    assert_eq!(status_level(&s), StatusLevel::Warning);
}

#[test]
fn log_lines_render_with_their_best_prefix() {
    let entry = LogEntry {
        unix_seconds: Some(1_500_000_000),
        nanos: Some(0),
        raw: Some("400000005a0b1c2d00000000".to_string()),
        message: "started  \n".to_string(),
    };
    assert_eq!(
        format_log_entry(&entry, Some("2017-07-14 02:40:00".to_string())),
        "2017-07-14 02:40:00  started"
    );
    let entry = LogEntry {
        unix_seconds: None,
        nanos: None,
        raw: Some("zz0000005a0b1c2d00000000".to_string()),
        message: "started".to_string(),
    };
    assert_eq!(format_log_entry(&entry, None), "@zz0000005a0b1c2d00000000  started");
    let entry = LogEntry { unix_seconds: None, nanos: None, raw: None, message: "plain \t".to_string() };
    assert_eq!(format_log_entry(&entry, None), "plain");
}

#[test]
fn decimal_renderings() {
    assert_eq!(u64_to_string(0), "0");
    assert_eq!(u64_to_string(1234), "1234");
    assert_eq!(u64_to_string(u64::MAX), "18446744073709551615");
    assert_eq!(i64_to_string(-37), "-37");
    assert_eq!(i64_to_string(0), "0");
    assert_eq!(i64_to_string(i64::MIN), "-9223372036854775808");
}
