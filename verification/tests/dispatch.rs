use runkit::dispatch::{interpret_status, logs_args, ActionDispatcher};
use runkit::manager::DesiredState;
use runkit::state::ServiceRuntimeState;
use runkit::ProcessResult;

fn output(stdout: &str, stderr: &str, success: bool, exit_code: Option<i32>) -> ProcessResult {
    ProcessResult {
        stdout: stdout.to_string(),
        stderr: stderr.to_string(),
        success,
        exit_code,
    }
}

#[test]
fn empty_stdout_with_success_is_an_empty_response_error() {
    let dispatcher = ActionDispatcher::new("/usr/libexec/runkitd", false);
    let result = dispatcher.run("start", "sshd", &output("", "", true, Some(0)));
    let message = result.expect_err("an empty response is a protocol violation");
    assert!(message.contains("empty response"));
    assert_eq!(message, "runkitd returned an empty response for start sshd");
}

#[test]
fn error_status_surfaces_the_embedded_message() {
    let dispatcher = ActionDispatcher::new("/usr/libexec/runkitd", false);
    let response = "{\"status\":\"error\",\"message\":\"service already enabled: sshd\",\"data\":null}";
    let result = dispatcher.run("enable", "sshd", &output(response, "", false, Some(4)));
    assert_eq!(result.expect_err("an error status is a failure"), "service already enabled: sshd");
}

#[test]
fn ok_status_returns_the_message() {
    let dispatcher = ActionDispatcher::new("/usr/libexec/runkitd", false);
    let response = "{\"status\":\"ok\",\"message\":\"Enabled service sshd\",\"data\":null}";
    let result = dispatcher.run("enable", "sshd", &output(response, "", true, Some(0)));
    assert_eq!(result.expect("ok status succeeds"), "Enabled service sshd");
}

#[test]
fn ok_status_without_message_gets_a_stock_note() {
    let dispatcher = ActionDispatcher::new("/usr/libexec/runkitd", false);
    let response = "{\"status\":\"ok\",\"message\":null,\"data\":null}";
    let result = dispatcher.run("restart", "sshd", &output(response, "", true, Some(0)));
    assert_eq!(result.expect("ok status succeeds"), "restart command completed for sshd");
}

#[test]
fn empty_stdout_with_failure_surfaces_stderr() {
    let dispatcher = ActionDispatcher::new("/usr/libexec/runkitd", false);
    let result = dispatcher.run("stop", "sshd", &output("", "permission denied\n", false, Some(126)));
    assert_eq!(result.expect_err("a failing exit is an error"), "permission denied");
}

#[test]
fn empty_stdout_and_stderr_reports_the_exit_status() {
    let dispatcher = ActionDispatcher::new("/usr/libexec/runkitd", false);
    let result = dispatcher.run("stop", "sshd", &output("", "", false, Some(7)));
    assert_eq!(
        result.expect_err("a failing exit is an error"),
        "runkitd exited with status 7 for stop sshd"
    );
}

#[test]
fn garbage_stdout_reports_a_parse_failure() {
    let dispatcher = ActionDispatcher::new("/usr/libexec/runkitd", false);
    let result = dispatcher.run("check", "sshd", &output("not json", "", true, Some(0)));
    let message = result.expect_err("unparseable output is an error");
    assert!(message.starts_with("Failed to parse runkitd response for check sshd:"));
    assert!(message.ends_with("(raw: not json)"));
}

#[test]
fn interpret_status_decides_by_the_ok_tag() {
    assert_eq!(
        interpret_status("start", "sshd", "ok", Some("fine".to_string())),
        Ok("fine".to_string())
    );
    assert_eq!(
        interpret_status("start", "sshd", "error", None),
        Err("runkitd reported failure for sshd".to_string())
    );
}

#[test]
fn fetch_services_decodes_snapshots() {
    let dispatcher = ActionDispatcher::new("/usr/libexec/runkitd", false);
    let mut response = String::new();
    response.push_str("{\"status\":\"ok\",\"message\":null,\"data\":[");
    response.push_str("{\"name\":\"sshd\",\"definition_path\":\"/etc/sv/sshd\",\"enabled\":true,");
    response.push_str("\"desired_state\":\"auto_start\",");
    response.push_str("\"runtime_state\":{\"state\":\"running\",\"pid\":321,\"uptime_seconds\":42},");
    response.push_str("\"description\":\"Secure shell daemon\"},");
    response.push_str("{\"name\":\"cron\",\"definition_path\":\"/etc/sv/cron\",\"enabled\":false,");
    response.push_str("\"desired_state\":\"manual\",");
    response.push_str("\"runtime_state\":{\"state\":\"down\",\"since_seconds\":5,\"normally_up\":false},");
    response.push_str("\"description\":null}");
    response.push_str("]}");
    let response = response.as_str();
    let services = dispatcher
        .fetch_services(&output(response, "", true, Some(0)))
        .expect("the list should decode");
    assert_eq!(services.len(), 2);
    assert_eq!(services[0].name, "sshd");
    assert_eq!(services[0].definition_path, "/etc/sv/sshd");
    assert!(services[0].enabled);
    assert_eq!(services[0].desired_state, DesiredState::AutoStart);
    assert!(matches!(
        services[0].runtime_state,
        ServiceRuntimeState::Running { pid: 321, uptime_seconds: 42 }
    ));
    assert_eq!(services[0].description.as_deref(), Some("Secure shell daemon"));
    assert_eq!(services[1].name, "cron");
    assert!(matches!(
        services[1].runtime_state,
        ServiceRuntimeState::Down { since_seconds: 5, normally_up: false }
    ));
    assert!(services[1].description.is_none());
}

#[test]
fn fetch_services_needs_data() {
    let dispatcher = ActionDispatcher::new("/usr/libexec/runkitd", false);
    let response = "{\"status\":\"ok\",\"message\":null,\"data\":null}";
    let result = dispatcher.fetch_services(&output(response, "", true, Some(0)));
    assert_eq!(result.expect_err("missing data is an error"), "runkitd returned no service data");
}

#[test]
fn fetch_services_rejects_a_bad_snapshot() {
    let dispatcher = ActionDispatcher::new("/usr/libexec/runkitd", false);
    let response = "{\"status\":\"ok\",\"message\":null,\"data\":[{\"name\":7}]}";
    let result = dispatcher.fetch_services(&output(response, "", true, Some(0)));
    assert!(result.expect_err("a bad snapshot fails the decode").contains("Failed to decode"));
}

#[test]
fn fetch_logs_decodes_entries() {
    let dispatcher = ActionDispatcher::new("/usr/libexec/runkitd", false);
    let mut response = String::new();
    response.push_str("{\"status\":\"ok\",\"message\":null,\"data\":[");
    response.push_str("{\"unix_seconds\":1500000000,\"nanos\":42,");
    response.push_str("\"raw\":\"400000005a0b1c2d0000002a\",\"message\":\"started\"},");
    response.push_str("{\"unix_seconds\":null,\"nanos\":null,\"raw\":null,\"message\":\"plain\"}");
    response.push_str("]}");
    let response = response.as_str();
    let entries = dispatcher
        .fetch_logs("sshd", &output(response, "", true, Some(0)))
        .expect("the log tail should decode");
    assert_eq!(entries.len(), 2);
    assert_eq!(entries[0].unix_seconds, Some(1_500_000_000));
    assert_eq!(entries[0].nanos, Some(42));
    assert_eq!(entries[0].raw.as_deref(), Some("400000005a0b1c2d0000002a"));
    assert_eq!(entries[0].message, "started");
    assert!(entries[1].unix_seconds.is_none());
    assert_eq!(entries[1].message, "plain");
}

#[test]
fn fetch_logs_reports_the_daemon_failure() {
    let dispatcher = ActionDispatcher::new("/usr/libexec/runkitd", false);
    let response = "{\"status\":\"error\",\"message\":\"invalid service name: ../x\",\"data\":null}";
    let result = dispatcher.fetch_logs("../x", &output(response, "", false, Some(2)));
    assert_eq!(result.expect_err("the daemon refused"), "invalid service name: ../x");
}

#[test]
fn helper_argv_wraps_with_pkexec_when_configured() {
    let wrapped = ActionDispatcher::new("/usr/libexec/runkitd", true);
    let argv = wrapped.helper_argv("logs", Some("sshd"), &vec!["--lines".to_string(), "50".to_string()]);
    assert_eq!(argv, vec!["pkexec", "/usr/libexec/runkitd", "logs", "sshd", "--lines", "50"]);
    let bare = ActionDispatcher::new("/usr/libexec/runkitd", false);
    let argv = bare.helper_argv("list", None, &Vec::new());
    assert_eq!(argv, vec!["/usr/libexec/runkitd", "list"]);
}

#[test]
fn logs_args_request_at_least_one_line() {
    assert_eq!(logs_args(50), vec!["--lines", "50"]);
    assert_eq!(logs_args(0), vec!["--lines", "1"]);
}

#[test]
fn environment_overrides_select_path_and_wrapper() {
    let d = ActionDispatcher::from_environment(None, None, None, None);
    let argv = d.helper_argv("list", None, &Vec::new());
    assert_eq!(argv, vec!["pkexec", "/usr/libexec/runkitd", "list"]);

    let d = ActionDispatcher::from_environment(
        Some("/tmp/runkitd".to_string()),
        Some("/ignored".to_string()),
        Some("1".to_string()),
        None,
    );
    let argv = d.helper_argv("list", None, &Vec::new());
    assert_eq!(argv, vec!["/tmp/runkitd", "list"]);

    let d = ActionDispatcher::from_environment(None, None, Some("FALSE".to_string()), None);
    let argv = d.helper_argv("list", None, &Vec::new());
    assert_eq!(argv[0], "pkexec");

    let d = ActionDispatcher::from_environment(None, None, Some("0".to_string()), None);
    let argv = d.helper_argv("list", None, &Vec::new());
    assert_eq!(argv[0], "pkexec");
}
