use runkit::daemon::{
    classify_sv_result, disable_outcome, enable_outcome, plan_disable, plan_enable, sv_subcommand,
    HelperCommand, HelperError, HelperResponse, CommandOutcome, ResponseStatus,
};
use runkit::error::ServiceError;
use runkit::manager::ServiceManager;
use runkit::ProcessResult;

fn output(stdout: &str, stderr: &str, success: bool, exit_code: Option<i32>) -> ProcessResult {
    ProcessResult {
        stdout: stdout.to_string(),
        stderr: stderr.to_string(),
        success,
        exit_code,
    }
}

#[test]
fn verbs_map_to_sv_subcommands() {
    assert_eq!(sv_subcommand(&HelperCommand::Start { service: "a".to_string() }), Some("up"));
    assert_eq!(sv_subcommand(&HelperCommand::Stop { service: "a".to_string() }), Some("down"));
    assert_eq!(sv_subcommand(&HelperCommand::Restart { service: "a".to_string() }), Some("restart"));
    assert_eq!(sv_subcommand(&HelperCommand::Reload { service: "a".to_string() }), Some("reload"));
    assert_eq!(sv_subcommand(&HelperCommand::Check { service: "a".to_string() }), Some("check"));
    assert_eq!(sv_subcommand(&HelperCommand::Once { service: "a".to_string() }), Some("once"));
    assert_eq!(sv_subcommand(&HelperCommand::List), None);
    assert_eq!(
        sv_subcommand(&HelperCommand::Logs { service: "a".to_string(), lines: 5 }),
        None
    );
}

#[test]
fn exit_codes_are_distinct_per_category() {
    assert_eq!(HelperError::InvalidService("x".to_string()).exit_code(), 2);
    assert_eq!(
        HelperError::DefinitionMissing { service: "x".to_string(), path: "p".to_string() }
            .exit_code(),
        3
    );
    assert_eq!(HelperError::AlreadyEnabled("x".to_string()).exit_code(), 4);
    assert_eq!(HelperError::NotEnabled("x".to_string()).exit_code(), 5);
    assert_eq!(
        HelperError::SvFailure {
            command: "up".to_string(),
            service: "x".to_string(),
            message: "m".to_string()
        }
        .exit_code(),
        6
    );
    assert_eq!(
        HelperError::Io { path: "p".to_string(), message: "m".to_string() }.exit_code(),
        7
    );
    assert_eq!(HelperError::Other("m".to_string()).exit_code(), 1);
}

#[test]
fn error_messages_name_the_category() {
    assert_eq!(
        HelperError::InvalidService("../x".to_string()).message(),
        "invalid service name: ../x"
    );
    assert_eq!(
        HelperError::DefinitionMissing {
            service: "sshd".to_string(),
            path: "/etc/sv/sshd".to_string()
        }
        .message(),
        "service definition missing: sshd (/etc/sv/sshd)"
    );
    assert_eq!(
        HelperError::AlreadyEnabled("sshd".to_string()).message(),
        "service already enabled: sshd"
    );
    assert_eq!(
        HelperError::NotEnabled("sshd".to_string()).message(),
        "service is not enabled: sshd"
    );
    assert_eq!(
        HelperError::SvFailure {
            command: "up".to_string(),
            service: "sshd".to_string(),
            message: "fail".to_string()
        }
        .message(),
        "command `up` failed for sshd: fail"
    );
    assert_eq!(
        HelperError::Io { path: "/var/service/x".to_string(), message: "denied".to_string() }
            .message(),
        "I/O error at \"/var/service/x\": denied"
    );
}

#[test]
fn service_errors_fold_into_helper_errors() {
    let e = HelperError::from_service_error(ServiceError::InvalidServiceName("x".to_string()));
    assert!(matches!(e, HelperError::InvalidService(n) if n == "x"));
    let e = HelperError::from_service_error(ServiceError::SvCommand {
        service: "s".to_string(),
        message: "m".to_string(),
    });
    match e {
        HelperError::SvFailure { command, service, message } => {
            assert_eq!(command, "status");
            assert_eq!(service, "s");
            assert_eq!(message, "m");
        }
        other => panic!("unexpected error: {:?}", other),
    }
    let e = HelperError::from_service_error(ServiceError::LogUnavailable("s".to_string()));
    assert!(matches!(e, HelperError::Other(m) if m == "log stream unavailable for s"));
}

#[test]
fn enable_on_already_enabled_service_fails_without_a_plan() {
    let manager = ServiceManager::default();
    let result = plan_enable(&manager, "sshd", true, true);
    match result {
        Err(HelperError::AlreadyEnabled(name)) => assert_eq!(name, "sshd"),
        other => panic!("unexpected outcome: {:?}", other),
    }
}

#[test]
fn disable_on_not_enabled_service_fails_without_a_path() {
    let manager = ServiceManager::default();
    let result = plan_disable(&manager, "sshd", false);
    match result {
        Err(HelperError::NotEnabled(name)) => assert_eq!(name, "sshd"),
        other => panic!("unexpected outcome: {:?}", other),
    }
}

#[test]
fn enable_plan_links_definition_into_enabled_dir() {
    let manager = ServiceManager::new("/etc/sv", "/var/service");
    let plan = plan_enable(&manager, "sshd", true, false).expect("plan should exist");
    assert_eq!(plan.source, "/etc/sv/sshd");
    assert_eq!(plan.dest, "/var/service/sshd");
    let outcome = enable_outcome("sshd");
    assert_eq!(outcome.message.as_deref(), Some("Enabled service sshd"));
}

#[test]
fn enable_needs_a_definition() {
    let manager = ServiceManager::new("/etc/sv", "/var/service");
    let result = plan_enable(&manager, "sshd", false, false);
    match result {
        Err(HelperError::DefinitionMissing { service, path }) => {
            assert_eq!(service, "sshd");
            assert_eq!(path, "/etc/sv/sshd");
        }
        other => panic!("unexpected outcome: {:?}", other),
    }
}

#[test]
fn disable_plan_names_the_entry() {
    let manager = ServiceManager::new("/etc/sv", "/var/service");
    let dest = plan_disable(&manager, "sshd", true).expect("plan should exist");
    assert_eq!(dest, "/var/service/sshd");
    let outcome = disable_outcome("sshd");
    assert_eq!(outcome.message.as_deref(), Some("Disabled service sshd"));
}

#[test]
fn enable_rejects_invalid_names() {
    let manager = ServiceManager::default();
    assert!(matches!(
        plan_enable(&manager, "../bad", true, false),
        Err(HelperError::InvalidService(_))
    ));
    assert!(matches!(
        plan_disable(&manager, "", true),
        Err(HelperError::InvalidService(_))
    ));
}

#[test]
fn sv_run_failure_reports_stderr() {
    let result = classify_sv_result("up", "sshd", &output("", "fail: sshd\n", false, Some(1)));
    match result {
        Err(HelperError::SvFailure { command, service, message }) => {
            assert_eq!(command, "up");
            assert_eq!(service, "sshd");
            assert_eq!(message, "fail: sshd");
        }
        other => panic!("unexpected outcome: {:?}", other),
    }
}

#[test]
fn sv_run_failure_without_stderr_reports_exit_status() {
    let result = classify_sv_result("up", "sshd", &output("", "", false, Some(3)));
    match result {
        Err(HelperError::SvFailure { message, .. }) => assert_eq!(message, "exit status 3"),
        other => panic!("unexpected outcome: {:?}", other),
    }
}

#[test]
fn sv_warning_on_stderr_counts_as_failure() {
    let result = classify_sv_result("up", "sshd", &output("ok", "warning\n", true, Some(0)));
    match result {
        Err(HelperError::SvFailure { message, .. }) => assert_eq!(message, "warning"),
        other => panic!("unexpected outcome: {:?}", other),
    }
}

#[test]
fn sv_run_success_reports_stdout_or_stock_note() {
    let result = classify_sv_result("up", "sshd", &output("ok: run\n", "", true, Some(0)));
    assert_eq!(result.unwrap().message.as_deref(), Some("ok: run"));
    let result = classify_sv_result("up", "sshd", &output("", "", true, Some(0)));
    assert_eq!(result.unwrap().message.as_deref(), Some("up command executed for sshd"));
}

#[test]
fn responses_carry_status_and_outcome() {
    let ok = HelperResponse::ok_with(CommandOutcome { message: Some("done".to_string()), data: None });
    assert_eq!(ok.status, ResponseStatus::Success);
    assert_eq!(ok.message.as_deref(), Some("done"));
    let err = HelperResponse::error("broke".to_string());
    assert_eq!(err.status, ResponseStatus::Failure);
    assert_eq!(err.message.as_deref(), Some("broke"));
    assert!(err.data.is_none());
}
