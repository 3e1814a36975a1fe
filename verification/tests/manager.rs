use runkit::describe::{
    description_file_candidates, file_description, package_description,
    package_name_from_owner_output, strip_package_version, DescriptionSources,
};
use runkit::error::ServiceError;
use runkit::manager::{sort_services_by_name, DesiredState, ServiceInfo, ServiceManager};
use runkit::state::ServiceRuntimeState;
use runkit::ProcessResult;

fn output(stdout: &str, stderr: &str, success: bool, exit_code: Option<i32>) -> ProcessResult {
    ProcessResult {
        stdout: stdout.to_string(),
        stderr: stderr.to_string(),
        success,
        exit_code,
    }
}

#[test]
fn io_errors_carry_their_path() {
    let err = ServiceError::from_io("/etc/sv".to_string(), "permission denied".to_string());
    match err {
        ServiceError::Io { path, message } => {
            assert_eq!(path, "/etc/sv");
            assert_eq!(message, "permission denied");
        }
        other => panic!("unexpected error: {:?}", other),
    }
}

#[test]
fn manager_keeps_its_configuration() {
    let manager = ServiceManager::new("/tmp/defs", "/tmp/enabled").with_sv_command("/bin/sv");
    assert_eq!(manager.definitions_dir(), "/tmp/defs");
    assert_eq!(manager.enabled_dir(), "/tmp/enabled");
    assert_eq!(manager.sv_command_path(), "/bin/sv");
    let stock = ServiceManager::default();
    assert_eq!(stock.definitions_dir(), "/etc/sv");
    assert_eq!(stock.enabled_dir(), "/var/service");
    assert_eq!(stock.sv_command_path(), "sv");
}

#[test]
fn paths_are_joined_from_the_configuration() {
    let manager = ServiceManager::new("/etc/sv", "/var/service");
    assert_eq!(manager.definition_path_of("sshd"), "/etc/sv/sshd");
    assert_eq!(manager.enabled_path_of("sshd"), "/var/service/sshd");
    let (a, b) = manager.log_file_candidates("sshd");
    assert_eq!(a, "/etc/sv/sshd/log/main/current");
    assert_eq!(b, "/var/service/sshd/log/main/current");
}

#[test]
fn status_classifies_a_clean_run() {
    let manager = ServiceManager::default();
    let state = manager
        .status("sshd", &output("run: sshd: (pid 9) 3s\n", "", true, Some(0)))
        .expect("clean output classifies");
    assert!(matches!(state, ServiceRuntimeState::Running { pid: 9, uptime_seconds: 3 }));
}

#[test]
fn status_treats_stderr_as_failure_even_on_success() {
    let manager = ServiceManager::default();
    let result = manager.status("sshd", &output("run: sshd: (pid 9) 3s\n", "warn\n", true, Some(0)));
    match result {
        Err(ServiceError::SvCommand { service, message }) => {
            assert_eq!(service, "sshd");
            assert_eq!(message, "warn");
        }
        other => panic!("unexpected outcome: {:?}", other),
    }
}

#[test]
fn status_without_output_reports_the_exit_status() {
    let manager = ServiceManager::default();
    let result = manager.status("sshd", &output("  \n", "", false, Some(1)));
    match result {
        Err(ServiceError::SvCommand { message, .. }) => {
            assert_eq!(message, "sv status returned no output (exit status 1)");
        }
        other => panic!("unexpected outcome: {:?}", other),
    }
}

#[test]
fn status_validates_the_name_first() {
    let manager = ServiceManager::default();
    let result = manager.status("bad name", &output("run: x: (pid 1) 1s\n", "", true, Some(0)));
    assert!(matches!(result, Err(ServiceError::InvalidServiceName(n)) if n == "bad name"));
}

#[test]
fn build_skips_dotfile_names() {
    let manager = ServiceManager::default();
    let state = ServiceRuntimeState::Unknown { raw: String::new() };
    assert!(manager.build_service_info(".hidden", "/etc/sv/.hidden", false, state, None).is_none());
}

#[test]
fn build_derives_desired_state_from_enabled() {
    let manager = ServiceManager::default();
    let state = ServiceRuntimeState::Down { since_seconds: 4, normally_up: true };
    let info = manager
        .build_service_info("cron", "/etc/sv/cron", true, state, Some("scheduler".to_string()))
        .expect("a regular name builds");
    assert_eq!(info.name, "cron");
    assert_eq!(info.definition_path, "/etc/sv/cron");
    assert!(info.enabled);
    assert_eq!(info.desired_state, DesiredState::AutoStart);
    assert_eq!(info.description.as_deref(), Some("scheduler"));
    let state = ServiceRuntimeState::Unknown { raw: String::new() };
    let info = manager
        .build_service_info("cron", "/etc/sv/cron", false, state, None)
        .expect("a regular name builds");
    assert_eq!(info.desired_state, DesiredState::Manual);
}

#[test]
fn services_sort_by_name() {
    let manager = ServiceManager::default();
    let mk = |name: &str| {
        manager
            .build_service_info(
                name,
                "/etc/sv",
                false,
                ServiceRuntimeState::Unknown { raw: String::new() },
                None,
            )
            .expect("builds")
    };
    let sorted: Vec<ServiceInfo> = sort_services_by_name(vec![mk("udevd"), mk("cron"), mk("sshd")]);
    let names: Vec<&str> = sorted.iter().map(|s| s.name.as_str()).collect();
    assert_eq!(names, vec!["cron", "sshd", "udevd"]);
}

#[test]
fn file_description_takes_the_first_nonblank_line() {
    assert_eq!(
        file_description("\n  Secure shell daemon  \nsecond line\n").as_deref(),
        Some("Secure shell daemon")
    );
    assert_eq!(file_description("   \n\t\n"), None);
    assert_eq!(file_description(""), None);
}

#[test]
fn candidate_files_are_tried_in_order() {
    let candidates = description_file_candidates();
    assert_eq!(candidates, ("description", "README", "README.md"));
}

#[test]
fn package_version_suffixes_are_stripped() {
    assert_eq!(strip_package_version("openssh-9.8_1"), "openssh");
    assert_eq!(strip_package_version("socklog-void"), "socklog-void");
    assert_eq!(strip_package_version("plain"), "plain");
    assert_eq!(strip_package_version("ends-"), "ends-");
}

#[test]
fn owner_output_yields_the_package_name() {
    let out = output("\nopenssh-9.8_1: /etc/sv/sshd/run\n", "", true, Some(0));
    assert_eq!(package_name_from_owner_output(&out).as_deref(), Some("openssh"));
    let failed = output("openssh-9.8_1: /etc/sv/sshd/run\n", "", false, Some(1));
    assert_eq!(package_name_from_owner_output(&failed), None);
    let blank = output("   \n", "", true, Some(0));
    assert_eq!(package_name_from_owner_output(&blank), None);
}

#[test]
fn description_query_yields_its_trimmed_output() {
    assert_eq!(
        package_description(&output("  Secure shell daemon\n", "", true, Some(0))).as_deref(),
        Some("Secure shell daemon")
    );
    assert_eq!(package_description(&output("", "", true, Some(0))), None);
    assert_eq!(package_description(&output("text", "", false, Some(1))), None);
}

#[test]
fn service_description_prefers_files_over_packages() {
    let manager = ServiceManager::default();
    let sources = DescriptionSources {
        definition_exists: true,
        candidate_contents: vec![None, Some("  From the README\n".to_string())],
        package_desc_query: Some(output("From the package\n", "", true, Some(0))),
    };
    let d = manager.service_description("sshd", &sources).expect("resolves");
    assert_eq!(d.as_deref(), Some("From the README"));

    let sources = DescriptionSources {
        definition_exists: true,
        candidate_contents: vec![None, Some("   \n".to_string())],
        package_desc_query: Some(output("From the package\n", "", true, Some(0))),
    };
    let d = manager.service_description("sshd", &sources).expect("resolves");
    assert_eq!(d.as_deref(), Some("From the package"));

    let sources = DescriptionSources {
        definition_exists: false,
        candidate_contents: vec![Some("ignored".to_string())],
        package_desc_query: None,
    };
    let d = manager.service_description("sshd", &sources).expect("resolves");
    assert_eq!(d, None);

    let sources = DescriptionSources {
        definition_exists: true,
        candidate_contents: Vec::new(),
        package_desc_query: None,
    };
    assert!(manager.service_description("../bad", &sources).is_err());
}
