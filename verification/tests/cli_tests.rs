use acton_dx::cli::{DevCommand, DevOptions, ServeCommand, ServicesCommand};
use acton_dx::services::ServiceName;

fn has(vars: &[(&'static str, String)], key: &str, value: &str) -> bool {
    vars.iter().any(|(k, v)| *k == key && v == value)
}

#[test]
fn test_default_options() {
    let options = DevOptions::default();
    assert!(!options.embedded_services);
    assert!(options.services.is_none());
    assert_eq!(options.services_port, 50051);
    assert_eq!(options.app_port, 3000);
    assert_eq!(options.host, "127.0.0.1");
}

#[test]
fn test_build_env_vars_standard() {
    let options = DevOptions::default();
    let vars = DevCommand::build_env_vars(&options);

    assert!(has(&vars, "ACTON_APP_PORT", "3000"));
    assert!(has(&vars, "ACTON_APP_HOST", "127.0.0.1"));
    assert!(has(&vars, "ACTON_EMBEDDED_SERVICES", "false"));
}

#[test]
fn test_build_env_vars_embedded() {
    let options = DevOptions {
        embedded_services: true,
        services: Some(vec!["auth".to_string(), "data".to_string()]),
        services_port: 60000,
        app_port: 8080,
        host: "0.0.0.0".to_string(),
    };
    let vars = DevCommand::build_env_vars(&options);

    assert!(has(&vars, "ACTON_APP_PORT", "8080"));
    assert!(has(&vars, "ACTON_EMBEDDED_SERVICES", "true"));
    assert!(has(&vars, "ACTON_SERVICES_BASE_PORT", "60000"));
    assert!(has(&vars, "ACTON_ENABLED_SERVICES", "auth,data"));
}

#[test]
fn build_env_vars_exact_order() {
    let options = DevOptions::default();
    let vars = DevCommand::build_env_vars(&options);
    let keys: Vec<&str> = vars.iter().map(|(k, _)| *k).collect();
    assert_eq!(keys, vec!["ACTON_APP_PORT", "ACTON_APP_HOST", "ACTON_EMBEDDED_SERVICES"]);
}

#[test]
fn dev_server_program_choice() {
    assert_eq!(DevCommand::server_program(true), "bacon");
    assert_eq!(DevCommand::server_program(false), "cargo");
    let _ = DevCommand::new();
}

#[test]
fn dev_any_service_missing() {
    assert!(!DevCommand::any_service_missing(&vec![true, true, true]));
    assert!(DevCommand::any_service_missing(&vec![true, false, true]));
    assert!(!DevCommand::any_service_missing(&vec![]));
}

#[test]
fn services_summary_text() {
    assert_eq!(acton_dx::cli::services_summary(&None), "all");
    assert_eq!(
        acton_dx::cli::services_summary(&Some(vec!["auth".to_string(), "cache".to_string()])),
        "auth, cache"
    );
}

#[test]
fn test_serve_command_parses() {
    let cmd = ServeCommand::Start {
        path: ".".to_string(),
        embedded_services: true,
        services_port: 50051,
        port: 3000,
        host: "127.0.0.1".to_string(),
        release: false,
        services: Some(vec!["auth".to_string(), "data".to_string()]),
    };

    match cmd {
        ServeCommand::Start { embedded_services, .. } => {
            assert!(embedded_services);
        }
    }
}

#[test]
fn test_default_values() {
    let cmd = ServeCommand::Start {
        path: ".".to_string(),
        embedded_services: false,
        services_port: 50051,
        port: 3000,
        host: "127.0.0.1".to_string(),
        release: false,
        services: None,
    };

    match cmd {
        ServeCommand::Start { services_port, port, host, .. } => {
            assert_eq!(services_port, 50051);
            assert_eq!(port, 3000);
            assert_eq!(host, "127.0.0.1");
        }
    }
}

#[test]
fn serve_env_vars_embedded_and_standard() {
    let embedded = ServeCommand::Start {
        path: ".".to_string(),
        embedded_services: true,
        services_port: 61000,
        port: 4000,
        host: "0.0.0.0".to_string(),
        release: true,
        services: Some(vec!["auth".to_string()]),
    };
    let vars = embedded.env_vars();
    assert_eq!(vars.len(), 5);
    assert_eq!(vars[0], ("ACTON_EMBEDDED_SERVICES", "true".to_string()));
    assert_eq!(vars[1], ("ACTON_SERVICES_BASE_PORT", "61000".to_string()));
    assert_eq!(vars[2], ("ACTON_APP_PORT", "4000".to_string()));
    assert_eq!(vars[3], ("ACTON_APP_HOST", "0.0.0.0".to_string()));
    assert_eq!(vars[4], ("ACTON_ENABLED_SERVICES", "auth".to_string()));
    assert_eq!(embedded.cargo_args(), vec!["run", "--release"]);

    let standard = ServeCommand::Start {
        path: ".".to_string(),
        embedded_services: false,
        services_port: 61000,
        port: 4000,
        host: "0.0.0.0".to_string(),
        release: false,
        services: Some(vec!["auth".to_string()]),
    };
    let vars = standard.env_vars();
    assert_eq!(vars.len(), 3);
    assert_eq!(vars[0], ("ACTON_EMBEDDED_SERVICES", "false".to_string()));
    assert_eq!(standard.cargo_args(), vec!["run"]);
}

#[test]
fn test_service_name_binary() {
    assert_eq!(ServiceName::Auth.binary_name(), "auth-service");
    assert_eq!(ServiceName::Data.binary_name(), "data-service");
    assert_eq!(ServiceName::Cedar.binary_name(), "cedar-service");
}

#[test]
fn test_service_name_ports() {
    assert_eq!(ServiceName::Auth.default_port(), 50051);
    assert_eq!(ServiceName::Data.default_port(), 50052);
    assert_eq!(ServiceName::Cedar.default_port(), 50053);
}

#[test]
fn test_service_name_all() {
    let all = ServiceName::all();
    assert_eq!(all.len(), 6);
}

#[test]
fn test_service_display() {
    assert_eq!(ServiceName::Auth.display_name(), "Auth Service");
    assert_eq!(ServiceName::File.display_name(), "File Service");
}

#[test]
fn test_status_command_does_not_panic() {
    let _ = ServicesCommand::Status;
    for service in ServiceName::all() {
        let row = ServicesCommand::status_row(service, false, None);
        assert_eq!(row.status, "Stopped");
        assert_eq!(row.pid, "-");
    }
}

#[test]
fn test_pid_file_path() {
    let name = ServicesCommand::pid_file_name(ServiceName::Auth);
    assert_eq!(name, "acton-dx-auth-service.pid");
}

#[test]
fn status_rows() {
    let row = ServicesCommand::status_row(ServiceName::Cache, true, Some(4242));
    assert_eq!(row.name, "Cache Service");
    assert_eq!(row.status, "Running");
    assert_eq!(row.port, 50054);
    assert_eq!(row.pid, "4242");
    let row = ServicesCommand::status_row(ServiceName::Cache, true, None);
    assert_eq!(row.pid, "?");
}

#[test]
fn services_to_stop_rules() {
    let all = ServicesCommand::services_to_stop(&vec![], true).unwrap();
    assert_eq!(all.len(), 6);
    let err = ServicesCommand::services_to_stop(&vec![], false).unwrap_err();
    assert_eq!(err, "Specify services to stop or use --all");
    let some = ServicesCommand::services_to_stop(&vec![ServiceName::Email], false).unwrap();
    assert_eq!(some, vec![ServiceName::Email]);
}

#[test]
fn services_start_decisions() {
    assert!(ServicesCommand::runs_in_foreground(true, 1));
    assert!(!ServicesCommand::runs_in_foreground(true, 2));
    assert!(!ServicesCommand::runs_in_foreground(false, 1));
    assert!(!ServicesCommand::shows_status_after_start(true, 1));
    assert!(ServicesCommand::shows_status_after_start(true, 2));
    assert!(ServicesCommand::shows_status_after_start(false, 1));
    assert_eq!(ServicesCommand::build_args(ServiceName::File), vec!["build", "--release", "-p", "file-service"]);
}

#[test]
fn services_binary_lookup_texts() {
    let (release, debug) = ServicesCommand::binary_candidates("auth-service");
    assert_eq!(release, "target/release/auth-service");
    assert_eq!(debug, "target/debug/auth-service");
    assert_eq!(
        ServicesCommand::binary_not_found("auth-service"),
        "Service binary 'auth-service' not found. Run with --build to compile first."
    );
    assert_eq!(ServicesCommand::log_file_name(ServiceName::Data), "data-service.log");
    assert_eq!(ServicesCommand::tail_start(100, 30), 70);
    assert_eq!(ServicesCommand::tail_start(10, 30), 0);
    assert_eq!(
        ServicesCommand::untracked_port_note(ServiceName::Auth),
        "Port 50051 is in use but Auth Service is not tracked (external process?)"
    );
}
