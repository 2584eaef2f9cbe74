use backend_supervisor::bridge::{BodyOutcome, HttpOutcome, PythonBridge};
use backend_supervisor::commands::{
    check_health, create_project_request, create_project_from_template, execute_organization,
    execute_organization_request, get_app_settings, get_backend_status, get_ollama_models,
    get_organization_progress, get_project_templates, preview_request, save_app_settings,
    scan_project_directory, scan_request,
};
use backend_supervisor::supervisor::{KillOutcome, PollOutcome, ProcessManager, SpawnOutcome};

fn ok_response(text: &str) -> HttpOutcome {
    HttpOutcome::Response { status: 200, body: BodyOutcome::Text(text.to_string()) }
}

const HEALTH_BODY: &str = r#"{"status":"healthy","timestamp":"t","version":"1",
    "python_backend":true,"ollama_available":true}"#;

#[test]
fn test_execute_rejected_without_confirmation() {
    // A call-count of zero, structurally: the rejection happens in the
    // request half, before anything exists to send.
    let refused = execute_organization_request("p1".to_string(), false);
    match refused {
        Err(m) => assert_eq!(m, "Execution requires explicit confirmation"),
        Ok(_) => panic!("an unconfirmed execution must be refused"),
    }
    let allowed = execute_organization_request("p1".to_string(), true).unwrap();
    assert_eq!(allowed.plan_id, "p1");
    assert!(allowed.confirm_execution);
}

#[test]
fn test_execute_command_wraps_bridge_errors() {
    let bridge = PythonBridge::new();
    let outcome = HttpOutcome::Response {
        status: 409,
        body: BodyOutcome::Text("plan expired".to_string()),
    };
    let result = execute_organization(&bridge, outcome);
    assert_eq!(
        result.unwrap_err(),
        "Organization execution failed: Backend returned error: plan expired"
    );
}

#[test]
fn test_check_health_command_messages() {
    let bridge = PythonBridge::new();
    let health = check_health(&bridge, ok_response(HEALTH_BODY)).unwrap();
    assert_eq!(health.status, "healthy");
    let failed = check_health(&bridge, HttpOutcome::NoResponse("timed out".to_string()));
    assert_eq!(
        failed.unwrap_err(),
        "Health check failed: HTTP request failed: timed out"
    );
}

#[test]
fn test_scan_command_builds_request_and_wraps_errors() {
    let request = scan_request("/tmp/proj".to_string(), false, None);
    assert_eq!(request.path, "/tmp/proj");
    assert!(!request.use_ai);
    assert!(request.ai_model.is_none());
    assert_eq!(request.max_files, 10000);

    let bridge = PythonBridge::new();
    let failed = scan_project_directory(&bridge, HttpOutcome::NoResponse("refused".to_string()));
    assert_eq!(
        failed.unwrap_err(),
        "Project scan failed: HTTP request failed: refused"
    );
}

#[test]
fn test_models_command_returns_plain_list() {
    let bridge = PythonBridge::new();
    let models = get_ollama_models(&bridge, ok_response(r#"{"models":["llama2","mistral"]}"#))
        .unwrap();
    assert_eq!(models, vec!["llama2".to_string(), "mistral".to_string()]);
    let failed = get_ollama_models(&bridge, HttpOutcome::Response {
        status: 500,
        body: BodyOutcome::Unreadable,
    });
    assert_eq!(failed.unwrap_err(), "Failed to get models: Backend not available");
}

#[test]
fn test_preview_request_fills_defaults() {
    let request = preview_request("s1".to_string(), None, None, None, None);
    assert_eq!(request.scan_id, "s1");
    assert_eq!(request.conflict_resolution, "rename");
    assert!(request.create_backup);
    assert!(request.target_category.is_none());
    assert!(request.custom_name.is_none());

    let request = preview_request(
        "s2".to_string(),
        Some("Web".to_string()),
        Some("overwrite".to_string()),
        Some(false),
        Some("mysite".to_string()),
    );
    assert_eq!(request.conflict_resolution, "overwrite");
    assert!(!request.create_backup);
    assert_eq!(request.target_category, Some("Web".to_string()));
    assert_eq!(request.custom_name, Some("mysite".to_string()));
}

#[test]
fn test_create_project_command_fixed_not_implemented_message() {
    let request = create_project_request(
        "python_utility".to_string(),
        "tool".to_string(),
        "/tmp".to_string(),
        true,
        vec![],
    );
    assert_eq!(request.template_id, "python_utility");

    let bridge = PythonBridge::new();
    let outcome = HttpOutcome::Response {
        status: 501,
        body: BodyOutcome::Text("raw body".to_string()),
    };
    let result = create_project_from_template(&bridge, outcome);
    assert_eq!(
        result.unwrap_err(),
        "Project creation failed: Backend returned error: Project creation not implemented yet"
    );
}

#[test]
fn test_templates_command_ignores_backend_state() {
    let bridge = PythonBridge::new();
    let templates = get_project_templates(&bridge).unwrap();
    assert_eq!(templates.len(), 2);
    assert_eq!(templates[0].id, "python_utility");
    assert_eq!(templates[1].id, "static_website");
}

#[test]
fn test_progress_stub_is_fixed() {
    let progress = get_organization_progress("op77".to_string()).unwrap();
    assert_eq!(progress.operation_id, "op77");
    assert_eq!(progress.current_step, 1);
    assert_eq!(progress.total_steps, 1);
    assert_eq!(progress.current_operation, "Progress tracking not implemented");
    assert_eq!(progress.files_processed, 0);
    assert_eq!(progress.total_files, 0);
    assert_eq!(progress.bytes_processed, 0);
    assert_eq!(progress.total_bytes, 0);
    assert_eq!(progress.status, "unknown");
    assert_eq!(
        progress.error_message,
        Some("Progress tracking not implemented yet".to_string())
    );
}

#[test]
fn test_settings_commands() {
    let settings = get_app_settings().unwrap();
    assert_eq!(settings.python_backend_port, 8008);
    assert!(settings.auto_start_backend);
    let saved = save_app_settings(settings).unwrap();
    assert_eq!(saved, "Settings saved successfully");
}

#[test]
fn test_status_swallows_failed_health_probe() {
    let mut manager = ProcessManager::new();
    manager
        .start_python_backend(
            PollOutcome::Exited,
            KillOutcome::Delivered,
            SpawnOutcome::Spawned(5),
            &vec![true],
            10,
        )
        .unwrap();
    let bridge = PythonBridge::new();

    let status = get_backend_status(
        &mut manager,
        &bridge,
        PollOutcome::StillRunning,
        40,
        Some(HttpOutcome::NoResponse("probe timed out".to_string())),
    )
    .unwrap();
    assert!(status.is_running);
    assert_eq!(status.health_status, None);
    assert_eq!(status.uptime_seconds, Some(30));

    let status = get_backend_status(
        &mut manager,
        &bridge,
        PollOutcome::StillRunning,
        41,
        Some(ok_response(HEALTH_BODY)),
    )
    .unwrap();
    assert_eq!(status.health_status, Some("healthy".to_string()));
}

#[test]
fn test_status_skips_probe_when_not_running() {
    let mut manager = ProcessManager::new();
    let bridge = PythonBridge::new();
    let status = get_backend_status(
        &mut manager,
        &bridge,
        PollOutcome::Exited,
        40,
        Some(ok_response(HEALTH_BODY)),
    )
    .unwrap();
    assert!(!status.is_running);
    assert_eq!(status.health_status, None);
    assert_eq!(status.pid, None);
}
