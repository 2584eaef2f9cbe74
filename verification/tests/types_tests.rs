use backend_supervisor::json::Json;
use backend_supervisor::text::{parse_json, render_json};
use backend_supervisor::types::{
    AppSettings, ErrorResponse, OrganizePreviewRequest, ProcessStatus, ProjectTemplate,
    ScanRequest,
};

#[test]
fn test_app_settings_defaults() {
    let settings = AppSettings::default();
    assert_eq!(settings.python_backend_port, 8008);
    assert_eq!(settings.ollama_base_url, "http://localhost:11434");
    assert_eq!(settings.default_ai_model, "llama2");
    assert!(settings.create_backup_by_default);
    assert!(settings.use_ai_by_default);
}

#[test]
fn test_scan_request_serialization() {
    let request = ScanRequest {
        path: "/test/path".to_string(),
        use_ai: true,
        ai_model: Some("llama2".to_string()),
        max_files: 5000,
    };

    let json = render_json(&request.to_json());
    assert!(json.contains("test/path"));
    assert!(json.contains("llama2"));
}

#[test]
fn test_organize_preview_request_defaults() {
    let json = r#"{"scan_id": "test_scan"}"#;
    let doc = parse_json(json).unwrap();
    let request = OrganizePreviewRequest::from_json(&doc).unwrap();

    assert_eq!(request.scan_id, "test_scan");
    assert_eq!(request.conflict_resolution, "rename");
    assert!(request.create_backup);
    assert!(request.target_category.is_none());
}

#[test]
fn test_process_status() {
    let status = ProcessStatus {
        is_running: true,
        pid: Some(12345),
        port: 8008,
        uptime_seconds: Some(120),
        health_status: Some("healthy".to_string()),
    };

    assert!(status.is_running);
    assert_eq!(status.pid, Some(12345));
    assert_eq!(status.port, 8008);
}

#[test]
fn test_error_response_serialization() {
    let error = ErrorResponse {
        error: "TestError".to_string(),
        detail: "This is a test error".to_string(),
        timestamp: "2024-01-01T00:00:00Z".to_string(),
    };

    let json = render_json(&error.to_json());
    assert!(json.contains("TestError"));
    assert!(json.contains("This is a test error"));
}

#[test]
fn test_project_template() {
    let template = ProjectTemplate {
        id: "python_util".to_string(),
        name: "Python Utility".to_string(),
        description: "A simple Python utility".to_string(),
        category: "SystemUtilities".to_string(),
        language: "Python".to_string(),
        features: vec!["requirements.txt".to_string(), "README.md".to_string()],
    };

    assert_eq!(template.category, "SystemUtilities");
    assert_eq!(template.features.len(), 2);
}

#[test]
fn test_error_response_exact_wire_form() {
    let error = ErrorResponse {
        error: "E".to_string(),
        detail: "D".to_string(),
        timestamp: "T".to_string(),
    };
    let json = render_json(&error.to_json());
    assert_eq!(json, r#"{"error":"E","detail":"D","timestamp":"T"}"#);
}

#[test]
fn test_scan_request_exact_wire_form() {
    let request = ScanRequest {
        path: "/tmp/proj".to_string(),
        use_ai: false,
        ai_model: None,
        max_files: 10000,
    };
    let json = render_json(&request.to_json());
    assert_eq!(json, r#"{"path":"/tmp/proj","use_ai":false,"max_files":10000}"#);
}

#[test]
fn test_request_builders_exact_wire_forms() {
    let preview = OrganizePreviewRequest {
        scan_id: "s".to_string(),
        target_category: Some("Web".to_string()),
        conflict_resolution: "rename".to_string(),
        create_backup: true,
        custom_name: Some("n".to_string()),
    };
    assert_eq!(
        render_json(&preview.to_json()),
        r#"{"scan_id":"s","target_category":"Web","conflict_resolution":"rename","create_backup":true,"custom_name":"n"}"#
    );

    let execute = backend_supervisor::types::OrganizeExecuteRequest {
        plan_id: "p".to_string(),
        confirm_execution: true,
    };
    assert_eq!(
        render_json(&execute.to_json()),
        r#"{"plan_id":"p","confirm_execution":true}"#
    );

    let create = backend_supervisor::types::CreateProjectRequest {
        template_id: "python_utility".to_string(),
        project_name: "tool".to_string(),
        target_directory: "/tmp".to_string(),
        initialize_git: false,
        options: vec![("license".to_string(), "MIT".to_string())],
    };
    assert_eq!(
        render_json(&create.to_json()),
        r#"{"template_id":"python_utility","project_name":"tool","target_directory":"/tmp","initialize_git":false,"options":{"license":"MIT"}}"#
    );
}

#[test]
fn test_scan_request_from_json_defaults() {
    let doc = parse_json(r#"{"path":"/p","use_ai":false}"#).unwrap();
    let request = ScanRequest::from_json(&doc).unwrap();
    assert_eq!(request.path, "/p");
    assert!(!request.use_ai);
    assert!(request.ai_model.is_none());
    assert_eq!(request.max_files, 10000);
}

#[test]
fn test_parse_json_shapes() {
    let doc = parse_json(r#"{"a":1,"b":[true,null],"c":"x","d":2.5}"#).unwrap();
    match &doc {
        Json::Obj(fields) => {
            assert_eq!(fields.len(), 4);
            assert_eq!(fields[0].0, "a");
            assert_eq!(fields[0].1.as_uint(), Some(1));
            match &fields[1].1 {
                Json::Arr(items) => {
                    assert_eq!(items.len(), 2);
                    assert_eq!(items[0].as_bool(), Some(true));
                    assert!(matches!(items[1], Json::Null));
                }
                _ => panic!("expected an array"),
            }
            assert_eq!(fields[2].1.as_string().unwrap(), "x");
            assert_eq!(fields[3].1.as_number_text().unwrap(), "2.5");
            assert_eq!(fields[3].1.as_uint(), None);
        }
        _ => panic!("expected an object"),
    }
}

#[test]
fn test_parse_json_rejects_malformed_text() {
    assert!(parse_json("{not json").is_err());
}
