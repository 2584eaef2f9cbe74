use backend_supervisor::bridge::{
    BodyOutcome, BridgeError, HttpOutcome, PythonBridge, REQUEST_TIMEOUT_SECS,
};
use backend_supervisor::json::Json;

fn ok_body(text: &str) -> HttpOutcome {
    HttpOutcome::Response { status: 200, body: BodyOutcome::Text(text.to_string()) }
}

const SCAN_BODY: &str = r#"{
  "scan_id": "s1",
  "path": "/tmp/proj",
  "total_files": 12,
  "total_directories": 3,
  "file_extensions": {"py": 10, "md": 2},
  "key_files": ["main.py"],
  "heuristic_classification": {
    "category": "Python", "confidence": 0.85,
    "reasoning": "mostly py files", "method": "heuristic"
  },
  "final_classification": {
    "category": "Python", "confidence": 0.9,
    "reasoning": "combined", "method": "merged", "suggested_name": "proj"
  },
  "scan_duration_ms": 42,
  "timestamp": "2024-01-01T00:00:00Z"
}"#;

#[test]
fn test_python_bridge_creation() {
    let bridge = PythonBridge::new();
    assert_eq!(bridge.get_base_url(), "http://127.0.0.1:8008");
}

#[test]
fn test_bridge_urls() {
    let mut bridge = PythonBridge::new();
    assert_eq!(bridge.health_url(), "http://127.0.0.1:8008/health");
    assert_eq!(bridge.scan_url(), "http://127.0.0.1:8008/scan");
    bridge.set_base_url("http://127.0.0.1:9001".to_string());
    assert_eq!(bridge.preview_url(), "http://127.0.0.1:9001/organize/preview");
    assert_eq!(bridge.execute_url(), "http://127.0.0.1:9001/organize/execute");
    assert_eq!(bridge.models_url(), "http://127.0.0.1:9001/models");
    assert_eq!(bridge.create_project_url(), "http://127.0.0.1:9001/projects/create");
    assert_eq!(bridge.endpoint_url("/x"), "http://127.0.0.1:9001/x");
    assert_eq!(REQUEST_TIMEOUT_SECS, 30);
}

#[test]
fn test_health_decodes_success_body() {
    let bridge = PythonBridge::new();
    let body = r#"{"status":"healthy","timestamp":"t","version":"1.0",
        "python_backend":true,"ollama_available":false}"#;
    let health = bridge.check_health(ok_body(body)).unwrap();
    assert_eq!(health.status, "healthy");
    assert_eq!(health.timestamp, "t");
    assert_eq!(health.version, "1.0");
    assert!(health.python_backend);
    assert!(!health.ollama_available);
}

#[test]
fn test_transport_failure_maps_to_request_failed() {
    let bridge = PythonBridge::new();
    let result = bridge.check_health(HttpOutcome::NoResponse("connection refused".to_string()));
    match result {
        Err(BridgeError::RequestFailed(m)) => assert_eq!(m, "connection refused"),
        other => panic!("expected a transport failure, got {:?}", other),
    }
}

#[test]
fn test_invalid_json_maps_to_json_error() {
    let bridge = PythonBridge::new();
    match bridge.check_health(ok_body("{oops")) {
        Err(BridgeError::JsonError(_)) => {}
        other => panic!("expected a decode failure, got {:?}", other),
    }
}

#[test]
fn test_schema_mismatch_maps_to_json_error() {
    let bridge = PythonBridge::new();
    match bridge.check_health(ok_body(r#"{"status": 5}"#)) {
        Err(BridgeError::JsonError(m)) => {
            assert_eq!(m, "response does not match the expected schema");
        }
        other => panic!("expected a decode failure, got {:?}", other),
    }
}

#[test]
fn test_error_status_with_text_maps_to_backend_error() {
    let bridge = PythonBridge::new();
    let outcome = HttpOutcome::Response {
        status: 500,
        body: BodyOutcome::Text("backend blew up".to_string()),
    };
    match bridge.scan_project_directory(outcome) {
        Err(BridgeError::BackendError(m)) => assert_eq!(m, "backend blew up"),
        other => panic!("expected the backend's reported text, got {:?}", other),
    }
}

#[test]
fn test_error_status_without_body_maps_to_unavailable() {
    let bridge = PythonBridge::new();
    let outcome = HttpOutcome::Response { status: 503, body: BodyOutcome::Unreadable };
    match bridge.get_ollama_models(outcome) {
        Err(BridgeError::BackendNotAvailable) => {}
        other => panic!("expected the unavailability error, got {:?}", other),
    }
}

#[test]
fn test_unreadable_success_body_maps_to_json_error() {
    let bridge = PythonBridge::new();
    let outcome = HttpOutcome::Response { status: 200, body: BodyOutcome::Unreadable };
    match bridge.check_health(outcome) {
        Err(BridgeError::JsonError(m)) => assert_eq!(m, "response body could not be read"),
        other => panic!("expected a decode failure, got {:?}", other),
    }
}

#[test]
fn test_scan_response_round_trips_field_for_field() {
    let bridge = PythonBridge::new();
    let scan = bridge.scan_project_directory(ok_body(SCAN_BODY)).unwrap();
    assert_eq!(scan.scan_id, "s1");
    assert_eq!(scan.path, "/tmp/proj");
    assert_eq!(scan.total_files, 12);
    assert_eq!(scan.total_directories, 3);
    assert_eq!(scan.file_extensions.len(), 2);
    assert!(scan.file_extensions.contains(&("py".to_string(), 10)));
    assert!(scan.file_extensions.contains(&("md".to_string(), 2)));
    assert_eq!(scan.key_files, vec!["main.py".to_string()]);
    assert_eq!(scan.heuristic_classification.category, "Python");
    assert_eq!(scan.heuristic_classification.confidence, "0.85");
    assert_eq!(scan.heuristic_classification.reasoning, "mostly py files");
    assert_eq!(scan.heuristic_classification.method, "heuristic");
    assert!(scan.heuristic_classification.suggested_name.is_none());
    assert!(scan.ai_classification.is_none());
    assert_eq!(scan.final_classification.confidence, "0.9");
    assert_eq!(scan.final_classification.suggested_name, Some("proj".to_string()));
    assert_eq!(scan.scan_duration_ms, 42);
    assert_eq!(scan.timestamp, "2024-01-01T00:00:00Z");
}

#[test]
fn test_preview_response_decodes_steps() {
    let bridge = PythonBridge::new();
    let body = r#"{
      "plan_id": "p1", "scan_id": "s1",
      "source_path": "/a", "target_path": "/b",
      "operations": [{
        "operation_id": "op1", "operation_type": "move",
        "source_path": "/a/x", "target_path": "/b/x",
        "estimated_time_seconds": 1.5, "file_count": 4,
        "total_size_bytes": 1024, "conflicts": ["x exists"],
        "resolution": "rename"
      }],
      "total_operations": 1, "estimated_time_seconds": 1.5,
      "total_files": 4, "total_size_bytes": 1024,
      "conflicts_found": 1, "safety_warnings": ["w1"],
      "timestamp": "t"
    }"#;
    let preview = bridge.preview_organization(ok_body(body)).unwrap();
    assert_eq!(preview.plan_id, "p1");
    assert_eq!(preview.operations.len(), 1);
    assert_eq!(preview.operations[0].operation_id, "op1");
    assert_eq!(preview.operations[0].estimated_time_seconds, "1.5");
    assert_eq!(preview.operations[0].conflicts, vec!["x exists".to_string()]);
    assert_eq!(preview.total_size_bytes, 1024);
    assert_eq!(preview.conflicts_found, 1);
    assert_eq!(preview.safety_warnings, vec!["w1".to_string()]);
}

#[test]
fn test_execute_response_decodes() {
    let bridge = PythonBridge::new();
    let body = r#"{"operation_id":"o1","plan_id":"p1","status":"started",
        "message":"ok","progress_url":null,"timestamp":"t"}"#;
    let result = bridge.execute_organization(ok_body(body)).unwrap();
    assert_eq!(result.operation_id, "o1");
    assert_eq!(result.status, "started");
    assert_eq!(result.message, "ok");
    assert!(result.progress_url.is_none());
    assert!(result.rollback_manifest.is_none());
}

#[test]
fn test_create_project_not_implemented_status() {
    let bridge = PythonBridge::new();
    let outcome = HttpOutcome::Response {
        status: 501,
        body: BodyOutcome::Text("raw backend words".to_string()),
    };
    match bridge.create_project_from_template(outcome) {
        Err(BridgeError::BackendError(m)) => {
            assert_eq!(m, "Project creation not implemented yet");
        }
        other => panic!("expected the fixed report, got {:?}", other),
    }
}

#[test]
fn test_create_project_success_hands_back_document() {
    let bridge = PythonBridge::new();
    let doc = bridge.create_project_from_template(ok_body(r#"{"created":true}"#)).unwrap();
    match doc {
        Json::Obj(fields) => {
            assert_eq!(fields[0].0, "created");
            assert_eq!(fields[0].1.as_bool(), Some(true));
        }
        other => panic!("expected an object, got {:?}", other),
    }
}

#[test]
fn test_get_project_templates_fixed_catalog() {
    let bridge = PythonBridge::new();
    let templates = bridge.get_project_templates().unwrap();
    assert_eq!(templates.len(), 2);
    assert_eq!(templates[0].id, "python_utility");
    assert_eq!(templates[0].name, "Python Utility");
    assert_eq!(templates[0].category, "SystemUtilities");
    assert_eq!(
        templates[0].features,
        vec!["README.md".to_string(), "requirements.txt".to_string(), ".gitignore".to_string()]
    );
    assert_eq!(templates[1].id, "static_website");
    assert_eq!(templates[1].name, "Static Website");
    assert_eq!(templates[1].language, "HTML/CSS/JS");
}

#[test]
fn test_connectivity_follows_health() {
    let bridge = PythonBridge::new();
    let good = r#"{"status":"healthy","timestamp":"t","version":"1",
        "python_backend":true,"ollama_available":true}"#;
    assert!(bridge.test_connectivity(ok_body(good)));
    assert!(!bridge.test_connectivity(HttpOutcome::NoResponse("down".to_string())));
    assert!(!bridge.test_connectivity(HttpOutcome::Response {
        status: 500,
        body: BodyOutcome::Unreadable,
    }));
}

#[test]
fn test_generic_requests_hand_back_documents() {
    let bridge = PythonBridge::new();
    let doc = bridge.get_request(ok_body("[1,2]")).unwrap();
    match doc {
        Json::Arr(items) => assert_eq!(items.len(), 2),
        other => panic!("expected an array, got {:?}", other),
    }
    assert!(bridge.post_request(HttpOutcome::NoResponse("down".to_string())).is_err());
}

#[test]
fn test_scan_rejects_oversized_counts() {
    let bridge = PythonBridge::new();
    // total_files does not fit a u32, so the body fails the schema.
    let body = SCAN_BODY.replace("\"total_files\": 12", "\"total_files\": 5000000000");
    match bridge.scan_project_directory(ok_body(&body)) {
        Err(BridgeError::JsonError(m)) => {
            assert_eq!(m, "response does not match the expected schema");
        }
        other => panic!("expected a decode failure, got {:?}", other),
    }
}

#[test]
fn test_bridge_error_messages() {
    assert_eq!(
        BridgeError::RequestFailed("t".to_string()).message(),
        "HTTP request failed: t"
    );
    assert_eq!(
        BridgeError::JsonError("j".to_string()).message(),
        "JSON parsing failed: j"
    );
    assert_eq!(BridgeError::BackendNotAvailable.message(), "Backend not available");
    assert_eq!(
        BridgeError::InvalidResponse("i".to_string()).message(),
        "Invalid response from backend: i"
    );
    assert_eq!(
        BridgeError::BackendError("b".to_string()).message(),
        "Backend returned error: b"
    );
}
