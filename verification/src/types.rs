//! The typed request and response records the bridge exchanges with the
//! backend, plus supervisor-level records.
//!
//! These are pure data contracts: the core carries them between the wire
//! format and its callers without interpreting their domain meaning.  The
//! backend reports a few fractional quantities (a classification's
//! confidence, estimated durations); the core never computes with them, so
//! each is carried as the decimal text the backend sent, exactly as
//! received.

use vstd::prelude::*;

verus! {

use vstd::string::StringExecFns;

/// Response of the backend's health endpoint.
#[derive(Clone, Debug)]
pub struct HealthResponse {
    pub status: String,
    pub timestamp: String,
    pub version: String,
    pub python_backend: bool,
    pub ollama_available: bool,
}

/// Request for a directory scan.
#[derive(Clone, Debug)]
pub struct ScanRequest {
    pub path: String,
    pub use_ai: bool,
    pub ai_model: Option<String>,
    pub max_files: u32,
}

/// Default cap on the number of files a scan examines.
pub fn default_max_files() -> (r: u32)
    ensures
        r == 10000u32,
{
    10000
}

/// A classification produced by the backend's heuristic or AI analysis.
/// `confidence` is the backend's fractional score, carried as decimal text.
#[derive(Clone, Debug)]
pub struct ClassificationResult {
    pub category: String,
    pub confidence: String,
    pub reasoning: String,
    pub method: String,
    pub suggested_name: Option<String>,
}

/// Response of a directory scan.
#[derive(Clone, Debug)]
pub struct ScanResponse {
    pub scan_id: String,
    pub path: String,
    pub total_files: u32,
    pub total_directories: u32,
    pub file_extensions: Vec<(String, u32)>,
    pub key_files: Vec<String>,
    pub heuristic_classification: ClassificationResult,
    pub ai_classification: Option<ClassificationResult>,
    pub final_classification: ClassificationResult,
    pub scan_duration_ms: u32,
    pub timestamp: String,
}

/// Request for an organization preview.
#[derive(Clone, Debug)]
pub struct OrganizePreviewRequest {
    pub scan_id: String,
    pub target_category: Option<String>,
    pub conflict_resolution: String,
    pub create_backup: bool,
    pub custom_name: Option<String>,
}

/// Default conflict-resolution strategy of a preview request.
pub fn default_conflict_resolution() -> (r: String)
    ensures
        r@ == "rename"@,
{
    String::from_str("rename")
}

/// Default backup choice of a preview request.
pub fn default_create_backup() -> (r: bool)
    ensures
        r == true,
{
    true
}

/// One step of an organization plan.  `estimated_time_seconds` is carried as
/// decimal text.
#[derive(Clone, Debug)]
pub struct OperationStep {
    pub operation_id: String,
    pub operation_type: String,
    pub source_path: String,
    pub target_path: String,
    pub estimated_time_seconds: String,
    pub file_count: u32,
    pub total_size_bytes: u64,
    pub conflicts: Vec<String>,
    pub resolution: String,
}

/// Response of an organization preview.  `estimated_time_seconds` is carried
/// as decimal text.
#[derive(Clone, Debug)]
pub struct OrganizePreviewResponse {
    pub plan_id: String,
    pub scan_id: String,
    pub source_path: String,
    pub target_path: String,
    pub operations: Vec<OperationStep>,
    pub total_operations: u32,
    pub estimated_time_seconds: String,
    pub total_files: u32,
    pub total_size_bytes: u64,
    pub conflicts_found: u32,
    pub safety_warnings: Vec<String>,
    pub timestamp: String,
}

/// Request to execute an organization plan.
#[derive(Clone, Debug)]
pub struct OrganizeExecuteRequest {
    pub plan_id: String,
    pub confirm_execution: bool,
}

/// Response of an organization execution.
#[derive(Clone, Debug)]
pub struct OrganizeExecuteResponse {
    pub operation_id: String,
    pub plan_id: String,
    pub status: String,
    pub message: String,
    pub progress_url: Option<String>,
    pub rollback_manifest: Option<String>,
    pub timestamp: String,
}

/// Progress of a running organization.  The two elapsed/remaining durations
/// are carried as decimal text.
#[derive(Clone, Debug)]
pub struct OperationProgress {
    pub operation_id: String,
    pub current_step: u32,
    pub total_steps: u32,
    pub current_operation: String,
    pub files_processed: u32,
    pub total_files: u32,
    pub bytes_processed: u64,
    pub total_bytes: u64,
    pub elapsed_time_seconds: String,
    pub estimated_remaining_seconds: String,
    pub status: String,
    pub error_message: Option<String>,
}

/// Application settings.
#[derive(Clone, Debug)]
pub struct AppSettings {
    pub organization_root: String,
    pub default_ai_model: String,
    pub create_backup_by_default: bool,
    pub use_ai_by_default: bool,
    pub conflict_resolution_strategy: String,
    pub ollama_base_url: String,
    pub python_backend_port: u16,
    pub auto_start_backend: bool,
}

impl Default for AppSettings {
    fn default() -> (r: Self)
        ensures
            r.organization_root@ == "~/OrganizedProjects"@,
            r.default_ai_model@ == "llama2"@,
            r.create_backup_by_default == true,
            r.use_ai_by_default == true,
            r.conflict_resolution_strategy@ == "rename"@,
            r.ollama_base_url@ == "http://localhost:11434"@,
            r.python_backend_port == 8008u16,
            r.auto_start_backend == true,
    {
        AppSettings {
            organization_root: String::from_str("~/OrganizedProjects"),
            default_ai_model: String::from_str("llama2"),
            create_backup_by_default: true,
            use_ai_by_default: true,
            conflict_resolution_strategy: String::from_str("rename"),
            ollama_base_url: String::from_str("http://localhost:11434"),
            python_backend_port: 8008,
            auto_start_backend: true,
        }
    }
}

/// A snapshot of the supervised process, computed on demand.
#[derive(Clone, Debug)]
pub struct ProcessStatus {
    pub is_running: bool,
    pub pid: Option<u32>,
    pub port: u16,
    pub uptime_seconds: Option<u64>,
    pub health_status: Option<String>,
}

/// Response of the backend's model-listing endpoint.
#[derive(Clone, Debug)]
pub struct ModelsResponse {
    pub models: Vec<String>,
}

/// Error payload of the backend's API.
#[derive(Clone, Debug)]
pub struct ErrorResponse {
    pub error: String,
    pub detail: String,
    pub timestamp: String,
}

/// One entry of the project-template catalog.
#[derive(Clone, Debug)]
pub struct ProjectTemplate {
    pub id: String,
    pub name: String,
    pub description: String,
    pub category: String,
    pub language: String,
    pub features: Vec<String>,
}

/// Request to create a project from a template.
#[derive(Clone, Debug)]
pub struct CreateProjectRequest {
    pub template_id: String,
    pub project_name: String,
    pub target_directory: String,
    pub initialize_git: bool,
    pub options: Vec<(String, String)>,
}

} // verus!
