//! Supervisor and bridge for a local HTTP backend process.
//!
//! The library owns the logic of supervising one long-running backend
//! process — start with a readiness gate, idempotent stop, lazy crash
//! detection, status snapshots — and of the typed request/response bridge
//! that proxies operations to that process and normalizes every outcome
//! into a small error taxonomy.  All process and network I/O stays with
//! the embedding program, which feeds its observations in as plain values;
//! everything that decides, builds or interprets is verified here.

pub mod bridge;
pub mod codec;
pub mod commands;
pub mod json;
pub mod supervisor;
pub mod text;
pub mod types;

pub use types::{
    AppSettings, ClassificationResult, CreateProjectRequest, ErrorResponse, HealthResponse,
    ModelsResponse, OperationProgress, OperationStep, OrganizeExecuteRequest,
    OrganizeExecuteResponse, OrganizePreviewRequest, OrganizePreviewResponse, ProcessStatus,
    ProjectTemplate, ScanRequest, ScanResponse,
};
pub use types::{default_conflict_resolution, default_create_backup, default_max_files};
pub use bridge::{BodyOutcome, BridgeError, HttpOutcome, PythonBridge};
pub use json::Json;
pub use supervisor::{
    KillOutcome, PollOutcome, ProcessError, ProcessManager, SpawnOutcome, WaitDecision,
};
