//! The command layer: the externally callable operations.
//!
//! Each command composes the supervisor and the bridge and reduces every
//! failure to one user-displayable string — the boundary to the UI is
//! textual by design.  Commands that need an HTTP round trip come in two
//! halves: a request half that builds what is to be sent, and a response
//! half that interprets the outcome the embedding program observed.

use vstd::prelude::*;

verus! {

use vstd::string::StringExecFns;
use crate::json::Json;
use crate::bridge::{
    BridgeError, HttpOutcome, PythonBridge, spec_bridge_call, spec_bridge_error_message,
    spec_create_project_call, spec_health_call_succeeds, spec_template_catalog,
};
use crate::codec::{
    spec_decodable_execute, spec_decodable_health, spec_decodable_models, spec_decodable_preview,
    spec_decodable_scan, spec_decoded_execute, spec_decoded_health, spec_decoded_models,
    spec_decoded_preview, spec_decoded_scan,
};
use crate::supervisor::{
    KillOutcome, PollOutcome, ProcessError, ProcessManager, SpawnOutcome, spec_check_state,
    spec_is_running, spec_process_error_message, spec_start_result, spec_start_state,
    spec_stop_state,
};
use crate::types::{
    AppSettings, CreateProjectRequest, HealthResponse, ModelsResponse, OperationProgress,
    OrganizeExecuteRequest, OrganizeExecuteResponse, OrganizePreviewRequest,
    OrganizePreviewResponse, ProcessStatus, ProjectTemplate, ScanRequest, ScanResponse,
};

/// `r` is the bridge result `rb` reduced to a string: the value on
/// success, the error's message behind `prefix` on failure.
pub open spec fn spec_wrapped<T>(rb: Result<T, BridgeError>, prefix: Seq<char>, r: Result<
    T,
    String,
>) -> bool {
    match (r, rb) {
        (Ok(v), Ok(w)) => v == w,
        (Err(s), Err(e)) => s@ == prefix + spec_bridge_error_message(e),
        _ => false,
    }
}

/// `r` is what a command yields for `outcome` under the given schema:
/// some bridge-level result consistent with the outcome, reduced to a
/// string behind `prefix`.
pub open spec fn spec_command_call<T>(
    outcome: HttpOutcome,
    decodable: spec_fn(Json) -> bool,
    decoded: spec_fn(Json, T) -> bool,
    prefix: Seq<char>,
    r: Result<T, String>,
) -> bool {
    exists|rb: Result<T, BridgeError>|
        spec_bridge_call(outcome, decodable, decoded, rb) && #[trigger] spec_wrapped(
            rb,
            prefix,
            r,
        )
}

/// `r` is the bridge's model-listing result `rb` reduced to the plain
/// list of names, or the error's message behind the command's prefix.
pub open spec fn spec_models_unwrapped(rb: Result<ModelsResponse, BridgeError>, r: Result<
    Vec<String>,
    String,
>) -> bool {
    match (r, rb) {
        (Ok(v), Ok(w)) => v == w.models,
        (Err(s), Err(e)) => s@ == "Failed to get models: "@ + spec_bridge_error_message(e),
        _ => false,
    }
}

/// Health check, as surfaced to the UI.
pub fn check_health(bridge: &PythonBridge, outcome: HttpOutcome) -> (r: Result<
    HealthResponse,
    String,
>)
    ensures
        spec_command_call(
            outcome,
            |j: Json| spec_decodable_health(j),
            |j: Json, v: HealthResponse| spec_decoded_health(j, v),
            "Health check failed: "@,
            r,
        ),
{
    let rb = bridge.check_health(outcome);
    let ghost grb = rb;
    match rb {
        Ok(v) => {
            proof {
                assert(spec_wrapped(grb, "Health check failed: "@, Ok::<
                    HealthResponse,
                    String,
                >(v)));
            }
            Ok(v)
        }
        Err(e) => {
            let msg = String::from_str("Health check failed: ").concat(e.message().as_str());
            proof {
                assert(spec_wrapped(grb, "Health check failed: "@, Err::<HealthResponse, String>(
                    msg,
                )));
            }
            Err(msg)
        }
    }
}

/// Builds the scan request a scan command sends: the given path, AI
/// choice and model, with the default file cap.
pub fn scan_request(path: String, use_ai: bool, ai_model: Option<String>) -> (r: ScanRequest)
    ensures
        r.path == path,
        r.use_ai == use_ai,
        r.ai_model == ai_model,
        r.max_files == 10000u32,
{
    ScanRequest { path, use_ai, ai_model, max_files: crate::types::default_max_files() }
}

/// Directory scan, as surfaced to the UI.
pub fn scan_project_directory(bridge: &PythonBridge, outcome: HttpOutcome) -> (r: Result<
    ScanResponse,
    String,
>)
    ensures
        spec_command_call(
            outcome,
            |j: Json| spec_decodable_scan(j),
            |j: Json, v: ScanResponse| spec_decoded_scan(j, v),
            "Project scan failed: "@,
            r,
        ),
{
    let rb = bridge.scan_project_directory(outcome);
    let ghost grb = rb;
    match rb {
        Ok(v) => {
            proof {
                assert(spec_wrapped(grb, "Project scan failed: "@, Ok::<ScanResponse, String>(v)));
            }
            Ok(v)
        }
        Err(e) => {
            let msg = String::from_str("Project scan failed: ").concat(e.message().as_str());
            proof {
                assert(spec_wrapped(grb, "Project scan failed: "@, Err::<ScanResponse, String>(
                    msg,
                )));
            }
            Err(msg)
        }
    }
}

/// Model listing, as surfaced to the UI: the plain list of model names.
pub fn get_ollama_models(bridge: &PythonBridge, outcome: HttpOutcome) -> (r: Result<
    Vec<String>,
    String,
>)
    ensures
        exists|rb: Result<ModelsResponse, BridgeError>|
            spec_bridge_call(
                outcome,
                |j: Json| spec_decodable_models(j),
                |j: Json, v: ModelsResponse| spec_decoded_models(j, v),
                rb,
            ) && #[trigger] spec_models_unwrapped(rb, r),
{
    let rb = bridge.get_ollama_models(outcome);
    let ghost grb = rb;
    match rb {
        Ok(v) => {
            proof {
                assert(spec_models_unwrapped(grb, Ok::<Vec<String>, String>(v.models)));
            }
            Ok(v.models)
        }
        Err(e) => {
            let msg = String::from_str("Failed to get models: ").concat(e.message().as_str());
            proof {
                assert(spec_models_unwrapped(grb, Err::<Vec<String>, String>(msg)));
            }
            Err(msg)
        }
    }
}

/// Builds the preview request a preview command sends, filling the
/// documented defaults for the unset choices.
pub fn preview_request(
    scan_id: String,
    target_category: Option<String>,
    conflict_resolution: Option<String>,
    create_backup: Option<bool>,
    custom_name: Option<String>,
) -> (r: OrganizePreviewRequest)
    ensures
        r.scan_id == scan_id,
        r.target_category == target_category,
        r.conflict_resolution == match conflict_resolution {
            Some(c) => c,
            None => r.conflict_resolution,
        },
        conflict_resolution is None ==> r.conflict_resolution@ == "rename"@,
        r.create_backup == match create_backup {
            Some(b) => b,
            None => true,
        },
        r.custom_name == custom_name,
{
    let conflict_resolution = match conflict_resolution {
        Some(c) => c,
        None => crate::types::default_conflict_resolution(),
    };
    let create_backup = match create_backup {
        Some(b) => b,
        None => crate::types::default_create_backup(),
    };
    OrganizePreviewRequest { scan_id, target_category, conflict_resolution, create_backup, custom_name }
}

/// Organization preview, as surfaced to the UI.
pub fn preview_organization(bridge: &PythonBridge, outcome: HttpOutcome) -> (r: Result<
    OrganizePreviewResponse,
    String,
>)
    ensures
        spec_command_call(
            outcome,
            |j: Json| spec_decodable_preview(j),
            |j: Json, v: OrganizePreviewResponse| spec_decoded_preview(j, v),
            "Organization preview failed: "@,
            r,
        ),
{
    let rb = bridge.preview_organization(outcome);
    let ghost grb = rb;
    match rb {
        Ok(v) => {
            proof {
                assert(spec_wrapped(grb, "Organization preview failed: "@, Ok::<
                    OrganizePreviewResponse,
                    String,
                >(v)));
            }
            Ok(v)
        }
        Err(e) => {
            let msg = String::from_str("Organization preview failed: ").concat(
                e.message().as_str(),
            );
            proof {
                assert(spec_wrapped(grb, "Organization preview failed: "@, Err::<
                    OrganizePreviewResponse,
                    String,
                >(msg)));
            }
            Err(msg)
        }
    }
}

/// Gate and request half of plan execution: execution demands an explicit
/// confirmation, and is refused — before anything is sent anywhere — when
/// the flag is false.
pub fn execute_organization_request(plan_id: String, confirm_execution: bool) -> (r: Result<
    OrganizeExecuteRequest,
    String,
>)
    ensures
        match r {
            Ok(req) => confirm_execution == true && req.plan_id == plan_id
                && req.confirm_execution == true,
            Err(s) => confirm_execution == false && s@
                == "Execution requires explicit confirmation"@,
        },
{
    if !confirm_execution {
        return Err(String::from_str("Execution requires explicit confirmation"));
    }
    Ok(OrganizeExecuteRequest { plan_id, confirm_execution })
}

/// Plan execution's response half, as surfaced to the UI.
pub fn execute_organization(bridge: &PythonBridge, outcome: HttpOutcome) -> (r: Result<
    OrganizeExecuteResponse,
    String,
>)
    ensures
        spec_command_call(
            outcome,
            |j: Json| spec_decodable_execute(j),
            |j: Json, v: OrganizeExecuteResponse| spec_decoded_execute(j, v),
            "Organization execution failed: "@,
            r,
        ),
{
    let rb = bridge.execute_organization(outcome);
    let ghost grb = rb;
    match rb {
        Ok(v) => {
            proof {
                assert(spec_wrapped(grb, "Organization execution failed: "@, Ok::<
                    OrganizeExecuteResponse,
                    String,
                >(v)));
            }
            Ok(v)
        }
        Err(e) => {
            let msg = String::from_str("Organization execution failed: ").concat(
                e.message().as_str(),
            );
            proof {
                assert(spec_wrapped(grb, "Organization execution failed: "@, Err::<
                    OrganizeExecuteResponse,
                    String,
                >(msg)));
            }
            Err(msg)
        }
    }
}

/// Progress query.  Progress tracking is a known-incomplete feature
/// boundary: whatever operation id is given, this yields the fixed
/// placeholder — one step of one, nothing processed, status unknown,
/// with an explanatory error message — and must stay a stub until the
/// backend defines a real progress contract.
pub fn get_organization_progress(operation_id: String) -> (r: Result<OperationProgress, String>)
    ensures
        match r {
            Ok(p) => {
                &&& p.operation_id == operation_id
                &&& p.current_step == 1u32
                &&& p.total_steps == 1u32
                &&& p.current_operation@ == "Progress tracking not implemented"@
                &&& p.files_processed == 0u32
                &&& p.total_files == 0u32
                &&& p.bytes_processed == 0u64
                &&& p.total_bytes == 0u64
                &&& p.elapsed_time_seconds@ == "0.0"@
                &&& p.estimated_remaining_seconds@ == "0.0"@
                &&& p.status@ == "unknown"@
                &&& match p.error_message {
                    Some(m) => m@ == "Progress tracking not implemented yet"@,
                    None => false,
                }
            },
            Err(_) => false,
        },
{
    Ok(
        OperationProgress {
            operation_id,
            current_step: 1,
            total_steps: 1,
            current_operation: String::from_str("Progress tracking not implemented"),
            files_processed: 0,
            total_files: 0,
            bytes_processed: 0,
            total_bytes: 0,
            elapsed_time_seconds: String::from_str("0.0"),
            estimated_remaining_seconds: String::from_str("0.0"),
            status: String::from_str("unknown"),
            error_message: Some(String::from_str("Progress tracking not implemented yet")),
        },
    )
}

/// The application settings, as surfaced to the UI.  Persistence lives
/// outside this core: the defaults are returned.
pub fn get_app_settings() -> (r: Result<AppSettings, String>)
    ensures
        match r {
            Ok(s) => s.python_backend_port == 8008u16 && s.ollama_base_url@
                == "http://localhost:11434"@ && s.default_ai_model@ == "llama2"@
                && s.create_backup_by_default && s.use_ai_by_default && s.organization_root@
                == "~/OrganizedProjects"@ && s.conflict_resolution_strategy@ == "rename"@
                && s.auto_start_backend,
            Err(_) => false,
        },
{
    Ok(AppSettings::default())
}

/// Accepts settings from the UI.  Persistence lives outside this core:
/// the settings are acknowledged.
pub fn save_app_settings(settings: AppSettings) -> (r: Result<String, String>)
    ensures
        match r {
            Ok(s) => s@ == "Settings saved successfully"@,
            Err(_) => false,
        },
{
    Ok(String::from_str("Settings saved successfully"))
}

/// Builds the project-creation request that command sends.
pub fn create_project_request(
    template_id: String,
    project_name: String,
    target_directory: String,
    initialize_git: bool,
    options: Vec<(String, String)>,
) -> (r: CreateProjectRequest)
    ensures
        r.template_id == template_id,
        r.project_name == project_name,
        r.target_directory == target_directory,
        r.initialize_git == initialize_git,
        r.options == options,
{
    CreateProjectRequest { template_id, project_name, target_directory, initialize_git, options }
}

/// Project creation's response half, as surfaced to the UI.
pub fn create_project_from_template(bridge: &PythonBridge, outcome: HttpOutcome) -> (r: Result<
    Json,
    String,
>)
    ensures
        exists|rb: Result<Json, BridgeError>|
            spec_create_project_call(outcome, rb) && #[trigger] spec_wrapped(
                rb,
                "Project creation failed: "@,
                r,
            ),
{
    let rb = bridge.create_project_from_template(outcome);
    let ghost grb = rb;
    match rb {
        Ok(v) => {
            let ghost gv = v;
            proof {
                assert(spec_wrapped(grb, "Project creation failed: "@, Ok::<Json, String>(gv)));
            }
            Ok(v)
        }
        Err(e) => {
            let msg = String::from_str("Project creation failed: ").concat(e.message().as_str());
            proof {
                assert(spec_wrapped(grb, "Project creation failed: "@, Err::<Json, String>(msg)));
            }
            Err(msg)
        }
    }
}

/// The template catalog, as surfaced to the UI.
pub fn get_project_templates(bridge: &PythonBridge) -> (r: Result<Vec<ProjectTemplate>, String>)
    ensures
        match r {
            Ok(ts) => spec_template_catalog(ts@),
            Err(_) => false,
        },
{
    match bridge.get_project_templates() {
        Ok(ts) => Ok(ts),
        Err(e) => {
            let msg = String::from_str("Failed to get templates: ").concat(e.message().as_str());
            Err(msg)
        }
    }
}

/// Starting the backend, as surfaced to the UI.
pub fn start_python_backend(
    manager: &mut ProcessManager,
    alive: PollOutcome,
    kill: KillOutcome,
    spawn: SpawnOutcome,
    probes: &Vec<bool>,
    now: u64,
) -> (r: Result<String, String>)
    ensures
        *final(manager) == spec_start_state(*old(manager), alive, kill, spawn, now),
        match r {
            Ok(s) => s@ == "Backend started successfully"@ && exists|a: u32|
                #[trigger] spec_start_result(
                    *old(manager),
                    alive,
                    kill,
                    spawn,
                    probes@,
                    Ok::<u32, ProcessError>(a),
                ),
            Err(s) => exists|e: ProcessError|
                #[trigger] spec_start_result(
                    *old(manager),
                    alive,
                    kill,
                    spawn,
                    probes@,
                    Err::<u32, ProcessError>(e),
                ) && s@ == "Failed to start backend: "@ + spec_process_error_message(e),
        },
{
    let rs = manager.start_python_backend(alive, kill, spawn, probes, now);
    match rs {
        Ok(_) => Ok(String::from_str("Backend started successfully")),
        Err(e) => {
            let msg = String::from_str("Failed to start backend: ").concat(e.message().as_str());
            Err(msg)
        }
    }
}

/// Stopping the backend, as surfaced to the UI.
pub fn stop_python_backend(manager: &mut ProcessManager, kill: KillOutcome) -> (r: Result<
    String,
    String,
>)
    ensures
        *final(manager) == spec_stop_state(*old(manager), kill),
        match r {
            Ok(s) => s@ == "Backend stopped successfully"@ && (old(manager).python_process is None
                || kill is Delivered),
            Err(s) => old(manager).python_process is Some && exists|e: ProcessError|
                s@ == "Failed to stop backend: "@ + #[trigger] spec_process_error_message(
                    e,
                ) && match (e, kill) {
                    (ProcessError::CommunicationFailed(m), KillOutcome::KillError(em)) => m@
                        == "Kill failed: "@ + em@,
                    _ => false,
                },
        },
{
    let rs = manager.stop_python_backend(kill);
    match rs {
        Ok(_) => Ok(String::from_str("Backend stopped successfully")),
        Err(e) => {
            let msg = String::from_str("Failed to stop backend: ").concat(e.message().as_str());
            Err(msg)
        }
    }
}

/// A health probe's outcome decodes to exactly the response `h`.
pub open spec fn spec_health_ok(o: HttpOutcome, h: HealthResponse) -> bool {
    spec_bridge_call(
        o,
        |j: Json| spec_decodable_health(j),
        |j: Json, v: HealthResponse| spec_decoded_health(j, v),
        Ok::<HealthResponse, BridgeError>(h),
    )
}

/// A full status report, as surfaced to the UI: the supervisor's
/// snapshot, with the health field filled in only when the process is
/// reported running and a health probe succeeded.  `health` is the
/// probe's outcome where the embedding program made one; it is consulted
/// only when the process is running.  A failed probe is swallowed —
/// process-level status is never blocked by an application-level health
/// failure, so this command cannot fail.
pub fn get_backend_status(
    manager: &mut ProcessManager,
    bridge: &PythonBridge,
    alive: PollOutcome,
    now: u64,
    health: Option<HttpOutcome>,
) -> (r: Result<ProcessStatus, String>)
    ensures
        *final(manager) == spec_check_state(*old(manager), alive),
        match r {
            Ok(st) => {
                &&& st.is_running == spec_is_running(*old(manager), alive)
                &&& st.pid == final(manager).python_process
                &&& st.port == old(manager).port
                &&& st.uptime_seconds == match final(manager).start_time {
                    Some(s) => Some(if now >= s {
                        (now - s) as u64
                    } else {
                        0u64
                    }),
                    None => None::<u64>,
                }
                &&& match st.health_status {
                    Some(hs) => {
                        &&& spec_is_running(*old(manager), alive)
                        &&& match health {
                            Some(o) => spec_health_call_succeeds(o) && exists|h: HealthResponse|
                                #[trigger] spec_health_ok(o, h) && hs == h.status,
                            None => false,
                        }
                    },
                    None => !spec_is_running(*old(manager), alive) || match health {
                        Some(o) => !spec_health_call_succeeds(o),
                        None => true,
                    },
                }
            },
            Err(_) => false,
        },
{
    let mut status = manager.get_backend_status(alive, now);
    if status.is_running {
        match health {
            Some(o) => {
                let ghost go = o;
                let rb = bridge.check_health(o);
                match rb {
                    Ok(h) => {
                        let ghost gh = h;
                        proof {
                            assert(spec_health_ok(go, gh));
                        }
                        status.health_status = Some(h.status);
                    }
                    Err(_) => {
                    }
                }
            }
            None => {
            }
        }
    }
    Ok(status)
}

} // verus!
