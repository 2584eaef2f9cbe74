//! The bridge client: translates each supported backend operation's HTTP
//! outcome into a typed response or one of a small taxonomy of errors.
//!
//! The bridge performs no I/O itself.  The embedding program issues one
//! HTTP request per operation — against the URL this module builds, with
//! the body this module's codec built — and hands the outcome back as an
//! [`HttpOutcome`]: no response, or a status with a body that could or
//! could not be read.  Everything after that point is verified: a success
//! status with a well-formed body yields the typed value; a malformed
//! body a decode failure; a failure status the backend's reported text,
//! or an unavailability error when the body was unreadable; no response a
//! transport failure.

use vstd::prelude::*;

verus! {

use vstd::string::StringExecFns;
use crate::json::Json;
use crate::text::{parse_json, parsed_json_of};
use crate::codec::{
    decode_execute, decode_health, decode_models, decode_preview, decode_scan,
    spec_decodable_execute, spec_decodable_health, spec_decodable_models,
    spec_decodable_preview, spec_decodable_scan, spec_decoded_execute, spec_decoded_health,
    spec_decoded_models, spec_decoded_preview, spec_decoded_scan,
};
use crate::types::{
    HealthResponse, ModelsResponse, OrganizeExecuteResponse, OrganizePreviewResponse,
    ProjectTemplate, ScanResponse,
};

/// The bridge's request timeout, in seconds: how long the embedding
/// program waits for any one operation's response.
pub const REQUEST_TIMEOUT_SECS: u64 = 30;

/// Bridge-local failures.
#[derive(Clone, Debug)]
pub enum BridgeError {
    /// No response was received at all: connection or timeout trouble.
    RequestFailed(String),
    /// The response body was not the expected JSON.
    JsonError(String),
    /// The backend answered a failure status with no usable body.
    BackendNotAvailable,
    /// The backend's answer made no sense for the operation.
    InvalidResponse(String),
    /// The backend answered a failure status with a textual error body.
    BackendError(String),
}

/// The message [`BridgeError::message`] yields.
pub open spec fn spec_bridge_error_message(e: BridgeError) -> Seq<char> {
    match e {
        BridgeError::RequestFailed(m) => "HTTP request failed: "@ + m@,
        BridgeError::JsonError(m) => "JSON parsing failed: "@ + m@,
        BridgeError::BackendNotAvailable => "Backend not available"@,
        BridgeError::InvalidResponse(m) => "Invalid response from backend: "@ + m@,
        BridgeError::BackendError(m) => "Backend returned error: "@ + m@,
    }
}

impl BridgeError {
    /// The user-displayable message of this error.
    pub fn message(&self) -> (r: String)
        ensures
            r@ == spec_bridge_error_message(*self),
    {
        match self {
            BridgeError::RequestFailed(m) => String::from_str("HTTP request failed: ").concat(
                m.as_str(),
            ),
            BridgeError::JsonError(m) => String::from_str("JSON parsing failed: ").concat(
                m.as_str(),
            ),
            BridgeError::BackendNotAvailable => String::from_str("Backend not available"),
            BridgeError::InvalidResponse(m) => String::from_str(
                "Invalid response from backend: ",
            ).concat(m.as_str()),
            BridgeError::BackendError(m) => String::from_str("Backend returned error: ").concat(
                m.as_str(),
            ),
        }
    }
}

/// The body of a response, as the embedding program could read it.
#[derive(Clone, Debug)]
pub enum BodyOutcome {
    Text(String),
    Unreadable,
}

/// What one HTTP request came to: no response at all (with the transport
/// error's message), or a response with its status code and body.
#[derive(Clone, Debug)]
pub enum HttpOutcome {
    NoResponse(String),
    Response { status: u16, body: BodyOutcome },
}

/// Whether a status code counts as success.
pub open spec fn is_success_status(status: u16) -> bool {
    200 <= status < 300
}

/// The classification every operation applies to its outcome before
/// looking at the body: exactly one case holds of `r`.
pub open spec fn spec_classified(outcome: HttpOutcome, r: Result<String, BridgeError>) -> bool {
    match outcome {
        HttpOutcome::NoResponse(d) => r == Err::<String, BridgeError>(
            BridgeError::RequestFailed(d),
        ),
        HttpOutcome::Response { status, body } => if is_success_status(status) {
            match body {
                BodyOutcome::Text(t) => r == Ok::<String, BridgeError>(t),
                BodyOutcome::Unreadable => match r {
                    Err(BridgeError::JsonError(m)) => m@ == "response body could not be read"@,
                    _ => false,
                },
            }
        } else {
            match body {
                BodyOutcome::Text(t) => r == Err::<String, BridgeError>(
                    BridgeError::BackendError(t),
                ),
                BodyOutcome::Unreadable => r == Err::<String, BridgeError>(
                    BridgeError::BackendNotAvailable,
                ),
            }
        },
    }
}

/// Sorts an outcome into the error taxonomy, yielding the body text of a
/// success response.
fn classify(outcome: HttpOutcome) -> (r: Result<String, BridgeError>)
    ensures
        spec_classified(outcome, r),
{
    match outcome {
        HttpOutcome::NoResponse(d) => Err(BridgeError::RequestFailed(d)),
        HttpOutcome::Response { status, body } => {
            if 200 <= status && status < 300 {
                match body {
                    BodyOutcome::Text(t) => Ok(t),
                    BodyOutcome::Unreadable => Err(
                        BridgeError::JsonError(String::from_str("response body could not be read")),
                    ),
                }
            } else {
                match body {
                    BodyOutcome::Text(t) => Err(BridgeError::BackendError(t)),
                    BodyOutcome::Unreadable => Err(BridgeError::BackendNotAvailable),
                }
            }
        }
    }
}

/// What a bridge operation yields for a given outcome, with the schema
/// given as a pair of predicates: whether a document decodes, and what it
/// decodes to.  Exactly one case holds of `r`.
pub open spec fn spec_bridge_call<T>(
    outcome: HttpOutcome,
    decodable: spec_fn(Json) -> bool,
    decoded: spec_fn(Json, T) -> bool,
    r: Result<T, BridgeError>,
) -> bool {
    match outcome {
        HttpOutcome::NoResponse(d) => r == Err::<T, BridgeError>(BridgeError::RequestFailed(d)),
        HttpOutcome::Response { status, body } => if is_success_status(status) {
            match body {
                BodyOutcome::Text(t) => match parsed_json_of(t@) {
                    Ok(j) => match r {
                        Ok(v) => decoded(j, v),
                        Err(BridgeError::JsonError(m)) => !decodable(j) && m@
                            == "response does not match the expected schema"@,
                        _ => false,
                    },
                    Err(em) => r == Err::<T, BridgeError>(BridgeError::JsonError(em)),
                },
                BodyOutcome::Unreadable => match r {
                    Err(BridgeError::JsonError(m)) => m@ == "response body could not be read"@,
                    _ => false,
                },
            }
        } else {
            match body {
                BodyOutcome::Text(t) => r == Err::<T, BridgeError>(BridgeError::BackendError(t)),
                BodyOutcome::Unreadable => r == Err::<T, BridgeError>(
                    BridgeError::BackendNotAvailable,
                ),
            }
        },
    }
}

/// A typed HTTP client bound to the backend's base URL.  The embedding
/// program owns the socket; this value owns the contract.
pub struct PythonBridge {
    pub base_url: String,
}

impl PythonBridge {
    /// A bridge aimed at the default local backend address.
    pub fn new() -> (r: Self)
        ensures
            r.base_url@ == "http://127.0.0.1:8008"@,
    {
        PythonBridge { base_url: String::from_str("http://127.0.0.1:8008") }
    }

    /// Re-aims the bridge at another base URL.
    pub fn set_base_url(&mut self, url: String)
        ensures
            final(self).base_url == url,
    {
        self.base_url = url;
    }

    /// The configured base URL.
    pub fn get_base_url(&self) -> (r: &str)
        ensures
            r@ == self.base_url@,
    {
        self.base_url.as_str()
    }

    /// The health endpoint's URL.
    pub fn health_url(&self) -> (r: String)
        ensures
            r@ == self.base_url@ + "/health"@,
    {
        self.base_url.clone().concat("/health")
    }

    /// The model-listing endpoint's URL.
    pub fn models_url(&self) -> (r: String)
        ensures
            r@ == self.base_url@ + "/models"@,
    {
        self.base_url.clone().concat("/models")
    }

    /// The scan endpoint's URL.
    pub fn scan_url(&self) -> (r: String)
        ensures
            r@ == self.base_url@ + "/scan"@,
    {
        self.base_url.clone().concat("/scan")
    }

    /// The preview endpoint's URL.
    pub fn preview_url(&self) -> (r: String)
        ensures
            r@ == self.base_url@ + "/organize/preview"@,
    {
        self.base_url.clone().concat("/organize/preview")
    }

    /// The execution endpoint's URL.
    pub fn execute_url(&self) -> (r: String)
        ensures
            r@ == self.base_url@ + "/organize/execute"@,
    {
        self.base_url.clone().concat("/organize/execute")
    }

    /// The project-creation endpoint's URL.
    pub fn create_project_url(&self) -> (r: String)
        ensures
            r@ == self.base_url@ + "/projects/create"@,
    {
        self.base_url.clone().concat("/projects/create")
    }

    /// The URL of an arbitrary endpoint path under the base URL.
    pub fn endpoint_url(&self, path: &str) -> (r: String)
        ensures
            r@ == self.base_url@ + path@,
    {
        self.base_url.clone().concat(path)
    }

    /// Interprets the health endpoint's outcome.
    pub fn check_health(&self, outcome: HttpOutcome) -> (r: Result<HealthResponse, BridgeError>)
        ensures
            spec_bridge_call(
                outcome,
                |j: Json| spec_decodable_health(j),
                |j: Json, v: HealthResponse| spec_decoded_health(j, v),
                r,
            ),
    {
        let body = match classify(outcome) {
            Ok(t) => t,
            Err(e) => {
                return Err(e);
            }
        };
        match parse_json(body.as_str()) {
            Ok(j) => match decode_health(&j) {
                Some(v) => Ok(v),
                None => Err(
                    BridgeError::JsonError(
                        String::from_str("response does not match the expected schema"),
                    ),
                ),
            },
            Err(em) => Err(BridgeError::JsonError(em)),
        }
    }

    /// Interprets the model-listing endpoint's outcome.
    pub fn get_ollama_models(&self, outcome: HttpOutcome) -> (r: Result<
        ModelsResponse,
        BridgeError,
    >)
        ensures
            spec_bridge_call(
                outcome,
                |j: Json| spec_decodable_models(j),
                |j: Json, v: ModelsResponse| spec_decoded_models(j, v),
                r,
            ),
    {
        let body = match classify(outcome) {
            Ok(t) => t,
            Err(e) => {
                return Err(e);
            }
        };
        match parse_json(body.as_str()) {
            Ok(j) => match decode_models(&j) {
                Some(v) => Ok(v),
                None => Err(
                    BridgeError::JsonError(
                        String::from_str("response does not match the expected schema"),
                    ),
                ),
            },
            Err(em) => Err(BridgeError::JsonError(em)),
        }
    }

    /// Interprets the scan endpoint's outcome.
    pub fn scan_project_directory(&self, outcome: HttpOutcome) -> (r: Result<
        ScanResponse,
        BridgeError,
    >)
        ensures
            spec_bridge_call(
                outcome,
                |j: Json| spec_decodable_scan(j),
                |j: Json, v: ScanResponse| spec_decoded_scan(j, v),
                r,
            ),
    {
        let body = match classify(outcome) {
            Ok(t) => t,
            Err(e) => {
                return Err(e);
            }
        };
        match parse_json(body.as_str()) {
            Ok(j) => match decode_scan(&j) {
                Some(v) => Ok(v),
                None => Err(
                    BridgeError::JsonError(
                        String::from_str("response does not match the expected schema"),
                    ),
                ),
            },
            Err(em) => Err(BridgeError::JsonError(em)),
        }
    }

    /// Interprets the preview endpoint's outcome.
    pub fn preview_organization(&self, outcome: HttpOutcome) -> (r: Result<
        OrganizePreviewResponse,
        BridgeError,
    >)
        ensures
            spec_bridge_call(
                outcome,
                |j: Json| spec_decodable_preview(j),
                |j: Json, v: OrganizePreviewResponse| spec_decoded_preview(j, v),
                r,
            ),
    {
        let body = match classify(outcome) {
            Ok(t) => t,
            Err(e) => {
                return Err(e);
            }
        };
        match parse_json(body.as_str()) {
            Ok(j) => match decode_preview(&j) {
                Some(v) => Ok(v),
                None => Err(
                    BridgeError::JsonError(
                        String::from_str("response does not match the expected schema"),
                    ),
                ),
            },
            Err(em) => Err(BridgeError::JsonError(em)),
        }
    }

    /// Interprets the execution endpoint's outcome.
    pub fn execute_organization(&self, outcome: HttpOutcome) -> (r: Result<
        OrganizeExecuteResponse,
        BridgeError,
    >)
        ensures
            spec_bridge_call(
                outcome,
                |j: Json| spec_decodable_execute(j),
                |j: Json, v: OrganizeExecuteResponse| spec_decoded_execute(j, v),
                r,
            ),
    {
        let body = match classify(outcome) {
            Ok(t) => t,
            Err(e) => {
                return Err(e);
            }
        };
        match parse_json(body.as_str()) {
            Ok(j) => match decode_execute(&j) {
                Some(v) => Ok(v),
                None => Err(
                    BridgeError::JsonError(
                        String::from_str("response does not match the expected schema"),
                    ),
                ),
            },
            Err(em) => Err(BridgeError::JsonError(em)),
        }
    }

    /// Interprets the project-creation endpoint's outcome.  A 501 status
    /// is a recognized "not implemented" signal and is reported with a
    /// fixed explanatory message instead of the backend's raw body; a
    /// success response's body is handed back as an opaque document.
    pub fn create_project_from_template(&self, outcome: HttpOutcome) -> (r: Result<
        Json,
        BridgeError,
    >)
        ensures
            spec_create_project_call(outcome, r),
    {
        match &outcome {
            HttpOutcome::Response { status: 501u16, body: _ } => {
                return Err(
                    BridgeError::BackendError(
                        String::from_str("Project creation not implemented yet"),
                    ),
                );
            }
            _ => {
            }
        }
        self.get_request(outcome)
    }

    /// Interprets the outcome of a generic GET of an endpoint: a success
    /// response's JSON body is handed back as an opaque document.
    pub fn get_request(&self, outcome: HttpOutcome) -> (r: Result<Json, BridgeError>)
        ensures
            spec_bridge_call(outcome, |j: Json| true, |j: Json, v: Json| v == j, r),
    {
        let body = match classify(outcome) {
            Ok(t) => t,
            Err(e) => {
                return Err(e);
            }
        };
        match parse_json(body.as_str()) {
            Ok(j) => Ok(j),
            Err(em) => Err(BridgeError::JsonError(em)),
        }
    }

    /// Interprets the outcome of a generic POST of an endpoint, the same
    /// way as a generic GET.
    pub fn post_request(&self, outcome: HttpOutcome) -> (r: Result<Json, BridgeError>)
        ensures
            spec_bridge_call(outcome, |j: Json| true, |j: Json, v: Json| v == j, r),
    {
        self.get_request(outcome)
    }

    /// Whether a health-check outcome means the backend is reachable and
    /// answering sensibly.
    pub fn test_connectivity(&self, outcome: HttpOutcome) -> (r: bool)
        ensures
            r == spec_health_call_succeeds(outcome),
    {
        match self.check_health(outcome) {
            Ok(_) => true,
            Err(_) => false,
        }
    }

    /// The fixed two-entry template catalog.  The backend does not
    /// implement template listing yet, so this is deliberately a local
    /// constant answer, never a request — it must stay in step with the
    /// backend once that endpoint exists.
    pub fn get_project_templates(&self) -> (r: Result<Vec<ProjectTemplate>, BridgeError>)
        ensures
            match r {
                Ok(ts) => spec_template_catalog(ts@),
                Err(_) => false,
            },
    {
        let mut py_features: Vec<String> = Vec::new();
        py_features.push(String::from_str("README.md"));
        py_features.push(String::from_str("requirements.txt"));
        py_features.push(String::from_str(".gitignore"));
        let py = ProjectTemplate {
            id: String::from_str("python_utility"),
            name: String::from_str("Python Utility"),
            description: String::from_str(
                "Basic Python script with dependencies and documentation",
            ),
            category: String::from_str("SystemUtilities"),
            language: String::from_str("Python"),
            features: py_features,
        };
        let mut web_features: Vec<String> = Vec::new();
        web_features.push(String::from_str("index.html"));
        web_features.push(String::from_str("style.css"));
        web_features.push(String::from_str("script.js"));
        let web = ProjectTemplate {
            id: String::from_str("static_website"),
            name: String::from_str("Static Website"),
            description: String::from_str("Basic HTML/CSS/JS website structure"),
            category: String::from_str("Web"),
            language: String::from_str("HTML/CSS/JS"),
            features: web_features,
        };
        let mut ts: Vec<ProjectTemplate> = Vec::new();
        ts.push(py);
        ts.push(web);
        Ok(ts)
    }
}

/// What project creation yields: the "not implemented" report on a 501
/// status, the generic interpretation otherwise.
pub open spec fn spec_create_project_call(outcome: HttpOutcome, r: Result<
    Json,
    BridgeError,
>) -> bool {
    match outcome {
        HttpOutcome::Response { status: 501u16, body: _ } => match r {
            Err(BridgeError::BackendError(m)) => m@ == "Project creation not implemented yet"@,
            _ => false,
        },
        _ => spec_bridge_call(outcome, |j: Json| true, |j: Json, v: Json| v == j, r),
    }
}

/// Whether a health-check outcome carries a success status and a body
/// that parses and decodes as a health response.
pub open spec fn spec_health_call_succeeds(outcome: HttpOutcome) -> bool {
    match outcome {
        HttpOutcome::Response { status, body: BodyOutcome::Text(t) } => is_success_status(status)
            && match parsed_json_of(t@) {
            Ok(j) => spec_decodable_health(j),
            Err(_) => false,
        },
        _ => false,
    }
}

/// The bridge's error taxonomy, case by case: any result consistent with
/// an operation's contract maps a success status with a well-formed body
/// to the decoded value; a success status with a malformed or unreadable
/// body to a decode failure; a failure status with a textual body to the
/// backend's reported text; a failure status with an unreadable body to
/// the generic unavailability error; and no response at all to a
/// transport failure.
pub proof fn lemma_bridge_error_taxonomy<T>(
    outcome: HttpOutcome,
    decodable: spec_fn(Json) -> bool,
    decoded: spec_fn(Json, T) -> bool,
    r: Result<T, BridgeError>,
)
    requires
        spec_bridge_call(outcome, decodable, decoded, r),
        forall|j: Json, v: T| #[trigger] decoded(j, v) ==> decodable(j),
    ensures
        outcome is NoResponse ==> (r matches Err(e) && e is RequestFailed),
        (outcome matches HttpOutcome::Response { status, body: BodyOutcome::Text(t) }
            && is_success_status(status) && (parsed_json_of(t@) matches Ok(j) && decodable(j)))
            ==> (r matches Ok(v) && decoded(
            parsed_json_of((outcome->Response_body)->Text_0@)->Ok_0,
            v,
        )),
        (outcome matches HttpOutcome::Response { status, body: BodyOutcome::Text(t) }
            && is_success_status(status) && !(parsed_json_of(t@) matches Ok(j) && decodable(j)))
            ==> (r matches Err(e) && e is JsonError),
        (outcome matches HttpOutcome::Response { status, body: BodyOutcome::Unreadable }
            && is_success_status(status)) ==> (r matches Err(e) && e is JsonError),
        (outcome matches HttpOutcome::Response { status, body: BodyOutcome::Text(t) }
            && !is_success_status(status)) ==> r == Err::<T, BridgeError>(
            BridgeError::BackendError((outcome->Response_body)->Text_0),
        ),
        (outcome matches HttpOutcome::Response { status, body: BodyOutcome::Unreadable }
            && !is_success_status(status)) ==> r == Err::<T, BridgeError>(
            BridgeError::BackendNotAvailable,
        ),
{
}

/// The fixed template catalog, entry for entry.
pub open spec fn spec_template_catalog(ts: Seq<ProjectTemplate>) -> bool {
    &&& ts.len() == 2
    &&& ts[0].id@ == "python_utility"@
    &&& ts[0].name@ == "Python Utility"@
    &&& ts[0].description@ == "Basic Python script with dependencies and documentation"@
    &&& ts[0].category@ == "SystemUtilities"@
    &&& ts[0].language@ == "Python"@
    &&& ts[0].features@.len() == 3
    &&& ts[0].features@[0]@ == "README.md"@
    &&& ts[0].features@[1]@ == "requirements.txt"@
    &&& ts[0].features@[2]@ == ".gitignore"@
    &&& ts[1].id@ == "static_website"@
    &&& ts[1].name@ == "Static Website"@
    &&& ts[1].description@ == "Basic HTML/CSS/JS website structure"@
    &&& ts[1].category@ == "Web"@
    &&& ts[1].language@ == "HTML/CSS/JS"@
    &&& ts[1].features@.len() == 3
    &&& ts[1].features@[0]@ == "index.html"@
    &&& ts[1].features@[1]@ == "style.css"@
    &&& ts[1].features@[2]@ == "script.js"@
}

} // verus!
