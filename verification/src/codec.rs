//! Encoding and decoding between [`Json`] documents and the typed
//! records of the protocol.
//!
//! Decoding follows the backend's schema exactly: a required field that is
//! missing or of the wrong shape fails the whole decode, an optional field
//! may be absent or null.  Every decoder is specified field by field
//! against the document it was given.

use vstd::prelude::*;

verus! {

use vstd::pervasive::arbitrary;
use crate::json::{Json, spec_obj_get, obj_get};
use vstd::string::StringExecFns;
use crate::types::{
    ClassificationResult, CreateProjectRequest, ErrorResponse, HealthResponse, ModelsResponse,
    OperationStep, OrganizeExecuteRequest, OrganizeExecuteResponse, OrganizePreviewRequest,
    OrganizePreviewResponse, ScanRequest, ScanResponse,
};

/// The value of a required string field.
pub open spec fn spec_field_string(fs: Seq<(String, Json)>, key: Seq<char>) -> Option<String> {
    match spec_obj_get(fs, key) {
        Some(Json::Str(s)) => Some(s),
        _ => None,
    }
}

/// The value of a required integer field that fits a `u64`.
pub open spec fn spec_field_u64(fs: Seq<(String, Json)>, key: Seq<char>) -> Option<u64> {
    match spec_obj_get(fs, key) {
        Some(Json::Num(_, i)) => i,
        _ => None,
    }
}

/// The value of a required integer field that fits a `u32`.
pub open spec fn spec_field_u32(fs: Seq<(String, Json)>, key: Seq<char>) -> Option<u32> {
    match spec_field_u64(fs, key) {
        Some(u) => if u <= u32::MAX {
            Some(u as u32)
        } else {
            None
        },
        None => None,
    }
}

/// The value of a required boolean field.
pub open spec fn spec_field_bool(fs: Seq<(String, Json)>, key: Seq<char>) -> Option<bool> {
    match spec_obj_get(fs, key) {
        Some(Json::Bool(b)) => Some(b),
        _ => None,
    }
}

/// The decimal text of a required number field.
pub open spec fn spec_field_numtext(fs: Seq<(String, Json)>, key: Seq<char>) -> Option<String> {
    match spec_obj_get(fs, key) {
        Some(Json::Num(t, _)) => Some(t),
        _ => None,
    }
}

/// The value of an optional string field: absent and null both decode to
/// `None`, any shape other than a string fails.
pub open spec fn spec_field_opt_string(fs: Seq<(String, Json)>, key: Seq<char>) -> Option<
    Option<String>,
> {
    match spec_obj_get(fs, key) {
        None => Some(None),
        Some(Json::Null) => Some(None),
        Some(Json::Str(s)) => Some(Some(s)),
        _ => None,
    }
}

/// Reads a required string field.
pub fn field_string(fs: &Vec<(String, Json)>, key: &str) -> (r: Option<String>)
    ensures
        r == spec_field_string(fs@, key@),
{
    match obj_get(fs, key) {
        Some(Json::Str(s)) => Some(s.clone()),
        _ => None,
    }
}

/// Reads a required integer field that fits a `u64`.
pub fn field_u64(fs: &Vec<(String, Json)>, key: &str) -> (r: Option<u64>)
    ensures
        r == spec_field_u64(fs@, key@),
{
    match obj_get(fs, key) {
        Some(Json::Num(_, i)) => *i,
        _ => None,
    }
}

/// Reads a required integer field that fits a `u32`.
pub fn field_u32(fs: &Vec<(String, Json)>, key: &str) -> (r: Option<u32>)
    ensures
        r == spec_field_u32(fs@, key@),
{
    match field_u64(fs, key) {
        Some(u) => if u <= 0xffff_ffff {
            Some(u as u32)
        } else {
            None
        },
        None => None,
    }
}

/// Reads a required boolean field.
pub fn field_bool(fs: &Vec<(String, Json)>, key: &str) -> (r: Option<bool>)
    ensures
        r == spec_field_bool(fs@, key@),
{
    match obj_get(fs, key) {
        Some(Json::Bool(b)) => Some(*b),
        _ => None,
    }
}

/// Reads the decimal text of a required number field.
pub fn field_numtext(fs: &Vec<(String, Json)>, key: &str) -> (r: Option<String>)
    ensures
        r == spec_field_numtext(fs@, key@),
{
    match obj_get(fs, key) {
        Some(Json::Num(t, _)) => Some(t.clone()),
        _ => None,
    }
}

/// Reads an optional string field.
pub fn field_opt_string(fs: &Vec<(String, Json)>, key: &str) -> (r: Option<Option<String>>)
    ensures
        r == spec_field_opt_string(fs@, key@),
{
    match obj_get(fs, key) {
        None => Some(None),
        Some(Json::Null) => Some(None),
        Some(Json::Str(s)) => Some(Some(s.clone())),
        _ => None,
    }
}

/// Whether every element of a JSON array is a string.
pub open spec fn all_strings(items: Seq<Json>) -> bool {
    forall|i: int| 0 <= i < items.len() ==> items[i] is Str
}

/// The string each element of an all-string array holds.
pub open spec fn str_of(j: Json) -> String {
    match j {
        Json::Str(s) => s,
        _ => arbitrary(),
    }
}

/// Decodes a JSON array of strings.
pub fn decode_string_array(items: &Vec<Json>) -> (r: Option<Vec<String>>)
    ensures
        match r {
            Some(v) => all_strings(items@) && v@ == items@.map_values(|j: Json| str_of(j)),
            None => !all_strings(items@),
        },
{
    let n = items.len();
    let mut out: Vec<String> = Vec::new();
    let mut i: usize = 0;
    while i < n
        invariant
            n == items@.len(),
            i <= n,
            forall|j: int| 0 <= j < i ==> items@[j] is Str,
            out@ =~= items@.take(i as int).map_values(|j: Json| str_of(j)),
        decreases n - i,
    {
        match &items[i] {
            Json::Str(s) => {
                out.push(s.clone());
            }
            _ => {
                return None;
            }
        }
        assert(out@ =~= items@.take(i + 1).map_values(|j: Json| str_of(j)));
        i = i + 1;
    }
    assert(items@.take(n as int) =~= items@);
    Some(out)
}

/// Whether every field of a JSON object holds an integer that fits a
/// `u32` — the shape of the extension-count map.
pub open spec fn is_u32_count(j: Json) -> bool {
    match j {
        Json::Num(_, u) => u is Some && u.unwrap() <= u32::MAX,
        _ => false,
    }
}

pub open spec fn all_u32_entries(fs: Seq<(String, Json)>) -> bool {
    forall|i: int| 0 <= i < fs.len() ==> is_u32_count(#[trigger] fs[i].1)
}

/// The `u32` a count entry holds.
pub open spec fn u32_of(j: Json) -> u32 {
    match j {
        Json::Num(_, Some(u)) => u as u32,
        _ => arbitrary(),
    }
}

/// Decodes a JSON object whose fields are all `u32` counts into its list
/// of entries, in the object's own order.
pub fn decode_count_entries(fs: &Vec<(String, Json)>) -> (r: Option<Vec<(String, u32)>>)
    ensures
        match r {
            Some(v) => all_u32_entries(fs@) && v@ == fs@.map_values(
                |p: (String, Json)| (p.0, u32_of(p.1)),
            ),
            None => !all_u32_entries(fs@),
        },
{
    let n = fs.len();
    let mut out: Vec<(String, u32)> = Vec::new();
    let mut i: usize = 0;
    while i < n
        invariant
            n == fs@.len(),
            i <= n,
            forall|j: int| 0 <= j < i ==> is_u32_count(#[trigger] fs@[j].1),
            out@ =~= fs@.take(i as int).map_values(|p: (String, Json)| (p.0, u32_of(p.1))),
        decreases n - i,
    {
        match &fs[i].1 {
            Json::Num(_, Some(u)) => {
                if *u <= 0xffff_ffff {
                    out.push((fs[i].0.clone(), *u as u32));
                } else {
                    return None;
                }
            }
            _ => {
                return None;
            }
        }
        assert(out@ =~= fs@.take(i + 1).map_values(|p: (String, Json)| (p.0, u32_of(p.1))));
        i = i + 1;
    }
    assert(fs@.take(n as int) =~= fs@);
    Some(out)
}

/// Whether a document has the shape of a classification record.
pub open spec fn spec_decodable_classification(j: Json) -> bool {
    match j {
        Json::Obj(fs) => {
            &&& spec_field_string(fs@, "category"@) is Some
            &&& spec_field_numtext(fs@, "confidence"@) is Some
            &&& spec_field_string(fs@, "reasoning"@) is Some
            &&& spec_field_string(fs@, "method"@) is Some
            &&& spec_field_opt_string(fs@, "suggested_name"@) is Some
        },
        _ => false,
    }
}

/// `v` is the classification record the document holds.
pub open spec fn spec_decoded_classification(j: Json, v: ClassificationResult) -> bool {
    match j {
        Json::Obj(fs) => {
            &&& spec_field_string(fs@, "category"@) == Some(v.category)
            &&& spec_field_numtext(fs@, "confidence"@) == Some(v.confidence)
            &&& spec_field_string(fs@, "reasoning"@) == Some(v.reasoning)
            &&& spec_field_string(fs@, "method"@) == Some(v.method)
            &&& spec_field_opt_string(fs@, "suggested_name"@) == Some(v.suggested_name)
        },
        _ => false,
    }
}

/// Decodes a classification record.
pub fn decode_classification(j: &Json) -> (r: Option<ClassificationResult>)
    ensures
        match r {
            Some(v) => spec_decoded_classification(*j, v),
            None => !spec_decodable_classification(*j),
        },
{
    let fs = match j {
        Json::Obj(fs) => fs,
        _ => {
            return None;
        }
    };
    let category = match field_string(fs, "category") {
        Some(x) => x,
        None => {
            return None;
        }
    };
    let confidence = match field_numtext(fs, "confidence") {
        Some(x) => x,
        None => {
            return None;
        }
    };
    let reasoning = match field_string(fs, "reasoning") {
        Some(x) => x,
        None => {
            return None;
        }
    };
    let method = match field_string(fs, "method") {
        Some(x) => x,
        None => {
            return None;
        }
    };
    let suggested_name = match field_opt_string(fs, "suggested_name") {
        Some(x) => x,
        None => {
            return None;
        }
    };
    Some(ClassificationResult { category, confidence, reasoning, method, suggested_name })
}

/// Whether a document has the shape of a health response.
pub open spec fn spec_decodable_health(j: Json) -> bool {
    match j {
        Json::Obj(fs) => {
            &&& spec_field_string(fs@, "status"@) is Some
            &&& spec_field_string(fs@, "timestamp"@) is Some
            &&& spec_field_string(fs@, "version"@) is Some
            &&& spec_field_bool(fs@, "python_backend"@) is Some
            &&& spec_field_bool(fs@, "ollama_available"@) is Some
        },
        _ => false,
    }
}

/// `v` is the health response the document holds.
pub open spec fn spec_decoded_health(j: Json, v: HealthResponse) -> bool {
    match j {
        Json::Obj(fs) => {
            &&& spec_field_string(fs@, "status"@) == Some(v.status)
            &&& spec_field_string(fs@, "timestamp"@) == Some(v.timestamp)
            &&& spec_field_string(fs@, "version"@) == Some(v.version)
            &&& spec_field_bool(fs@, "python_backend"@) == Some(v.python_backend)
            &&& spec_field_bool(fs@, "ollama_available"@) == Some(v.ollama_available)
        },
        _ => false,
    }
}

/// Decodes a health response.
pub fn decode_health(j: &Json) -> (r: Option<HealthResponse>)
    ensures
        match r {
            Some(v) => spec_decoded_health(*j, v),
            None => !spec_decodable_health(*j),
        },
{
    let fs = match j {
        Json::Obj(fs) => fs,
        _ => {
            return None;
        }
    };
    let status = match field_string(fs, "status") {
        Some(x) => x,
        None => {
            return None;
        }
    };
    let timestamp = match field_string(fs, "timestamp") {
        Some(x) => x,
        None => {
            return None;
        }
    };
    let version = match field_string(fs, "version") {
        Some(x) => x,
        None => {
            return None;
        }
    };
    let python_backend = match field_bool(fs, "python_backend") {
        Some(x) => x,
        None => {
            return None;
        }
    };
    let ollama_available = match field_bool(fs, "ollama_available") {
        Some(x) => x,
        None => {
            return None;
        }
    };
    Some(HealthResponse { status, timestamp, version, python_backend, ollama_available })
}

/// Whether a document has the shape of a models response.
pub open spec fn spec_decodable_models(j: Json) -> bool {
    match j {
        Json::Obj(fs) => match spec_obj_get(fs@, "models"@) {
            Some(Json::Arr(items)) => all_strings(items@),
            _ => false,
        },
        _ => false,
    }
}

/// `v` is the models response the document holds.
pub open spec fn spec_decoded_models(j: Json, v: ModelsResponse) -> bool {
    match j {
        Json::Obj(fs) => match spec_obj_get(fs@, "models"@) {
            Some(Json::Arr(items)) => all_strings(items@) && v.models@ == items@.map_values(
                |x: Json| str_of(x),
            ),
            _ => false,
        },
        _ => false,
    }
}

/// Decodes a models response.
pub fn decode_models(j: &Json) -> (r: Option<ModelsResponse>)
    ensures
        match r {
            Some(v) => spec_decoded_models(*j, v),
            None => !spec_decodable_models(*j),
        },
{
    let fs = match j {
        Json::Obj(fs) => fs,
        _ => {
            return None;
        }
    };
    match obj_get(fs, "models") {
        Some(Json::Arr(items)) => match decode_string_array(items) {
            Some(models) => Some(ModelsResponse { models }),
            None => None,
        },
        _ => None,
    }
}

/// Whether a document has the shape of an execution response.
pub open spec fn spec_decodable_execute(j: Json) -> bool {
    match j {
        Json::Obj(fs) => {
            &&& spec_field_string(fs@, "operation_id"@) is Some
            &&& spec_field_string(fs@, "plan_id"@) is Some
            &&& spec_field_string(fs@, "status"@) is Some
            &&& spec_field_string(fs@, "message"@) is Some
            &&& spec_field_opt_string(fs@, "progress_url"@) is Some
            &&& spec_field_opt_string(fs@, "rollback_manifest"@) is Some
            &&& spec_field_string(fs@, "timestamp"@) is Some
        },
        _ => false,
    }
}

/// `v` is the execution response the document holds.
pub open spec fn spec_decoded_execute(j: Json, v: OrganizeExecuteResponse) -> bool {
    match j {
        Json::Obj(fs) => {
            &&& spec_field_string(fs@, "operation_id"@) == Some(v.operation_id)
            &&& spec_field_string(fs@, "plan_id"@) == Some(v.plan_id)
            &&& spec_field_string(fs@, "status"@) == Some(v.status)
            &&& spec_field_string(fs@, "message"@) == Some(v.message)
            &&& spec_field_opt_string(fs@, "progress_url"@) == Some(v.progress_url)
            &&& spec_field_opt_string(fs@, "rollback_manifest"@) == Some(v.rollback_manifest)
            &&& spec_field_string(fs@, "timestamp"@) == Some(v.timestamp)
        },
        _ => false,
    }
}

/// Decodes an execution response.
pub fn decode_execute(j: &Json) -> (r: Option<OrganizeExecuteResponse>)
    ensures
        match r {
            Some(v) => spec_decoded_execute(*j, v),
            None => !spec_decodable_execute(*j),
        },
{
    let fs = match j {
        Json::Obj(fs) => fs,
        _ => {
            return None;
        }
    };
    let operation_id = match field_string(fs, "operation_id") {
        Some(x) => x,
        None => {
            return None;
        }
    };
    let plan_id = match field_string(fs, "plan_id") {
        Some(x) => x,
        None => {
            return None;
        }
    };
    let status = match field_string(fs, "status") {
        Some(x) => x,
        None => {
            return None;
        }
    };
    let message = match field_string(fs, "message") {
        Some(x) => x,
        None => {
            return None;
        }
    };
    let progress_url = match field_opt_string(fs, "progress_url") {
        Some(x) => x,
        None => {
            return None;
        }
    };
    let rollback_manifest = match field_opt_string(fs, "rollback_manifest") {
        Some(x) => x,
        None => {
            return None;
        }
    };
    let timestamp = match field_string(fs, "timestamp") {
        Some(x) => x,
        None => {
            return None;
        }
    };
    Some(
        OrganizeExecuteResponse {
            operation_id,
            plan_id,
            status,
            message,
            progress_url,
            rollback_manifest,
            timestamp,
        },
    )
}

/// Whether a document has the shape of one plan step.
pub open spec fn spec_decodable_step(j: Json) -> bool {
    match j {
        Json::Obj(fs) => {
            &&& spec_field_string(fs@, "operation_id"@) is Some
            &&& spec_field_string(fs@, "operation_type"@) is Some
            &&& spec_field_string(fs@, "source_path"@) is Some
            &&& spec_field_string(fs@, "target_path"@) is Some
            &&& spec_field_numtext(fs@, "estimated_time_seconds"@) is Some
            &&& spec_field_u32(fs@, "file_count"@) is Some
            &&& spec_field_u64(fs@, "total_size_bytes"@) is Some
            &&& match spec_obj_get(fs@, "conflicts"@) {
                Some(Json::Arr(items)) => all_strings(items@),
                _ => false,
            }
            &&& spec_field_string(fs@, "resolution"@) is Some
        },
        _ => false,
    }
}

/// `v` is the plan step the document holds.
pub open spec fn spec_decoded_step(j: Json, v: OperationStep) -> bool {
    match j {
        Json::Obj(fs) => {
            &&& spec_field_string(fs@, "operation_id"@) == Some(v.operation_id)
            &&& spec_field_string(fs@, "operation_type"@) == Some(v.operation_type)
            &&& spec_field_string(fs@, "source_path"@) == Some(v.source_path)
            &&& spec_field_string(fs@, "target_path"@) == Some(v.target_path)
            &&& spec_field_numtext(fs@, "estimated_time_seconds"@) == Some(
                v.estimated_time_seconds,
            )
            &&& spec_field_u32(fs@, "file_count"@) == Some(v.file_count)
            &&& spec_field_u64(fs@, "total_size_bytes"@) == Some(v.total_size_bytes)
            &&& match spec_obj_get(fs@, "conflicts"@) {
                Some(Json::Arr(items)) => all_strings(items@) && v.conflicts@ == items@.map_values(
                    |x: Json| str_of(x),
                ),
                _ => false,
            }
            &&& spec_field_string(fs@, "resolution"@) == Some(v.resolution)
        },
        _ => false,
    }
}

/// Decodes one plan step.
pub fn decode_step(j: &Json) -> (r: Option<OperationStep>)
    ensures
        match r {
            Some(v) => spec_decoded_step(*j, v),
            None => !spec_decodable_step(*j),
        },
{
    let fs = match j {
        Json::Obj(fs) => fs,
        _ => {
            return None;
        }
    };
    let operation_id = match field_string(fs, "operation_id") {
        Some(x) => x,
        None => {
            return None;
        }
    };
    let operation_type = match field_string(fs, "operation_type") {
        Some(x) => x,
        None => {
            return None;
        }
    };
    let source_path = match field_string(fs, "source_path") {
        Some(x) => x,
        None => {
            return None;
        }
    };
    let target_path = match field_string(fs, "target_path") {
        Some(x) => x,
        None => {
            return None;
        }
    };
    let estimated_time_seconds = match field_numtext(fs, "estimated_time_seconds") {
        Some(x) => x,
        None => {
            return None;
        }
    };
    let file_count = match field_u32(fs, "file_count") {
        Some(x) => x,
        None => {
            return None;
        }
    };
    let total_size_bytes = match field_u64(fs, "total_size_bytes") {
        Some(x) => x,
        None => {
            return None;
        }
    };
    let conflicts = match obj_get(fs, "conflicts") {
        Some(Json::Arr(items)) => match decode_string_array(items) {
            Some(v) => v,
            None => {
                return None;
            }
        },
        _ => {
            return None;
        }
    };
    let resolution = match field_string(fs, "resolution") {
        Some(x) => x,
        None => {
            return None;
        }
    };
    Some(
        OperationStep {
            operation_id,
            operation_type,
            source_path,
            target_path,
            estimated_time_seconds,
            file_count,
            total_size_bytes,
            conflicts,
            resolution,
        },
    )
}

/// Whether every element of a JSON array is a decodable plan step.
pub open spec fn all_steps(items: Seq<Json>) -> bool {
    forall|i: int| 0 <= i < items.len() ==> spec_decodable_step(#[trigger] items[i])
}

/// `v` holds, element for element, the plan steps of the array.
pub open spec fn spec_decoded_steps(items: Seq<Json>, v: Seq<OperationStep>) -> bool {
    &&& v.len() == items.len()
    &&& forall|i: int| 0 <= i < items.len() ==> spec_decoded_step(#[trigger] items[i], v[i])
}

/// Decodes a JSON array of plan steps.
pub fn decode_steps(items: &Vec<Json>) -> (r: Option<Vec<OperationStep>>)
    ensures
        match r {
            Some(v) => all_steps(items@) && spec_decoded_steps(items@, v@),
            None => !all_steps(items@),
        },
{
    let n = items.len();
    let mut out: Vec<OperationStep> = Vec::new();
    let mut i: usize = 0;
    while i < n
        invariant
            n == items@.len(),
            i <= n,
            out@.len() == i,
            forall|j: int| 0 <= j < i ==> spec_decodable_step(#[trigger] items@[j]),
            forall|j: int| 0 <= j < i ==> spec_decoded_step(#[trigger] items@[j], out@[j]),
        decreases n - i,
    {
        match decode_step(&items[i]) {
            Some(s) => {
                out.push(s);
            }
            None => {
                return None;
            }
        }
        i = i + 1;
    }
    Some(out)
}

/// Whether a document has the shape of a scan response.
pub open spec fn spec_decodable_scan(j: Json) -> bool {
    match j {
        Json::Obj(fs) => {
            &&& spec_field_string(fs@, "scan_id"@) is Some
            &&& spec_field_string(fs@, "path"@) is Some
            &&& spec_field_u32(fs@, "total_files"@) is Some
            &&& spec_field_u32(fs@, "total_directories"@) is Some
            &&& match spec_obj_get(fs@, "file_extensions"@) {
                Some(Json::Obj(entries)) => all_u32_entries(entries@),
                _ => false,
            }
            &&& match spec_obj_get(fs@, "key_files"@) {
                Some(Json::Arr(items)) => all_strings(items@),
                _ => false,
            }
            &&& match spec_obj_get(fs@, "heuristic_classification"@) {
                Some(jc) => spec_decodable_classification(jc),
                None => false,
            }
            &&& match spec_obj_get(fs@, "ai_classification"@) {
                None => true,
                Some(Json::Null) => true,
                Some(jc) => spec_decodable_classification(jc),
            }
            &&& match spec_obj_get(fs@, "final_classification"@) {
                Some(jc) => spec_decodable_classification(jc),
                None => false,
            }
            &&& spec_field_u32(fs@, "scan_duration_ms"@) is Some
            &&& spec_field_string(fs@, "timestamp"@) is Some
        },
        _ => false,
    }
}

/// `v` is the scan response the document holds.
pub open spec fn spec_decoded_scan(j: Json, v: ScanResponse) -> bool {
    match j {
        Json::Obj(fs) => {
            &&& spec_field_string(fs@, "scan_id"@) == Some(v.scan_id)
            &&& spec_field_string(fs@, "path"@) == Some(v.path)
            &&& spec_field_u32(fs@, "total_files"@) == Some(v.total_files)
            &&& spec_field_u32(fs@, "total_directories"@) == Some(v.total_directories)
            &&& match spec_obj_get(fs@, "file_extensions"@) {
                Some(Json::Obj(entries)) => all_u32_entries(entries@) && v.file_extensions@
                    == entries@.map_values(|p: (String, Json)| (p.0, u32_of(p.1))),
                _ => false,
            }
            &&& match spec_obj_get(fs@, "key_files"@) {
                Some(Json::Arr(items)) => all_strings(items@) && v.key_files@ == items@.map_values(
                    |x: Json| str_of(x),
                ),
                _ => false,
            }
            &&& match spec_obj_get(fs@, "heuristic_classification"@) {
                Some(jc) => spec_decoded_classification(jc, v.heuristic_classification),
                None => false,
            }
            &&& match spec_obj_get(fs@, "ai_classification"@) {
                None => v.ai_classification is None,
                Some(Json::Null) => v.ai_classification is None,
                Some(jc) => match v.ai_classification {
                    Some(c) => spec_decoded_classification(jc, c),
                    None => false,
                },
            }
            &&& match spec_obj_get(fs@, "final_classification"@) {
                Some(jc) => spec_decoded_classification(jc, v.final_classification),
                None => false,
            }
            &&& spec_field_u32(fs@, "scan_duration_ms"@) == Some(v.scan_duration_ms)
            &&& spec_field_string(fs@, "timestamp"@) == Some(v.timestamp)
        },
        _ => false,
    }
}

/// Decodes a scan response.
pub fn decode_scan(j: &Json) -> (r: Option<ScanResponse>)
    ensures
        match r {
            Some(v) => spec_decoded_scan(*j, v),
            None => !spec_decodable_scan(*j),
        },
{
    let fs = match j {
        Json::Obj(fs) => fs,
        _ => {
            return None;
        }
    };
    let scan_id = match field_string(fs, "scan_id") {
        Some(x) => x,
        None => {
            return None;
        }
    };
    let path = match field_string(fs, "path") {
        Some(x) => x,
        None => {
            return None;
        }
    };
    let total_files = match field_u32(fs, "total_files") {
        Some(x) => x,
        None => {
            return None;
        }
    };
    let total_directories = match field_u32(fs, "total_directories") {
        Some(x) => x,
        None => {
            return None;
        }
    };
    let file_extensions = match obj_get(fs, "file_extensions") {
        Some(Json::Obj(entries)) => match decode_count_entries(entries) {
            Some(v) => v,
            None => {
                return None;
            }
        },
        _ => {
            return None;
        }
    };
    let key_files = match obj_get(fs, "key_files") {
        Some(Json::Arr(items)) => match decode_string_array(items) {
            Some(v) => v,
            None => {
                return None;
            }
        },
        _ => {
            return None;
        }
    };
    let heuristic_classification = match obj_get(fs, "heuristic_classification") {
        Some(jc) => match decode_classification(jc) {
            Some(c) => c,
            None => {
                return None;
            }
        },
        None => {
            return None;
        }
    };
    let ai_classification = match obj_get(fs, "ai_classification") {
        None => None,
        Some(Json::Null) => None,
        Some(jc) => match decode_classification(jc) {
            Some(c) => Some(c),
            None => {
                return None;
            }
        },
    };
    let final_classification = match obj_get(fs, "final_classification") {
        Some(jc) => match decode_classification(jc) {
            Some(c) => c,
            None => {
                return None;
            }
        },
        None => {
            return None;
        }
    };
    let scan_duration_ms = match field_u32(fs, "scan_duration_ms") {
        Some(x) => x,
        None => {
            return None;
        }
    };
    let timestamp = match field_string(fs, "timestamp") {
        Some(x) => x,
        None => {
            return None;
        }
    };
    Some(
        ScanResponse {
            scan_id,
            path,
            total_files,
            total_directories,
            file_extensions,
            key_files,
            heuristic_classification,
            ai_classification,
            final_classification,
            scan_duration_ms,
            timestamp,
        },
    )
}

/// Whether a document has the shape of a preview response.
pub open spec fn spec_decodable_preview(j: Json) -> bool {
    match j {
        Json::Obj(fs) => {
            &&& spec_field_string(fs@, "plan_id"@) is Some
            &&& spec_field_string(fs@, "scan_id"@) is Some
            &&& spec_field_string(fs@, "source_path"@) is Some
            &&& spec_field_string(fs@, "target_path"@) is Some
            &&& match spec_obj_get(fs@, "operations"@) {
                Some(Json::Arr(items)) => all_steps(items@),
                _ => false,
            }
            &&& spec_field_u32(fs@, "total_operations"@) is Some
            &&& spec_field_numtext(fs@, "estimated_time_seconds"@) is Some
            &&& spec_field_u32(fs@, "total_files"@) is Some
            &&& spec_field_u64(fs@, "total_size_bytes"@) is Some
            &&& spec_field_u32(fs@, "conflicts_found"@) is Some
            &&& match spec_obj_get(fs@, "safety_warnings"@) {
                Some(Json::Arr(items)) => all_strings(items@),
                _ => false,
            }
            &&& spec_field_string(fs@, "timestamp"@) is Some
        },
        _ => false,
    }
}

/// `v` is the preview response the document holds.
pub open spec fn spec_decoded_preview(j: Json, v: OrganizePreviewResponse) -> bool {
    match j {
        Json::Obj(fs) => {
            &&& spec_field_string(fs@, "plan_id"@) == Some(v.plan_id)
            &&& spec_field_string(fs@, "scan_id"@) == Some(v.scan_id)
            &&& spec_field_string(fs@, "source_path"@) == Some(v.source_path)
            &&& spec_field_string(fs@, "target_path"@) == Some(v.target_path)
            &&& match spec_obj_get(fs@, "operations"@) {
                Some(Json::Arr(items)) => all_steps(items@) && spec_decoded_steps(
                    items@,
                    v.operations@,
                ),
                _ => false,
            }
            &&& spec_field_u32(fs@, "total_operations"@) == Some(v.total_operations)
            &&& spec_field_numtext(fs@, "estimated_time_seconds"@) == Some(
                v.estimated_time_seconds,
            )
            &&& spec_field_u32(fs@, "total_files"@) == Some(v.total_files)
            &&& spec_field_u64(fs@, "total_size_bytes"@) == Some(v.total_size_bytes)
            &&& spec_field_u32(fs@, "conflicts_found"@) == Some(v.conflicts_found)
            &&& match spec_obj_get(fs@, "safety_warnings"@) {
                Some(Json::Arr(items)) => all_strings(items@) && v.safety_warnings@
                    == items@.map_values(|x: Json| str_of(x)),
                _ => false,
            }
            &&& spec_field_string(fs@, "timestamp"@) == Some(v.timestamp)
        },
        _ => false,
    }
}

/// Decodes a preview response.
pub fn decode_preview(j: &Json) -> (r: Option<OrganizePreviewResponse>)
    ensures
        match r {
            Some(v) => spec_decoded_preview(*j, v),
            None => !spec_decodable_preview(*j),
        },
{
    let fs = match j {
        Json::Obj(fs) => fs,
        _ => {
            return None;
        }
    };
    let plan_id = match field_string(fs, "plan_id") {
        Some(x) => x,
        None => {
            return None;
        }
    };
    let scan_id = match field_string(fs, "scan_id") {
        Some(x) => x,
        None => {
            return None;
        }
    };
    let source_path = match field_string(fs, "source_path") {
        Some(x) => x,
        None => {
            return None;
        }
    };
    let target_path = match field_string(fs, "target_path") {
        Some(x) => x,
        None => {
            return None;
        }
    };
    let operations = match obj_get(fs, "operations") {
        Some(Json::Arr(items)) => match decode_steps(items) {
            Some(v) => v,
            None => {
                return None;
            }
        },
        _ => {
            return None;
        }
    };
    let total_operations = match field_u32(fs, "total_operations") {
        Some(x) => x,
        None => {
            return None;
        }
    };
    let estimated_time_seconds = match field_numtext(fs, "estimated_time_seconds") {
        Some(x) => x,
        None => {
            return None;
        }
    };
    let total_files = match field_u32(fs, "total_files") {
        Some(x) => x,
        None => {
            return None;
        }
    };
    let total_size_bytes = match field_u64(fs, "total_size_bytes") {
        Some(x) => x,
        None => {
            return None;
        }
    };
    let conflicts_found = match field_u32(fs, "conflicts_found") {
        Some(x) => x,
        None => {
            return None;
        }
    };
    let safety_warnings = match obj_get(fs, "safety_warnings") {
        Some(Json::Arr(items)) => match decode_string_array(items) {
            Some(v) => v,
            None => {
                return None;
            }
        },
        _ => {
            return None;
        }
    };
    let timestamp = match field_string(fs, "timestamp") {
        Some(x) => x,
        None => {
            return None;
        }
    };
    Some(
        OrganizePreviewResponse {
            plan_id,
            scan_id,
            source_path,
            target_path,
            operations,
            total_operations,
            estimated_time_seconds,
            total_files,
            total_size_bytes,
            conflicts_found,
            safety_warnings,
            timestamp,
        },
    )
}

/// `j` is the JSON number `u`.
pub open spec fn is_uint_json(j: Json, u: u64) -> bool {
    match j {
        Json::Num(t, i) => t@ == crate::json::dec_str_of(u as nat) && i == Some(u),
        _ => false,
    }
}

/// `r` is the wire form of the scan request: `ai_model` is omitted when
/// absent, every other field is written in order.
pub open spec fn spec_scan_request_json(req: ScanRequest, r: Json) -> bool {
    match r {
        Json::Obj(fs) => match req.ai_model {
            Some(m) => {
                &&& fs@.len() == 4
                &&& fs@[0].0@ == "path"@ && fs@[0].1 == Json::Str(req.path)
                &&& fs@[1].0@ == "use_ai"@ && fs@[1].1 == Json::Bool(req.use_ai)
                &&& fs@[2].0@ == "ai_model"@ && fs@[2].1 == Json::Str(m)
                &&& fs@[3].0@ == "max_files"@ && is_uint_json(fs@[3].1, req.max_files as u64)
            },
            None => {
                &&& fs@.len() == 3
                &&& fs@[0].0@ == "path"@ && fs@[0].1 == Json::Str(req.path)
                &&& fs@[1].0@ == "use_ai"@ && fs@[1].1 == Json::Bool(req.use_ai)
                &&& fs@[2].0@ == "max_files"@ && is_uint_json(fs@[2].1, req.max_files as u64)
            },
        },
        _ => false,
    }
}

impl ScanRequest {
    /// The wire form of this request.
    pub fn to_json(&self) -> (r: Json)
        ensures
            spec_scan_request_json(*self, r),
    {
        let mut fs: Vec<(String, Json)> = Vec::new();
        fs.push((String::from_str("path"), Json::Str(self.path.clone())));
        fs.push((String::from_str("use_ai"), Json::Bool(self.use_ai)));
        match &self.ai_model {
            Some(m) => {
                fs.push((String::from_str("ai_model"), Json::Str(m.clone())));
            }
            None => {
            }
        }
        fs.push((String::from_str("max_files"), crate::json::json_uint(self.max_files as u64)));
        Json::Obj(fs)
    }

    /// Decodes a scan request, applying the documented defaults.
    pub fn from_json(j: &Json) -> (r: Option<ScanRequest>)
        ensures
            match r {
                Some(v) => spec_decoded_scan_request(*j, v),
                None => !spec_decodable_scan_request(*j),
            },
    {
        let fs = match j {
            Json::Obj(fs) => fs,
            _ => {
                return None;
            }
        };
        let path = match field_string(fs, "path") {
            Some(x) => x,
            None => {
                return None;
            }
        };
        let use_ai = match field_bool(fs, "use_ai") {
            Some(x) => x,
            None => {
                return None;
            }
        };
        let ai_model = match field_opt_string(fs, "ai_model") {
            Some(x) => x,
            None => {
                return None;
            }
        };
        let max_files = match obj_get(fs, "max_files") {
            None => crate::types::default_max_files(),
            Some(_) => match field_u32(fs, "max_files") {
                Some(x) => x,
                None => {
                    return None;
                }
            },
        };
        Some(ScanRequest { path, use_ai, ai_model, max_files })
    }
}

/// `v` is the scan request the document holds, with the documented
/// defaults for missing fields: `max_files` falls back to 10000,
/// `ai_model` may be absent or null.
pub open spec fn spec_decoded_scan_request(j: Json, v: ScanRequest) -> bool {
    match j {
        Json::Obj(fs) => {
            &&& spec_field_string(fs@, "path"@) == Some(v.path)
            &&& spec_field_bool(fs@, "use_ai"@) == Some(v.use_ai)
            &&& spec_field_opt_string(fs@, "ai_model"@) == Some(v.ai_model)
            &&& match spec_obj_get(fs@, "max_files"@) {
                None => v.max_files == 10000u32,
                Some(n) => spec_field_u32(fs@, "max_files"@) == Some(v.max_files),
            }
        },
        _ => false,
    }
}

/// Whether a document has the shape of a scan request.
pub open spec fn spec_decodable_scan_request(j: Json) -> bool {
    match j {
        Json::Obj(fs) => {
            &&& spec_field_string(fs@, "path"@) is Some
            &&& spec_field_bool(fs@, "use_ai"@) is Some
            &&& spec_field_opt_string(fs@, "ai_model"@) is Some
            &&& match spec_obj_get(fs@, "max_files"@) {
                None => true,
                Some(_) => spec_field_u32(fs@, "max_files"@) is Some,
            }
        },
        _ => false,
    }
}


/// `v` is the preview request the document holds, with the documented
/// defaults: `conflict_resolution` falls back to "rename",
/// `create_backup` to true; the two optional names may be absent or null.
pub open spec fn spec_decoded_preview_request(j: Json, v: OrganizePreviewRequest) -> bool {
    match j {
        Json::Obj(fs) => {
            &&& spec_field_string(fs@, "scan_id"@) == Some(v.scan_id)
            &&& spec_field_opt_string(fs@, "target_category"@) == Some(v.target_category)
            &&& match spec_obj_get(fs@, "conflict_resolution"@) {
                None => v.conflict_resolution@ == "rename"@,
                Some(Json::Str(s)) => v.conflict_resolution == s,
                _ => false,
            }
            &&& match spec_obj_get(fs@, "create_backup"@) {
                None => v.create_backup == true,
                Some(Json::Bool(b)) => v.create_backup == b,
                _ => false,
            }
            &&& spec_field_opt_string(fs@, "custom_name"@) == Some(v.custom_name)
        },
        _ => false,
    }
}

/// Whether a document has the shape of a preview request.
pub open spec fn spec_decodable_preview_request(j: Json) -> bool {
    match j {
        Json::Obj(fs) => {
            &&& spec_field_string(fs@, "scan_id"@) is Some
            &&& spec_field_opt_string(fs@, "target_category"@) is Some
            &&& match spec_obj_get(fs@, "conflict_resolution"@) {
                None => true,
                Some(Json::Str(_)) => true,
                _ => false,
            }
            &&& match spec_obj_get(fs@, "create_backup"@) {
                None => true,
                Some(Json::Bool(_)) => true,
                _ => false,
            }
            &&& spec_field_opt_string(fs@, "custom_name"@) is Some
        },
        _ => false,
    }
}

impl OrganizePreviewRequest {
    /// Decodes a preview request, applying the documented defaults.
    pub fn from_json(j: &Json) -> (r: Option<OrganizePreviewRequest>)
        ensures
            match r {
                Some(v) => spec_decoded_preview_request(*j, v),
                None => !spec_decodable_preview_request(*j),
            },
    {
        let fs = match j {
            Json::Obj(fs) => fs,
            _ => {
                return None;
            }
        };
        let scan_id = match field_string(fs, "scan_id") {
            Some(x) => x,
            None => {
                return None;
            }
        };
        let target_category = match field_opt_string(fs, "target_category") {
            Some(x) => x,
            None => {
                return None;
            }
        };
        let conflict_resolution = match obj_get(fs, "conflict_resolution") {
            None => crate::types::default_conflict_resolution(),
            Some(Json::Str(s)) => s.clone(),
            Some(_) => {
                return None;
            }
        };
        let create_backup = match obj_get(fs, "create_backup") {
            None => crate::types::default_create_backup(),
            Some(Json::Bool(b)) => *b,
            Some(_) => {
                return None;
            }
        };
        let custom_name = match field_opt_string(fs, "custom_name") {
            Some(x) => x,
            None => {
                return None;
            }
        };
        Some(
            OrganizePreviewRequest {
                scan_id,
                target_category,
                conflict_resolution,
                create_backup,
                custom_name,
            },
        )
    }

    /// The wire form of this request: the two optional names are omitted
    /// when absent, every other field is written in order.
    pub fn to_json(&self) -> (r: Json)
        ensures
            spec_preview_request_json(*self, r),
    {
        let mut fs: Vec<(String, Json)> = Vec::new();
        fs.push((String::from_str("scan_id"), Json::Str(self.scan_id.clone())));
        match &self.target_category {
            Some(c) => {
                fs.push((String::from_str("target_category"), Json::Str(c.clone())));
            }
            None => {
            }
        }
        fs.push(
            (
                String::from_str("conflict_resolution"),
                Json::Str(self.conflict_resolution.clone()),
            ),
        );
        fs.push((String::from_str("create_backup"), Json::Bool(self.create_backup)));
        match &self.custom_name {
            Some(c) => {
                fs.push((String::from_str("custom_name"), Json::Str(c.clone())));
            }
            None => {
            }
        }
        Json::Obj(fs)
    }
}

/// `r` is the wire form of the preview request.
pub open spec fn spec_preview_request_json(req: OrganizePreviewRequest, r: Json) -> bool {
    match r {
        Json::Obj(fs) => {
            let tail = match req.custom_name {
                Some(c) => fs@.len() >= 1 && fs@.last().0@ == "custom_name"@ && fs@.last().1
                    == Json::Str(c),
                None => true,
            };
            let n_opt: int = (if req.target_category is Some {
                1int
            } else {
                0int
            }) + (if req.custom_name is Some {
                1int
            } else {
                0int
            });
            let mid: int = if req.target_category is Some {
                2int
            } else {
                1int
            };
            &&& fs@.len() == 3 + n_opt
            &&& fs@[0].0@ == "scan_id"@ && fs@[0].1 == Json::Str(req.scan_id)
            &&& match req.target_category {
                Some(c) => fs@[1].0@ == "target_category"@ && fs@[1].1 == Json::Str(c),
                None => true,
            }
            &&& fs@[mid].0@ == "conflict_resolution"@ && fs@[mid].1 == Json::Str(
                req.conflict_resolution,
            )
            &&& fs@[mid + 1].0@ == "create_backup"@ && fs@[mid + 1].1 == Json::Bool(
                req.create_backup,
            )
            &&& tail
        },
        _ => false,
    }
}

/// `r` is the wire form of the execute request.
pub open spec fn spec_execute_request_json(req: OrganizeExecuteRequest, r: Json) -> bool {
    match r {
        Json::Obj(fs) => {
            &&& fs@.len() == 2
            &&& fs@[0].0@ == "plan_id"@ && fs@[0].1 == Json::Str(req.plan_id)
            &&& fs@[1].0@ == "confirm_execution"@ && fs@[1].1 == Json::Bool(req.confirm_execution)
        },
        _ => false,
    }
}

impl OrganizeExecuteRequest {
    /// The wire form of this request.
    pub fn to_json(&self) -> (r: Json)
        ensures
            spec_execute_request_json(*self, r),
    {
        let mut fs: Vec<(String, Json)> = Vec::new();
        fs.push((String::from_str("plan_id"), Json::Str(self.plan_id.clone())));
        fs.push((String::from_str("confirm_execution"), Json::Bool(self.confirm_execution)));
        Json::Obj(fs)
    }
}

/// `r` is the wire form of the project-creation request; the options map
/// is written as an object, entry for entry.
pub open spec fn spec_create_project_request_json(req: CreateProjectRequest, r: Json) -> bool {
    match r {
        Json::Obj(fs) => {
            &&& fs@.len() == 5
            &&& fs@[0].0@ == "template_id"@ && fs@[0].1 == Json::Str(req.template_id)
            &&& fs@[1].0@ == "project_name"@ && fs@[1].1 == Json::Str(req.project_name)
            &&& fs@[2].0@ == "target_directory"@ && fs@[2].1 == Json::Str(req.target_directory)
            &&& fs@[3].0@ == "initialize_git"@ && fs@[3].1 == Json::Bool(req.initialize_git)
            &&& fs@[4].0@ == "options"@ && match fs@[4].1 {
                Json::Obj(entries) => {
                    &&& entries@.len() == req.options@.len()
                    &&& forall|i: int|
                        0 <= i < req.options@.len() ==> (#[trigger] entries@[i]).0
                            == req.options@[i].0 && entries@[i].1 == Json::Str(req.options@[i].1)
                },
                _ => false,
            }
        },
        _ => false,
    }
}

impl CreateProjectRequest {
    /// The wire form of this request.
    pub fn to_json(&self) -> (r: Json)
        ensures
            spec_create_project_request_json(*self, r),
    {
        let mut entries: Vec<(String, Json)> = Vec::new();
        let n = self.options.len();
        let mut i: usize = 0;
        while i < n
            invariant
                n == self.options@.len(),
                i <= n,
                entries@.len() == i,
                forall|k: int|
                    0 <= k < i ==> (#[trigger] entries@[k]).0 == self.options@[k].0
                        && entries@[k].1 == Json::Str(self.options@[k].1),
            decreases n - i,
        {
            entries.push((self.options[i].0.clone(), Json::Str(self.options[i].1.clone())));
            i = i + 1;
        }
        let mut fs: Vec<(String, Json)> = Vec::new();
        fs.push((String::from_str("template_id"), Json::Str(self.template_id.clone())));
        fs.push((String::from_str("project_name"), Json::Str(self.project_name.clone())));
        fs.push((String::from_str("target_directory"), Json::Str(self.target_directory.clone())));
        fs.push((String::from_str("initialize_git"), Json::Bool(self.initialize_git)));
        fs.push((String::from_str("options"), Json::Obj(entries)));
        Json::Obj(fs)
    }
}

/// `r` is the wire form of the error payload.
pub open spec fn spec_error_response_json(e: ErrorResponse, r: Json) -> bool {
    match r {
        Json::Obj(fs) => {
            &&& fs@.len() == 3
            &&& fs@[0].0@ == "error"@ && fs@[0].1 == Json::Str(e.error)
            &&& fs@[1].0@ == "detail"@ && fs@[1].1 == Json::Str(e.detail)
            &&& fs@[2].0@ == "timestamp"@ && fs@[2].1 == Json::Str(e.timestamp)
        },
        _ => false,
    }
}

impl ErrorResponse {
    /// The wire form of this payload.
    pub fn to_json(&self) -> (r: Json)
        ensures
            spec_error_response_json(*self, r),
    {
        let mut fs: Vec<(String, Json)> = Vec::new();
        fs.push((String::from_str("error"), Json::Str(self.error.clone())));
        fs.push((String::from_str("detail"), Json::Str(self.detail.clone())));
        fs.push((String::from_str("timestamp"), Json::Str(self.timestamp.clone())));
        Json::Obj(fs)
    }
}

} // verus!
