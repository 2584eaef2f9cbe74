//! The boundary between [`Json`](crate::json::Json) documents and JSON text.
//!
//! Reading and writing JSON text is delegated to the `serde_json` crate;
//! the two functions here are the only places the library touches it.
//! Both results are functions of their argument alone, so each is given a
//! name that the callers' contracts speak of.

use vstd::prelude::*;

verus! {

use crate::json::Json;

/// Declares `serde_json::Value`, the outside crate's document type, so
/// that the two converters below can take and return it; the library
/// never looks inside such a value.
#[verifier::external_type_specification]
#[verifier::external_body]
pub struct ExValue(serde_json::Value);

/// What parsing a JSON text yields: the document, or the parser's error
/// message.
pub uninterp spec fn parsed_json_of(text: Seq<char>) -> Result<Json, String>;

/// The compact JSON text of a document.
pub uninterp spec fn json_text_of(j: Json) -> Seq<char>;

/// Relies on `serde_json::Value`: one arm per variant, mapped to the matching
/// [`Json`] constructor; a number keeps its decimal text, and its `u64`
/// value beside it when it has one.
#[verifier::external_body]
fn json_of_value(v: &serde_json::Value) -> Json {
    match v {
        serde_json::Value::Null => Json::Null,
        serde_json::Value::Bool(b) => Json::Bool(*b),
        serde_json::Value::Number(n) => Json::Num(n.to_string(), n.as_u64()),
        serde_json::Value::String(s) => Json::Str(s.clone()),
        serde_json::Value::Array(a) => Json::Arr(a.iter().map(json_of_value).collect()),
        serde_json::Value::Object(m) => Json::Obj(
            m.iter().map(|(k, x)| (k.clone(), json_of_value(x))).collect(),
        ),
    }
}

/// Relies on `serde_json::value::Value`: one arm per [`Json`] variant, mapped
/// to the matching `Value` constructor.  A number renders from its `u64`
/// value when it has one, else from its text; text that `serde_json` does
/// not accept as a number renders as `null` (the library only builds
/// number text from digits it has itself formatted).
#[verifier::external_body]
fn value_of_json(j: &Json) -> serde_json::Value {
    match j {
        Json::Null => serde_json::Value::Null,
        Json::Bool(b) => serde_json::Value::Bool(*b),
        Json::Num(_, Some(u)) => serde_json::Value::from(*u),
        Json::Num(s, None) => serde_json::from_str::<serde_json::Number>(s)
            .map(serde_json::Value::Number)
            .unwrap_or(serde_json::Value::Null),
        Json::Str(s) => serde_json::Value::String(s.clone()),
        Json::Arr(a) => serde_json::Value::Array(a.iter().map(value_of_json).collect()),
        Json::Obj(fs) => serde_json::Value::Object(
            fs.iter().map(|(k, v)| (k.clone(), value_of_json(v))).collect(),
        ),
    }
}

/// Relies on `serde_json::from_str`: parsing is a function of the text alone;
/// an error is reported through the error's message.
#[verifier::external_body]
pub fn parse_json(text: &str) -> (r: Result<Json, String>)
    ensures
        r == parsed_json_of(text@),
{
    match serde_json::from_str::<serde_json::Value>(text) {
        Ok(v) => Ok(json_of_value(&v)),
        Err(e) => Err(e.to_string()),
    }
}

/// Relies on `serde_json`'s compact `Display` for `Value`: rendering is a
/// function of the document alone.
#[verifier::external_body]
pub fn render_json(j: &Json) -> (r: String)
    ensures
        r@ == json_text_of(*j),
{
    value_of_json(j).to_string()
}

} // verus!
