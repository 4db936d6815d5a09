use vstd::prelude::*;
use crate::command_input_json::{load_json_object, not_object_message};
use crate::json::{entries_view, Json, JsonValue};
use crate::text::{cat, cat5};
use serde_json::Value;

verus! {

#[verifier::external_type_specification]
#[verifier::external_body]
pub struct ExJsonDocument(serde_json::Value);

/// What `serde_json::from_str::<serde_json::Value>` makes of a text: the
/// document it holds, or the text of the parse error.
pub uninterp spec fn json_parse_result(text: Seq<char>) -> Result<Json, Seq<char>>;

/// A parsed `serde_json` document as the library holds it, one for one: a
/// number as an unsigned or a negative integer where it is one, else as a
/// float by its bit pattern; object entries in the map's (ascending) order.
#[verifier::external_body]
fn library_value(v: &Value) -> JsonValue {
    match v {
        Value::Null => JsonValue::Null,
        Value::Bool(b) => JsonValue::Bool(*b),
        Value::Number(n) => match (n.as_u64(), n.as_i64()) {
            (Some(u), _) => JsonValue::UInt(u),
            (None, Some(i)) => JsonValue::NegInt(i),
            _ => JsonValue::Float(n.as_f64().unwrap_or_default().to_bits()),
        },
        Value::String(s) => JsonValue::Str(s.clone()),
        Value::Array(a) => JsonValue::Array(a.iter().map(library_value).collect()),
        Value::Object(m) => JsonValue::Object(
            m.iter().map(|(k, x)| (k.clone(), library_value(x))).collect(),
        ),
    }
}

/// `serde_json::from_str::<serde_json::Value>(text)`, the document held as
/// the library holds it and the error by its text. The result is named by
/// `json_parse_result`.
#[verifier::external_body]
pub(crate) fn parse_json_text(text: &str) -> (r: Result<JsonValue, String>)
    ensures
        match r {
            Ok(v) => json_parse_result(text@) == Ok::<Json, Seq<char>>(v@),
            Err(m) => json_parse_result(text@) == Err::<Json, Seq<char>>(m@),
        },
{
    match serde_json::from_str::<serde_json::Value>(text) {
        Ok(v) => Ok(library_value(&v)),
        Err(e) => Err(e.to_string()),
    }
}

/// The document that a JSON text holds, or the text of the parse error.
pub fn parse_document(text: &str) -> (r: Result<JsonValue, String>)
    ensures
        match json_parse_result(text@) {
            Ok(d) => r matches Ok(v) && v@ == d,
            Err(e) => r matches Err(m) && m@ == e,
        },
{
    parse_json_text(text)
}

/// "parse KIND `PATH`: DETAIL"
pub open spec fn parse_failure_message(kind: Seq<char>, path: Seq<char>, detail: Seq<char>) -> Seq<char> {
    "parse "@ + kind + " `"@ + path + "`: "@ + detail
}

/// The document that the text of the file at `path` holds, or
/// "parse KIND `PATH`: DETAIL" where it holds no JSON.
pub fn json_document_from_text(text: &str, path: &str, kind: &str) -> (r: Result<JsonValue, String>)
    ensures
        match json_parse_result(text@) {
            Ok(d) => r matches Ok(v) && v@ == d,
            Err(e) => r matches Err(m) && m@ == parse_failure_message(kind@, path@, e),
        },
{
    match parse_json_text(text) {
        Ok(v) => Ok(v),
        Err(e) => {
            let m = cat5("parse ", kind, " `", path, "`: ");
            Err(cat(m.as_str(), e.as_str()))
        },
    }
}

/// The object that the text of the file at `path` holds; else
/// "parse KIND `PATH`: DETAIL" where it holds no JSON, or
/// "KIND `PATH` must be an object" where it holds something else.
pub fn json_object_from_text(text: &str, path: &str, kind: &str) -> (r: Result<
    Vec<(String, JsonValue)>,
    String,
>)
    ensures
        match json_parse_result(text@) {
            Ok(Json::Object(es)) => r matches Ok(o) && entries_view(o@) == es,
            Ok(_) => r matches Err(m) && m@ == not_object_message(path@, kind@),
            Err(e) => r matches Err(m) && m@ == parse_failure_message(kind@, path@, e),
        },
{
    let document = json_document_from_text(text, path, kind)?;
    match load_json_object(&document, path, kind) {
        Ok(o) => Ok(o),
        Err(e) => Err(e.message()),
    }
}

} // verus!
