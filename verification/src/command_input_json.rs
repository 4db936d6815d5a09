use vstd::prelude::*;
use crate::fields::{
    all_strings, strings_of, field_failure, field_message, read_failure, str_field, str_of, u64_field, u64_of,
    value_field, value_of, ReadKind,
};
use crate::json::{
    entries_get, entries_view, items_view, json_clone, lemma_array_view, map_get, Json,
    JsonValue,
};
use crate::text::{blank, is_blank};
use vstd::string::StringExecFns;

verus! {

/// An error of reading a command's JSON input.
#[derive(Debug)]
pub enum CommandInputJsonError {
    Io(std::io::Error),
    Parse(String),
}

/// The text of a `Parse` error; `None` for `Io`.
pub open spec fn input_error_text(e: CommandInputJsonError) -> Option<Seq<char>> {
    match e {
        CommandInputJsonError::Parse(m) => Some(m@),
        CommandInputJsonError::Io(_) => None,
    }
}

impl CommandInputJsonError {
    /// The error's message, as it is displayed.
    pub fn message(&self) -> (r: String)
        ensures
            self matches CommandInputJsonError::Parse(m) ==> r@ == m@,
    {
        match self {
            CommandInputJsonError::Parse(m) => m.clone(),
            CommandInputJsonError::Io(_) => String::from_str("io error"),
        }
    }
}

/// KIND `PATH` must be an object
pub open spec fn not_object_message(path: Seq<char>, kind: Seq<char>) -> Seq<char> {
    kind + " `"@ + path + "` must be an object"@
}

/// The object that a parsed document holds, or the error that it is no
/// object. (Reading and parsing the file happen before.)
pub fn load_json_object(document: &JsonValue, path: &str, kind: &str) -> (r: Result<
    Vec<(String, JsonValue)>,
    CommandInputJsonError,
>)
    ensures
        match r {
            Ok(o) => document@ == Json::Object(entries_view(o@)),
            Err(e) => !(document@ is Object) && input_error_text(e) == Some(
                not_object_message(path@, kind@),
            ),
        },
{
    match document {
        JsonValue::Object(entries) => {
            let c = json_clone(document);
            match c {
                JsonValue::Object(es) => {
                    proof {
                        crate::json::lemma_object_view(es);
                    }
                    Ok(es)
                },
                _ => Err(CommandInputJsonError::Parse(String::new())),
            }
        },
        _ => {
            let mut m = String::from_str(kind);
            m.append(" `");
            m.append(path);
            m.append("` must be an object");
            Err(CommandInputJsonError::Parse(m))
        },
    }
}

fn failure(m: String) -> (e: CommandInputJsonError)
    ensures
        input_error_text(e) == Some(m@),
{
    CommandInputJsonError::Parse(m)
}

/// The string field `key`; else "KIND `PATH` missing string field `KEY`".
pub fn read_string(object: &Vec<(String, JsonValue)>, key: &str, path: &str, kind: &str) -> (r:
    Result<String, CommandInputJsonError>)
    ensures
        match r {
            Ok(s) => read_failure(entries_view(object@), key@, ReadKind::Str, path@, kind@) is None
                && s@ == str_of(entries_view(object@), key@),
            Err(e) => input_error_text(e) == read_failure(
                entries_view(object@),
                key@,
                ReadKind::Str,
                path@,
                kind@,
            ) && input_error_text(e) is Some,
        },
{
    match field_failure(object, key, &ReadKind::Str, path, kind) {
        Some(m) => Err(failure(m)),
        None => Ok(str_field(object, key)),
    }
}

/// The string field `key` when it is not blank; else the same message as
/// [`read_string`].
pub fn read_non_empty_string(object: &Vec<(String, JsonValue)>, key: &str, path: &str, kind: &str) -> (r:
    Result<String, CommandInputJsonError>)
    ensures
        match r {
            Ok(s) => read_failure(entries_view(object@), key@, ReadKind::FilledStr, path@, kind@) is None
                && s@ == str_of(entries_view(object@), key@),
            Err(e) => input_error_text(e) == read_failure(
                entries_view(object@),
                key@,
                ReadKind::FilledStr,
                path@,
                kind@,
            ) && input_error_text(e) is Some,
        },
{
    match field_failure(object, key, &ReadKind::FilledStr, path, kind) {
        Some(m) => Err(failure(m)),
        None => Ok(str_field(object, key)),
    }
}

/// The non-negative integer field `key`; else "KIND `PATH` missing
/// integer field `KEY`".
pub fn read_u64(object: &Vec<(String, JsonValue)>, key: &str, path: &str, kind: &str) -> (r: Result<
    u64,
    CommandInputJsonError,
>)
    ensures
        match r {
            Ok(n) => read_failure(entries_view(object@), key@, ReadKind::U64, path@, kind@) is None
                && n == u64_of(entries_view(object@), key@),
            Err(e) => input_error_text(e) == read_failure(
                entries_view(object@),
                key@,
                ReadKind::U64,
                path@,
                kind@,
            ) && input_error_text(e) is Some,
        },
{
    match field_failure(object, key, &ReadKind::U64, path, kind) {
        Some(m) => Err(failure(m)),
        None => Ok(u64_field(object, key)),
    }
}

/// The array field `key`, copied; else "KIND `PATH` missing array field
/// `KEY`".
pub fn read_array(object: &Vec<(String, JsonValue)>, key: &str, path: &str, kind: &str) -> (r: Result<
    JsonValue,
    CommandInputJsonError,
>)
    ensures
        match r {
            Ok(v) => read_failure(entries_view(object@), key@, ReadKind::Array, path@, kind@) is None
                && v@ == value_of(entries_view(object@), key@),
            Err(e) => input_error_text(e) == read_failure(
                entries_view(object@),
                key@,
                ReadKind::Array,
                path@,
                kind@,
            ) && input_error_text(e) is Some,
        },
{
    match field_failure(object, key, &ReadKind::Array, path, kind) {
        Some(m) => Err(failure(m)),
        None => Ok(value_field(object, key)),
    }
}

/// The field `key`, of any kind, copied; else "KIND `PATH` missing field
/// `KEY`".
pub fn read_object(object: &Vec<(String, JsonValue)>, key: &str, path: &str, kind: &str) -> (r: Result<
    JsonValue,
    CommandInputJsonError,
>)
    ensures
        match r {
            Ok(v) => read_failure(entries_view(object@), key@, ReadKind::Any, path@, kind@) is None
                && v@ == value_of(entries_view(object@), key@),
            Err(e) => input_error_text(e) == read_failure(
                entries_view(object@),
                key@,
                ReadKind::Any,
                path@,
                kind@,
            ) && input_error_text(e) is Some,
        },
{
    match field_failure(object, key, &ReadKind::Any, path, kind) {
        Some(m) => Err(failure(m)),
        None => Ok(value_field(object, key)),
    }
}

/// The array field `key` of strings; else "KIND `PATH` missing array
/// field `KEY`", or "KIND `PATH` field `KEY` must contain only strings"
/// when an item is no string.
pub fn read_string_array(object: &Vec<(String, JsonValue)>, key: &str, path: &str, kind: &str) -> (r:
    Result<Vec<String>, CommandInputJsonError>)
    ensures
        match entries_get(entries_view(object@), key@) {
            Some(Json::Array(items)) => if all_strings(items) {
                r is Ok && Seq::new(r->Ok_0.len() as nat, |i: int| r->Ok_0[i]@) == strings_of(
                    items,
                )
            } else {
                r is Err && input_error_text(r->Err_0) == Some(
                    kind@ + " `"@ + path@ + "` field `"@ + key@ + "` must contain only strings"@,
                )
            },
            _ => r is Err && input_error_text(r->Err_0) == Some(
                field_message(kind@, path@, " missing array field `"@, key@),
            ),
        },
{
    match map_get(object, key) {
        Some(JsonValue::Array(items)) => {
            proof {
                lemma_array_view(*items);
            }
            let ghost iv = items_view(items@);
            let mut out: Vec<String> = Vec::new();
            let mut i: usize = 0;
            while i < items.len()
                invariant
                    iv == items_view(items@),
                    entries_get(entries_view(object@), key@) == Some(Json::Array(iv)),
                    i <= items.len(),
                    out.len() == i,
                    forall|j: int| 0 <= j < i ==> iv[j] is Str && out[j]@ == iv[j]->Str_0,
                decreases items.len() - i,
            {
                match &items[i] {
                    JsonValue::Str(s) => {
                        out.push(s.clone());
                    },
                    _ => {
                        assert(!(iv[i as int] is Str));
                        assert(!all_strings(iv));
                        let mut m = String::from_str(kind);
                        m.append(" `");
                        m.append(path);
                        m.append("` field `");
                        m.append(key);
                        m.append("` must contain only strings");
                        return Err(failure(m));
                    },
                }
                i += 1;
            }
            assert(Seq::new(out.len() as nat, |i: int| out[i]@) =~= strings_of(iv));
            Ok(out)
        },
        _ => Err(failure(crate::fields::message_field(kind, path, " missing array field `", key))),
    }
}

/// The string field `key` when it is not blank, else `None`.
pub fn read_optional_string(object: &Vec<(String, JsonValue)>, key: &str) -> (r: Option<String>)
    ensures
        match entries_get(entries_view(object@), key@) {
            Some(Json::Str(s)) => if is_blank(s) {
                r is None
            } else {
                r matches Some(t) && t@ == s
            },
            _ => r is None,
        },
{
    match map_get(object, key) {
        Some(JsonValue::Str(s)) => if blank(s.as_str()) {
            None
        } else {
            Some(s.clone())
        },
        _ => None,
    }
}

/// KIND `PATH` must contain an `entries` array
pub open spec fn no_entries_message(path: Seq<char>, kind: Seq<char>) -> Seq<char> {
    kind + " `"@ + path + "` must contain an `entries` array"@
}

/// The history document, copied, when it holds an `entries` array;
/// else the error saying so. (Reading and parsing the file happen before.)
pub fn load_history(history: &JsonValue, path: &str, kind: &str) -> (r: Result<
    JsonValue,
    CommandInputJsonError,
>)
    ensures
        match history@.field("entries"@) {
            Some(Json::Array(_)) => r is Ok && r->Ok_0@ == history@,
            _ => r is Err && input_error_text(r->Err_0) == Some(no_entries_message(path@, kind@)),
        },
{
    let has_entries = match history {
        JsonValue::Object(es) => {
            proof {
                crate::json::lemma_object_view(*es);
            }
            match map_get(es, "entries") {
                Some(JsonValue::Array(_)) => true,
                _ => false,
            }
        },
        _ => false,
    };
    if has_entries {
        Ok(json_clone(history))
    } else {
        let mut m = String::from_str(kind);
        m.append(" `");
        m.append(path);
        m.append("` must contain an `entries` array");
        Err(failure(m))
    }
}

} // verus!
