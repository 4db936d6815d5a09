use vstd::prelude::*;
use crate::json::{entries_insert, entries_view, lemma_object_view, map_insert, Json, JsonValue};
use crate::text::owned;

verus! {

/// The standard shape of an "artifact written" event: the extra fields,
/// then the path under `path_key` and the payload under `payload_key`.
pub open spec fn payload_fields_spec(
    path_key: Seq<char>,
    path: Seq<char>,
    payload_key: Seq<char>,
    payload: Json,
    extra: Seq<(Seq<char>, Json)>,
) -> Json {
    Json::Object(entries_insert(entries_insert(extra, path_key, Json::Str(path)), payload_key, payload))
}

/// `{path_key: path, payload_key: payload}`.
pub fn path_payload_fields(path_key: &str, path: &str, payload_key: &str, payload: JsonValue) -> (r:
    JsonValue)
    ensures
        r@ == payload_fields_spec(path_key@, path@, payload_key@, payload@, Seq::empty()),
{
    let extra: Vec<(String, JsonValue)> = Vec::new();
    assert(entries_view(extra@) =~= Seq::<(Seq<char>, Json)>::empty());
    path_payload_fields_with_extra(path_key, path, payload_key, payload, extra)
}

/// The extra fields with `path_key: path` and then `payload_key: payload`
/// inserted.
pub fn path_payload_fields_with_extra(
    path_key: &str,
    path: &str,
    payload_key: &str,
    payload: JsonValue,
    extra_fields: Vec<(String, JsonValue)>,
) -> (r: JsonValue)
    ensures
        r@ == payload_fields_spec(
            path_key@,
            path@,
            payload_key@,
            payload@,
            entries_view(extra_fields@),
        ),
{
    let mut extra_fields = extra_fields;
    map_insert(&mut extra_fields, owned(path_key), JsonValue::Str(owned(path)));
    map_insert(&mut extra_fields, owned(payload_key), payload);
    proof {
        lemma_object_view(extra_fields);
    }
    JsonValue::Object(extra_fields)
}

} // verus!
