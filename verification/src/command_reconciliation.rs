use vstd::prelude::*;
use crate::fields::{
    field_failure, read_failure, str_field, str_of, u64_field, u64_of, value_field, value_of,
    ReadKind,
};
use crate::json::{
    entries_get, entries_set, entries_view, json_clone, json_eq, lemma_array_view,
    lemma_object_view, map_get, map_index, object_from_pairs, object_of, Json, JsonValue,
};
use crate::json::last_pair_value;
use crate::text::owned;
use vstd::string::StringExecFns;

verus! {

/// An error of a reconciliation command.
#[derive(Debug)]
pub enum ReconciliationError {
    Io(std::io::Error),
    Parse(String),
}

/// The text of a `Parse` error; `None` for `Io`.
pub open spec fn reconciliation_error_text(e: ReconciliationError) -> Option<Seq<char>> {
    match e {
        ReconciliationError::Parse(m) => Some(m@),
        ReconciliationError::Io(_) => None,
    }
}

fn failure(m: String) -> (e: ReconciliationError)
    ensures
        reconciliation_error_text(e) == Some(m@),
{
    ReconciliationError::Parse(m)
}

/// The object that a parsed document holds, or "KIND `PATH` must be an
/// object". (Reading and parsing the file happen before.)
pub fn load_json_object(document: &JsonValue, path: &str, kind: &str) -> (r: Result<
    Vec<(String, JsonValue)>,
    ReconciliationError,
>)
    ensures
        match r {
            Ok(o) => document@ == Json::Object(entries_view(o@)),
            Err(e) => !(document@ is Object) && reconciliation_error_text(e) == Some(
                crate::command_input_json::not_object_message(path@, kind@),
            ),
        },
{
    match crate::command_input_json::load_json_object(document, path, kind) {
        Ok(o) => Ok(o),
        Err(e) => Err(failure(e.message())),
    }
}

/// The string field `key`; else "KIND `PATH` missing string field `KEY`".
pub fn read_string(object: &Vec<(String, JsonValue)>, key: &str, path: &str, kind: &str) -> (r:
    Result<String, ReconciliationError>)
    ensures
        match r {
            Ok(s) => read_failure(entries_view(object@), key@, ReadKind::Str, path@, kind@) is None
                && s@ == str_of(entries_view(object@), key@),
            Err(e) => reconciliation_error_text(e) == read_failure(
                entries_view(object@),
                key@,
                ReadKind::Str,
                path@,
                kind@,
            ) && reconciliation_error_text(e) is Some,
        },
{
    match field_failure(object, key, &ReadKind::Str, path, kind) {
        Some(m) => Err(failure(m)),
        None => Ok(str_field(object, key)),
    }
}

/// The non-negative integer field `key`; else "KIND `PATH` missing
/// integer field `KEY`".
pub fn read_u64(object: &Vec<(String, JsonValue)>, key: &str, path: &str, kind: &str) -> (r: Result<
    u64,
    ReconciliationError,
>)
    ensures
        match r {
            Ok(n) => read_failure(entries_view(object@), key@, ReadKind::U64, path@, kind@) is None
                && n == u64_of(entries_view(object@), key@),
            Err(e) => reconciliation_error_text(e) == read_failure(
                entries_view(object@),
                key@,
                ReadKind::U64,
                path@,
                kind@,
            ) && reconciliation_error_text(e) is Some,
        },
{
    match field_failure(object, key, &ReadKind::U64, path, kind) {
        Some(m) => Err(failure(m)),
        None => Ok(u64_field(object, key)),
    }
}

/// The object field `key`, copied; else "KIND `PATH` missing object field
/// `KEY`".
pub fn read_object(object: &Vec<(String, JsonValue)>, key: &str, path: &str, kind: &str) -> (r: Result<
    Vec<(String, JsonValue)>,
    ReconciliationError,
>)
    ensures
        match r {
            Ok(o) => read_failure(entries_view(object@), key@, ReadKind::Object, path@, kind@) is None
                && Json::Object(entries_view(o@)) == value_of(entries_view(object@), key@),
            Err(e) => reconciliation_error_text(e) == read_failure(
                entries_view(object@),
                key@,
                ReadKind::Object,
                path@,
                kind@,
            ) && reconciliation_error_text(e) is Some,
        },
{
    match field_failure(object, key, &ReadKind::Object, path, kind) {
        Some(m) => Err(failure(m)),
        None => {
            let v = value_field(object, key);
            match v {
                JsonValue::Object(es) => {
                    proof {
                        lemma_object_view(es);
                    }
                    Ok(es)
                },
                _ => Err(failure(String::new())),
            }
        },
    }
}

/// The array field `key`, copied; else "KIND `PATH` missing field `KEY`"
/// when it is absent and "KIND `PATH` field `KEY` must be an array" when
/// it is no array.
pub fn read_array(object: &Vec<(String, JsonValue)>, key: &str, path: &str, kind: &str) -> (r: Result<
    JsonValue,
    ReconciliationError,
>)
    ensures
        match r {
            Ok(v) => read_failure(entries_view(object@), key@, ReadKind::ArrayStrict, path@, kind@) is None
                && v@ == value_of(entries_view(object@), key@),
            Err(e) => reconciliation_error_text(e) == read_failure(
                entries_view(object@),
                key@,
                ReadKind::ArrayStrict,
                path@,
                kind@,
            ) && reconciliation_error_text(e) is Some,
        },
{
    match field_failure(object, key, &ReadKind::ArrayStrict, path, kind) {
        Some(m) => Err(failure(m)),
        None => Ok(value_field(object, key)),
    }
}

/// "aligned" when the two states are equal as JSON values, else
/// "needs-update".
pub open spec fn status_text(desired: Json, current: Json) -> Seq<char> {
    if crate::json::json_same(desired, current) {
        "aligned"@
    } else {
        "needs-update"@
    }
}

/// "aligned" when the desired and the current state are equal, else
/// "needs-update".
pub fn reconciliation_status(desired: &JsonValue, current: &JsonValue) -> (r: &'static str)
    ensures
        r@ == status_text(desired@, current@),
{
    if json_eq(desired, current) {
        "aligned"
    } else {
        "needs-update"
    }
}

/// A history with no entries: `{"schema_version": "1", "entries": []}`.
pub open spec fn empty_history() -> Json {
    object_of(seq![("schema_version"@, Json::Str("1"@)), ("entries"@, Json::Array(Seq::empty()))])
}

/// A new history with no entries.
pub fn fresh_history() -> (r: JsonValue)
    ensures
        r@ == empty_history(),
{
    let items: Vec<JsonValue> = Vec::new();
    proof {
        crate::json::lemma_array_view(items);
    }
    assert(crate::json::items_view(items@) =~= Seq::<Json>::empty());
    let mut pairs: Vec<(String, JsonValue)> = Vec::new();
    pairs.push((String::from_str("schema_version"), JsonValue::Str(String::from_str("1"))));
    pairs.push((String::from_str("entries"), JsonValue::Array(items)));
    assert(entries_view(pairs@) =~= seq![
        ("schema_version"@, Json::Str("1"@)),
        ("entries"@, Json::Array(Seq::empty())),
    ]);
    crate::json::object_from_pairs(pairs)
}

/// reconciliation history `PATH` must contain an `entries` array
pub open spec fn bad_history_message(path: Seq<char>) -> Seq<char> {
    "reconciliation history `"@ + path + "` must contain an `entries` array"@
}

/// The history to extend: the existing one when it holds an `entries`
/// array, an empty one when there is none yet. (Whether the file exists,
/// and reading and parsing it, happen before.)
pub fn load_or_init_history(existing: Option<&JsonValue>, path: &str) -> (r: Result<
    JsonValue,
    ReconciliationError,
>)
    ensures
        match existing {
            None => r is Ok && r->Ok_0@ == empty_history(),
            Some(h) => match h@.field("entries"@) {
                Some(Json::Array(_)) => r is Ok && r->Ok_0@ == h@,
                _ => r is Err && reconciliation_error_text(r->Err_0) == Some(
                    bad_history_message(path@),
                ),
            },
        },
{
    match existing {
        None => {
            let mut pairs: Vec<(String, JsonValue)> = Vec::new();
            pairs.push((owned("schema_version"), JsonValue::Str(owned("1"))));
            let no_items: Vec<JsonValue> = Vec::new();
            proof {
                lemma_array_view(no_items);
                assert(crate::json::items_view(no_items@) =~= Seq::<Json>::empty());
            }
            pairs.push((owned("entries"), JsonValue::Array(no_items)));
            assert(crate::json::entries_view(pairs@) =~= seq![
                ("schema_version"@, Json::Str("1"@)),
                ("entries"@, Json::Array(Seq::empty())),
            ]);
            Ok(object_from_pairs(pairs))
        },
        Some(h) => match crate::command_input_json::load_history(h, path, "reconciliation history") {
            Ok(v) => Ok(v),
            Err(_) => {
                let mut m = String::from_str("reconciliation history `");
                m.append(path);
                m.append("` must contain an `entries` array");
                Err(failure(m))
            },
        },
    }
}

/// Whether the document is an object with an `entries` array.
pub open spec fn has_entries(history: Json) -> bool {
    history.field("entries"@) matches Some(Json::Array(_))
}

/// The history with `entry` added at the end of its `entries`.
pub open spec fn with_entry(history: Json, entry: Json) -> Json {
    match history {
        Json::Object(es) => Json::Object(
            entries_set(es, "entries"@, Json::Array(entries_get(es, "entries"@)->Some_0->Array_0.push(entry))),
        ),
        _ => history,
    }
}

/// Adds `entry` at the end of the history's `entries`.
pub fn append_history_entry(history: &mut JsonValue, entry: JsonValue)
    requires
        has_entries(old(history)@),
    ensures
        final(history)@ == with_entry(old(history)@, entry@),
{
    let mut h = JsonValue::Null;
    std::mem::swap(&mut h, history);
    match h {
        JsonValue::Object(mut es) => {
            proof {
                lemma_object_view(es);
            }
            let ghost before = crate::json::entries_view(es@);
            match map_index(&es, "entries") {
                Some(i) => {
                    let (k, v) = es.remove(i);
                    match v {
                        JsonValue::Array(mut items) => {
                            proof {
                                lemma_array_view(items);
                            }
                            let ghost old_items = crate::json::items_view(items@);
                            let ghost e = entry@;
                            items.push(entry);
                            proof {
                                lemma_array_view(items);
                                assert(crate::json::items_view(items@) =~= old_items.push(e));
                            }
                            let ghost nv = JsonValue::Array(items)@;
                            es.insert(i, (k, JsonValue::Array(items)));
                            proof {
                                lemma_object_view(es);
                                assert(crate::json::entries_view(es@) =~= before.update(
                                    i as int,
                                    ("entries"@, nv),
                                ));
                            }
                            *history = JsonValue::Object(es);
                        },
                        _ => {
                            es.insert(i, (k, v));
                            *history = JsonValue::Object(es);
                        },
                    }
                },
                None => {
                    *history = JsonValue::Object(es);
                },
            }
        },
        _ => {
            *history = h;
        },
    }
}

/// A reconciliation is `aligned` exactly when the desired state equals the
/// current one as a JSON value, and `needs-update` otherwise; the status
/// does not depend on which state is which, and a state is aligned with
/// itself.
pub proof fn law_reconciliation_status(
    desired_key: Seq<char>,
    desired_path: Seq<char>,
    current_key: Seq<char>,
    current_path: Seq<char>,
    desired: Json,
    current: Json,
)
    ensures
        reconciliation_spec(desired_key, desired_path, current_key, current_path, desired, current).field(
            "reconciliation_status"@,
        ) == Some(Json::Str(if crate::json::json_same(desired, current) { "aligned"@ } else { "needs-update"@ })),
        status_text(desired, current) == status_text(current, desired),
        status_text(desired, desired) == "aligned"@,
        reconciliation_spec(desired_key, desired_path, current_key, current_path, desired, current).field(
            "desired"@,
        ) == Some(desired),
{
    let pairs = seq![
        ("schema_version"@, Json::Str("1"@)),
        (desired_key, Json::Str(desired_path)),
        (current_key, Json::Str(current_path)),
        ("desired"@, desired),
        ("current"@, with_field(current, current_key, Json::Str(current_path))),
        ("reconciliation_status"@, Json::Str(status_text(desired, current))),
    ];
    crate::json::lemma_object_of_field(pairs, "reconciliation_status"@);
    crate::json::lemma_object_of_field(pairs, "desired"@);
    crate::json::lemma_json_same_symmetric(desired, current);
    crate::json::lemma_json_same_reflexive(desired);
    reveal_strlit("reconciliation_status");
    reveal_strlit("desired");
    reveal_strlit("current");
    assert("current"@ != "desired"@) by {
        assert("current"@[0] != "desired"@[0]);
    }
    assert("reconciliation_status"@ != "desired"@) by {
        assert("reconciliation_status"@.len() != "desired"@.len());
    }
    assert(pairs.last().0 == "reconciliation_status"@);
    assert(pairs.drop_last().last().0 == "current"@);
    assert(pairs.drop_last().drop_last().last().0 == "desired"@);
    assert(last_pair_value(pairs, "desired"@) == last_pair_value(pairs.drop_last(), "desired"@));
    assert(last_pair_value(pairs.drop_last(), "desired"@) == last_pair_value(
        pairs.drop_last().drop_last(),
        "desired"@,
    ));
    assert(last_pair_value(pairs.drop_last().drop_last(), "desired"@) == Some(desired));
}

/// The entries of a history.
pub open spec fn history_entries(history: Json) -> Seq<Json> {
    history.field("entries"@)->Some_0->Array_0
}

/// Appending to a history keeps every entry it had, in order, and puts the
/// new entry last; the history stays one with an `entries` array.
pub proof fn law_history_append(history: Json, entry: Json)
    requires
        has_entries(history),
    ensures
        has_entries(with_entry(history, entry)),
        history_entries(with_entry(history, entry)) == history_entries(history).push(entry),
{
    let es = history->Object_0;
    let items = entries_get(es, "entries"@)->Some_0->Array_0;
    lemma_get_after_set(es, "entries"@, Json::Array(items.push(entry)));
}

proof fn lemma_get_after_set(es: Seq<(Seq<char>, Json)>, k: Seq<char>, v: Json)
    requires
        entries_get(es, k) is Some,
    ensures
        entries_get(crate::json::entries_set(es, k, v), k) == Some(v),
    decreases es.len(),
{
    if es[0].0 == k {
    } else {
        lemma_get_after_set(es.drop_first(), k, v);
        let u = seq![es[0]] + crate::json::entries_set(es.drop_first(), k, v);
        assert(u.drop_first() =~= crate::json::entries_set(es.drop_first(), k, v));
    }
}

/// A new history holds no entries, so one append gives a history with the
/// appended entry alone.
pub proof fn law_first_append(entry: Json)
    ensures
        has_entries(empty_history()),
        history_entries(empty_history()) == Seq::<Json>::empty(),
        history_entries(with_entry(empty_history(), entry)) == seq![entry],
{
    let pairs = seq![("schema_version"@, Json::Str("1"@)), ("entries"@, Json::Array(Seq::empty()))];
    crate::json::lemma_object_of_field(pairs, "entries"@);
    law_history_append(empty_history(), entry);
    assert(Seq::<Json>::empty().push(entry) =~= seq![entry]);
}

/// The document with `(key, value)` put in, when it is an object.
pub open spec fn with_field(doc: Json, key: Seq<char>, value: Json) -> Json {
    match doc {
        Json::Object(es) => Json::Object(crate::json::entries_insert(es, key, value)),
        _ => doc,
    }
}

/// A reconciliation of a desired state with the current one: both
/// states, where each came from, and whether they agree. The current
/// state also names its own path.
pub open spec fn reconciliation_spec(
    desired_key: Seq<char>,
    desired_path: Seq<char>,
    current_key: Seq<char>,
    current_path: Seq<char>,
    desired: Json,
    current: Json,
) -> Json {
    crate::json::object_of(
        seq![
            ("schema_version"@, Json::Str("1"@)),
            (desired_key, Json::Str(desired_path)),
            (current_key, Json::Str(current_path)),
            ("desired"@, desired),
            ("current"@, with_field(current, current_key, Json::Str(current_path))),
            ("reconciliation_status"@, Json::Str(status_text(desired, current))),
        ],
    )
}

/// Builds the reconciliation of the desired state with the current one.
pub fn build_reconciliation(
    desired_key: &str,
    desired_path: &str,
    current_key: &str,
    current_path: &str,
    desired: JsonValue,
    current: JsonValue,
) -> (r: JsonValue)
    ensures
        r@ == reconciliation_spec(
            desired_key@,
            desired_path@,
            current_key@,
            current_path@,
            desired@,
            current@,
        ),
{
    let status = reconciliation_status(&desired, &current);
    let ghost cv = current@;
    let current = match current {
        JsonValue::Object(mut es) => {
            proof {
                crate::json::lemma_object_view(es);
            }
            crate::json::map_insert(&mut es, owned(current_key), JsonValue::Str(owned(current_path)));
            proof {
                crate::json::lemma_object_view(es);
            }
            JsonValue::Object(es)
        },
        other => other,
    };
    let mut pairs: Vec<(String, JsonValue)> = Vec::new();
    pairs.push((owned("schema_version"), JsonValue::Str(owned("1"))));
    pairs.push((owned(desired_key), JsonValue::Str(owned(desired_path))));
    pairs.push((owned(current_key), JsonValue::Str(owned(current_path))));
    let ghost dv = desired@;
    pairs.push((owned("desired"), desired));
    pairs.push((owned("current"), current));
    pairs.push((owned("reconciliation_status"), JsonValue::Str(owned(status))));
    assert(entries_view(pairs@) =~= seq![
        ("schema_version"@, Json::Str("1"@)),
        (desired_key@, Json::Str(desired_path@)),
        (current_key@, Json::Str(current_path@)),
        ("desired"@, dv),
        ("current"@, with_field(cv, current_key@, Json::Str(current_path@))),
        ("reconciliation_status"@, Json::Str(status_text(dv, cv))),
    ]);
    crate::json::object_from_pairs(pairs)
}

} // verus!
