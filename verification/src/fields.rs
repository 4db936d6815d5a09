use vstd::prelude::*;
use vstd::string::StringExecFns;
use crate::json::{
    entries_get, entries_view, json_clone, map_get, Json, JsonValue,
};
use crate::text::{blank, is_blank};

verus! {

/// An error of a command. `Io` comes from reading or writing files and
/// never from the library's own logic.
#[derive(Debug)]
pub enum CommandError {
    InvalidArg(String),
    Io(std::io::Error),
    Parse(String),
}

/// What a command can fail with, as text; `Io` stands for any failure
/// to read or write a file.
pub enum Failure {
    InvalidArg(Seq<char>),
    Io,
    Parse(Seq<char>),
}

#[verifier::external_type_specification]
#[verifier::external_body]
pub struct ExIoError(std::io::Error);

/// The text that `std::io::Error`'s `Display` gives. It comes from the
/// platform and nothing is stated of it.
#[verifier::external_body]
fn io_error_text(e: &std::io::Error) -> String {
    format!("{e}")
}

impl CommandError {
    /// The error's message, as it is displayed.
    pub fn message(&self) -> (r: String)
        ensures
            self matches CommandError::InvalidArg(m) ==> r@ == m@,
            self matches CommandError::Parse(m) ==> r@ == m@,
    {
        match self {
            CommandError::InvalidArg(m) => m.clone(),
            CommandError::Parse(m) => m.clone(),
            CommandError::Io(e) => crate::text::cat("io error: ", io_error_text(e).as_str()),
        }
    }
}

pub open spec fn failure_of(e: CommandError) -> Failure {
    match e {
        CommandError::InvalidArg(m) => Failure::InvalidArg(m@),
        CommandError::Parse(m) => Failure::Parse(m@),
        CommandError::Io(_) => Failure::Io,
    }
}

/// A JSON result by its value, an error by its failure.
pub open spec fn json_outcome(r: Result<JsonValue, CommandError>) -> Result<Json, Failure> {
    match r {
        Ok(v) => Ok(v@),
        Err(e) => Err(failure_of(e)),
    }
}

/// A result by the view of its value, an error by its failure.
pub open spec fn outcome<A: View>(r: Result<A, CommandError>) -> Result<A::V, Failure> {
    match r {
        Ok(v) => Ok(v@),
        Err(e) => Err(failure_of(e)),
    }
}

/// How a field is read from an object.
#[derive(Debug, Clone, Copy, PartialEq, Eq)]
pub enum ReadKind {
    /// A string.
    Str,
    /// A string that is not blank.
    FilledStr,
    /// A non-negative integer.
    U64,
    /// An array.
    Array,
    /// Any value.
    Any,
    /// An object.
    Object,
    /// Any value that must then be an array, with a message of its own
    /// for each of the two failures.
    ArrayStrict,
    /// An array of strings.
    Strings,
    /// A number of any of the three shapes.
    Number,
    /// A boolean.
    Bool,
    /// A string, reported missing as "KIND PATH is missing string field".
    PlainStr,
    /// A non-negative integer, reported missing as "KIND PATH is missing
    /// integer field".
    PlainU64,
}

/// KIND `PATH` WHAT KEY`
pub open spec fn field_message(kind: Seq<char>, path: Seq<char>, what: Seq<char>, key: Seq<char>) -> Seq<
    char,
> {
    kind + " `"@ + path + "`"@ + what + key + "`"@
}

/// KIND PATH is missing WHAT field `KEY`
pub open spec fn plain_field_message(kind: Seq<char>, path: Seq<char>, what: Seq<char>, key: Seq<char>) -> Seq<
    char,
> {
    kind + " "@ + path + " is missing "@ + what + " field `"@ + key + "`"@
}

/// KIND `PATH` field `KEY` must be an array
pub open spec fn not_array_message(kind: Seq<char>, path: Seq<char>, key: Seq<char>) -> Seq<char> {
    kind + " `"@ + path + "` field `"@ + key + "` must be an array"@
}

/// The message for a field that cannot be read as asked, or `None` when
/// it can.
pub open spec fn read_failure(
    obj: Seq<(Seq<char>, Json)>,
    key: Seq<char>,
    how: ReadKind,
    path: Seq<char>,
    kind: Seq<char>,
) -> Option<Seq<char>> {
    let v = entries_get(obj, key);
    match how {
        ReadKind::Str => match v {
            Some(Json::Str(_)) => None,
            _ => Some(field_message(kind, path, " missing string field `"@, key)),
        },
        ReadKind::FilledStr => match v {
            Some(Json::Str(s)) => if is_blank(s) {
                Some(field_message(kind, path, " missing string field `"@, key))
            } else {
                None
            },
            _ => Some(field_message(kind, path, " missing string field `"@, key)),
        },
        ReadKind::U64 => match v {
            Some(Json::UInt(_)) => None,
            _ => Some(field_message(kind, path, " missing integer field `"@, key)),
        },
        ReadKind::Number => match v {
            Some(Json::UInt(_)) => None,
            Some(Json::NegInt(_)) => None,
            Some(Json::Float(_)) => None,
            _ => Some(field_message(kind, path, " missing number field `"@, key)),
        },
        ReadKind::Bool => match v {
            Some(Json::Bool(_)) => None,
            _ => Some(field_message(kind, path, " missing boolean field `"@, key)),
        },
        ReadKind::PlainStr => match v {
            Some(Json::Str(_)) => None,
            _ => Some(plain_field_message(kind, path, "string"@, key)),
        },
        ReadKind::PlainU64 => match v {
            Some(Json::UInt(_)) => None,
            _ => Some(plain_field_message(kind, path, "integer"@, key)),
        },
        ReadKind::Array => match v {
            Some(Json::Array(_)) => None,
            _ => Some(field_message(kind, path, " missing array field `"@, key)),
        },
        ReadKind::Any => match v {
            Some(_) => None,
            None => Some(field_message(kind, path, " missing field `"@, key)),
        },
        ReadKind::Object => match v {
            Some(Json::Object(_)) => None,
            _ => Some(field_message(kind, path, " missing object field `"@, key)),
        },
        ReadKind::ArrayStrict => match v {
            Some(Json::Array(_)) => None,
            Some(_) => Some(not_array_message(kind, path, key)),
            None => Some(field_message(kind, path, " missing field `"@, key)),
        },
        ReadKind::Strings => match v {
            Some(Json::Array(items)) => if all_strings(items) {
                None
            } else {
                Some(not_strings_message(kind, path, key))
            },
            _ => Some(field_message(kind, path, " missing array field `"@, key)),
        },
    }
}

/// Whether every item is a string.
pub open spec fn all_strings(items: Seq<Json>) -> bool {
    forall|i: int| 0 <= i < items.len() ==> (#[trigger] items[i]) is Str
}

/// The strings of an array whose items are all strings.
pub open spec fn strings_of(items: Seq<Json>) -> Seq<Seq<char>> {
    Seq::new(items.len(), |i: int| items[i]->Str_0)
}

/// KIND `PATH` field `KEY` must contain only strings
pub open spec fn not_strings_message(kind: Seq<char>, path: Seq<char>, key: Seq<char>) -> Seq<char> {
    kind + " `"@ + path + "` field `"@ + key + "` must contain only strings"@
}

/// The first of two possible failures.
pub open spec fn or_else(a: Option<Seq<char>>, b: Option<Seq<char>>) -> Option<Seq<char>> {
    if a is Some {
        a
    } else {
        b
    }
}

/// The entries of the object under `key` (meaningful when there is one).
pub open spec fn object_at(obj: Seq<(Seq<char>, Json)>, key: Seq<char>) -> Seq<(Seq<char>, Json)> {
    entries_get(obj, key)->Some_0->Object_0
}

/// The items of the array under `key` (meaningful when there is one).
pub open spec fn array_at(obj: Seq<(Seq<char>, Json)>, key: Seq<char>) -> Seq<Json> {
    entries_get(obj, key)->Some_0->Array_0
}

/// The message of the first item that is no object or has a field that
/// cannot be read as asked, if any.
pub open spec fn items_failure(
    items: Seq<Json>,
    reads: Seq<(Seq<char>, ReadKind)>,
    path: Seq<char>,
    kind: Seq<char>,
    not_object: Seq<char>,
) -> Option<Seq<char>>
    decreases items.len(),
{
    if items.len() == 0 {
        None
    } else {
        match items[0] {
            Json::Object(es) => or_else(
                first_read_failure(es, reads, path, kind),
                items_failure(items.drop_first(), reads, path, kind, not_object),
            ),
            _ => Some(not_object),
        }
    }
}

/// The message of the first field of `reads` that cannot be read as
/// asked, if any.
pub open spec fn first_read_failure(
    obj: Seq<(Seq<char>, Json)>,
    reads: Seq<(Seq<char>, ReadKind)>,
    path: Seq<char>,
    kind: Seq<char>,
) -> Option<Seq<char>>
    decreases reads.len(),
{
    if reads.len() == 0 {
        None
    } else {
        match read_failure(obj, reads[0].0, reads[0].1, path, kind) {
            Some(m) => Some(m),
            None => first_read_failure(obj, reads.drop_first(), path, kind),
        }
    }
}

pub open spec fn reads_view(reads: Seq<(String, ReadKind)>) -> Seq<(Seq<char>, ReadKind)> {
    Seq::new(reads.len(), |i: int| (reads[i].0@, reads[i].1))
}

/// The string under `key` (meaningful when there is one).
pub open spec fn str_of(obj: Seq<(Seq<char>, Json)>, key: Seq<char>) -> Seq<char> {
    entries_get(obj, key)->Some_0->Str_0
}

/// The integer under `key` (meaningful when there is one).
pub open spec fn u64_of(obj: Seq<(Seq<char>, Json)>, key: Seq<char>) -> u64 {
    entries_get(obj, key)->Some_0->UInt_0
}

/// The value under `key` (meaningful when there is one).
pub open spec fn value_of(obj: Seq<(Seq<char>, Json)>, key: Seq<char>) -> Json {
    entries_get(obj, key)->Some_0
}

/// KIND `PATH` WHAT KEY`
pub fn message_field(kind: &str, path: &str, what: &str, key: &str) -> (r: String)
    ensures
        r@ == field_message(kind@, path@, what@, key@),
{
    let mut r = String::from_str(kind);
    r.append(" `");
    r.append(path);
    r.append("`");
    r.append(what);
    r.append(key);
    r.append("`");
    r
}

/// KIND PATH is missing WHAT field `KEY`
pub fn plain_message_field(kind: &str, path: &str, what: &str, key: &str) -> (r: String)
    ensures
        r@ == plain_field_message(kind@, path@, what@, key@),
{
    let mut r = String::from_str(kind);
    r.append(" ");
    r.append(path);
    r.append(" is missing ");
    r.append(what);
    r.append(" field `");
    r.append(key);
    r.append("`");
    r
}

/// The message for a field that cannot be read as asked, or `None`.
pub fn field_failure(
    obj: &Vec<(String, JsonValue)>,
    key: &str,
    how: &ReadKind,
    path: &str,
    kind: &str,
) -> (r: Option<String>)
    ensures
        match r {
            Some(m) => read_failure(entries_view(obj@), key@, *how, path@, kind@) == Some(m@),
            None => read_failure(entries_view(obj@), key@, *how, path@, kind@) is None,
        },
{
    let v = map_get(obj, key);
    match how {
        ReadKind::Str => match v {
            Some(JsonValue::Str(_)) => None,
            _ => Some(message_field(kind, path, " missing string field `", key)),
        },
        ReadKind::FilledStr => match v {
            Some(JsonValue::Str(s)) => if blank(s.as_str()) {
                Some(message_field(kind, path, " missing string field `", key))
            } else {
                None
            },
            _ => Some(message_field(kind, path, " missing string field `", key)),
        },
        ReadKind::U64 => match v {
            Some(JsonValue::UInt(_)) => None,
            _ => Some(message_field(kind, path, " missing integer field `", key)),
        },
        ReadKind::Number => match v {
            Some(JsonValue::UInt(_)) => None,
            Some(JsonValue::NegInt(_)) => None,
            Some(JsonValue::Float(_)) => None,
            _ => Some(message_field(kind, path, " missing number field `", key)),
        },
        ReadKind::Bool => match v {
            Some(JsonValue::Bool(_)) => None,
            _ => Some(message_field(kind, path, " missing boolean field `", key)),
        },
        ReadKind::PlainStr => match v {
            Some(JsonValue::Str(_)) => None,
            _ => Some(plain_message_field(kind, path, "string", key)),
        },
        ReadKind::PlainU64 => match v {
            Some(JsonValue::UInt(_)) => None,
            _ => Some(plain_message_field(kind, path, "integer", key)),
        },
        ReadKind::Array => match v {
            Some(JsonValue::Array(_)) => None,
            _ => Some(message_field(kind, path, " missing array field `", key)),
        },
        ReadKind::Any => match v {
            Some(_) => None,
            None => Some(message_field(kind, path, " missing field `", key)),
        },
        ReadKind::Object => match v {
            Some(JsonValue::Object(_)) => None,
            _ => Some(message_field(kind, path, " missing object field `", key)),
        },
        ReadKind::Strings => match v {
            Some(JsonValue::Array(items)) => {
                proof {
                    crate::json::lemma_array_view(*items);
                }
                let ghost iv = crate::json::items_view(items@);
                let mut i: usize = 0;
                while i < items.len()
                    invariant
                        iv == crate::json::items_view(items@),
                        entries_get(entries_view(obj@), key@) == Some(Json::Array(iv)),
                        *how == ReadKind::Strings,
                        i <= items.len(),
                        forall|j: int| 0 <= j < i ==> (#[trigger] iv[j]) is Str,
                    decreases items.len() - i,
                {
                    match &items[i] {
                        JsonValue::Str(_) => {},
                        _ => {
                            assert(!(iv[i as int] is Str));
                            assert(!all_strings(iv));
                            let mut m = String::from_str(kind);
                            m.append(" `");
                            m.append(path);
                            m.append("` field `");
                            m.append(key);
                            m.append("` must contain only strings");
                            return Some(m);
                        },
                    }
                    i += 1;
                }
                assert(all_strings(iv));
                None
            },
            _ => Some(message_field(kind, path, " missing array field `", key)),
        },
        ReadKind::ArrayStrict => match v {
            Some(JsonValue::Array(_)) => None,
            Some(_) => {
                let mut m = String::from_str(kind);
                m.append(" `");
                m.append(path);
                m.append("` field `");
                m.append(key);
                m.append("` must be an array");
                Some(m)
            },
            None => Some(message_field(kind, path, " missing field `", key)),
        },
    }
}

/// Checks the fields of `reads` in order and fails with the message of
/// the first one that cannot be read as asked.
pub fn check_reads(
    obj: &Vec<(String, JsonValue)>,
    reads: &Vec<(String, ReadKind)>,
    path: &str,
    kind: &str,
) -> (r: Result<(), String>)
    ensures
        match r {
            Ok(_) => first_read_failure(entries_view(obj@), reads_view(reads@), path@, kind@) is None,
            Err(m) => first_read_failure(entries_view(obj@), reads_view(reads@), path@, kind@)
                == Some(m@),
        },
        r is Ok ==> forall|i: int|
            0 <= i < reads.len() ==> read_failure(
                entries_view(obj@),
                #[trigger] reads_view(reads@)[i].0,
                reads_view(reads@)[i].1,
                path@,
                kind@,
            ) is None,
{
    let ghost o = entries_view(obj@);
    let ghost rs = reads_view(reads@);
    let mut i: usize = 0;
    assert(rs.skip(0) =~= rs);
    while i < reads.len()
        invariant
            o == entries_view(obj@),
            rs == reads_view(reads@),
            i <= reads.len(),
            first_read_failure(o, rs, path@, kind@) == first_read_failure(
                o,
                rs.skip(i as int),
                path@,
                kind@,
            ),
            forall|j: int|
                0 <= j < i ==> read_failure(o, #[trigger] rs[j].0, rs[j].1, path@, kind@) is None,
        decreases reads.len() - i,
    {
        assert(rs.skip(i as int).drop_first() =~= rs.skip(i + 1));
        assert(rs.skip(i as int)[0] == (reads[i as int].0@, reads[i as int].1));
        match field_failure(obj, reads[i].0.as_str(), &reads[i].1, path, kind) {
            Some(m) => {
                return Err(m);
            },
            None => {},
        }
        i += 1;
    }
    assert(rs.skip(i as int) =~= Seq::<(Seq<char>, ReadKind)>::empty());
    Ok(())
}

/// The string under `key`, copied.
pub fn str_field(obj: &Vec<(String, JsonValue)>, key: &str) -> (r: String)
    requires
        entries_get(entries_view(obj@), key@) matches Some(Json::Str(_)),
    ensures
        r@ == str_of(entries_view(obj@), key@),
{
    match map_get(obj, key) {
        Some(JsonValue::Str(s)) => s.clone(),
        _ => String::new(),
    }
}

/// The integer under `key`.
pub fn u64_field(obj: &Vec<(String, JsonValue)>, key: &str) -> (r: u64)
    requires
        entries_get(entries_view(obj@), key@) matches Some(Json::UInt(_)),
    ensures
        r == u64_of(entries_view(obj@), key@),
{
    match map_get(obj, key) {
        Some(JsonValue::UInt(n)) => *n,
        _ => 0,
    }
}

/// The value under `key`, copied.
pub fn value_field(obj: &Vec<(String, JsonValue)>, key: &str) -> (r: JsonValue)
    requires
        entries_get(entries_view(obj@), key@) is Some,
    ensures
        r@ == value_of(entries_view(obj@), key@),
{
    match map_get(obj, key) {
        Some(v) => json_clone(v),
        None => JsonValue::Null,
    }
}

/// The entries of the object under `key`, copied.
pub fn object_field(obj: &Vec<(String, JsonValue)>, key: &str) -> (r: Vec<(String, JsonValue)>)
    requires
        entries_get(entries_view(obj@), key@) matches Some(Json::Object(_)),
    ensures
        entries_view(r@) == object_at(entries_view(obj@), key@),
{
    match value_field(obj, key) {
        JsonValue::Object(es) => {
            proof {
                crate::json::lemma_object_view(es);
            }
            es
        },
        _ => Vec::new(),
    }
}

/// The items of the array under `key`, copied.
pub fn array_field(obj: &Vec<(String, JsonValue)>, key: &str) -> (r: Vec<JsonValue>)
    requires
        entries_get(entries_view(obj@), key@) matches Some(Json::Array(_)),
    ensures
        crate::json::items_view(r@) == array_at(entries_view(obj@), key@),
{
    match value_field(obj, key) {
        JsonValue::Array(items) => {
            proof {
                crate::json::lemma_array_view(items);
            }
            items
        },
        _ => Vec::new(),
    }
}

/// The strings of the array under `key`, copied.
pub fn strings_field(obj: &Vec<(String, JsonValue)>, key: &str) -> (r: Vec<String>)
    requires
        entries_get(entries_view(obj@), key@) matches Some(Json::Array(items)) && all_strings(items),
    ensures
        Seq::new(r.len() as nat, |i: int| r[i]@) == strings_of(array_at(entries_view(obj@), key@)),
{
    let items = array_field(obj, key);
    let ghost iv = crate::json::items_view(items@);
    let mut out: Vec<String> = Vec::new();
    let mut i: usize = 0;
    while i < items.len()
        invariant
            iv == crate::json::items_view(items@),
            all_strings(iv),
            i <= items.len(),
            out.len() == i,
            forall|j: int| 0 <= j < i ==> out[j]@ == iv[j]->Str_0,
        decreases items.len() - i,
    {
        assert(iv[i as int] is Str);
        match &items[i] {
            JsonValue::Str(s) => out.push(s.clone()),
            _ => out.push(String::new()),
        }
        i += 1;
    }
    assert(Seq::new(out.len() as nat, |i: int| out[i]@) =~= strings_of(iv));
    out
}

/// Checks every item in order: it must be an object whose fields can be
/// read as `reads` asks; else the message of the first failure.
pub fn check_items(
    items: &Vec<JsonValue>,
    reads: &Vec<(String, ReadKind)>,
    path: &str,
    kind: &str,
    not_object: &str,
) -> (r: Result<(), String>)
    ensures
        match r {
            Ok(_) => items_failure(crate::json::items_view(items@), reads_view(reads@), path@, kind@, not_object@) is None,
            Err(m) => items_failure(crate::json::items_view(items@), reads_view(reads@), path@, kind@, not_object@) == Some(m@),
        },
        r is Ok ==> forall|i: int| 0 <= i < items.len() ==> (#[trigger] items[i])@ is Object && first_read_failure(
            items[i]@->Object_0, reads_view(reads@), path@, kind@) is None,
{
    let ghost iv = crate::json::items_view(items@);
    let ghost rs = reads_view(reads@);
    let mut i: usize = 0;
    assert(iv.skip(0) =~= iv);
    while i < items.len()
        invariant
            iv == crate::json::items_view(items@),
            rs == reads_view(reads@),
            i <= items.len(),
            items_failure(iv, rs, path@, kind@, not_object@) == items_failure(iv.skip(i as int), rs, path@, kind@, not_object@),
            forall|j: int| 0 <= j < i ==> (#[trigger] items[j])@ is Object && first_read_failure(
                items[j]@->Object_0, rs, path@, kind@) is None,
        decreases items.len() - i,
    {
        assert(iv.skip(i as int).drop_first() =~= iv.skip(i + 1));
        assert(iv.skip(i as int)[0] == items[i as int]@);
        match &items[i] {
            JsonValue::Object(es) => {
                proof {
                    crate::json::lemma_object_view(*es);
                }
                match check_reads(es, reads, path, kind) {
                    Err(m) => {
                        return Err(m);
                    },
                    Ok(_) => {},
                }
            },
            _ => {
                return Err(String::from_str(not_object));
            },
        }
        i += 1;
    }
    assert(iv.skip(i as int) =~= Seq::<Json>::empty());
    Ok(())
}

/// A reading rule from its parts.
pub fn read(key: &str, how: ReadKind) -> (r: (String, ReadKind))
    ensures
        r.0@ == key@,
        r.1 == how,
{
    (String::from_str(key), how)
}

/// The entries with `(key, the string)` added when `v` is a string.
pub open spec fn with_opt_str(es: Seq<(Seq<char>, Json)>, key: Seq<char>, v: Option<Json>) -> Seq<
    (Seq<char>, Json),
> {
    match v {
        Some(Json::Str(s)) => es.push((key, Json::Str(s))),
        _ => es,
    }
}

/// Adds `(out_key, the string)` when the object holds a string under
/// `key`.
pub fn push_opt_str(
    pairs: &mut Vec<(String, JsonValue)>,
    out_key: &str,
    obj: &Vec<(String, JsonValue)>,
    key: &str,
)
    ensures
        entries_view(final(pairs)@) == with_opt_str(
            entries_view(old(pairs)@),
            out_key@,
            entries_get(entries_view(obj@), key@),
        ),
{
    let ghost before = entries_view(pairs@);
    match map_get(obj, key) {
        Some(JsonValue::Str(s)) => {
            pairs.push((String::from_str(out_key), JsonValue::Str(s.clone())));
            assert(entries_view(pairs@) =~= before.push((out_key@, Json::Str(s@))));
        },
        _ => {},
    }
}

/// The entries with `(key, the text)` added when there is a text.
pub open spec fn with_opt_text(es: Seq<(Seq<char>, Json)>, key: Seq<char>, v: Option<Seq<char>>) -> Seq<
    (Seq<char>, Json),
> {
    match v {
        Some(s) => es.push((key, Json::Str(s))),
        None => es,
    }
}

/// Adds `(key, the text)` when there is a text.
pub fn push_opt_text(pairs: &mut Vec<(String, JsonValue)>, key: &str, v: &Option<String>)
    ensures
        entries_view(final(pairs)@) == with_opt_text(
            entries_view(old(pairs)@),
            key@,
            crate::cli::opt_view(*v),
        ),
{
    let ghost before = entries_view(pairs@);
    match v {
        Some(s) => {
            pairs.push((String::from_str(key), JsonValue::Str(s.clone())));
            assert(entries_view(pairs@) =~= before.push((key@, Json::Str(s@))));
        },
        None => {},
    }
}

/// The string under `key`, when there is one.
pub open spec fn opt_str_of(obj: Seq<(Seq<char>, Json)>, key: Seq<char>) -> Option<Seq<char>> {
    match entries_get(obj, key) {
        Some(Json::Str(s)) => Some(s),
        _ => None,
    }
}

/// The string under `key`, when there is one.
pub fn opt_str_field(obj: &Vec<(String, JsonValue)>, key: &str) -> (r: Option<String>)
    ensures
        crate::cli::opt_view(r) == opt_str_of(entries_view(obj@), key@),
{
    match map_get(obj, key) {
        Some(JsonValue::Str(s)) => Some(s.clone()),
        _ => None,
    }
}

/// Whether two optional texts are equal.
pub fn same_opt_text(a: &Option<String>, b: &Option<String>) -> (r: bool)
    ensures
        r == (crate::cli::opt_view(*a) == crate::cli::opt_view(*b)),
{
    match (a, b) {
        (Some(x), Some(y)) => crate::json::text_eq(x.as_str(), y.as_str()),
        (None, None) => true,
        _ => false,
    }
}

/// The string under `key`, when there is one that is not blank.
pub open spec fn opt_filled_of(obj: Seq<(Seq<char>, Json)>, key: Seq<char>) -> Option<Seq<char>> {
    match entries_get(obj, key) {
        Some(Json::Str(s)) => if is_blank(s) {
            None
        } else {
            Some(s)
        },
        _ => None,
    }
}

/// The string under `key`, when there is one that is not blank.
pub fn opt_filled_field(obj: &Vec<(String, JsonValue)>, key: &str) -> (r: Option<String>)
    ensures
        crate::cli::opt_view(r) == opt_filled_of(entries_view(obj@), key@),
{
    match map_get(obj, key) {
        Some(JsonValue::Str(s)) => if blank(s.as_str()) {
            None
        } else {
            Some(s.clone())
        },
        _ => None,
    }
}

} // verus!
