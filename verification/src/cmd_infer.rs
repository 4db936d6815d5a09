use vstd::prelude::*;
use vstd::string::StrSliceExecFns;
use crate::cli::texts_view;
use crate::command_reconciliation::with_field;
use crate::infer::{infer_error_fields, infer_error_json, CalibrationMetadata, CalibrationView, InferError};
use crate::json::{
    entries_get, entries_view, items_view, lemma_array_view, lemma_object_view, map_get,
    object_from_pairs, object_of, text_eq, Json, JsonValue,
};
use crate::text::{backend_choice, cat, cat3, decimal, decimal_text, normalize_backend, opt_text, owned};

verus! {

/// One adapter and artifact version that the registry supports together.
#[derive(Debug, PartialEq, Eq)]
pub struct AdapterRegistryEntry {
    pub adapter: String,
    pub version: String,
}

/// The adapter registry: its schema version and the supported pairs.
#[derive(Debug, PartialEq, Eq)]
pub struct AdapterRegistryMetadata {
    pub schema_version: String,
    pub adapters: Vec<AdapterRegistryEntry>,
}

pub struct RegistryView {
    pub schema_version: Seq<char>,
    pub adapters: Seq<(Seq<char>, Seq<char>)>,
}

pub open spec fn pairs_view(v: Seq<AdapterRegistryEntry>) -> Seq<(Seq<char>, Seq<char>)> {
    Seq::new(v.len(), |i: int| (v[i].adapter@, v[i].version@))
}

impl View for AdapterRegistryMetadata {
    type V = RegistryView;

    open spec fn view(&self) -> RegistryView {
        RegistryView { schema_version: self.schema_version@, adapters: pairs_view(self.adapters@) }
    }
}

/// adapter registry schema fixture `x-supported-adapter-version-pairs[I]` then `rest`
pub open spec fn pair_message(i: nat, rest: Seq<char>) -> Seq<char> {
    "adapter registry schema fixture `x-supported-adapter-version-pairs["@ + decimal(i) + "]"@
        + rest
}

/// A non-empty string under `key` of pair `i`.
pub open spec fn pair_field(e: Seq<(Seq<char>, Json)>, key: Seq<char>, i: nat) -> Result<Seq<char>, Seq<char>> {
    match entries_get(e, key) {
        Some(Json::Str(s)) => if s.len() == 0 {
            Err(pair_message(i, "."@ + key + "` must not be empty"@))
        } else {
            Ok(s)
        },
        _ => Err(pair_message(i, "."@ + key + "` must be a string"@)),
    }
}

/// The supported pairs from item `i` on, or the message of the first
/// item that cannot be read.
pub open spec fn pairs_from(items: Seq<Json>, i: nat) -> Result<Seq<(Seq<char>, Seq<char>)>, Seq<char>>
    decreases items.len() - i,
{
    if i >= items.len() {
        Ok(Seq::empty())
    } else {
        match items[i as int] {
            Json::Object(e) => match (pair_field(e, "adapter"@, i), pair_field(e, "version"@, i)) {
                (Err(m), _) => Err(m),
                (Ok(_), Err(m)) => Err(m),
                (Ok(a), Ok(v)) => match pairs_from(items, i + 1) {
                    Err(m) => Err(m),
                    Ok(rest) => Ok(seq![(a, v)] + rest),
                },
            },
            _ => Err(pair_message(i, "` must be an object"@)),
        }
    }
}

/// The registry that the schema fixture describes, or why it cannot be read.
pub open spec fn registry_spec(doc: Json) -> Result<RegistryView, Seq<char>> {
    match doc {
        Json::Object(root) => match entries_get(root, "properties"@) {
            Some(Json::Object(props)) => {
                let sv = match entries_get(props, "schema_version"@) {
                    Some(Json::Object(s)) => entries_get(s, "const"@),
                    _ => None,
                };
                match sv {
                    Some(Json::Str(version)) => match entries_get(
                        root,
                        "x-supported-adapter-version-pairs"@,
                    ) {
                        Some(Json::Array(items)) => if items.len() == 0 {
                            Err(
                                "adapter registry schema fixture `x-supported-adapter-version-pairs` must not be empty"@,
                            )
                        } else {
                            match pairs_from(items, 0) {
                                Err(m) => Err(m),
                                Ok(pairs) => Ok(RegistryView { schema_version: version, adapters: pairs }),
                            }
                        },
                        _ => Err(
                            "adapter registry schema fixture missing `x-supported-adapter-version-pairs` array"@,
                        ),
                    },
                    _ => Err(
                        "adapter registry schema fixture missing `properties.schema_version.const`"@,
                    ),
                }
            },
            _ => Err("adapter registry schema fixture missing `properties` object"@),
        },
        _ => Err("adapter registry schema fixture must be a json object"@),
    }
}

fn pair_error(i: usize, rest: &str) -> (r: String)
    ensures
        r@ == pair_message(i as nat, rest@),
{
    let mut m = cat(
        "adapter registry schema fixture `x-supported-adapter-version-pairs[",
        decimal_text(i as u64).as_str(),
    );
    m.append("]");
    m.append(rest);
    m
}

fn read_pair_field(e: &Vec<(String, JsonValue)>, key: &str, i: usize) -> (r: Result<String, String>)
    ensures
        match pair_field(entries_view(e@), key@, i as nat) {
            Ok(s) => r matches Ok(x) && x@ == s,
            Err(m) => r matches Err(x) && x@ == m,
        },
{
    match map_get(e, key) {
        Some(JsonValue::Str(s)) => if s.as_str().unicode_len() == 0 {
            Err(pair_error(i, cat3(".", key, "` must not be empty").as_str()))
        } else {
            Ok(s.clone())
        },
        _ => Err(pair_error(i, cat3(".", key, "` must be a string").as_str())),
    }
}

pub open spec fn prepend_pairs(
    acc: Seq<(Seq<char>, Seq<char>)>,
    r: Result<Seq<(Seq<char>, Seq<char>)>, Seq<char>>,
) -> Result<Seq<(Seq<char>, Seq<char>)>, Seq<char>> {
    match r {
        Ok(rest) => Ok(acc + rest),
        Err(m) => Err(m),
    }
}

/// Reads the adapter registry from the parsed schema fixture. (Parsing
/// the fixture's text happens before.)
pub fn load_adapter_registry_metadata(document: &JsonValue) -> (r: Result<AdapterRegistryMetadata, String>)
    ensures
        match registry_spec(document@) {
            Ok(v) => r matches Ok(x) && x@ == v,
            Err(m) => r matches Err(x) && x@ == m,
        },
{
    let root = match document {
        JsonValue::Object(root) => root,
        _ => {
            return Err(owned("adapter registry schema fixture must be a json object"));
        },
    };
    proof {
        lemma_object_view(*root);
    }
    let props = match map_get(root, "properties") {
        Some(JsonValue::Object(p)) => p,
        _ => {
            return Err(owned("adapter registry schema fixture missing `properties` object"));
        },
    };
    proof {
        lemma_object_view(*props);
    }
    let version = match map_get(props, "schema_version") {
        Some(JsonValue::Object(s)) => {
            proof {
                lemma_object_view(*s);
            }
            match map_get(s, "const") {
                Some(JsonValue::Str(v)) => v.clone(),
                _ => {
                    return Err(
                        owned(
                            "adapter registry schema fixture missing `properties.schema_version.const`",
                        ),
                    );
                },
            }
        },
        _ => {
            return Err(
                owned("adapter registry schema fixture missing `properties.schema_version.const`"),
            );
        },
    };
    let items = match map_get(root, "x-supported-adapter-version-pairs") {
        Some(JsonValue::Array(items)) => items,
        _ => {
            return Err(
                owned(
                    "adapter registry schema fixture missing `x-supported-adapter-version-pairs` array",
                ),
            );
        },
    };
    proof {
        lemma_array_view(*items);
    }
    if items.len() == 0 {
        return Err(
            owned(
                "adapter registry schema fixture `x-supported-adapter-version-pairs` must not be empty",
            ),
        );
    }
    let ghost iv = items_view(items@);
    let ghost whole = pairs_from(iv, 0);
    let mut adapters: Vec<AdapterRegistryEntry> = Vec::new();
    let mut i: usize = 0;
    assert(pairs_view(adapters@) =~= Seq::<(Seq<char>, Seq<char>)>::empty());
    while i < items.len()
        invariant
            iv == items_view(items@),
            whole == pairs_from(iv, 0),
            match registry_spec(document@) {
                Ok(v) => whole matches Ok(p) && v == RegistryView { schema_version: version@, adapters: p },
                Err(m) => whole == Err::<Seq<(Seq<char>, Seq<char>)>, Seq<char>>(m),
            },
            i <= items.len(),
            whole == prepend_pairs(pairs_view(adapters@), pairs_from(iv, i as nat)),
        decreases items.len() - i,
    {
        assert(iv[i as int] == items[i as int]@);
        let e = match &items[i] {
            JsonValue::Object(e) => e,
            _ => {
                return Err(pair_error(i, "` must be an object"));
            },
        };
        proof {
            lemma_object_view(*e);
        }
        let adapter = read_pair_field(e, "adapter", i)?;
        let version_text = read_pair_field(e, "version", i)?;
        let ghost before = pairs_view(adapters@);
        let ghost here = seq![(adapter@, version_text@)];
        adapters.push(AdapterRegistryEntry { adapter, version: version_text });
        proof {
            assert(pairs_view(adapters@) =~= before + here);
            match pairs_from(iv, (i + 1) as nat) {
                Ok(tail) => {
                    assert(before + (here + tail) =~= (before + here) + tail);
                },
                Err(_) => {},
            }
        }
        i += 1;
    }
    assert(pairs_view(adapters@) + Seq::<(Seq<char>, Seq<char>)>::empty() =~= pairs_view(adapters@));
    Ok(AdapterRegistryMetadata { schema_version: version, adapters })
}

/// Whether the registry supports the backend for the artifact version.
pub open spec fn pair_supported(reg: RegistryView, backend: Seq<char>, version: Seq<char>) -> bool {
    exists|i: int| 0 <= i < reg.adapters.len() && reg.adapters[i] == (backend, version)
}

/// Why inference cannot run on the backend.
#[derive(Debug, PartialEq, Eq)]
pub struct UnsupportedAdapterVersion {
    pub backend: String,
    pub artifact_version: String,
    pub schema_version: String,
}

/// Accepts the backend when the registry supports it for the artifact
/// version; else names the backend, the version and the registry's schema.
pub fn validate_backend_selection(
    registry: &AdapterRegistryMetadata,
    backend: &str,
    artifact_version: &str,
) -> (r: Result<(), UnsupportedAdapterVersion>)
    ensures
        pair_supported(registry@, backend@, artifact_version@) ==> r is Ok,
        !pair_supported(registry@, backend@, artifact_version@) ==> (r matches Err(e) && e.backend@
            == backend@ && e.artifact_version@ == artifact_version@ && e.schema_version@
            == registry.schema_version@),
{
    let ghost reg = registry@;
    let mut i: usize = 0;
    while i < registry.adapters.len()
        invariant
            reg == registry@,
            i <= registry.adapters.len(),
            forall|j: int| 0 <= j < i ==> reg.adapters[j] != (backend@, artifact_version@),
        decreases registry.adapters.len() - i,
    {
        let e = &registry.adapters[i];
        assert(reg.adapters[i as int] == (e.adapter@, e.version@));
        if text_eq(e.adapter.as_str(), backend) && text_eq(e.version.as_str(), artifact_version) {
            return Ok(());
        }
        i += 1;
    }
    Err(
        UnsupportedAdapterVersion {
            backend: owned(backend),
            artifact_version: owned(artifact_version),
            schema_version: registry.schema_version.clone(),
        },
    )
}

/// The backends that inference runs on.
pub open spec fn runtime_backend(backend: Seq<char>) -> bool {
    backend == "cpu"@ || backend == "wgpu"@
}

/// Whether inference runs on the backend at all.
pub fn runtime_supports(backend: &str) -> (r: bool)
    ensures
        r == runtime_backend(backend@),
{
    text_eq(backend, "cpu") || text_eq(backend, "wgpu")
}

/// The backend that the `BACKEND` setting asks for, trimmed and in
/// lowercase; `wgpu` when it is unset or blank.
pub fn resolve_backend(setting: Option<String>) -> (r: String)
    ensures
        r@ == match backend_choice(opt_text(setting)) {
            Some(b) => b,
            None => "wgpu"@,
        },
{
    match normalize_backend(setting) {
        Some(b) => b,
        None => owned("wgpu"),
    }
}

/// The calibration fields that inference events carry.
pub open spec fn calibration_json(c: CalibrationView) -> Json {
    object_of(
        seq![
            ("schema_version"@, Json::Str(decimal(c.schema_version as nat))),
            ("calibration_artifact"@, Json::Str(c.calibration_artifact)),
            ("artifact_version"@, Json::Str(c.artifact_version)),
            ("method"@, Json::Str(c.method)),
            ("created_at_unix_ms"@, Json::UInt(c.created_at_unix_ms)),
        ],
    )
}

/// The calibration fields of an inference event.
pub fn calibration_fields(calibration: &CalibrationMetadata) -> (r: JsonValue)
    ensures
        r@ == calibration_json(calibration@),
{
    let mut pairs: Vec<(String, JsonValue)> = Vec::new();
    pairs.push(
        (owned("schema_version"), JsonValue::Str(decimal_text(calibration.schema_version as u64))),
    );
    pairs.push(
        (owned("calibration_artifact"), JsonValue::Str(calibration.calibration_artifact.clone())),
    );
    pairs.push((owned("artifact_version"), JsonValue::Str(calibration.artifact_version.clone())));
    pairs.push((owned("method"), JsonValue::Str(calibration.method.clone())));
    pairs.push((owned("created_at_unix_ms"), JsonValue::UInt(calibration.created_at_unix_ms)));
    let ghost c = calibration@;
    assert(entries_view(pairs@) =~= seq![
        ("schema_version"@, Json::Str(decimal(c.schema_version as nat))),
        ("calibration_artifact"@, Json::Str(c.calibration_artifact)),
        ("artifact_version"@, Json::Str(c.artifact_version)),
        ("method"@, Json::Str(c.method)),
        ("created_at_unix_ms"@, Json::UInt(c.created_at_unix_ms)),
    ]);
    object_from_pairs(pairs)
}

/// Why `infer` fails.
#[derive(Debug, PartialEq, Eq)]
pub enum CmdInferError {
    Infer(InferError),
    AdapterRegistryInvalid { detail: String },
    UnsupportedAdapterVersion(UnsupportedAdapterVersion),
}

/// The fields of the `infer_error` event for a failure of `infer`.
pub open spec fn cmd_error_json(e: CmdInferError) -> Json {
    match e {
        CmdInferError::Infer(err) => infer_error_json(err),
        CmdInferError::AdapterRegistryInvalid { detail } => object_of(
            seq![("kind"@, Json::Str("adapter_registry_invalid"@)), ("detail"@, Json::Str(detail@))],
        ),
        CmdInferError::UnsupportedAdapterVersion(u) => object_of(
            seq![
                ("kind"@, Json::Str("adapter_registry_unsupported"@)),
                ("backend"@, Json::Str(u.backend@)),
                ("artifact_version"@, Json::Str(u.artifact_version@)),
                ("schema_version"@, Json::Str(u.schema_version@)),
            ],
        ),
    }
}

/// The fields of the event that reports why `infer` failed.
pub fn error_fields(err: &CmdInferError) -> (r: JsonValue)
    ensures
        r@ == cmd_error_json(*err),
{
    match err {
        CmdInferError::Infer(e) => infer_error_fields(e),
        CmdInferError::AdapterRegistryInvalid { detail } => {
            let mut pairs: Vec<(String, JsonValue)> = Vec::new();
            pairs.push((owned("kind"), JsonValue::Str(owned("adapter_registry_invalid"))));
            pairs.push((owned("detail"), JsonValue::Str(detail.clone())));
            assert(entries_view(pairs@) =~= seq![
                ("kind"@, Json::Str("adapter_registry_invalid"@)),
                ("detail"@, Json::Str(detail@)),
            ]);
            object_from_pairs(pairs)
        },
        CmdInferError::UnsupportedAdapterVersion(u) => {
            let mut pairs: Vec<(String, JsonValue)> = Vec::new();
            pairs.push((owned("kind"), JsonValue::Str(owned("adapter_registry_unsupported"))));
            pairs.push((owned("backend"), JsonValue::Str(u.backend.clone())));
            pairs.push((owned("artifact_version"), JsonValue::Str(u.artifact_version.clone())));
            pairs.push((owned("schema_version"), JsonValue::Str(u.schema_version.clone())));
            assert(entries_view(pairs@) =~= seq![
                ("kind"@, Json::Str("adapter_registry_unsupported"@)),
                ("backend"@, Json::Str(u.backend@)),
                ("artifact_version"@, Json::Str(u.artifact_version@)),
                ("schema_version"@, Json::Str(u.schema_version@)),
            ]);
            object_from_pairs(pairs)
        },
    }
}

/// Accepts the backend when inference runs on it and the registry
/// supports it for the artifact version; else names the backend, the
/// version and the registry's schema.
pub fn check_backend(
    registry: &AdapterRegistryMetadata,
    backend: &str,
    artifact_version: &str,
) -> (r: Result<(), UnsupportedAdapterVersion>)
    ensures
        runtime_backend(backend@) && pair_supported(registry@, backend@, artifact_version@) ==> r is Ok,
        !(runtime_backend(backend@) && pair_supported(registry@, backend@, artifact_version@)) ==> (
        r matches Err(e) && e.backend@ == backend@ && e.artifact_version@ == artifact_version@
            && e.schema_version@ == registry.schema_version@),
{
    if !runtime_supports(backend) {
        return Err(
            UnsupportedAdapterVersion {
                backend: owned(backend),
                artifact_version: owned(artifact_version),
                schema_version: registry.schema_version.clone(),
            },
        );
    }
    validate_backend_selection(registry, backend, artifact_version)
}

/// The event fields with the calibration sidecar's fields under
/// `calibration`, when there is a sidecar.
pub open spec fn with_calibration(fields: Json, calibration: Option<CalibrationView>) -> Json {
    match calibration {
        Some(c) => with_field(fields, "calibration"@, calibration_json(c)),
        None => fields,
    }
}

pub open spec fn opt_calibration(c: Option<&CalibrationMetadata>) -> Option<CalibrationView> {
    match c {
        Some(m) => Some(m@),
        None => None,
    }
}

/// Adds the calibration sidecar's fields to an event's fields.
pub fn include_calibration_fields(fields: &mut JsonValue, calibration: Option<&CalibrationMetadata>)
    ensures
        final(fields)@ == with_calibration(old(fields)@, opt_calibration(calibration)),
{
    if let Some(c) = calibration {
        let mut doc = JsonValue::Null;
        std::mem::swap(&mut doc, fields);
        match doc {
            JsonValue::Object(mut es) => {
                proof {
                    lemma_object_view(es);
                }
                crate::json::map_insert(&mut es, owned("calibration"), calibration_fields(c));
                proof {
                    lemma_object_view(es);
                }
                *fields = JsonValue::Object(es);
            },
            other => {
                *fields = other;
            },
        }
    }
}

/// The fields of the `infer_done` event, before the precision fields.
pub open spec fn done_json(
    backend: Seq<char>,
    artifact: Seq<char>,
    artifact_version: Seq<char>,
    duration_ms: u64,
    calibration: Option<CalibrationView>,
) -> Json {
    with_calibration(
        object_of(
            seq![
                ("backend"@, Json::Str(backend)),
                ("artifact"@, Json::Str(artifact)),
                ("artifact_version"@, Json::Str(artifact_version)),
                ("batch_size"@, Json::UInt(1)),
                ("duration_ms"@, Json::UInt(duration_ms)),
            ],
        ),
        calibration,
    )
}

/// The fields of the event that ends a run of `infer`.
pub fn done_fields(
    backend: &str,
    artifact: &str,
    artifact_version: &str,
    duration_ms: u64,
    calibration: Option<&CalibrationMetadata>,
) -> (r: JsonValue)
    ensures
        r@ == done_json(backend@, artifact@, artifact_version@, duration_ms, opt_calibration(calibration)),
{
    let mut pairs: Vec<(String, JsonValue)> = Vec::new();
    pairs.push((owned("backend"), JsonValue::Str(owned(backend))));
    pairs.push((owned("artifact"), JsonValue::Str(owned(artifact))));
    pairs.push((owned("artifact_version"), JsonValue::Str(owned(artifact_version))));
    pairs.push((owned("batch_size"), JsonValue::UInt(1)));
    pairs.push((owned("duration_ms"), JsonValue::UInt(duration_ms)));
    assert(entries_view(pairs@) =~= seq![
        ("backend"@, Json::Str(backend@)),
        ("artifact"@, Json::Str(artifact@)),
        ("artifact_version"@, Json::Str(artifact_version@)),
        ("batch_size"@, Json::UInt(1)),
        ("duration_ms"@, Json::UInt(duration_ms)),
    ]);
    let mut fields = object_from_pairs(pairs);
    include_calibration_fields(&mut fields, calibration);
    fields
}

/// The fields of the `artifact_load_ok` event, before the precision
/// fields.
pub open spec fn load_ok_json(
    backend: Seq<char>,
    artifact: Seq<char>,
    elapsed_ms: u64,
    calibration: Option<CalibrationView>,
) -> Json {
    with_calibration(
        object_of(
            seq![
                ("backend"@, Json::Str(backend)),
                ("artifact"@, Json::Str(artifact)),
                ("elapsed_ms"@, Json::UInt(elapsed_ms)),
            ],
        ),
        calibration,
    )
}

/// The fields of the event that reports a loaded artifact.
pub fn load_ok_fields(
    backend: &str,
    artifact: &str,
    elapsed_ms: u64,
    calibration: Option<&CalibrationMetadata>,
) -> (r: JsonValue)
    ensures
        r@ == load_ok_json(backend@, artifact@, elapsed_ms, opt_calibration(calibration)),
{
    let mut pairs: Vec<(String, JsonValue)> = Vec::new();
    pairs.push((owned("backend"), JsonValue::Str(owned(backend))));
    pairs.push((owned("artifact"), JsonValue::Str(owned(artifact))));
    pairs.push((owned("elapsed_ms"), JsonValue::UInt(elapsed_ms)));
    assert(entries_view(pairs@) =~= seq![
        ("backend"@, Json::Str(backend@)),
        ("artifact"@, Json::Str(artifact@)),
        ("elapsed_ms"@, Json::UInt(elapsed_ms)),
    ]);
    let mut fields = object_from_pairs(pairs);
    include_calibration_fields(&mut fields, calibration);
    fields
}


/// What the schema fixture's text gives: "failed to parse adapter registry
/// schema fixture json: DETAIL" where it holds no JSON, else what its
/// document gives.
pub open spec fn registry_text_spec(fixture: Seq<char>) -> Result<RegistryView, Seq<char>> {
    match crate::json_text::json_parse_result(fixture) {
        Err(e) => Err("failed to parse adapter registry schema fixture json: "@ + e),
        Ok(d) => registry_spec(d),
    }
}

/// Parses the adapter registry schema fixture's text and reads the
/// registry from it.
pub fn load_adapter_registry_metadata_text(fixture: &str) -> (r: Result<AdapterRegistryMetadata, String>)
    ensures
        match registry_text_spec(fixture@) {
            Ok(v) => r matches Ok(x) && x@ == v,
            Err(m) => r matches Err(x) && x@ == m,
        },
{
    match crate::json_text::parse_json_text(fixture) {
        Err(e) => Err(cat("failed to parse adapter registry schema fixture json: ", e.as_str())),
        Ok(document) => load_adapter_registry_metadata(&document),
    }
}

} // verus!
