use vstd::prelude::*;
use vstd::string::StrSliceExecFns;
use crate::json::{
    entries_get, entries_view, lemma_object_view, map_get, object_from_pairs, object_of, text_eq,
    Json, JsonValue,
};
use crate::paths::{directory, directory_of, join_path, path_join};
use crate::text::{cat, cat3, cat5, has_prefix, owned, starts_with, strip_prefixes};

verus! {

/// What the calibration sidecar of an inference artifact says.
#[derive(Debug, PartialEq, Eq)]
pub struct CalibrationMetadata {
    pub schema_version: u8,
    pub calibration_artifact: String,
    pub artifact_version: String,
    pub method: String,
    pub created_at_unix_ms: u64,
}

pub struct CalibrationView {
    pub schema_version: u8,
    pub calibration_artifact: Seq<char>,
    pub artifact_version: Seq<char>,
    pub method: Seq<char>,
    pub created_at_unix_ms: u64,
}

impl View for CalibrationMetadata {
    type V = CalibrationView;

    open spec fn view(&self) -> CalibrationView {
        CalibrationView {
            schema_version: self.schema_version,
            calibration_artifact: self.calibration_artifact@,
            artifact_version: self.artifact_version@,
            method: self.method@,
            created_at_unix_ms: self.created_at_unix_ms,
        }
    }
}

/// Why the calibration sidecar cannot be used, with its path and detail.
#[derive(Debug, PartialEq, Eq)]
pub enum CalibrationMetadataLoadError {
    Read { path: String, detail: String },
    Invalid { path: String, detail: String },
    Incompatible { path: String, detail: String },
}

impl CalibrationMetadataLoadError {
    /// The kind of failure, as the inference events name it.
    pub fn kind(&self) -> (r: &'static str)
        ensures
            r@ == match self {
                CalibrationMetadataLoadError::Read { .. } => "read_error"@,
                CalibrationMetadataLoadError::Invalid { .. } => "parse_error"@,
                CalibrationMetadataLoadError::Incompatible { .. } => "artifact_version_mismatch"@,
            },
    {
        match self {
            CalibrationMetadataLoadError::Read { .. } => "read_error",
            CalibrationMetadataLoadError::Invalid { .. } => "parse_error",
            CalibrationMetadataLoadError::Incompatible { .. } => "artifact_version_mismatch",
        }
    }

    /// The path of the sidecar.
    pub fn path(&self) -> (r: &str)
        ensures
            r@ == match self {
                CalibrationMetadataLoadError::Read { path, .. } => path@,
                CalibrationMetadataLoadError::Invalid { path, .. } => path@,
                CalibrationMetadataLoadError::Incompatible { path, .. } => path@,
            },
    {
        match self {
            CalibrationMetadataLoadError::Read { path, .. } => path.as_str(),
            CalibrationMetadataLoadError::Invalid { path, .. } => path.as_str(),
            CalibrationMetadataLoadError::Incompatible { path, .. } => path.as_str(),
        }
    }

    /// What went wrong.
    pub fn detail(&self) -> (r: &str)
        ensures
            r@ == match self {
                CalibrationMetadataLoadError::Read { detail, .. } => detail@,
                CalibrationMetadataLoadError::Invalid { detail, .. } => detail@,
                CalibrationMetadataLoadError::Incompatible { detail, .. } => detail@,
            },
    {
        match self {
            CalibrationMetadataLoadError::Read { detail, .. } => detail.as_str(),
            CalibrationMetadataLoadError::Invalid { detail, .. } => detail.as_str(),
            CalibrationMetadataLoadError::Incompatible { detail, .. } => detail.as_str(),
        }
    }
}

/// The weights path that the arguments name, looking past the program
/// name: `--artifact=PATH` (unless empty), `--artifact PATH`, or the first
/// argument that is no flag. `None` when they name none, and the default
/// path is used.
pub open spec fn weights_choice(args: Seq<Seq<char>>, i: int) -> Option<Seq<char>>
    decreases args.len() - i,
{
    if i < 0 || i >= args.len() {
        None
    } else if starts_with(args[i], "--artifact="@) {
        let p = args[i].skip(11);
        if p.len() > 0 {
            Some(p)
        } else {
            None
        }
    } else if args[i] == "--artifact"@ {
        if i + 1 < args.len() {
            Some(args[i + 1])
        } else {
            None
        }
    } else if !starts_with(args[i], "--"@) {
        Some(args[i])
    } else {
        weights_choice(args, i + 1)
    }
}

proof fn lemma_weights_choice_tail(a: Seq<Seq<char>>, b: Seq<Seq<char>>, i: int)
    requires
        a.len() == b.len(),
        1 <= i,
        forall|j: int| 1 <= j < a.len() ==> a[j] == b[j],
    ensures
        weights_choice(a, i) == weights_choice(b, i),
    decreases a.len() - i,
{
    if i < a.len() {
        lemma_weights_choice_tail(a, b, i + 1);
        if i + 1 < a.len() {
            lemma_weights_choice_tail(a, b, i + 2);
        }
    }
}

/// The weights path depends on the arguments after the first alone: two
/// argument lists that differ only in the program's name give the same
/// path (and nothing else, no file and no process, enters the choice).
pub proof fn law_weights_ignore_program(a: Seq<Seq<char>>, b: Seq<Seq<char>>)
    requires
        a.len() > 0,
        b.len() > 0,
        a.skip(1) == b.skip(1),
    ensures
        weights_choice(a, 1) == weights_choice(b, 1),
{
    assert(a.len() == b.len()) by {
        assert(a.skip(1).len() == a.len() - 1);
        assert(b.skip(1).len() == b.len() - 1);
    }
    assert forall|j: int| 1 <= j < a.len() implies a[j] == b[j] by {
        assert(a.skip(1)[j - 1] == b.skip(1)[j - 1]);
    }
    lemma_weights_choice_tail(a, b, 1);
}

/// The weights path reads the same from `--artifact=PATH`, from
/// `--artifact PATH`, and, for a path that does not begin with `--`, from
/// the path alone; the program's name is passed over.
pub proof fn law_weights_spellings(program: Seq<char>, path: Seq<char>)
    requires
        path.len() > 0,
    ensures
        weights_choice(seq![program, "--artifact="@ + path], 1) == Some(path),
        weights_choice(seq![program, "--artifact"@, path], 1) == Some(path),
        !starts_with(path, "--"@) ==> weights_choice(seq![program, path], 1) == Some(path),
{
    reveal_strlit("--artifact=");
    reveal_strlit("--artifact");
    reveal_strlit("--");
    let joined = "--artifact="@ + path;
    assert(starts_with(joined, "--artifact="@)) by {
        assert(joined.subrange(0, 11) =~= "--artifact="@);
    }
    assert(joined.skip(11) =~= path);
    let a2 = seq![program, "--artifact"@, path];
    assert(!starts_with("--artifact"@, "--artifact="@));
    if !starts_with(path, "--"@) {
        if starts_with(path, "--artifact="@) {
            assert(path.subrange(0, 2) =~= "--artifact="@.subrange(0, 2));
            assert(path.subrange(0, 2) =~= "--"@);
        }
        assert(path != "--artifact"@) by {
            if path == "--artifact"@ {
                assert(path.subrange(0, 2) =~= "--"@);
            }
        }
    }
}

/// The weights path that the process arguments name, if they name one;
/// the first argument is the program's name.
pub fn parse_weights_path_from_args(args: &Vec<String>) -> (r: Option<String>)
    ensures
        match weights_choice(crate::cli::texts_view(args@), 1) {
            Some(p) => r matches Some(x) && x@ == p,
            None => r is None,
        },
{
    let ghost av = crate::cli::texts_view(args@);
    let mut i: usize = 1;
    while i < args.len()
        invariant
            av == crate::cli::texts_view(args@),
            1 <= i,
            weights_choice(av, 1) == weights_choice(av, i as int),
        decreases args.len() - i,
    {
        let a = args[i].as_str();
        assert(av[i as int] == a@);
        if has_prefix(a, "--artifact=") {
            proof {
                reveal_strlit("--artifact=");
            }
            let p = a.substring_char(11, a.unicode_len());
            assert(p@ =~= a@.skip(11));
            if p.unicode_len() > 0 {
                return Some(owned(p));
            }
            return None;
        }
        if text_eq(a, "--artifact") {
            if i + 1 < args.len() {
                return Some(args[i + 1].clone());
            }
            return None;
        }
        if !has_prefix(a, "--") {
            return Some(args[i].clone());
        }
        i += 1;
    }
    None
}

/// The file next to the weights that holds `name`.
pub open spec fn sibling_path(weights: Seq<char>, name: Seq<char>) -> Seq<char> {
    path_join(directory_of(weights), name)
}

/// The manifest next to the weights.
pub fn manifest_path_for_weights(weights_path: &str) -> (r: String)
    ensures
        r@ == sibling_path(weights_path@, "manifest.toml"@),
{
    join_path(directory(weights_path).as_str(), "manifest.toml")
}

/// The calibration sidecar next to the weights.
pub fn calibration_metadata_path_for_weights(weights_path: &str) -> (r: String)
    ensures
        r@ == sibling_path(weights_path@, "calibration_artifact_metadata.json"@),
{
    join_path(directory(weights_path).as_str(), "calibration_artifact_metadata.json")
}

/// The fields of the sidecar, all of them required.
pub open spec fn calibration_field(key: Seq<char>) -> bool {
    key == "schema_version"@ || key == "calibration_artifact"@ || key == "artifact_version"@
        || key == "method"@ || key == "created_at_unix_ms"@
}

/// The first key, in the object's order, that is no sidecar field.
pub open spec fn unknown_calibration_key(o: Seq<(Seq<char>, Json)>) -> Option<Seq<char>>
    decreases o.len(),
{
    if o.len() == 0 {
        None
    } else if !calibration_field(o[0].0) {
        Some(o[0].0)
    } else {
        unknown_calibration_key(o.drop_first())
    }
}

/// The first sidecar field, in the documented order, that is missing.
pub open spec fn missing_calibration_field(o: Seq<(Seq<char>, Json)>) -> Option<Seq<char>> {
    if entries_get(o, "schema_version"@) is None {
        Some("schema_version"@)
    } else if entries_get(o, "calibration_artifact"@) is None {
        Some("calibration_artifact"@)
    } else if entries_get(o, "artifact_version"@) is None {
        Some("artifact_version"@)
    } else if entries_get(o, "method"@) is None {
        Some("method"@)
    } else if entries_get(o, "created_at_unix_ms"@) is None {
        Some("created_at_unix_ms"@)
    } else {
        None
    }
}

/// The non-empty string of a sidecar field.
pub open spec fn filled_string(o: Seq<(Seq<char>, Json)>, key: Seq<char>) -> Result<
    Seq<char>,
    Seq<char>,
> {
    match entries_get(o, key) {
        Some(Json::Str(s)) => if s.len() == 0 {
            Err(key + " must be non-empty"@)
        } else {
            Ok(s)
        },
        _ => Err(key + " must be a string"@),
    }
}

/// The sidecar that a parsed document holds, or why it is refused.
pub open spec fn calibration_spec(doc: Json) -> Result<CalibrationView, Seq<char>> {
    match doc {
        Json::Object(o) => match missing_calibration_field(o) {
            Some(f) => Err("missing required field `"@ + f + "`"@),
            None => match unknown_calibration_key(o) {
                Some(k) => Err("unknown field `"@ + k + "`"@),
                None => match entries_get(o, "schema_version"@) {
                    Some(Json::Str(v)) => if v != "1"@ {
                        Err("schema_version must be \"1\""@)
                    } else {
                        match (
                            filled_string(o, "calibration_artifact"@),
                            filled_string(o, "artifact_version"@),
                            filled_string(o, "method"@),
                        ) {
                            (Err(m), _, _) => Err(m),
                            (Ok(_), Err(m), _) => Err(m),
                            (Ok(_), Ok(_), Err(m)) => Err(m),
                            (Ok(ca), Ok(av), Ok(me)) => match entries_get(
                                o,
                                "created_at_unix_ms"@,
                            ) {
                                Some(Json::UInt(ms)) => Ok(
                                    CalibrationView {
                                        schema_version: 1,
                                        calibration_artifact: ca,
                                        artifact_version: av,
                                        method: me,
                                        created_at_unix_ms: ms,
                                    },
                                ),
                                _ => Err("created_at_unix_ms must be a non-negative integer"@),
                            },
                        }
                    },
                    _ => Err("schema_version must be a string"@),
                },
            },
        },
        _ => Err("metadata must be a JSON object"@),
    }
}

fn is_calibration_field(key: &str) -> (r: bool)
    ensures
        r == calibration_field(key@),
{
    text_eq(key, "schema_version") || text_eq(key, "calibration_artifact") || text_eq(
        key,
        "artifact_version",
    ) || text_eq(key, "method") || text_eq(key, "created_at_unix_ms")
}

fn read_filled(o: &Vec<(String, JsonValue)>, key: &str) -> (r: Result<String, String>)
    ensures
        match filled_string(entries_view(o@), key@) {
            Ok(s) => r matches Ok(x) && x@ == s,
            Err(m) => r matches Err(x) && x@ == m,
        },
{
    match map_get(o, key) {
        Some(JsonValue::Str(s)) => if s.as_str().unicode_len() == 0 {
            Err(cat(key, " must be non-empty"))
        } else {
            Ok(s.clone())
        },
        _ => Err(cat(key, " must be a string")),
    }
}

fn missing_field_error(f: &str) -> (r: Result<CalibrationMetadata, String>)
    ensures
        r matches Err(m) && m@ == "missing required field `"@ + f@ + "`"@,
{
    Err(cat3("missing required field `", f, "`"))
}

/// Reads and checks the calibration sidecar from its parsed document.
/// (Parsing its text happens before.)
pub fn parse_calibration_metadata(document: &JsonValue) -> (r: Result<CalibrationMetadata, String>)
    ensures
        match calibration_spec(document@) {
            Ok(m) => r matches Ok(x) && x@ == m,
            Err(m) => r matches Err(x) && x@ == m,
        },
{
    let o = match document {
        JsonValue::Object(o) => o,
        _ => {
            return Err(owned("metadata must be a JSON object"));
        },
    };
    proof {
        lemma_object_view(*o);
    }
    if map_get(o, "schema_version").is_none() {
        return missing_field_error("schema_version");
    }
    if map_get(o, "calibration_artifact").is_none() {
        return missing_field_error("calibration_artifact");
    }
    if map_get(o, "artifact_version").is_none() {
        return missing_field_error("artifact_version");
    }
    if map_get(o, "method").is_none() {
        return missing_field_error("method");
    }
    if map_get(o, "created_at_unix_ms").is_none() {
        return missing_field_error("created_at_unix_ms");
    }
    let ghost ov = entries_view(o@);
    let mut i: usize = 0;
    assert(ov.skip(0) =~= ov);
    while i < o.len()
        invariant
            ov == entries_view(o@),
            document@ == Json::Object(ov),
            missing_calibration_field(ov) is None,
            i <= o.len(),
            unknown_calibration_key(ov) == unknown_calibration_key(ov.skip(i as int)),
        decreases o.len() - i,
    {
        assert(ov.skip(i as int).drop_first() =~= ov.skip(i + 1));
        assert(ov.skip(i as int)[0].0 == o[i as int].0@);
        if !is_calibration_field(o[i].0.as_str()) {
            return Err(cat3("unknown field `", o[i].0.as_str(), "`"));
        }
        i += 1;
    }
    assert(ov.skip(i as int) =~= Seq::<(Seq<char>, Json)>::empty());
    match map_get(o, "schema_version") {
        Some(JsonValue::Str(v)) => {
            if !text_eq(v.as_str(), "1") {
                return Err(owned("schema_version must be \"1\""));
            }
        },
        _ => {
            return Err(owned("schema_version must be a string"));
        },
    }
    let calibration_artifact = read_filled(o, "calibration_artifact")?;
    let artifact_version = read_filled(o, "artifact_version")?;
    let method = read_filled(o, "method")?;
    let created_at_unix_ms = match map_get(o, "created_at_unix_ms") {
        Some(JsonValue::UInt(ms)) => *ms,
        _ => {
            return Err(owned("created_at_unix_ms must be a non-negative integer"));
        },
    };
    Ok(
        CalibrationMetadata {
            schema_version: 1,
            calibration_artifact,
            artifact_version,
            method,
            created_at_unix_ms,
        },
    )
}

/// calibration metadata artifact_version `V` does not match runtime artifact_version `R`
pub open spec fn mismatch_detail(found: Seq<char>, runtime: Seq<char>) -> Seq<char> {
    "calibration metadata artifact_version `"@ + found
        + "` does not match runtime artifact_version `"@ + runtime + "`"@
}

/// Accepts the sidecar when it is for the runtime's artifact version;
/// else fails as incompatible, naming the sidecar next to the weights.
pub fn ensure_calibration_metadata_compatible(
    weights_path: &str,
    metadata: CalibrationMetadata,
    runtime_artifact_version: &str,
) -> (r: Result<CalibrationMetadata, CalibrationMetadataLoadError>)
    ensures
        metadata.artifact_version@ == runtime_artifact_version@ ==> (r matches Ok(m) && m
            == metadata),
        metadata.artifact_version@ != runtime_artifact_version@ ==> (r matches Err(
            CalibrationMetadataLoadError::Incompatible { path, detail },
        ) && path@ == sibling_path(weights_path@, "calibration_artifact_metadata.json"@) && detail@
            == mismatch_detail(metadata.artifact_version@, runtime_artifact_version@)),
{
    if text_eq(metadata.artifact_version.as_str(), runtime_artifact_version) {
        return Ok(metadata);
    }
    Err(
        CalibrationMetadataLoadError::Incompatible {
            path: calibration_metadata_path_for_weights(weights_path),
            detail: cat5(
                "calibration metadata artifact_version `",
                metadata.artifact_version.as_str(),
                "` does not match runtime artifact_version `",
                runtime_artifact_version,
                "`",
            ),
        },
    )
}

/// Why an artifact's manifest cannot be used. A failure to read or parse
/// it carries the failure's text.
#[derive(Debug, PartialEq, Eq)]
pub enum ManifestFailure {
    Io(String),
    TomlParse(String),
    MissingField(String),
    InvalidField(String, String),
    Mismatch { field: String, expected: String, actual: String },
}

/// Why inference cannot load its artifact.
#[derive(Debug, PartialEq, Eq)]
pub enum InferError {
    ArtifactMissing { path: String },
    ManifestMissing { path: String },
    ManifestInvalid(ManifestFailure),
    ArtifactLoadFailed { detail: String, path: String },
}

pub open spec fn str_json(s: String) -> Json {
    Json::Str(s@)
}

/// The fields of the `infer_error` event for a failure to load the
/// artifact: its kind, and what it names.
pub open spec fn infer_error_json(e: InferError) -> Json {
    match e {
        InferError::ArtifactMissing { path } => object_of(
            seq![("kind"@, Json::Str("artifact_missing"@)), ("artifact"@, str_json(path))],
        ),
        InferError::ManifestMissing { path } => object_of(
            seq![("kind"@, Json::Str("manifest_missing"@)), ("manifest"@, str_json(path))],
        ),
        InferError::ManifestInvalid(m) => match m {
            ManifestFailure::Io(d) => object_of(
                seq![("kind"@, Json::Str("manifest_io_error"@)), ("detail"@, str_json(d))],
            ),
            ManifestFailure::TomlParse(d) => object_of(
                seq![("kind"@, Json::Str("manifest_parse_error"@)), ("detail"@, str_json(d))],
            ),
            ManifestFailure::MissingField(f) => object_of(
                seq![("kind"@, Json::Str("manifest_missing_field"@)), ("field"@, str_json(f))],
            ),
            ManifestFailure::InvalidField(f, d) => object_of(
                seq![
                    ("kind"@, Json::Str("manifest_invalid_field"@)),
                    ("field"@, str_json(f)),
                    ("detail"@, str_json(d)),
                ],
            ),
            ManifestFailure::Mismatch { field, expected, actual } => object_of(
                seq![
                    ("kind"@, Json::Str("manifest_mismatch"@)),
                    ("field"@, str_json(field)),
                    ("expected"@, str_json(expected)),
                    ("actual"@, str_json(actual)),
                ],
            ),
        },
        InferError::ArtifactLoadFailed { detail, path } => object_of(
            seq![
                ("kind"@, Json::Str("artifact_load_failed"@)),
                ("artifact"@, str_json(path)),
                ("detail"@, str_json(detail)),
            ],
        ),
    }
}

fn two_fields(k1: &str, v1: &str, k2: &str, v2: &str) -> (r: JsonValue)
    ensures
        r@ == object_of(seq![(k1@, Json::Str(v1@)), (k2@, Json::Str(v2@))]),
{
    let mut pairs: Vec<(String, JsonValue)> = Vec::new();
    pairs.push((owned(k1), JsonValue::Str(owned(v1))));
    pairs.push((owned(k2), JsonValue::Str(owned(v2))));
    assert(entries_view(pairs@) =~= seq![(k1@, Json::Str(v1@)), (k2@, Json::Str(v2@))]);
    object_from_pairs(pairs)
}

/// The fields of the `infer_error` event for a failure to load the
/// artifact.
pub fn infer_error_fields(err: &InferError) -> (r: JsonValue)
    ensures
        r@ == infer_error_json(*err),
{
    match err {
        InferError::ArtifactMissing { path } => two_fields("kind", "artifact_missing", "artifact", path.as_str()),
        InferError::ManifestMissing { path } => two_fields("kind", "manifest_missing", "manifest", path.as_str()),
        InferError::ManifestInvalid(m) => match m {
            ManifestFailure::Io(d) => two_fields("kind", "manifest_io_error", "detail", d.as_str()),
            ManifestFailure::TomlParse(d) => two_fields("kind", "manifest_parse_error", "detail", d.as_str()),
            ManifestFailure::MissingField(f) => two_fields("kind", "manifest_missing_field", "field", f.as_str()),
            ManifestFailure::InvalidField(f, d) => {
                let mut pairs: Vec<(String, JsonValue)> = Vec::new();
                pairs.push((owned("kind"), JsonValue::Str(owned("manifest_invalid_field"))));
                pairs.push((owned("field"), JsonValue::Str(f.clone())));
                pairs.push((owned("detail"), JsonValue::Str(d.clone())));
                assert(entries_view(pairs@) =~= seq![
                    ("kind"@, Json::Str("manifest_invalid_field"@)),
                    ("field"@, str_json(*f)),
                    ("detail"@, str_json(*d)),
                ]);
                object_from_pairs(pairs)
            },
            ManifestFailure::Mismatch { field, expected, actual } => {
                let mut pairs: Vec<(String, JsonValue)> = Vec::new();
                pairs.push((owned("kind"), JsonValue::Str(owned("manifest_mismatch"))));
                pairs.push((owned("field"), JsonValue::Str(field.clone())));
                pairs.push((owned("expected"), JsonValue::Str(expected.clone())));
                pairs.push((owned("actual"), JsonValue::Str(actual.clone())));
                assert(entries_view(pairs@) =~= seq![
                    ("kind"@, Json::Str("manifest_mismatch"@)),
                    ("field"@, str_json(*field)),
                    ("expected"@, str_json(*expected)),
                    ("actual"@, str_json(*actual)),
                ]);
                object_from_pairs(pairs)
            },
        },
        InferError::ArtifactLoadFailed { detail, path } => {
            let mut pairs: Vec<(String, JsonValue)> = Vec::new();
            pairs.push((owned("kind"), JsonValue::Str(owned("artifact_load_failed"))));
            pairs.push((owned("artifact"), JsonValue::Str(path.clone())));
            pairs.push((owned("detail"), JsonValue::Str(detail.clone())));
            assert(entries_view(pairs@) =~= seq![
                ("kind"@, Json::Str("artifact_load_failed"@)),
                ("artifact"@, str_json(*path)),
                ("detail"@, str_json(*detail)),
            ]);
            object_from_pairs(pairs)
        },
    }
}

/// The fields of the `calibration_metadata_invalid` event.
pub open spec fn calibration_invalid_json(e: CalibrationMetadataLoadError) -> Json {
    let (kind, path, detail) = match e {
        CalibrationMetadataLoadError::Read { path, detail } => ("read_error"@, path@, detail@),
        CalibrationMetadataLoadError::Invalid { path, detail } => ("parse_error"@, path@, detail@),
        CalibrationMetadataLoadError::Incompatible { path, detail } => (
            "artifact_version_mismatch"@,
            path@,
            detail@,
        ),
    };
    object_of(
        seq![("kind"@, Json::Str(kind)), ("metadata"@, Json::Str(path)), ("detail"@, Json::Str(detail))],
    )
}

/// The fields of the event that reports an unusable calibration sidecar.
pub fn calibration_invalid_fields(err: &CalibrationMetadataLoadError) -> (r: JsonValue)
    ensures
        r@ == calibration_invalid_json(*err),
{
    let mut pairs: Vec<(String, JsonValue)> = Vec::new();
    pairs.push((owned("kind"), JsonValue::Str(owned(err.kind()))));
    pairs.push((owned("metadata"), JsonValue::Str(owned(err.path()))));
    pairs.push((owned("detail"), JsonValue::Str(owned(err.detail()))));
    assert(entries_view(pairs@) =~= match *err {
        CalibrationMetadataLoadError::Read { path, detail } => seq![
            ("kind"@, Json::Str("read_error"@)),
            ("metadata"@, Json::Str(path@)),
            ("detail"@, Json::Str(detail@)),
        ],
        CalibrationMetadataLoadError::Invalid { path, detail } => seq![
            ("kind"@, Json::Str("parse_error"@)),
            ("metadata"@, Json::Str(path@)),
            ("detail"@, Json::Str(detail@)),
        ],
        CalibrationMetadataLoadError::Incompatible { path, detail } => seq![
            ("kind"@, Json::Str("artifact_version_mismatch"@)),
            ("metadata"@, Json::Str(path@)),
            ("detail"@, Json::Str(detail@)),
        ],
    });
    object_from_pairs(pairs)
}


/// What the calibration sidecar's text gives: "invalid json: DETAIL" where
/// it holds no JSON, else what its document gives.
pub open spec fn calibration_text_spec(contents: Seq<char>) -> Result<CalibrationView, Seq<char>> {
    match crate::json_text::json_parse_result(contents) {
        Err(e) => Err("invalid json: "@ + e),
        Ok(d) => calibration_spec(d),
    }
}

/// Parses and checks the text of the calibration sidecar.
pub fn parse_calibration_metadata_text(contents: &str) -> (r: Result<CalibrationMetadata, String>)
    ensures
        match calibration_text_spec(contents@) {
            Ok(m) => r matches Ok(x) && x@ == m,
            Err(m) => r matches Err(x) && x@ == m,
        },
{
    match crate::json_text::parse_json_text(contents) {
        Err(e) => Err(cat("invalid json: ", e.as_str())),
        Ok(document) => parse_calibration_metadata(&document),
    }
}

/// How reading the calibration sidecar went: there was no such file, the
/// read failed (with the error's text), or it gave the file's text.
pub enum CalibrationRead {
    NotFound,
    Failed(String),
    Contents(String),
}

/// What the sidecar of `weights_path` gives, once read: nothing when there
/// is no sidecar; `Read` with the error's text when the read failed;
/// `Invalid` with the reason when its text is no valid sidecar; else the
/// metadata. Each error names the sidecar's path.
pub fn calibration_from_read(weights_path: &str, read: CalibrationRead) -> (r: Result<
    Option<CalibrationMetadata>,
    CalibrationMetadataLoadError,
>)
    ensures
        match read {
            CalibrationRead::NotFound => r matches Ok(None),
            CalibrationRead::Failed(d) => r matches Err(CalibrationMetadataLoadError::Read { path, detail })
                && path@ == sibling_path(weights_path@, "calibration_artifact_metadata.json"@)
                && detail@ == d@,
            CalibrationRead::Contents(t) => match calibration_text_spec(t@) {
                Ok(m) => r matches Ok(Some(x)) && x@ == m,
                Err(m) => r matches Err(CalibrationMetadataLoadError::Invalid { path, detail })
                    && path@ == sibling_path(weights_path@, "calibration_artifact_metadata.json"@)
                    && detail@ == m,
            },
        },
{
    match read {
        CalibrationRead::NotFound => Ok(None),
        CalibrationRead::Failed(detail) => Err(
            CalibrationMetadataLoadError::Read {
                path: calibration_metadata_path_for_weights(weights_path),
                detail,
            },
        ),
        CalibrationRead::Contents(text) => match parse_calibration_metadata_text(text.as_str()) {
            Ok(m) => Ok(Some(m)),
            Err(detail) => Err(
                CalibrationMetadataLoadError::Invalid {
                    path: calibration_metadata_path_for_weights(weights_path),
                    detail,
                },
            ),
        },
    }
}

} // verus!
