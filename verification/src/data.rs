use vstd::prelude::*;
use crate::json::{entries_get, entries_view, lemma_object_view, map_get, text_eq, Json, JsonValue};
use crate::text::{cat, owned};
use vstd::string::StrSliceExecFns;

verus! {

/// The split a pretraining sample belongs to.
#[derive(Debug, Clone, Copy, PartialEq, Eq, Structural)]
pub enum PretrainingSplit {
    Train,
    Validation,
    Test,
}

/// The metadata that every pretraining sample carries.
#[derive(Debug, PartialEq, Eq)]
pub struct PretrainingSampleMetadata {
    pub schema_version: u8,
    pub source: String,
    pub source_revision: String,
    pub sample_id: String,
    pub split: PretrainingSplit,
    pub checksum: String,
}

pub struct MetadataView {
    pub schema_version: u8,
    pub source: Seq<char>,
    pub source_revision: Seq<char>,
    pub sample_id: Seq<char>,
    pub split: PretrainingSplit,
    pub checksum: Seq<char>,
}

impl View for PretrainingSampleMetadata {
    type V = MetadataView;

    open spec fn view(&self) -> MetadataView {
        MetadataView {
            schema_version: self.schema_version,
            source: self.source@,
            source_revision: self.source_revision@,
            sample_id: self.sample_id@,
            split: self.split,
            checksum: self.checksum@,
        }
    }
}

/// Why sample metadata is refused: a required field is missing, or a
/// field (or the document itself) holds a wrong value.
#[derive(Debug, PartialEq, Eq)]
pub enum PretrainingSampleMetadataError {
    MissingField(String),
    InvalidField(String, String),
}

pub enum MetadataErrorView {
    MissingField(Seq<char>),
    InvalidField(Seq<char>, Seq<char>),
}

impl View for PretrainingSampleMetadataError {
    type V = MetadataErrorView;

    open spec fn view(&self) -> MetadataErrorView {
        match self {
            PretrainingSampleMetadataError::MissingField(f) => MetadataErrorView::MissingField(f@),
            PretrainingSampleMetadataError::InvalidField(f, m) => MetadataErrorView::InvalidField(
                f@,
                m@,
            ),
        }
    }
}

/// The fields that sample metadata holds, all of them required.
pub open spec fn metadata_field(key: Seq<char>) -> bool {
    key == "schema_version"@ || key == "source"@ || key == "source_revision"@ || key
        == "sample_id"@ || key == "split"@ || key == "checksum"@
}

/// The first key, in the object's order, that is no metadata field.
pub open spec fn unknown_key(o: Seq<(Seq<char>, Json)>) -> Option<Seq<char>>
    decreases o.len(),
{
    if o.len() == 0 {
        None
    } else if !metadata_field(o[0].0) {
        Some(o[0].0)
    } else {
        unknown_key(o.drop_first())
    }
}

/// The string under a required field.
pub open spec fn required_string(o: Seq<(Seq<char>, Json)>, field: Seq<char>) -> Result<
    Seq<char>,
    MetadataErrorView,
> {
    match entries_get(o, field) {
        Some(Json::Str(s)) => Ok(s),
        Some(_) => Err(MetadataErrorView::InvalidField(field, "expected string"@)),
        None => Err(MetadataErrorView::MissingField(field)),
    }
}

/// The split that its name stands for.
pub open spec fn split_of(name: Seq<char>) -> Option<PretrainingSplit> {
    if name == "train"@ {
        Some(PretrainingSplit::Train)
    } else if name == "validation"@ {
        Some(PretrainingSplit::Validation)
    } else if name == "test"@ {
        Some(PretrainingSplit::Test)
    } else {
        None
    }
}

/// A lowercase hexadecimal digit.
pub open spec fn lower_hex(c: char) -> bool {
    ('0' <= c && c <= '9') || ('a' <= c && c <= 'f')
}

/// Exactly 64 lowercase hexadecimal digits, as a SHA-256 checksum is
/// written.
pub open spec fn lower_hex_sha256(s: Seq<char>) -> bool {
    s.len() == 64 && forall|i: int| 0 <= i < s.len() ==> lower_hex(#[trigger] s[i])
}

pub open spec fn invalid(field: Seq<char>, m: Seq<char>) -> MetadataErrorView {
    MetadataErrorView::InvalidField(field, m)
}

/// The metadata that a document describes, or why it is refused. Fields
/// are checked in a fixed order and the first failure is reported.
pub open spec fn metadata_spec(doc: Json) -> Result<MetadataView, MetadataErrorView> {
    match doc {
        Json::Object(o) => match unknown_key(o) {
            Some(k) => Err(invalid("pretraining_sample_metadata"@, "unknown field: "@ + k)),
            None => match required_string(o, "schema_version"@) {
                Err(e) => Err(e),
                Ok(v) => if v != "2"@ {
                    Err(invalid("schema_version"@, "expected \"2\""@))
                } else {
                    match required_string(o, "source"@) {
                        Err(e) => Err(e),
                        Ok(source) => if source.len() == 0 {
                            Err(invalid("source"@, "must be non-empty"@))
                        } else {
                            match required_string(o, "source_revision"@) {
                                Err(e) => Err(e),
                                Ok(rev) => if rev.len() == 0 {
                                    Err(invalid("source_revision"@, "must be non-empty"@))
                                } else {
                                    match required_string(o, "sample_id"@) {
                                        Err(e) => Err(e),
                                        Ok(id) => if id.len() == 0 {
                                            Err(invalid("sample_id"@, "must be non-empty"@))
                                        } else {
                                            match required_string(o, "split"@) {
                                                Err(e) => Err(e),
                                                Ok(sp) => match split_of(sp) {
                                                    None => Err(
                                                        invalid(
                                                            "split"@,
                                                            "expected one of: train, validation, test"@,
                                                        ),
                                                    ),
                                                    Some(split) => match required_string(
                                                        o,
                                                        "checksum"@,
                                                    ) {
                                                        Err(e) => Err(e),
                                                        Ok(sum) => if !lower_hex_sha256(sum) {
                                                            Err(
                                                                invalid(
                                                                    "checksum"@,
                                                                    "expected 64 lowercase hex characters"@,
                                                                ),
                                                            )
                                                        } else {
                                                            Ok(
                                                                MetadataView {
                                                                    schema_version: 2,
                                                                    source,
                                                                    source_revision: rev,
                                                                    sample_id: id,
                                                                    split,
                                                                    checksum: sum,
                                                                },
                                                            )
                                                        },
                                                    },
                                                },
                                            }
                                        },
                                    }
                                },
                            }
                        },
                    }
                },
            },
        },
        _ => Err(invalid("pretraining_sample_metadata"@, "expected object"@)),
    }
}

/// Accepted metadata says what the document says: each text field is the
/// document's string under that key, the schema is `"2"`, the checksum is
/// 64 lowercase hex digits, and the split is the one the document names:
/// `"train"` gives `Train`, `"validation"` gives `Validation` and `"test"`
/// gives `Test` (so no two names give one split).
pub proof fn law_metadata_fields(doc: Json)
    ensures
        metadata_spec(doc) matches Ok(m) ==> {
            &&& doc is Object
            &&& doc.field("schema_version"@) == Some(Json::Str("2"@))
            &&& doc.field("source"@) == Some(Json::Str(m.source))
            &&& doc.field("source_revision"@) == Some(Json::Str(m.source_revision))
            &&& doc.field("sample_id"@) == Some(Json::Str(m.sample_id))
            &&& doc.field("checksum"@) == Some(Json::Str(m.checksum))
            &&& lower_hex_sha256(m.checksum)
            &&& m.schema_version == 2
            &&& doc.field("split"@) matches Some(Json::Str(name))
            &&& (m.split == PretrainingSplit::Train <==> name == "train"@)
            &&& (m.split == PretrainingSplit::Validation <==> name == "validation"@)
            &&& (m.split == PretrainingSplit::Test <==> name == "test"@)
        },
{
    reveal_strlit("train");
    reveal_strlit("validation");
    reveal_strlit("test");
    assert("train"@ != "validation"@) by {
        assert("train"@.len() != "validation"@.len());
    }
    assert("train"@ != "test"@) by {
        assert("train"@.len() != "test"@.len());
    }
    assert("validation"@ != "test"@) by {
        assert("validation"@.len() != "test"@.len());
    }
}

fn is_metadata_field(key: &str) -> (r: bool)
    ensures
        r == metadata_field(key@),
{
    text_eq(key, "schema_version") || text_eq(key, "source") || text_eq(key, "source_revision")
        || text_eq(key, "sample_id") || text_eq(key, "split") || text_eq(key, "checksum")
}

fn read_required_string(o: &Vec<(String, JsonValue)>, field: &str) -> (r: Result<
    String,
    PretrainingSampleMetadataError,
>)
    ensures
        match required_string(entries_view(o@), field@) {
            Ok(s) => r matches Ok(x) && x@ == s,
            Err(e) => r matches Err(x) && x@ == e,
        },
{
    match map_get(o, field) {
        Some(JsonValue::Str(s)) => Ok(s.clone()),
        Some(_) => Err(
            PretrainingSampleMetadataError::InvalidField(owned(field), owned("expected string")),
        ),
        None => Err(PretrainingSampleMetadataError::MissingField(owned(field))),
    }
}

fn invalid_field(field: &str, m: &str) -> (r: Result<PretrainingSampleMetadata, PretrainingSampleMetadataError>)
    ensures
        r matches Err(e) && e@ == invalid(field@, m@),
{
    Err(PretrainingSampleMetadataError::InvalidField(owned(field), owned(m)))
}

/// Whether the text is exactly 64 lowercase hexadecimal digits.
pub fn is_lower_hex_sha256(checksum: &str) -> (r: bool)
    ensures
        r == lower_hex_sha256(checksum@),
{
    let cs = crate::json::chars_of(checksum);
    if cs.len() != 64 {
        return false;
    }
    let mut i: usize = 0;
    while i < cs.len()
        invariant
            cs@ == checksum@,
            i <= cs.len(),
            forall|j: int| 0 <= j < i ==> lower_hex(#[trigger] cs@[j]),
        decreases cs.len() - i,
    {
        let c = cs[i];
        if !(('0' <= c && c <= '9') || ('a' <= c && c <= 'f')) {
            assert(!lower_hex(cs@[i as int]));
            return false;
        }
        i += 1;
    }
    true
}

fn split_named(name: &str) -> (r: Option<PretrainingSplit>)
    ensures
        r == split_of(name@),
{
    if text_eq(name, "train") {
        Some(PretrainingSplit::Train)
    } else if text_eq(name, "validation") {
        Some(PretrainingSplit::Validation)
    } else if text_eq(name, "test") {
        Some(PretrainingSplit::Test)
    } else {
        None
    }
}

/// Reads and checks the metadata of a pretraining sample.
pub fn parse_pretraining_sample_metadata(value: &JsonValue) -> (r: Result<
    PretrainingSampleMetadata,
    PretrainingSampleMetadataError,
>)
    ensures
        match metadata_spec(value@) {
            Ok(m) => r matches Ok(x) && x@ == m,
            Err(e) => r matches Err(x) && x@ == e,
        },
{
    let o = match value {
        JsonValue::Object(o) => o,
        _ => {
            return invalid_field("pretraining_sample_metadata", "expected object");
        },
    };
    proof {
        lemma_object_view(*o);
    }
    let ghost ov = entries_view(o@);
    let mut i: usize = 0;
    assert(ov.skip(0) =~= ov);
    while i < o.len()
        invariant
            ov == entries_view(o@),
            value@ == Json::Object(ov),
            i <= o.len(),
            unknown_key(ov) == unknown_key(ov.skip(i as int)),
        decreases o.len() - i,
    {
        assert(ov.skip(i as int).drop_first() =~= ov.skip(i + 1));
        assert(ov.skip(i as int)[0].0 == o[i as int].0@);
        if !is_metadata_field(o[i].0.as_str()) {
            return Err(
                PretrainingSampleMetadataError::InvalidField(
                    owned("pretraining_sample_metadata"),
                    cat("unknown field: ", o[i].0.as_str()),
                ),
            );
        }
        i += 1;
    }
    assert(ov.skip(i as int) =~= Seq::<(Seq<char>, Json)>::empty());
    let schema_version = read_required_string(o, "schema_version")?;
    if !text_eq(schema_version.as_str(), "2") {
        return invalid_field("schema_version", "expected \"2\"");
    }
    let source = read_required_string(o, "source")?;
    if source.as_str().unicode_len() == 0 {
        return invalid_field("source", "must be non-empty");
    }
    let source_revision = read_required_string(o, "source_revision")?;
    if source_revision.as_str().unicode_len() == 0 {
        return invalid_field("source_revision", "must be non-empty");
    }
    let sample_id = read_required_string(o, "sample_id")?;
    if sample_id.as_str().unicode_len() == 0 {
        return invalid_field("sample_id", "must be non-empty");
    }
    let split_name = read_required_string(o, "split")?;
    let split = match split_named(split_name.as_str()) {
        Some(s) => s,
        None => {
            return invalid_field("split", "expected one of: train, validation, test");
        },
    };
    let checksum = read_required_string(o, "checksum")?;
    if !is_lower_hex_sha256(checksum.as_str()) {
        return invalid_field("checksum", "expected 64 lowercase hex characters");
    }
    Ok(
        PretrainingSampleMetadata {
            schema_version: 2,
            source,
            source_revision,
            sample_id,
            split,
            checksum,
        },
    )
}

} // verus!
