use afterburner::data::{
    is_lower_hex_sha256, parse_pretraining_sample_metadata, PretrainingSampleMetadata,
    PretrainingSampleMetadataError, PretrainingSplit,
};
use afterburner::json::JsonValue;

fn text(s: &str) -> JsonValue {
    JsonValue::Str(s.to_string())
}

fn object(pairs: Vec<(&str, JsonValue)>) -> JsonValue {
    let mut entries: Vec<(String, JsonValue)> =
        pairs.into_iter().map(|(k, v)| (k.to_string(), v)).collect();
    entries.sort_by(|a, b| a.0.cmp(&b.0));
    JsonValue::Object(entries)
}

const SUM: &str = "0123456789abcdef0123456789abcdef0123456789abcdef0123456789abcdef";

fn metadata(split: &str, checksum: &str) -> JsonValue {
    object(vec![
        ("schema_version", text("2")),
        ("source", text("wiki")),
        ("source_revision", text("r1")),
        ("sample_id", text("s-1")),
        ("split", text(split)),
        ("checksum", text(checksum)),
    ])
}

fn invalid(field: &str, m: &str) -> PretrainingSampleMetadataError {
    PretrainingSampleMetadataError::InvalidField(field.to_string(), m.to_string())
}

#[test]
fn pretraining_metadata_is_read() {
    let m = parse_pretraining_sample_metadata(&metadata("validation", SUM)).expect("metadata");
    assert_eq!(
        m,
        PretrainingSampleMetadata {
            schema_version: 2,
            source: "wiki".to_string(),
            source_revision: "r1".to_string(),
            sample_id: "s-1".to_string(),
            split: PretrainingSplit::Validation,
            checksum: SUM.to_string(),
        }
    );
}

#[test]
fn pretraining_metadata_errors() {
    assert_eq!(
        parse_pretraining_sample_metadata(&metadata("dev", SUM)),
        Err(invalid("split", "expected one of: train, validation, test"))
    );
    assert_eq!(
        parse_pretraining_sample_metadata(&metadata("train", &SUM.to_uppercase())),
        Err(invalid("checksum", "expected 64 lowercase hex characters"))
    );
    assert_eq!(
        parse_pretraining_sample_metadata(&text("x")),
        Err(invalid("pretraining_sample_metadata", "expected object"))
    );
    let doc = object(vec![("extra", text("1")), ("schema_version", text("2"))]);
    assert_eq!(
        parse_pretraining_sample_metadata(&doc),
        Err(invalid("pretraining_sample_metadata", "unknown field: extra"))
    );
    let doc = object(vec![("schema_version", text("2"))]);
    assert_eq!(
        parse_pretraining_sample_metadata(&doc),
        Err(PretrainingSampleMetadataError::MissingField("source".to_string()))
    );
    let doc = object(vec![("schema_version", JsonValue::UInt(2))]);
    assert_eq!(
        parse_pretraining_sample_metadata(&doc),
        Err(invalid("schema_version", "expected string"))
    );
    let doc = object(vec![("schema_version", text("1"))]);
    assert_eq!(
        parse_pretraining_sample_metadata(&doc),
        Err(invalid("schema_version", "expected \"2\""))
    );
}

#[test]
fn lower_hex_checksum_needs_64_lowercase_digits() {
    assert!(is_lower_hex_sha256(SUM));
    assert!(!is_lower_hex_sha256(&SUM[1..]));
    assert!(!is_lower_hex_sha256(&SUM.replace('a', "g")));
}
