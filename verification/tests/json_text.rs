use afterburner::cmd_infer::load_adapter_registry_metadata_text;
use afterburner::cmd_upload::load_support_files_text;
use afterburner::infer::{
    calibration_from_read, parse_calibration_metadata_text, CalibrationMetadataLoadError,
    CalibrationRead,
};
use afterburner::json::JsonValue;
use afterburner::json_text::{json_document_from_text, json_object_from_text, parse_document};

#[test]
fn json_text_reads_numbers_and_orders_keys() {
    let v = parse_document(r#"{"b": -3, "a": [3, -0.0, 0.5, "x", null, true]}"#).expect("json");
    let expected = JsonValue::Object(vec![
        (
            "a".to_string(),
            JsonValue::Array(vec![
                JsonValue::UInt(3),
                JsonValue::Float((-0.0f64).to_bits()),
                JsonValue::Float(0.5f64.to_bits()),
                JsonValue::Str("x".to_string()),
                JsonValue::Null,
                JsonValue::Bool(true),
            ]),
        ),
        ("b".to_string(), JsonValue::NegInt(-3)),
    ]);
    assert_eq!(v, expected);
    assert!(parse_document("{").is_err());
}

#[test]
fn json_object_from_text_names_the_file_on_failure() {
    let o = json_object_from_text(r#"{"k": "v"}"#, "p.json", "gpu scheduler heartbeat").expect("object");
    assert_eq!(o, vec![("k".to_string(), JsonValue::Str("v".to_string()))]);
    assert_eq!(
        json_object_from_text("[1]", "p.json", "gpu scheduler heartbeat").err().unwrap(),
        "gpu scheduler heartbeat `p.json` must be an object"
    );
    let err = json_object_from_text("{", "p.json", "gpu scheduler heartbeat").err().unwrap();
    assert!(err.starts_with("parse gpu scheduler heartbeat `p.json`: "), "{err}");
    assert!(json_document_from_text("nope", "q", "kind").err().unwrap().starts_with("parse kind `q`: "));
}

#[test]
fn calibration_text_refuses_invalid_json() {
    let err = parse_calibration_metadata_text("not json").err().unwrap();
    assert!(err.starts_with("invalid json: "), "{err}");
    assert_eq!(parse_calibration_metadata_text("[]").err().unwrap(), "metadata must be a JSON object");
    let m = parse_calibration_metadata_text(
        r#"{"schema_version": "1", "calibration_artifact": "c.json", "artifact_version": "0.1.0",
            "method": "temperature", "created_at_unix_ms": 7}"#,
    )
    .expect("metadata");
    assert_eq!(m.artifact_version, "0.1.0");
    assert_eq!(m.created_at_unix_ms, 7);
}

#[test]
fn calibration_read_outcomes() {
    assert!(matches!(calibration_from_read("a/m.mpk", CalibrationRead::NotFound), Ok(None)));
    match calibration_from_read("a/m.mpk", CalibrationRead::Failed("denied".to_string())) {
        Err(CalibrationMetadataLoadError::Read { path, detail }) => {
            assert_eq!(path, "a/calibration_artifact_metadata.json");
            assert_eq!(detail, "denied");
        }
        other => panic!("unexpected {:?}", other.is_ok()),
    }
    match calibration_from_read("a/m.mpk", CalibrationRead::Contents("{".to_string())) {
        Err(CalibrationMetadataLoadError::Invalid { detail, .. }) => {
            assert!(detail.starts_with("invalid json: "))
        }
        other => panic!("unexpected {:?}", other.is_ok()),
    }
}

#[test]
fn fixture_and_contract_texts_refuse_invalid_json() {
    let err = load_adapter_registry_metadata_text("{").err().unwrap();
    assert!(err.starts_with("failed to parse adapter registry schema fixture json: "), "{err}");
    assert_eq!(
        load_adapter_registry_metadata_text("[]").err().unwrap(),
        "adapter registry schema fixture must be a json object"
    );
    let err = load_support_files_text("x", "c.json", "0.1.0", "a/m.mpk").err().unwrap();
    assert!(err.starts_with("failed to parse package contract json: "), "{err}");
}
