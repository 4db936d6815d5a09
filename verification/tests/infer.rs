use afterburner::infer::{
    calibration_metadata_path_for_weights, ensure_calibration_metadata_compatible,
    manifest_path_for_weights, parse_calibration_metadata, parse_weights_path_from_args,
    CalibrationMetadata, CalibrationMetadataLoadError,
};
use afterburner::json::JsonValue;

fn strings(v: &[&str]) -> Vec<String> {
    v.iter().map(|s| s.to_string()).collect()
}

fn text(s: &str) -> JsonValue {
    JsonValue::Str(s.to_string())
}

fn object(pairs: Vec<(&str, JsonValue)>) -> JsonValue {
    let mut entries: Vec<(String, JsonValue)> =
        pairs.into_iter().map(|(k, v)| (k.to_string(), v)).collect();
    entries.sort_by(|a, b| a.0.cmp(&b.0));
    JsonValue::Object(entries)
}

#[test]
fn weights_path_choice_from_args() {
    assert_eq!(
        parse_weights_path_from_args(&strings(&["bin", "--artifact=a/m.mpk"])),
        Some("a/m.mpk".to_string())
    );
    assert_eq!(parse_weights_path_from_args(&strings(&["bin", "--artifact="])), None);
    assert_eq!(
        parse_weights_path_from_args(&strings(&["bin", "--verbose", "--artifact", "b.mpk"])),
        Some("b.mpk".to_string())
    );
    assert_eq!(parse_weights_path_from_args(&strings(&["bin", "--artifact"])), None);
    assert_eq!(
        parse_weights_path_from_args(&strings(&["bin", "pos.mpk", "--artifact=x"])),
        Some("pos.mpk".to_string())
    );
    assert_eq!(parse_weights_path_from_args(&strings(&["pos.mpk"])), None);
}

#[test]
fn sidecar_paths_sit_next_to_the_weights() {
    assert_eq!(manifest_path_for_weights("artifacts/inference/0.1.0/model.mpk"), "artifacts/inference/0.1.0/manifest.toml");
    assert_eq!(calibration_metadata_path_for_weights("model.mpk"), "calibration_artifact_metadata.json");
}

fn sidecar() -> Vec<(&'static str, JsonValue)> {
    vec![
        ("schema_version", text("1")),
        ("calibration_artifact", text("cal.json")),
        ("artifact_version", text("0.1.0")),
        ("method", text("temperature")),
        ("created_at_unix_ms", JsonValue::UInt(5)),
    ]
}

#[test]
fn calibration_metadata_is_read_and_checked() {
    let m = parse_calibration_metadata(&object(sidecar())).expect("metadata");
    assert_eq!(
        m,
        CalibrationMetadata {
            schema_version: 1,
            calibration_artifact: "cal.json".to_string(),
            artifact_version: "0.1.0".to_string(),
            method: "temperature".to_string(),
            created_at_unix_ms: 5,
        }
    );
    let mut fields = sidecar();
    fields.push(("extra", text("x")));
    assert_eq!(parse_calibration_metadata(&object(fields)).err().unwrap(), "unknown field `extra`");
    let fields: Vec<_> = sidecar().into_iter().filter(|(k, _)| *k != "method").collect();
    assert_eq!(
        parse_calibration_metadata(&object(fields)).err().unwrap(),
        "missing required field `method`"
    );
    let mut fields = sidecar();
    fields[3].1 = text("");
    assert_eq!(parse_calibration_metadata(&object(fields)).err().unwrap(), "method must be non-empty");
    assert_eq!(parse_calibration_metadata(&text("x")).err().unwrap(), "metadata must be a JSON object");
}

#[test]
fn calibration_metadata_must_match_runtime_version() {
    let m = parse_calibration_metadata(&object(sidecar())).expect("metadata");
    let m = ensure_calibration_metadata_compatible("a/model.mpk", m, "0.1.0").expect("same");
    let err = ensure_calibration_metadata_compatible("a/model.mpk", m, "0.2.0").err().unwrap();
    assert_eq!(err.kind(), "artifact_version_mismatch");
    assert_eq!(err.path(), "a/calibration_artifact_metadata.json");
    assert_eq!(
        err.detail(),
        "calibration metadata artifact_version `0.1.0` does not match runtime artifact_version `0.2.0`"
    );
    assert!(matches!(err, CalibrationMetadataLoadError::Incompatible { .. }));
}
