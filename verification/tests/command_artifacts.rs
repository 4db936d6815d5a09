use afterburner::command_artifacts::path_payload_fields;
use afterburner::json::{json_clone, JsonValue};

fn text(s: &str) -> JsonValue {
    JsonValue::Str(s.to_string())
}

#[test]
fn path_payload_fields_build_standard_path_and_payload_shape() {
    let payload = JsonValue::Object(vec![("schema_version".to_string(), text("1"))]);
    let value = path_payload_fields(
        "profile_path",
        "artifacts/train/profile.json",
        "profile",
        json_clone(&payload),
    );
    assert_eq!(
        value,
        JsonValue::Object(vec![
            ("profile".to_string(), payload),
            ("profile_path".to_string(), text("artifacts/train/profile.json")),
        ])
    );
}
