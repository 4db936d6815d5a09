use afterburner::cmd_drift_baseline_pointer::{build_pointer, parse_args, PointerArgs};
use afterburner::fields::CommandError;
use afterburner::json::JsonValue;

fn args(v: &[&str]) -> Vec<String> {
    v.iter().map(|s| s.to_string()).collect()
}

fn text(s: &str) -> JsonValue {
    JsonValue::Str(s.to_string())
}

#[test]
fn drift_pointer_parse_accepts_inline_and_default_out() {
    let parsed = parse_args(&args(&["--approval=approval.json"])).expect("parse");
    assert_eq!(
        parsed,
        PointerArgs {
            approval: "approval.json".to_string(),
            out_path: "artifacts/eval/infer_output_drift_baseline_pointer.json".to_string(),
        }
    );
}

#[test]
fn drift_pointer_parse_requires_approval() {
    match parse_args(&args(&["--out", "x.json"])) {
        Err(CommandError::InvalidArg(m)) => assert!(m.starts_with("missing value for --approval\n")),
        other => panic!("unexpected: {other:?}"),
    }
}

#[test]
fn drift_pointer_build_copies_approval_fields() {
    let parsed = parse_args(&args(&["--approval", "a.json"])).expect("parse");
    let approval = vec![
        ("artifact".to_string(), text("model.mpk")),
        ("artifact_version".to_string(), text("0.2.0")),
        ("policy_profile".to_string(), text("strict")),
    ];
    let pointer = build_pointer(&parsed, &approval).expect("build");
    assert_eq!(
        pointer,
        JsonValue::Object(vec![
            ("approval_path".to_string(), text("a.json")),
            ("artifact".to_string(), text("model.mpk")),
            ("artifact_version".to_string(), text("0.2.0")),
            ("policy_profile".to_string(), text("strict")),
            ("schema_version".to_string(), text("1")),
        ])
    );
}

#[test]
fn drift_pointer_build_reports_first_missing_field() {
    let parsed = parse_args(&args(&["--approval", "a.json"])).expect("parse");
    let approval = vec![("artifact".to_string(), text("model.mpk"))];
    match build_pointer(&parsed, &approval) {
        Err(CommandError::Parse(m)) => assert_eq!(
            m,
            "drift baseline transport locator `a.json` missing string field `artifact_version`"
        ),
        other => panic!("unexpected: {other:?}"),
    }
}
