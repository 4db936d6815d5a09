use afterburner::cmd_upload::{
    load_ownership_record, load_support_files, parse_args, upload_request, OwnershipRecord,
    SupportFile, UploadArgs, UploadArtifact,
};
use afterburner::json::JsonValue;

fn strings(v: &[&str]) -> Vec<String> {
    v.iter().map(|s| s.to_string()).collect()
}

fn text(s: &str) -> JsonValue {
    JsonValue::Str(s.to_string())
}

fn object(pairs: Vec<(&str, JsonValue)>) -> JsonValue {
    let mut entries: Vec<(String, JsonValue)> =
        pairs.into_iter().map(|(k, v)| (k.to_string(), v)).collect();
    entries.sort_by(|a, b| a.0.cmp(&b.0));
    JsonValue::Object(entries)
}

#[test]
fn parse_args_accepts_required_upload_contract_flags() {
    let args = strings(&[
        "--manifest",
        "artifacts/inference/0.1.0/manifest.toml",
        "--ownership=artifacts/deploy/ownership.json",
        "--provider",
        "generic",
        "--destination=uploads/afterburner",
        "--out",
        "artifacts/deploy/out.json",
    ]);
    let parsed = parse_args(&args).expect("parse upload args");
    assert_eq!(
        parsed,
        UploadArgs {
            manifest_path: "artifacts/inference/0.1.0/manifest.toml".to_string(),
            ownership_path: "artifacts/deploy/ownership.json".to_string(),
            package_contract_path: None,
            provider: "generic".to_string(),
            destination: "uploads/afterburner".to_string(),
            out_path: Some("artifacts/deploy/out.json".to_string()),
        }
    );
}

#[test]
fn cmd_upload_parse_args_rejects_unknown_flag() {
    let args = strings(&["--bogus"]);
    let err = parse_args(&args).expect_err("unknown upload flag must fail");
    assert!(err.message().contains("unknown argument for upload: --bogus"));
}

#[test]
fn upload_parse_rejects_blank_value_and_missing_flags() {
    let err = parse_args(&strings(&["--manifest", "  "])).expect_err("blank");
    assert!(err.message().starts_with("--manifest must be non-empty\n"));
    let err = parse_args(&strings(&["--manifest=m.toml", "--ownership=o.json", "--provider=p"]))
        .expect_err("missing destination");
    assert!(err.message().starts_with("missing value for --destination\n"));
}

fn ownership(ops: Vec<JsonValue>) -> JsonValue {
    object(vec![
        ("schema_version", text("1")),
        ("approved_operations", JsonValue::Array(ops)),
        ("provenance_source", text("ci")),
        ("rollout_owner", text("ml-platform")),
        ("approved_by", text("alice")),
        ("approval_ticket", text("CHG-1")),
        ("approved_at_unix_ms", JsonValue::UInt(1700)),
    ])
}

#[test]
fn upload_ownership_record_is_read_when_upload_is_approved() {
    let record = load_ownership_record(&ownership(vec![text("promote"), text("upload")]))
        .expect("ownership");
    assert_eq!(
        record,
        OwnershipRecord {
            provenance_source: "ci".to_string(),
            rollout_owner: "ml-platform".to_string(),
            approved_by: "alice".to_string(),
            approval_ticket: "CHG-1".to_string(),
            approved_at_unix_ms: 1700,
        }
    );
}

#[test]
fn upload_ownership_record_errors() {
    let err = load_ownership_record(&ownership(vec![text("promote")])).err().unwrap();
    assert_eq!(err, "approved_operations must include `upload`");
    let err = load_ownership_record(&text("x")).err().unwrap();
    assert_eq!(err, "ownership file must contain a json object");
    let doc = object(vec![("schema_version", text("2"))]);
    assert_eq!(
        load_ownership_record(&doc).err().unwrap(),
        "schema_version must be `1`, found `2`"
    );
    let doc = object(vec![("schema_version", text("1")), ("approved_operations", text("upload"))]);
    assert_eq!(load_ownership_record(&doc).err().unwrap(), "approved_operations must be an array");
    let doc = object(vec![("schema_version", text(""))]);
    assert_eq!(load_ownership_record(&doc).err().unwrap(), "schema_version must be non-empty");
}

fn contract(version: &str, artifact: &str) -> JsonValue {
    object(vec![
        ("input_artifact_version", text(version)),
        ("optimized_artifact_path", text(artifact)),
        (
            "packaging_inputs",
            object(vec![("optimization_profile_path", text("profiles/opt.json"))]),
        ),
        (
            "package_layout",
            JsonValue::Array(vec![
                object(vec![("role", text("model")), ("path", text("model.mpk"))]),
                object(vec![("role", text("optimization_profile")), ("path", text("opt.json"))]),
                object(vec![("role", text("package_contract")), ("path", text("contract.json"))]),
            ]),
        ),
    ])
}

#[test]
fn upload_support_files_follow_the_layout_roles() {
    let files = load_support_files(
        &contract("0.1.0", "artifacts/0.1.0/model.mpk"),
        "c.json",
        "0.1.0",
        "artifacts/0.1.0/./model.mpk",
    )
    .expect("support files");
    assert_eq!(
        files,
        vec![
            SupportFile {
                role: "optimization_profile".to_string(),
                local_path: "profiles/opt.json".to_string(),
                path_in_artifact_directory: "opt.json".to_string(),
            },
            SupportFile {
                role: "package_contract".to_string(),
                local_path: "c.json".to_string(),
                path_in_artifact_directory: "contract.json".to_string(),
            },
        ]
    );
}

#[test]
fn upload_support_files_refuse_mismatches() {
    let err = load_support_files(&contract("0.2.0", "a/m.mpk"), "c.json", "0.1.0", "a/m.mpk")
        .err()
        .unwrap();
    assert_eq!(
        err,
        "package contract input_artifact_version `0.2.0` must match manifest artifact_version `0.1.0`"
    );
    let err = load_support_files(&contract("0.1.0", "a/other.mpk"), "c.json", "0.1.0", "a/m.mpk")
        .err()
        .unwrap();
    assert_eq!(
        err,
        "package contract optimized_artifact_path `a/other.mpk` must match upload artifact `a/m.mpk`"
    );
}

#[test]
fn upload_request_lists_support_files_only_when_present() {
    let args = parse_args(&strings(&[
        "--manifest=m/manifest.toml",
        "--ownership=o.json",
        "--provider=generic",
        "--destination=dest",
    ]))
    .expect("args");
    let artifact = UploadArtifact {
        version: "0.1.0".to_string(),
        sha256: "abc".to_string(),
        file: "m/model.mpk".to_string(),
        directory: "m".to_string(),
    };
    let owner = load_ownership_record(&ownership(vec![text("upload")])).expect("owner");
    let request = upload_request(&args, &artifact, &owner, &Vec::new());
    match &request {
        JsonValue::Object(entries) => {
            assert_eq!(entries.len(), 14);
            assert!(entries.iter().all(|(k, _)| k != "artifact_support_files"));
            assert!(entries.iter().any(|(k, v)| k == "operation" && *v == text("upload")));
            assert!(entries.iter().any(|(k, v)| k == "approved_at_unix_ms" && *v == JsonValue::UInt(1700)));
        }
        other => panic!("unexpected request {other:?}"),
    }
    let files = vec![SupportFile {
        role: "package_contract".to_string(),
        local_path: "c.json".to_string(),
        path_in_artifact_directory: "contract.json".to_string(),
    }];
    match upload_request(&args, &artifact, &owner, &files) {
        JsonValue::Object(entries) => {
            assert_eq!(entries.len(), 15);
            assert_eq!(entries[0].0, "approval_ticket");
        }
        other => panic!("unexpected request {other:?}"),
    }
}
