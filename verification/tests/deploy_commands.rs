use afterburner::cmd_deployment_verification_receipt_reconcile as receipt_rec;
use afterburner::cmd_deployment_verification_receipt_rollback_supersession as receipt_sup;
use afterburner::cmd_deployment_verification_receipt_rollback_supersession_reconcile as receipt_sup_rec;
use afterburner::cmd_deployment_verification_receipt_transport_locator_reconciliation_history as locator_hist;
use afterburner::cmd_hf_publish::{
    build_receipt, check_provider, load_request, parse_args, plan_uploads, receipt_path,
    upload_command, upload_failure_message, HfPublishArgs, PublishSupportFile,
};
use afterburner::cmd_verify_rollout as rollout;
use afterburner::command_reconciliation::{append_history_entry, fresh_history};
use afterburner::evidence_source::parse_evidence_source;
use afterburner::json::{object_from_pairs, JsonValue};

fn strings(v: &[&str]) -> Vec<String> {
    v.iter().map(|s| s.to_string()).collect()
}

fn text(s: &str) -> JsonValue {
    JsonValue::Str(s.to_string())
}

fn entries(pairs: Vec<(&str, JsonValue)>) -> Vec<(String, JsonValue)> {
    let mut entries: Vec<(String, JsonValue)> =
        pairs.into_iter().map(|(k, v)| (k.to_string(), v)).collect();
    entries.sort_by(|a, b| a.0.cmp(&b.0));
    entries
}

fn object(pairs: Vec<(&str, JsonValue)>) -> JsonValue {
    JsonValue::Object(entries(pairs))
}

fn field<'a>(v: &'a JsonValue, key: &str) -> Option<&'a JsonValue> {
    match v {
        JsonValue::Object(entries) => entries.iter().find(|(k, _)| k == key).map(|(_, v)| v),
        _ => None,
    }
}

#[test]
fn cmd_hf_publish_parse_args_accepts_required_flags() {
    let args = strings(&[
        "--request",
        "artifacts/deploy/candidate_upload_request.json",
        "--revision",
        "main",
    ]);
    let parsed = parse_args(&args).expect("parse args");
    assert_eq!(
        parsed,
        HfPublishArgs {
            request_path: "artifacts/deploy/candidate_upload_request.json".to_string(),
            hf_bin: "hf".to_string(),
            revision: "main".to_string(),
            out_path: None,
        }
    );
}

#[test]
fn hf_publish_blank_value_is_missing_but_inline_empty_is_kept() {
    let err = parse_args(&strings(&["--request", "  "])).err().unwrap();
    assert!(err.message().starts_with("missing value for --request\n"));
    let parsed = parse_args(&strings(&["--request="])).expect("inline empty");
    assert_eq!(parsed.request_path, "");
    let err = parse_args(&strings(&["--revision", "dev"])).err().unwrap();
    assert!(err.message().starts_with("missing value for --request\n"));
    let err = parse_args(&strings(&["--bogus"])).err().unwrap();
    assert!(err.message().starts_with("unknown argument for deploy hf-publish: --bogus\n"));
}

fn request_doc(provider: &str, support: Option<JsonValue>) -> JsonValue {
    let mut pairs = vec![
        ("schema_version", text("1")),
        ("operation", text("upload")),
        ("provider", text(provider)),
        ("destination", text("org/model")),
        ("artifact_version", text("0.3.0")),
        ("artifact_manifest", text("dist/manifest.toml")),
        ("artifact_file", text("dist/model.mpk")),
    ];
    if let Some(s) = support {
        pairs.push(("artifact_support_files", s));
    }
    object(pairs)
}

#[test]
fn hf_publish_plans_uploads_and_receipt() {
    let support = JsonValue::Array(vec![object(vec![
        ("local_path", text("dist/calibration.json")),
        ("path_in_artifact_directory", text("calibration.json")),
    ])]);
    let request = load_request(&request_doc("huggingface", Some(support))).expect("request");
    assert_eq!(
        request.artifact_support_files,
        vec![PublishSupportFile {
            local_path: "dist/calibration.json".to_string(),
            path_in_artifact_directory: "calibration.json".to_string(),
        }]
    );
    assert!(check_provider(&request).is_ok());
    let args = parse_args(&strings(&["--request=req.json"])).expect("args");
    let uploads = plan_uploads(args.request_path.as_str(), &request);
    let in_repo: Vec<&str> = uploads.iter().map(|u| u.path_in_repo.as_str()).collect();
    assert_eq!(
        in_repo,
        vec![
            "afterburner/0.3.0/model.mpk",
            "afterburner/0.3.0/manifest.toml",
            "afterburner/0.3.0/artifact_upload_request.json",
            "afterburner/0.3.0/calibration.json",
        ]
    );
    assert_eq!(uploads[2].local_path, "req.json");
    assert_eq!(
        upload_command("org/model", "main", &uploads[0]),
        strings(&[
            "upload",
            "org/model",
            "dist/model.mpk",
            "afterburner/0.3.0/model.mpk",
            "--repo-type",
            "model",
            "--revision",
            "main",
        ])
    );
    let receipt = build_receipt(&args, &request, &uploads, 1234);
    assert_eq!(field(&receipt, "repo_id"), Some(&text("org/model")));
    assert_eq!(field(&receipt, "published_at_unix_ms"), Some(&JsonValue::UInt(1234)));
    match field(&receipt, "uploaded_files") {
        Some(JsonValue::Array(items)) => assert_eq!(items.len(), 4),
        other => panic!("uploaded_files: {other:?}"),
    }
    let path = receipt_path(&args, &request);
    assert!(path.ends_with("huggingface_publish_receipt.json"));
    assert!(path.contains("0.3.0"));
    assert_eq!(
        upload_failure_message(&uploads[0], "  denied \n"),
        "hf upload failed for `dist/model.mpk` -> `afterburner/0.3.0/model.mpk`: denied"
    );
}

#[test]
fn hf_publish_request_errors() {
    let err = load_request(&text("x")).err().unwrap();
    assert_eq!(err, "upload request must be a json object");
    let mut doc = request_doc("huggingface", None);
    if let JsonValue::Object(es) = &mut doc {
        for e in es.iter_mut() {
            if e.0 == "operation" {
                e.1 = text("delete");
            }
        }
    }
    assert_eq!(load_request(&doc).err().unwrap(), "field `operation` must be `upload`, got `delete`");
    let err = load_request(&request_doc("huggingface", Some(text("x")))).err().unwrap();
    assert_eq!(err, "field `artifact_support_files` must be an array");
    let err = load_request(&request_doc("huggingface", Some(JsonValue::Array(vec![text("x")])))).err().unwrap();
    assert_eq!(err, "artifact_support_files entries must be json objects");
    let request = load_request(&request_doc("s3", None)).expect("request");
    assert_eq!(
        check_provider(&request).err().unwrap(),
        "huggingface publish requires request.provider = `huggingface`, got `s3`"
    );
}

#[test]
fn evidence_sources_are_read_in_order_and_checked() {
    let args = receipt_rec::parse_args(&strings(&[
        "--receipt=r.json",
        "--artifact-version",
        " 1.0.0 ",
        "--profile-name=edge",
        "--verification-status=verified",
        "--verified-at-unix-ms=5",
        "--evidence=smoke",
        "--evidence-source",
        "a.json,started,3",
        "--evidence-source=b.json,finished,4",
    ]))
    .expect("args");
    assert_eq!(args.artifact_version, "1.0.0");
    assert_eq!(args.evidence_sources.len(), 2);
    assert_eq!(args.evidence_sources[1].event_name, "finished");
    assert_eq!(args.evidence_sources[1].observed_at_unix_ms, 4);
    let err = receipt_rec::parse_args(&strings(&["--evidence-source", "a,b"])).err().unwrap();
    assert!(err
        .message()
        .starts_with("invalid value for --evidence-source `a,b`; expected ARTIFACT_PATH,EVENT_NAME,OBSERVED_AT_UNIX_MS\n"));
    let err = receipt_rec::parse_args(&strings(&["--evidence-source", "a,b,x"])).err().unwrap();
    assert!(err.message().starts_with("invalid observed_at_unix_ms in --evidence-source `a,b,x`\n"));
    let err = receipt_rec::parse_args(&strings(&["--evidence-source", " ,b,1"])).err().unwrap();
    assert!(err.message().contains("artifact path and event name must be non-empty"));
    let err = receipt_rec::parse_args(&strings(&["--receipt", "r.json"])).err().unwrap();
    assert!(err.message().starts_with("at least one --evidence-source is required\n"));
    let e = parse_evidence_source("p,e,x,9", "u").err().unwrap();
    assert_eq!(e, "invalid observed_at_unix_ms in --evidence-source `p,e,x,9`\nu");
}

#[test]
fn receipt_reconciliation_compares_receipt_with_arguments() {
    let args = receipt_rec::parse_args(&strings(&[
        "--receipt=r.json",
        "--artifact-version=1.0.0",
        "--profile-name=edge",
        "--verification-status=verified",
        "--verified-at-unix-ms=5",
        "--evidence=smoke",
        "--evidence-source=a.json,started,3",
    ]))
    .expect("args");
    let sources = JsonValue::Array(vec![object(vec![
        ("artifact_path", text("a.json")),
        ("event_name", text("started")),
        ("observed_at_unix_ms", JsonValue::UInt(3)),
    ])]);
    let receipt = entries(vec![
        ("artifact_version", text("1.0.0")),
        ("profile_name", text("edge")),
        ("verification_status", text("verified")),
        ("verified_at_unix_ms", JsonValue::UInt(5)),
        ("evidence", text("smoke")),
        ("evidence_sources", sources),
    ]);
    let rec = receipt_rec::reconcile(&args, &receipt).expect("reconcile");
    assert_eq!(field(&rec, "reconciliation_status"), Some(&text("aligned")));
    assert_eq!(field(&rec, "receipt_path"), Some(&text("r.json")));
    let mut other = clone_entries(&receipt);
    other.retain(|(k, _)| k != "evidence");
    let err = receipt_rec::reconcile(&args, &other).err().unwrap();
    assert_eq!(err.message(), "deployment verification receipt `r.json` missing string field `evidence`");
}

fn clone_entries(es: &[(String, JsonValue)]) -> Vec<(String, JsonValue)> {
    es.iter().map(|(k, v)| (k.clone(), afterburner::json::json_clone(v))).collect()
}

fn receipt_rollback(version: &str) -> Vec<(String, JsonValue)> {
    entries(vec![
        ("profile_name", text("edge")),
        ("restored_artifact_version", text(version)),
        ("restored_receipt_path", text(&format!("receipts/{version}.json"))),
    ])
}

#[test]
fn receipt_rollback_supersession_needs_another_version() {
    let args = receipt_sup::parse_args(&strings(&[
        "--previous-rollback=p.json",
        "--next-rollback=n.json",
        "--superseded-at-unix-ms=77",
    ]))
    .expect("args");
    let s = receipt_sup::build_supersession(&args, &receipt_rollback("1.0.0"), &receipt_rollback("1.1.0"))
        .expect("supersession");
    assert_eq!(field(&s, "next_restored_artifact_version"), Some(&text("1.1.0")));
    assert_eq!(field(&s, "superseded_at_unix_ms"), Some(&JsonValue::UInt(77)));
    let err = receipt_sup::build_supersession(&args, &receipt_rollback("1.0.0"), &receipt_rollback("1.0.0"))
        .err()
        .unwrap();
    assert_eq!(
        err.message(),
        "next rollback `n.json` must target a different restored_artifact_version than previous rollback `p.json`"
    );
    let rec_args = receipt_sup_rec::parse_args(&strings(&["--supersession=s.json", "--current-supersession=c.json"]))
        .expect("args");
    let es = match s {
        JsonValue::Object(es) => es,
        _ => panic!("object"),
    };
    let rec = receipt_sup_rec::reconcile(&rec_args, &es, &es).expect("reconcile");
    assert_eq!(field(&rec, "reconciliation_status"), Some(&text("aligned")));
}

#[test]
fn locator_reconciliation_history_records_entries() {
    let args = locator_hist::parse_args(&strings(&[
        "--reconciliation=rec.json",
        "--event=check",
        "--recorded-at-unix-ms=11",
    ]))
    .expect("args");
    let rec = entries(vec![
        ("receipt_path", text("r.json")),
        ("locator_path", text("l.json")),
        ("reconciliation_status", text("aligned")),
        ("desired", object(vec![])),
        ("current", object(vec![])),
    ]);
    let entry = locator_hist::history_entry(&args, &rec).expect("entry");
    let mut history = fresh_history();
    append_history_entry(&mut history, entry);
    match field(&history, "entries") {
        Some(JsonValue::Array(items)) => {
            assert_eq!(items.len(), 1);
            assert_eq!(field(&items[0], "event"), Some(&text("check")));
            assert_eq!(field(&items[0], "recorded_at_unix_ms"), Some(&JsonValue::UInt(11)));
        }
        other => panic!("entries: {other:?}"),
    }
}

#[test]
fn verify_rollout_builds_eval_run_and_record() {
    let args = rollout::parse_args(&strings(&["--artifact", "a/model.mpk", "--seed=7"])).expect("args");
    assert_eq!(args.batch_size, 128);
    assert_eq!(args.min_accuracy, "0.98925781");
    let cmd = rollout::eval_command(&args, "0.98925781");
    assert_eq!(
        cmd,
        strings(&[
            "eval",
            "--artifact",
            "a/model.mpk",
            "--seed",
            "7",
            "--batch-size",
            "128",
            "--max-batches",
            "8",
            "--min-accuracy",
            "0.98925781",
            "--out",
            "artifacts/eval/mnist_eval_summary.json",
        ])
    );
    let record = rollout::build_record(&args, &object(vec![("logits", JsonValue::Array(vec![]))]));
    assert_eq!(field(&record, "candidate_artifact"), Some(&text("a/model.mpk")));
    let msg = rollout::subcommand_failure(&strings(&["eval", "--seed", "7"]), "  ", " out \n");
    assert_eq!(msg, "afterburner eval --seed 7 failed: out");
    let msg = rollout::subcommand_failure(&strings(&["infer"]), "bad\n", "out");
    assert_eq!(msg, "afterburner infer failed: bad");
    let err = rollout::parse_args(&strings(&["--artifact=a", "--min-accuracy=x"])).err().unwrap();
    assert!(err.message().starts_with("invalid value for --min-accuracy\n"));
    let built = object_from_pairs(vec![("b".to_string(), text("2")), ("a".to_string(), text("1"))]);
    assert_eq!(field(&built, "a"), Some(&text("1")));
}
