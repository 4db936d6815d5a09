use afterburner::cmd_distributed_shard_lineage_evidence_bundle as bundle;
use afterburner::cmd_distributed_shard_lineage_evidence_bundle_reconcile as bundle_rec;
use afterburner::cmd_distributed_shard_lineage_handoff_reconcile as handoff_rec;
use afterburner::cmd_distributed_shard_lineage_receipt as lineage_receipt;
use afterburner::cmd_infer::{
    check_backend, done_fields, error_fields, load_ok_fields, AdapterRegistryEntry,
    AdapterRegistryMetadata, CmdInferError,
};
use afterburner::cmd_scheduler_heartbeat_pointer_rollback as ptr_rb;
use afterburner::cmd_scheduler_heartbeat_pointer_rollback_supersession as rb_sup;
use afterburner::cmd_scheduler_heartbeat_pointer_rollback_supersession_history as rb_sup_hist;
use afterburner::cmd_scheduler_heartbeat_supersession_reconcile as hb_sup_rec;
use afterburner::infer::{
    calibration_invalid_fields, infer_error_fields, CalibrationMetadata,
    CalibrationMetadataLoadError, InferError, ManifestFailure,
};
use afterburner::json::JsonValue;

fn strings(v: &[&str]) -> Vec<String> {
    v.iter().map(|s| s.to_string()).collect()
}

fn text(s: &str) -> JsonValue {
    JsonValue::Str(s.to_string())
}

fn entries(pairs: Vec<(&str, JsonValue)>) -> Vec<(String, JsonValue)> {
    let mut entries: Vec<(String, JsonValue)> =
        pairs.into_iter().map(|(k, v)| (k.to_string(), v)).collect();
    entries.sort_by(|a, b| a.0.cmp(&b.0));
    entries
}

fn object(pairs: Vec<(&str, JsonValue)>) -> JsonValue {
    JsonValue::Object(entries(pairs))
}

fn field<'a>(v: &'a JsonValue, key: &str) -> Option<&'a JsonValue> {
    match v {
        JsonValue::Object(entries) => entries.iter().find(|(k, _)| k == key).map(|(_, v)| v),
        _ => None,
    }
}

fn lineage_args() -> lineage_receipt::LineageReceiptArgs {
    lineage_receipt::parse_args(&strings(&[
        "--metadata=meta.json",
        "--shard-id=s1",
        "--source=web",
        "--source-revision=r1",
        "--checkpoint-group=g1",
        "--checkpoint-root=/ckpt",
        "--checked-at-unix-ms=9",
    ]))
    .expect("args")
}

#[test]
fn lineage_receipt_checks_shard_and_records_evidence() {
    let args = lineage_args();
    let receipt = lineage_receipt::build_receipt(&args, &entries(vec![("shard_id", text("s1"))])).expect("receipt");
    assert_eq!(field(&receipt, "checked_at_unix_ms"), Some(&JsonValue::UInt(9)));
    match field(&receipt, "evidence_sources") {
        Some(JsonValue::Array(items)) => {
            assert_eq!(items.len(), 1);
            assert_eq!(field(&items[0], "checkpoint_root"), Some(&text("/ckpt")));
            assert_eq!(field(&items[0], "observed_at_unix_ms"), Some(&JsonValue::UInt(9)));
        }
        other => panic!("evidence_sources: {other:?}"),
    }
    let err = lineage_receipt::build_receipt(&args, &entries(vec![("shard_id", text("s2"))])).err().unwrap();
    assert_eq!(err.message(), "distributed shard metadata `meta.json` has shard_id `s2` but expected `s1`");
    let err = lineage_receipt::parse_args(&strings(&["--metadata=m", "--shard-id= "])).err().unwrap();
    assert!(err.message().starts_with("--shard-id must be non-empty\n"));
}

fn lineage_receipt_doc(evidence: JsonValue) -> Vec<(String, JsonValue)> {
    entries(vec![
        ("shard_id", text("s1")),
        ("source", text("web")),
        ("source_revision", text("r1")),
        ("checkpoint_group", text("g1")),
        ("evidence_sources", evidence),
    ])
}

fn evidence_entry(observed: JsonValue) -> JsonValue {
    object(vec![
        ("metadata_path", text("meta.json")),
        ("checkpoint_root", text("/ckpt")),
        ("observed_at_unix_ms", observed),
    ])
}

#[test]
fn evidence_bundle_counts_and_checks_entries() {
    let args = bundle::parse_args(&strings(&["--receipt=r.json"])).expect("args");
    let doc = lineage_receipt_doc(JsonValue::Array(vec![evidence_entry(JsonValue::UInt(1)), evidence_entry(JsonValue::NegInt(-2))]));
    let b = bundle::build_bundle(&args, &doc).expect("bundle");
    assert_eq!(field(&b, "evidence_count"), Some(&JsonValue::UInt(2)));
    let bad = lineage_receipt_doc(JsonValue::Array(vec![evidence_entry(JsonValue::UInt(1)), evidence_entry(text("x"))]));
    assert_eq!(
        bundle::build_bundle(&args, &bad).err().unwrap().message(),
        "distributed shard lineage receipt `r.json` evidence_sources[1] missing integer field `observed_at_unix_ms`"
    );
    let big = lineage_receipt_doc(JsonValue::Array(vec![evidence_entry(JsonValue::UInt(u64::MAX))]));
    assert!(bundle::build_bundle(&args, &big).is_err());
    let not_object = lineage_receipt_doc(JsonValue::Array(vec![text("x")]));
    assert_eq!(
        bundle::build_bundle(&args, &not_object).err().unwrap().message(),
        "distributed shard lineage receipt `r.json` evidence_sources[0] must be an object"
    );
    let rec_args = bundle_rec::parse_args(&strings(&["--receipt=r.json", "--bundle=b.json"])).expect("args");
    let receipt = lineage_receipt_doc(JsonValue::Array(vec![evidence_entry(JsonValue::UInt(1))]));
    let bundle_doc = entries(vec![
        ("receipt_path", text("r.json")),
        ("shard_id", text("s1")),
        ("source", text("web")),
        ("source_revision", text("r1")),
        ("checkpoint_group", text("g1")),
        ("evidence_count", JsonValue::UInt(1)),
        ("evidence_sources", JsonValue::Array(vec![evidence_entry(JsonValue::UInt(1))])),
    ]);
    let rec = bundle_rec::reconcile(&rec_args, &receipt, &bundle_doc).expect("reconcile");
    assert_eq!(field(&rec, "reconciliation_status"), Some(&text("aligned")));
    let no_array = lineage_receipt_doc(text("x"));
    assert_eq!(
        bundle_rec::reconcile(&rec_args, &no_array, &bundle_doc).err().unwrap().message(),
        "distributed shard lineage receipt `r.json` field `evidence_sources` must be an array"
    );
}

#[test]
fn handoff_reconciliation_ignores_the_bundle_path() {
    let args = handoff_rec::parse_args(&strings(&["--bundle=b.json", "--handoff=h.json"])).expect("args");
    let b = entries(vec![
        ("shard_id", text("s1")),
        ("source", text("web")),
        ("source_revision", text("r1")),
        ("checkpoint_group", text("g1")),
        ("evidence_count", JsonValue::UInt(3)),
    ]);
    let h = entries(vec![
        ("bundle_path", text("elsewhere.json")),
        ("shard_id", text("s1")),
        ("source", text("web")),
        ("source_revision", text("r1")),
        ("checkpoint_group", text("g1")),
        ("evidence_count", JsonValue::UInt(3)),
    ]);
    let rec = handoff_rec::reconcile(&args, &b, &h).expect("reconcile");
    assert_eq!(field(&rec, "reconciliation_status"), Some(&text("aligned")));
    let h2 = entries(vec![
        ("bundle_path", text("b.json")),
        ("shard_id", text("s1")),
        ("source", text("web")),
        ("source_revision", text("r1")),
        ("checkpoint_group", text("g1")),
        ("evidence_count", JsonValue::UInt(4)),
    ]);
    let rec = handoff_rec::reconcile(&args, &b, &h2).expect("reconcile");
    assert_eq!(field(&rec, "reconciliation_status"), Some(&text("needs-update")));
}

fn rollback_record(state: &str, marker: Option<&str>) -> Vec<(String, JsonValue)> {
    let mut pairs = vec![
        ("job_id", text("j1")),
        ("lease_id", text("l1")),
        ("worker_id", text("w1")),
        ("restored_pointer_path", text("p.json")),
        ("restored_heartbeat_path", text("hb.json")),
        ("restored_state", text(state)),
        ("restored_observed_at_unix_ms", JsonValue::UInt(5)),
    ];
    if let Some(m) = marker {
        pairs.push(("restored_progress_marker", text(m)));
    }
    entries(pairs)
}

#[test]
fn pointer_rollback_supersession_requires_a_change() {
    let args = rb_sup::parse_args(&strings(&[
        "--previous-rollback=a.json",
        "--next-rollback=b.json",
        "--superseded-at-unix-ms=3",
    ]))
    .expect("args");
    let s = rb_sup::build_supersession(&args, &rollback_record("running", None), &rollback_record("done", Some("m")))
        .expect("supersession");
    assert_eq!(field(&s, "next_restored_state"), Some(&text("done")));
    assert_eq!(field(&s, "next_restored_progress_marker"), Some(&text("m")));
    assert_eq!(field(&s, "previous_restored_progress_marker"), None);
    let err = rb_sup::build_supersession(&args, &rollback_record("done", None), &rollback_record("done", None))
        .err()
        .unwrap();
    assert!(err.message().starts_with("next rollback `b.json` must differ from previous rollback `a.json`"));
    let mut missing = rollback_record("done", None);
    missing.retain(|(k, _)| k != "lease_id");
    let err = rb_sup::build_supersession(&args, &missing, &rollback_record("done", None)).err().unwrap();
    assert_eq!(err.message(), "gpu scheduler heartbeat pointer rollback a.json is missing string field `lease_id`");
    let doc = JsonValue::Array(vec![]);
    assert_eq!(
        rb_sup::load_rollback(&doc, "a.json").err().unwrap(),
        "gpu scheduler heartbeat pointer rollback a.json must be a JSON object"
    );
    let hist_args = rb_sup_hist::parse_args(&strings(&["--supersession=s.json", "--event=e", "--recorded-at-unix-ms=1"]))
        .expect("args");
    let sup_entries = match s {
        JsonValue::Object(es) => es,
        _ => panic!("object"),
    };
    let entry = rb_sup_hist::history_entry(&hist_args, &sup_entries).expect("entry");
    assert_eq!(field(&entry, "next_restored_progress_marker"), Some(&text("m")));
    let rb_args = ptr_rb::parse_args(&strings(&[
        "--current-pointer=c.json",
        "--restored-pointer=r.json",
        "--rolled-back-at-unix-ms=4",
    ]))
    .expect("args");
    assert_eq!(rb_args.out_record, "artifacts/deploy/gpu_scheduler_heartbeat_pointer_rollback.json");
}

#[test]
fn heartbeat_supersession_reconciliation_compares_payloads() {
    let args = hb_sup_rec::parse_args(&strings(&["--supersession=s.json", "--current-supersession=c.json"]))
        .expect("args");
    let doc = entries(vec![
        ("job_id", text("j1")),
        ("lease_id", text("l1")),
        ("worker_id", text("w1")),
        ("previous_state", text("running")),
        ("next_state", text("done")),
        ("previous_observed_at_unix_ms", JsonValue::UInt(1)),
        ("next_observed_at_unix_ms", JsonValue::UInt(2)),
        ("superseded_at_unix_ms", JsonValue::UInt(3)),
        ("next_progress_marker", text("m")),
    ]);
    let rec = hb_sup_rec::reconcile(&args, &doc, &doc).expect("reconcile");
    assert_eq!(field(&rec, "reconciliation_status"), Some(&text("aligned")));
    let current = field(&rec, "current").expect("current");
    assert_eq!(field(current, "current_supersession_path"), Some(&text("c.json")));
    assert_eq!(field(current, "next_progress_marker"), Some(&text("m")));
}

fn registry() -> AdapterRegistryMetadata {
    AdapterRegistryMetadata {
        schema_version: "3".to_string(),
        adapters: vec![AdapterRegistryEntry { adapter: "cpu".to_string(), version: "0.1.0".to_string() }],
    }
}

#[test]
fn infer_backend_checks_and_error_events() {
    assert!(check_backend(&registry(), "cpu", "0.1.0").is_ok());
    let err = check_backend(&registry(), "cuda", "0.1.0").err().unwrap();
    assert_eq!(err.backend, "cuda");
    assert_eq!(err.schema_version, "3");
    let err = check_backend(&registry(), "wgpu", "0.1.0").err().unwrap();
    let fields = error_fields(&CmdInferError::UnsupportedAdapterVersion(err));
    assert_eq!(field(&fields, "kind"), Some(&text("adapter_registry_unsupported")));
    assert_eq!(field(&fields, "backend"), Some(&text("wgpu")));
    let fields = error_fields(&CmdInferError::AdapterRegistryInvalid { detail: "bad".to_string() });
    assert_eq!(field(&fields, "detail"), Some(&text("bad")));
    let fields = infer_error_fields(&InferError::ManifestInvalid(ManifestFailure::Mismatch {
        field: "sha256".to_string(),
        expected: "a".to_string(),
        actual: "b".to_string(),
    }));
    assert_eq!(field(&fields, "kind"), Some(&text("manifest_mismatch")));
    assert_eq!(field(&fields, "actual"), Some(&text("b")));
    let fields = infer_error_fields(&InferError::ArtifactMissing { path: "m.mpk".to_string() });
    assert_eq!(field(&fields, "artifact"), Some(&text("m.mpk")));
    let fields = calibration_invalid_fields(&CalibrationMetadataLoadError::Invalid {
        path: "c.json".to_string(),
        detail: "oops".to_string(),
    });
    assert_eq!(field(&fields, "kind"), Some(&text("parse_error")));
    assert_eq!(field(&fields, "metadata"), Some(&text("c.json")));
}

#[test]
fn infer_event_fields_carry_calibration() {
    let calibration = CalibrationMetadata {
        schema_version: 1,
        calibration_artifact: "cal.bin".to_string(),
        artifact_version: "0.1.0".to_string(),
        method: "minmax".to_string(),
        created_at_unix_ms: 5,
    };
    let done = done_fields("cpu", "m.mpk", "0.1.0", 17, Some(&calibration));
    assert_eq!(field(&done, "batch_size"), Some(&JsonValue::UInt(1)));
    assert_eq!(field(&done, "duration_ms"), Some(&JsonValue::UInt(17)));
    let cal = field(&done, "calibration").expect("calibration");
    assert_eq!(field(cal, "schema_version"), Some(&text("1")));
    let loaded = load_ok_fields("cpu", "m.mpk", 3, None);
    assert_eq!(field(&loaded, "calibration"), None);
    assert_eq!(field(&loaded, "elapsed_ms"), Some(&JsonValue::UInt(3)));
}
