use afterburner::json::JsonValue;
use afterburner::cmd_deployment_verification_receipt_transport_locator as dep;
use afterburner::cmd_distributed_shard_lineage_handoff as m_distributed_shard_lineage_handoff;
use afterburner::cmd_distributed_shard_lineage_transport_locator as lin;
use afterburner::cmd_drift_baseline as m_drift_baseline;
use afterburner::cmd_drift_baseline_approval as drift_appr;
use afterburner::cmd_drift_baseline_bundle as m_drift_baseline_bundle;
use afterburner::cmd_drift_baseline_refresh as m_drift_baseline_refresh;
use afterburner::cmd_drift_baseline_rollback as rb;
use afterburner::cmd_drift_baseline_supersession as sup;
use afterburner::cmd_kube_rs_lease_pointer as kube_ptr;
use afterburner::cmd_kube_rs_lease_reconcile as kube_rec;
use afterburner::cmd_pretraining_source_approval_receipt as src_appr;
use afterburner::cmd_pretraining_source_provenance_evidence_bundle as src_bund;
use afterburner::cmd_pretraining_source_provenance_receipt as prov;
use afterburner::cmd_profiling_environment_snapshot as m_profiling_environment_snapshot;
use afterburner::cmd_profiling_infer as m_profiling_infer;
use afterburner::cmd_profiling_provenance_bundle as prof_bund;
use afterburner::cmd_profiling_provenance_receipt as prof_rec;
use afterburner::cmd_rollback_current_pointer as m_rollback_current_pointer;
use afterburner::cmd_scheduler_heartbeat as m_scheduler_heartbeat;
use afterburner::cmd_scheduler_heartbeat_history as m_scheduler_heartbeat_history;
use afterburner::cmd_scheduler_heartbeat_pointer as m_scheduler_heartbeat_pointer;
use afterburner::cmd_scheduler_heartbeat_pointer_history as hist;
use afterburner::cmd_scheduler_heartbeat_pointer_reconcile as ptr_rec;
use afterburner::cmd_scheduler_heartbeat_reconcile as m_scheduler_heartbeat_reconcile;
use afterburner::command_input_json::load_history;
use afterburner::command_reconciliation as m_command_reconciliation;

fn strings(v: &[&str]) -> Vec<String> {
    v.iter().map(|s| s.to_string()).collect()
}

fn text(s: &str) -> JsonValue {
    JsonValue::Str(s.to_string())
}

fn entries(pairs: Vec<(&str, JsonValue)>) -> Vec<(String, JsonValue)> {
    let mut entries: Vec<(String, JsonValue)> =
        pairs.into_iter().map(|(k, v)| (k.to_string(), v)).collect();
    entries.sort_by(|a, b| a.0.cmp(&b.0));
    entries
}

fn object(pairs: Vec<(&str, JsonValue)>) -> JsonValue {
    JsonValue::Object(entries(pairs))
}

fn set(es: &mut Vec<(String, JsonValue)>, key: &str, value: JsonValue) {
    for e in es.iter_mut() {
        if e.0 == key {
            e.1 = value;
            return;
        }
    }
    panic!("no field {key}");
}

fn field<'a>(v: &'a JsonValue, key: &str) -> Option<&'a JsonValue> {
    match v {
        JsonValue::Object(entries) => entries.iter().find(|(k, _)| k == key).map(|(_, v)| v),
        _ => None,
    }
}

fn keys(v: &JsonValue) -> Vec<String> {
    match v {
        JsonValue::Object(entries) => entries.iter().map(|(k, _)| k.clone()).collect(),
        _ => Vec::new(),
    }
}

#[test]
fn heartbeat_inline_values_must_not_be_blank() {
    let args = m_scheduler_heartbeat::parse_args(&strings(&[
        "--job-id=j1",
        "--lease-id",
        "l1",
        "--worker-id=w1",
        "--state=running",
        "--observed-at-unix-ms=42",
        "--progress-marker=step-3",
    ]))
    .expect("args");
    assert_eq!(args.out_path, "artifacts/deploy/gpu_scheduler_heartbeat.json");
    let hb = m_scheduler_heartbeat::build_heartbeat(&args);
    assert_eq!(field(&hb, "observed_at_unix_ms"), Some(&JsonValue::UInt(42)));
    assert_eq!(field(&hb, "progress_marker"), Some(&text("step-3")));
    let err = m_scheduler_heartbeat::parse_args(&strings(&["--state=  "])).err().unwrap();
    assert!(err.message().starts_with("invalid value for --state\n"));
    let err = m_scheduler_heartbeat::parse_args(&strings(&["--observed-at-unix-ms=x"])).err().unwrap();
    assert!(err.message().starts_with("invalid value for --observed-at-unix-ms\n"));
    let err = m_scheduler_heartbeat::parse_args(&strings(&["--job-id=j", "--lease-id=l", "--worker-id=w", "--state=s"]))
        .err()
        .unwrap();
    assert!(err.message().starts_with("missing value for --observed-at-unix-ms\n"));
    let err = m_scheduler_heartbeat::parse_args(&strings(&["--bogus"])).err().unwrap();
    assert!(err.message().starts_with("unknown argument for deploy scheduler-heartbeat: --bogus\n"));
}

fn heartbeat_doc(state: &str, marker: Option<&str>) -> Vec<(String, JsonValue)> {
    let mut pairs = vec![
        ("job_id", text("j1")),
        ("lease_id", text("l1")),
        ("worker_id", text("w1")),
        ("state", text(state)),
        ("observed_at_unix_ms", JsonValue::UInt(7)),
    ];
    if let Some(m) = marker {
        pairs.push(("progress_marker", text(m)));
    }
    entries(pairs)
}

#[test]
fn heartbeat_pointer_copies_heartbeat_and_marker() {
    let args = m_scheduler_heartbeat_pointer::parse_args(&strings(&["--heartbeat=hb.json"])).expect("args");
    let p = m_scheduler_heartbeat_pointer::build_pointer(&args, &heartbeat_doc("running", Some("m"))).expect("pointer");
    assert_eq!(field(&p, "heartbeat_path"), Some(&text("hb.json")));
    assert_eq!(field(&p, "progress_marker"), Some(&text("m")));
    let p = m_scheduler_heartbeat_pointer::build_pointer(&args, &heartbeat_doc("running", None)).expect("pointer");
    assert_eq!(field(&p, "progress_marker"), None);
    let err = m_scheduler_heartbeat_pointer::build_pointer(&args, &heartbeat_doc(" ", None)).err().unwrap();
    assert_eq!(err.message(), "gpu scheduler heartbeat `hb.json` missing string field `state`");
}

#[test]
fn heartbeat_history_appends_entries_in_order() {
    let args = m_scheduler_heartbeat_history::parse_args(&strings(&[
        "--heartbeat",
        "hb.json",
        "--event",
        "tick",
        "--recorded-at-unix-ms",
        "9",
    ]))
    .expect("args");
    let mut history = m_command_reconciliation::fresh_history();
    let first = m_scheduler_heartbeat_history::history_entry(&args, &heartbeat_doc("running", None)).expect("entry");
    m_command_reconciliation::append_history_entry(&mut history, first);
    let second = m_scheduler_heartbeat_history::history_entry(&args, &heartbeat_doc("stopped", Some("done"))).expect("entry");
    m_command_reconciliation::append_history_entry(&mut history, second);
    let loaded = load_history(&history, "h.json", "scheduler heartbeat history").expect("history");
    match field(&loaded, "entries") {
        Some(JsonValue::Array(items)) => {
            assert_eq!(items.len(), 2);
            assert_eq!(field(&items[0], "state"), Some(&text("running")));
            assert_eq!(field(&items[1], "progress_marker"), Some(&text("done")));
            assert_eq!(field(&items[1], "recorded_at_unix_ms"), Some(&JsonValue::UInt(9)));
        }
        other => panic!("{other:?}"),
    }
    let err = load_history(&object(vec![]), "h.json", "scheduler heartbeat history").err().unwrap();
    assert_eq!(err.message(), "scheduler heartbeat history `h.json` must contain an `entries` array");
}

#[test]
fn heartbeat_reconcile_reports_alignment() {
    let args = m_scheduler_heartbeat_reconcile::parse_args(&strings(&["--heartbeat=a.json", "--current-heartbeat=b.json"])).expect("args");
    let r = m_scheduler_heartbeat_reconcile::reconcile(&args, &heartbeat_doc("running", None), &heartbeat_doc("running", None)).expect("r");
    assert_eq!(field(&r, "reconciliation_status"), Some(&text("aligned")));
    let current = field(&r, "current").unwrap();
    assert_eq!(field(current, "current_heartbeat_path"), Some(&text("b.json")));
    assert_eq!(field(field(&r, "desired").unwrap(), "current_heartbeat_path"), None);
    let r = m_scheduler_heartbeat_reconcile::reconcile(&args, &heartbeat_doc("running", None), &heartbeat_doc("running", Some("m"))).expect("r");
    assert_eq!(field(&r, "reconciliation_status"), Some(&text("needs-update")));
    let r = m_scheduler_heartbeat_reconcile::reconcile(&args, &heartbeat_doc("running", None), &heartbeat_doc("failed", None)).expect("r");
    assert_eq!(field(&r, "reconciliation_status"), Some(&text("needs-update")));
    let err = m_scheduler_heartbeat_reconcile::reconcile(&args, &entries(vec![]), &heartbeat_doc("running", None)).err().unwrap();
    assert_eq!(err.message(), "gpu scheduler heartbeat `a.json` missing string field `job_id`");
}

#[test]
fn heartbeat_pointer_reconcile_and_history() {
    let mut doc = heartbeat_doc("running", None);
    doc.push(("heartbeat_path".to_string(), text("hb.json")));
    doc.sort_by(|a, b| a.0.cmp(&b.0));
    let args = ptr_rec::parse_args(&strings(&["--pointer", "p.json", "--current-pointer", "c.json"])).expect("args");
    let r = ptr_rec::reconcile(&args, &doc, &doc).expect("r");
    assert_eq!(field(&r, "reconciliation_status"), Some(&text("aligned")));
    assert_eq!(field(&r, "pointer_path"), Some(&text("p.json")));
    let hargs = hist::parse_args(&strings(&["--pointer=p.json", "--event=e", "--recorded-at-unix-ms=1"])).expect("args");
    let e = hist::history_entry(&hargs, &doc).expect("entry");
    assert_eq!(field(&e, "pointer_path"), Some(&text("p.json")));
    assert_eq!(field(&e, "heartbeat_path"), Some(&text("hb.json")));
}

fn lease_doc() -> Vec<(String, JsonValue)> {
    entries(vec![
        ("lease_id", text("lease-j")),
        ("job_id", text("j")),
        ("node_id", text("n")),
        ("gpu_ids", JsonValue::Array(vec![text("g0"), text("g1")])),
        ("checkpoint_mode", text("none")),
    ])
}

#[test]
fn kube_lease_reconciliation_and_pointer() {
    let args = kube_rec::parse_args(&strings(&["--lease=l.json", "--namespace=ml", "--resource-name=r"])).expect("args");
    let r = kube_rec::build_reconciliation(&args, &lease_doc()).expect("r");
    assert_eq!(field(&r, "desired_state"), Some(&text("present")));
    assert_eq!(field(&r, "gpu_ids"), Some(&JsonValue::Array(vec![text("g0"), text("g1")])));
    let err = kube_rec::parse_args(&strings(&["--lease=l.json", "--namespace=ml"])).err().unwrap();
    assert!(err.message().starts_with("missing value for --resource-name\n"));
    let mut bad = lease_doc();
    set(&mut bad, "gpu_ids", JsonValue::Array(vec![JsonValue::UInt(1)]));
    let err = kube_rec::build_reconciliation(&args, &bad).err().unwrap();
    assert_eq!(err.message(), "gpu scheduler lease `l.json` field `gpu_ids` must contain only strings");
    let pargs = kube_ptr::parse_args(&strings(&["--reconciliation", "rec.json"])).expect("args");
    let recon = match r {
        JsonValue::Object(es) => es,
        _ => panic!(),
    };
    let p = kube_ptr::build_pointer(&pargs, &recon).expect("pointer");
    assert_eq!(field(&p, "reconciliation_path"), Some(&text("rec.json")));
    assert_eq!(field(&p, "namespace"), Some(&text("ml")));
    assert_eq!(keys(&p).len(), 10);
}

#[test]
fn rollback_current_pointer_record_and_defaults() {
    let args = m_rollback_current_pointer::parse_args(&strings(&[])).expect("args");
    assert_eq!(args.current_pointer, None);
    assert_eq!(args.out_record, "artifacts/deploy/inference_current_pointer_rollback.json");
    let r = m_rollback_current_pointer::rollback_record("cur", "prev", "0.1.0", "0.0.9");
    assert_eq!(field(&r, "restored_version"), Some(&text("0.0.9")));
    assert_eq!(keys(&r).len(), 5);
}

#[test]
fn locators_copy_the_named_fields() {
    let args = dep::parse_args(&strings(&["--receipt=r.json"])).expect("args");
    let receipt = entries(vec![
        ("artifact_version", text("0.1.0")),
        ("profile_name", text("prod")),
        ("verification_status", text("passed")),
    ]);
    let l = dep::build_locator(&args, &receipt).expect("locator");
    assert_eq!(field(&l, "verification_status"), Some(&text("passed")));
    assert_eq!(
        dep::build_locator(&args, &entries(vec![])).err().unwrap().message(),
        "deployment verification receipt `r.json` missing string field `artifact_version`"
    );
    let args = lin::parse_args(&strings(&["--handoff", "h.json"])).expect("args");
    assert_eq!(
        lin::build_locator(&args, &entries(vec![("shard_id", text("s"))])).err().unwrap().message(),
        "distributed shard lineage evidence handoff `h.json` missing string field `source`"
    );
}

#[test]
fn lineage_handoff_counts_evidence() {
    let args = m_distributed_shard_lineage_handoff::parse_args(&strings(&["--bundle=b.json"])).expect("args");
    let bundle = || {
        entries(vec![
            ("shard_id", text("s")),
            ("source", text("src")),
            ("source_revision", text("r")),
            ("checkpoint_group", text("g")),
            ("evidence_count", JsonValue::UInt(3)),
        ])
    };
    let h = m_distributed_shard_lineage_handoff::build_handoff(&args, &bundle()).expect("handoff");
    assert_eq!(field(&h, "evidence_count"), Some(&JsonValue::UInt(3)));
    let mut bad = bundle();
    set(&mut bad, "evidence_count", text("3"));
    assert_eq!(
        m_distributed_shard_lineage_handoff::build_handoff(&args, &bad).err().unwrap().message(),
        "distributed shard lineage evidence bundle `b.json` missing integer field `evidence_count`"
    );
}

#[test]
fn source_receipts_and_bundle() {
    let a = src_appr::parse_args(&strings(&[
        "--source=wiki",
        "--source-revision=r1",
        "--approval-status=approved",
        "--approved-by=alice",
        "--approval-ticket=T-1",
        "--approved-at-unix-ms=5",
    ]))
    .expect("args");
    let receipt = src_appr::build_receipt(&a);
    assert_eq!(field(&receipt, "approved_at_unix_ms"), Some(&JsonValue::UInt(5)));
    let err = src_appr::parse_args(&strings(&["--source= "])).err().unwrap();
    assert!(err.message().starts_with("--source must be non-empty\n"));
    let sum = "ab".repeat(32);
    let p = prov::parse_args(&strings(&[
        "--approval-receipt=a.json",
        "--registry-entry-path=reg",
        "--upstream-locator=up",
        &format!("--reviewed-metadata-sha256={sum}"),
    ]))
    .expect("args");
    assert_eq!(field(&prov::build_receipt(&p), "approval_receipt_path"), Some(&text("a.json")));
    let err = prov::parse_args(&strings(&["--reviewed-metadata-sha256=ABC"])).err().unwrap();
    assert!(err.message().starts_with("--reviewed-metadata-sha256 must be 64 lowercase hex characters\n"));
    let b = src_bund::parse_args(&strings(&["--provenance-receipt=p.json"])).expect("args");
    let provenance = match prov::build_receipt(&p) {
        JsonValue::Object(es) => es,
        _ => panic!(),
    };
    assert_eq!(src_bund::approval_receipt_path(&b, &provenance).expect("path"), "a.json");
    let approval = match receipt {
        JsonValue::Object(es) => es,
        _ => panic!(),
    };
    let bundle = src_bund::build_bundle(&b, &provenance, &approval).expect("bundle");
    assert_eq!(field(&bundle, "evidence_count"), Some(&JsonValue::UInt(1)));
    match field(&bundle, "evidence_sources") {
        Some(JsonValue::Array(items)) => {
            assert_eq!(items.len(), 1);
            assert_eq!(field(&items[0], "upstream_locator"), Some(&text("up")));
        }
        other => panic!("{other:?}"),
    }
    assert_eq!(
        src_bund::build_bundle(&b, &provenance, &entries(vec![])).err().unwrap().message(),
        "pretraining source artifact `a.json` missing string field `source`"
    );
}

#[test]
fn profiling_provenance_receipt_and_bundle() {
    let snapshot = entries(vec![
        ("profile_kind", text("infer")),
        ("profiler", text("cargo-flamegraph")),
        ("profiler_version", text("0.6")),
    ]);
    let args = prof_rec::parse_args(&strings(&["--snapshot=s.json", "--captured-at-unix-ms=3"])).expect("args");
    let r = prof_rec::build_receipt(&args, &snapshot).expect("receipt");
    assert_eq!(field(&r, "refresh_receipt_path"), None);
    let args = prof_rec::parse_args(&strings(&["--snapshot=s.json", "--refresh-receipt=rr.json", "--captured-at-unix-ms=3"])).expect("args");
    let r = prof_rec::build_receipt(&args, &snapshot).expect("receipt");
    assert_eq!(field(&r, "refresh_receipt_path"), Some(&text("rr.json")));
    let summary = entries(vec![
        ("artifact_version", text("0.1.0")),
        ("profile_kind", text("infer")),
        ("backend", text("cpu")),
    ]);
    let args = prof_bund::parse_args(&strings(&["--snapshot=s.json", "--summary=m.json", "--captured-at-unix-ms=4"])).expect("args");
    let b = prof_bund::build_bundle(&args, &summary, &snapshot).expect("bundle");
    assert_eq!(field(&b, "evidence_count"), Some(&JsonValue::UInt(2)));
    match field(&b, "evidence_sources") {
        Some(JsonValue::Array(items)) => {
            assert_eq!(field(&items[1], "artifact_role"), Some(&text("profiling_hotspot_summary")));
            assert_eq!(field(&items[0], "observed_at_unix_ms"), Some(&JsonValue::UInt(4)));
        }
        other => panic!("{other:?}"),
    }
    assert_eq!(
        prof_bund::build_bundle(&args, &summary, &entries(vec![])).err().unwrap().message(),
        "profiling artifact `s.json` missing string field `profiler`"
    );
}

fn approval_doc(version: &str, policy: &str) -> Vec<(String, JsonValue)> {
    entries(vec![
        ("artifact", text("model.mpk")),
        ("artifact_version", text(version)),
        ("policy_profile", text(policy)),
        ("approval_ticket", text("T-9")),
    ])
}

#[test]
fn drift_approval_rollback_and_supersession() {
    let a = drift_appr::parse_args(&strings(&[
        "--baseline=b.json",
        "--approved-by=al",
        "--approval-ticket=T",
        "--approved-at-unix-ms=1",
    ]))
    .expect("args");
    let ap = drift_appr::build_approval(&a, &approval_doc("0.1.0", "strict")).expect("approval");
    assert_eq!(field(&ap, "approved_by"), Some(&text("al")));
    let r = rb::parse_args(&strings(&["--current-pointer=c.json", "--restored-approval=r.json", "--rolled-back-at-unix-ms=2"])).expect("args");
    let p = rb::build_restored_pointer(&r, &approval_doc("0.2.0", "strict"), &approval_doc("0.1.0", "strict")).expect("pointer");
    assert_eq!(field(&p, "approval_path"), Some(&text("r.json")));
    let err = rb::build_restored_pointer(&r, &approval_doc("0.2.0", "strict"), &approval_doc("0.1.0", "lax")).err().unwrap();
    assert_eq!(err.message(), "current pointer policy_profile `strict` does not match restored approval policy_profile `lax`");
    let rec = rb::build_rollback_record(&r, &approval_doc("0.2.0", "strict"), &approval_doc("0.1.0", "strict")).expect("record");
    assert_eq!(field(&rec, "previous_artifact_version"), Some(&text("0.2.0")));
    let s = sup::parse_args(&strings(&["--previous-approval=p.json", "--next-approval=n.json", "--superseded-at-unix-ms=3"])).expect("args");
    let ok = sup::build_supersession(&s, &approval_doc("0.1.0", "strict"), &approval_doc("0.2.0", "strict")).expect("sup");
    assert_eq!(field(&ok, "superseded_by_approval_ticket"), Some(&text("T-9")));
    let err = sup::build_supersession(&s, &approval_doc("0.1.0", "strict"), &approval_doc("0.1.0", "strict")).err().unwrap();
    assert_eq!(err.message(), "next approval `n.json` must target a different artifact_version than previous approval `p.json`");
    let err = sup::build_supersession(&s, &approval_doc("0.1.0", "strict"), &approval_doc("0.2.0", "lax")).err().unwrap();
    assert_eq!(err.message(), "baseline approvals must share one policy_profile, found `strict` and `lax`");
}

fn receipt_doc(passed: bool, candidate: &str) -> Vec<(String, JsonValue)> {
    entries(vec![
        ("passed", JsonValue::Bool(passed)),
        ("candidate_summary_path", text(candidate)),
        ("policy_path", text("policy.json")),
        ("policy_profile", text("strict")),
    ])
}

fn summary_doc() -> Vec<(String, JsonValue)> {
    entries(vec![
        ("artifact", text("model.mpk")),
        ("artifact_version", text("0.1.0")),
        ("backend", text("cpu")),
        ("predicted_class", JsonValue::UInt(7)),
        ("top_probability", JsonValue::Float(0.9f64.to_bits())),
        ("margin_to_second", JsonValue::Float(0.5f64.to_bits())),
        ("logits_sha256", text("aa")),
        ("probabilities_sha256", text("bb")),
    ])
}

#[test]
fn drift_baseline_capture_needs_a_passing_receipt_for_the_summary() {
    let args = m_drift_baseline::parse_args(&strings(&["--summary=out/s.json", "--receipt=r.json"])).expect("args");
    let top = JsonValue::Float(0.9f64.to_bits());
    let margin = JsonValue::Float(0.5f64.to_bits());
    let b = m_drift_baseline::build_baseline(&args, &receipt_doc(true, "out/./s.json"), &summary_doc(), &top, &margin).expect("baseline");
    assert_eq!(field(&b, "predicted_class"), Some(&JsonValue::UInt(7)));
    assert_eq!(field(&b, "top_probability"), Some(&top));
    let err = m_drift_baseline::build_baseline(&args, &receipt_doc(false, "out/s.json"), &summary_doc(), &top, &margin).err().unwrap();
    assert_eq!(err.message(), "infer output drift receipt `r.json` must be passing before baseline capture");
    let err = m_drift_baseline::build_baseline(&args, &receipt_doc(true, "other.json"), &summary_doc(), &top, &margin).err().unwrap();
    assert_eq!(err.message(), "receipt candidate_summary_path `other.json` does not match requested summary `out/s.json`");
    let mut bad = summary_doc();
    bad.retain(|(k, _)| k != "margin_to_second");
    let err = m_drift_baseline::build_baseline(&args, &receipt_doc(true, "out/s.json"), &bad, &top, &margin).err().unwrap();
    assert_eq!(err.message(), "summary `out/s.json` missing number field `margin_to_second`");
}

#[test]
fn drift_refresh_checks_receipt_and_records_versions() {
    let args = m_drift_baseline_refresh::parse_args(&strings(&["--summary=s.json", "--receipt=r.json", "--current-baseline=c.json"])).expect("args");
    assert!(m_drift_baseline_refresh::check_refresh_receipt(&args, &receipt_doc(true, "s.json")).is_ok());
    let err = m_drift_baseline_refresh::check_refresh_receipt(&args, &entries(vec![("passed", JsonValue::Bool(true))])).err().unwrap();
    assert_eq!(err.message(), "json object `r.json` missing string field `candidate_summary_path`");
    let err = m_drift_baseline_refresh::check_refresh_receipt(&args, &receipt_doc(false, "s.json")).err().unwrap();
    assert_eq!(err.message(), "infer output drift receipt `r.json` must be passing before baseline refresh");
    let current = entries(vec![("artifact_version", text("0.0.9"))]);
    let rr = m_drift_baseline_refresh::build_refresh_receipt(&args, &current, &summary_doc(), &receipt_doc(true, "s.json")).expect("receipt");
    assert_eq!(field(&rr, "previous_artifact_version"), Some(&text("0.0.9")));
    assert_eq!(field(&rr, "archived_baseline_path"), Some(&text("artifacts/eval/infer_output_drift_baseline.previous.json")));
}

#[test]
fn drift_bundle_resolves_paths_and_counts_history() {
    let args = m_drift_baseline_bundle::parse_args(&strings(&["--pointer=eval/pointer.json", "--history=h.json"])).expect("args");
    let pointer = entries(vec![
        ("approval_path", text("approval.json")),
        ("artifact", text("m")),
        ("artifact_version", text("0.1.0")),
        ("policy_profile", text("strict")),
    ]);
    assert_eq!(m_drift_baseline_bundle::linked_location(&pointer, "approval_path", "eval/pointer.json").expect("p"), "eval/approval.json");
    let abs = entries(vec![("approval_path", text("/abs/a.json"))]);
    assert_eq!(m_drift_baseline_bundle::linked_location(&abs, "approval_path", "eval/pointer.json").expect("p"), "/abs/a.json");
    let history = entries(vec![("entries", JsonValue::Array(vec![JsonValue::Null, JsonValue::Null]))]);
    assert_eq!(m_drift_baseline_bundle::history_entry_count(&args, &history).expect("n"), 2);
    assert_eq!(
        m_drift_baseline_bundle::history_entry_count(&args, &entries(vec![])).err().unwrap().message(),
        "baseline history `h.json` must include an array `entries` field"
    );
    let b = m_drift_baseline_bundle::build_bundle(&args, &pointer, "eval/approval.json", "eval/baseline.json", 2).expect("bundle");
    assert_eq!(field(&b, "history_entry_count"), Some(&JsonValue::UInt(2)));
    assert_eq!(field(&b, "baseline_path"), Some(&text("eval/baseline.json")));
}

#[test]
fn profiling_infer_command_and_backend_choice() {
    let args = m_profiling_infer::parse_args(&strings(&["--backend", "  WGPU ", "--profiler-path= flame "])).expect("args");
    assert_eq!(args.backend, Some("wgpu".to_string()));
    assert_eq!(args.profiler_path, "flame");
    assert_eq!(args.artifact, None);
    let args = m_profiling_infer::parse_args(&strings(&["--backend="])).expect("args");
    assert_eq!(args.backend, None);
    let err = m_profiling_infer::parse_args(&strings(&["--profiler-path=  "])).err().unwrap();
    assert!(err.message().starts_with("--profiler-path must be non-empty\n"));
    assert_eq!(
        m_profiling_infer::render_profile_command("f.svg", "m.mpk", false),
        "cargo flamegraph --dev --deterministic --bin afterburner -o f.svg -- infer m.mpk"
    );
    assert!(m_profiling_infer::render_profile_command("f.svg", "m.mpk", true)
        .starts_with("env -u DEVELOPER_DIR -u SDKROOT XCTRACE=/usr/bin/xctrace cargo flamegraph"));
}

#[test]
fn profiling_infer_flamegraph_run_and_failure_message() {
    assert_eq!(
        m_profiling_infer::flamegraph_args("out/f.svg", "m.mpk"),
        strings(&["flamegraph", "--dev", "--deterministic", "--bin", "afterburner", "-o", "out/f.svg", "--", "infer", "m.mpk"])
    );
    assert_eq!(
        m_profiling_infer::flamegraph_failure("  boom \n", "ignored"),
        "cargo flamegraph infer failed: boom"
    );
    assert_eq!(
        m_profiling_infer::flamegraph_failure(" \n", " said this "),
        "cargo flamegraph infer failed: said this"
    );
    assert_eq!(
        m_profiling_infer::flamegraph_failure("", "  "),
        "cargo flamegraph infer failed: no output"
    );
}

#[test]
fn environment_snapshot_version_is_first_filled_line() {
    assert_eq!(m_profiling_environment_snapshot::profiler_version_from_output("\n  \ncargo-flamegraph 0.6.4 \nmore\n", "p").expect("v"), "cargo-flamegraph 0.6.4");
    assert_eq!(m_profiling_environment_snapshot::profiler_version_from_output("last line", "p").expect("v"), "last line");
    assert_eq!(
        m_profiling_environment_snapshot::profiler_version_from_output(" \n\t\n", "cargo-flamegraph").err().unwrap(),
        "profiler `cargo-flamegraph` --version produced empty output"
    );
    let args = m_profiling_environment_snapshot::parse_args(&strings(&["--profile-kind=infer", "--profiler=p", "--profiler-path=/bin/p"])).expect("args");
    let s = m_profiling_environment_snapshot::environment_snapshot(&args.profile_kind, &args.profiler, &args.profiler_path, "1.0", "linux", "x86_64");
    assert_eq!(keys(&s).len(), 7);
    assert_eq!(field(&s, "host_arch"), Some(&text("x86_64")));
    let err = m_profiling_environment_snapshot::parse_args(&strings(&["--profile-kind=infer", "--profiler= "])).err().unwrap();
    assert!(err.message().starts_with("--profiler must be non-empty\n"));
}
