use afterburner::cmd_deployment_verification_receipt_rollback_supersession as receipt_sup;
use afterburner::cmd_distributed_load_profile::plan_shares;
use afterburner::cmd_scheduler_heartbeat_supersession as hb_sup;
use afterburner::cmd_upload::parse_args as upload_parse_args;
use afterburner::command_reconciliation::{append_history_entry, build_reconciliation, fresh_history};
use afterburner::evidence_source::parse_evidence_source;
use afterburner::infer::parse_weights_path_from_args;
use afterburner::json::{object_from_pairs, JsonValue};
use afterburner::text::{decimal_text, normalize_backend, parse_i64, parse_u64};

fn strings(v: &[&str]) -> Vec<String> {
    v.iter().map(|s| s.to_string()).collect()
}

fn text(s: &str) -> JsonValue {
    JsonValue::Str(s.to_string())
}

fn field<'a>(v: &'a JsonValue, key: &str) -> Option<&'a JsonValue> {
    match v {
        JsonValue::Object(entries) => entries.iter().find(|(k, _)| k == key).map(|(_, v)| v),
        _ => None,
    }
}

#[test]
fn later_pair_wins_in_a_built_object() {
    let built = object_from_pairs(vec![
        ("k".to_string(), text("first")),
        ("j".to_string(), text("other")),
        ("k".to_string(), text("second")),
    ]);
    assert_eq!(field(&built, "k"), Some(&text("second")));
    assert_eq!(field(&built, "j"), Some(&text("other")));
    assert_eq!(field(&built, "missing"), None);
}

#[test]
fn reconciliation_is_aligned_only_for_equal_states() {
    let same = build_reconciliation("d_path", "d.json", "c_path", "c.json", text("x"), text("x"));
    assert_eq!(field(&same, "reconciliation_status"), Some(&text("aligned")));
    let differ = build_reconciliation("d_path", "d.json", "c_path", "c.json", text("x"), text("y"));
    assert_eq!(field(&differ, "reconciliation_status"), Some(&text("needs-update")));
    assert_eq!(field(&differ, "desired"), Some(&text("x")));
}

#[test]
fn history_keeps_entries_and_appends_last() {
    let mut history = fresh_history();
    append_history_entry(&mut history, text("a"));
    append_history_entry(&mut history, text("b"));
    assert_eq!(field(&history, "entries"), Some(&JsonValue::Array(vec![text("a"), text("b")])));
    assert_eq!(field(&history, "schema_version"), Some(&text("1")));
}

#[test]
fn both_flag_spellings_read_the_same() {
    let separate = upload_parse_args(&strings(&[
        "--manifest",
        "m.toml",
        "--ownership",
        "o.json",
        "--provider",
        "hf",
        "--destination",
        "org/m",
    ]))
    .expect("separate");
    let joined = upload_parse_args(&strings(&[
        "--manifest=m.toml",
        "--ownership=o.json",
        "--provider=hf",
        "--destination=org/m",
    ]))
    .expect("joined");
    assert_eq!(separate, joined);
}

#[test]
fn decimal_text_reads_back() {
    for n in [0u64, 7, 10, 1234567890, u64::MAX] {
        assert_eq!(parse_u64(decimal_text(n).as_str()), Some(n));
    }
    assert_eq!(parse_i64(decimal_text(i64::MAX as u64).as_str()), Some(i64::MAX));
    assert_eq!(parse_i64(decimal_text(i64::MAX as u64 + 1).as_str()), None);
    assert_eq!(parse_i64("-9223372036854775808"), Some(i64::MIN));
    assert_eq!(parse_i64("-+1"), None);
}

#[test]
fn evidence_source_text_reads_back() {
    let e = parse_evidence_source(&format!("runs/a.json,finished,{}", decimal_text(42)), "u").expect("source");
    assert_eq!(e.artifact_path, "runs/a.json");
    assert_eq!(e.event_name, "finished");
    assert_eq!(e.observed_at_unix_ms, 42);
}

#[test]
fn shares_cover_every_request() {
    for (requests, concurrency) in [(0u64, 1u64), (1, 1), (7, 3), (100, 7), (5, 9)] {
        let shares = plan_shares(requests, concurrency);
        assert_eq!(shares.len() as u64, concurrency);
        assert_eq!(shares.iter().sum::<u64>(), requests);
        let max = shares.iter().max().unwrap();
        let min = shares.iter().min().unwrap();
        assert!(max - min <= 1);
    }
}

#[test]
fn nothing_supersedes_itself() {
    let args = hb_sup::parse_args(&strings(&[
        "--previous-heartbeat=a.json",
        "--next-heartbeat=a.json",
        "--superseded-at-unix-ms=1",
    ]))
    .expect("args");
    let mut hb: Vec<(String, JsonValue)> = vec![
        ("job_id".to_string(), text("j")),
        ("lease_id".to_string(), text("l")),
        ("observed_at_unix_ms".to_string(), JsonValue::UInt(1)),
        ("state".to_string(), text("running")),
        ("worker_id".to_string(), text("w")),
    ];
    hb.sort_by(|a, b| a.0.cmp(&b.0));
    assert!(hb_sup::build_supersession(&args, &hb, &hb).is_err());
    let args = receipt_sup::parse_args(&strings(&[
        "--previous-rollback=a.json",
        "--next-rollback=a.json",
        "--superseded-at-unix-ms=1",
    ]))
    .expect("args");
    let rb: Vec<(String, JsonValue)> = vec![
        ("profile_name".to_string(), text("p")),
        ("restored_artifact_version".to_string(), text("1")),
        ("restored_receipt_path".to_string(), text("r")),
    ];
    assert!(receipt_sup::build_supersession(&args, &rb, &rb).is_err());
}

#[test]
fn weights_path_spellings_agree() {
    let joined = parse_weights_path_from_args(&strings(&["infer", "--artifact=w/model.mpk"]));
    let separate = parse_weights_path_from_args(&strings(&["infer", "--artifact", "w/model.mpk"]));
    let positional = parse_weights_path_from_args(&strings(&["infer", "w/model.mpk"]));
    assert_eq!(joined.as_deref(), Some("w/model.mpk"));
    assert_eq!(joined, separate);
    assert_eq!(joined, positional);
    assert_eq!(parse_weights_path_from_args(&strings(&["infer", "--artifact="])), None);
}

#[test]
fn backend_choice_is_idempotent() {
    for raw in ["  WGPU ", "cpu", "\tCuDa\n", "   ", ""] {
        let once = normalize_backend(Some(raw.to_string()));
        let twice = normalize_backend(once.clone());
        assert_eq!(once, twice);
    }
    assert_eq!(normalize_backend(Some("  WGPU ".to_string())), Some("wgpu".to_string()));
    assert_eq!(normalize_backend(Some("   ".to_string())), None);
    assert_eq!(normalize_backend(None), None);
}

#[test]
fn reconciliation_compares_floats_by_value() {
    let zero = object_from_pairs(vec![("x".to_string(), JsonValue::Float(0.0f64.to_bits()))]);
    let negative_zero = object_from_pairs(vec![("x".to_string(), JsonValue::Float((-0.0f64).to_bits()))]);
    let half = object_from_pairs(vec![("x".to_string(), JsonValue::Float(0.5f64.to_bits()))]);
    let r = build_reconciliation("desired_path", "a.json", "current_path", "b.json", zero, negative_zero);
    assert_eq!(field(&r, "reconciliation_status"), Some(&text("aligned")));
    let zero = object_from_pairs(vec![("x".to_string(), JsonValue::Float(0.0f64.to_bits()))]);
    let r = build_reconciliation("desired_path", "a.json", "current_path", "b.json", zero, half);
    assert_eq!(field(&r, "reconciliation_status"), Some(&text("needs-update")));
    let one = object_from_pairs(vec![("x".to_string(), JsonValue::UInt(1))]);
    let one_float = object_from_pairs(vec![("x".to_string(), JsonValue::Float(1.0f64.to_bits()))]);
    let r = build_reconciliation("desired_path", "a.json", "current_path", "b.json", one, one_float);
    assert_eq!(field(&r, "reconciliation_status"), Some(&text("needs-update")));
}

#[test]
fn weights_path_ignores_the_program_name() {
    for tail in [vec!["--artifact", "a/m.mpk"], vec!["a/m.mpk"], vec!["--artifact=b.mpk"], vec![]] {
        let mut a = vec!["afterburner"];
        a.extend(tail.iter());
        let mut b = vec!["other-name"];
        b.extend(tail.iter());
        assert_eq!(parse_weights_path_from_args(&strings(&a)), parse_weights_path_from_args(&strings(&b)));
    }
}
