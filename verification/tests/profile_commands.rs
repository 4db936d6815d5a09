use afterburner::cmd_distributed_load_profile as load;
use afterburner::cmd_distributed_runtime_benchmark as bench;
use afterburner::cmd_distributed_runtime_profile as runtime_profile;
use afterburner::cmd_drift_receipt::{load_summary, parse_args as drift_parse_args, DriftReceiptArgs};
use afterburner::cmd_eval::parse_args as eval_parse_args;
use afterburner::cmd_optimized_model_local_profile as local;
use afterburner::cmd_profiling_environment_snapshot_refresh as refresh;
use afterburner::json::JsonValue;

fn strings(v: &[&str]) -> Vec<String> {
    v.iter().map(|s| s.to_string()).collect()
}

fn text(s: &str) -> JsonValue {
    JsonValue::Str(s.to_string())
}

fn entries(pairs: Vec<(&str, JsonValue)>) -> Vec<(String, JsonValue)> {
    let mut entries: Vec<(String, JsonValue)> =
        pairs.into_iter().map(|(k, v)| (k.to_string(), v)).collect();
    entries.sort_by(|a, b| a.0.cmp(&b.0));
    entries
}

fn object(pairs: Vec<(&str, JsonValue)>) -> JsonValue {
    JsonValue::Object(entries(pairs))
}

fn field<'a>(v: &'a JsonValue, key: &str) -> Option<&'a JsonValue> {
    match v {
        JsonValue::Object(entries) => entries.iter().find(|(k, _)| k == key).map(|(_, v)| v),
        _ => None,
    }
}

#[test]
fn parse_args_accepts_required_drift_receipt_flags() {
    let args = strings(&[
        "--candidate",
        "candidate.json",
        "--current=current.json",
        "--max-top-probability-delta",
        "0.05",
        "--max-margin-delta=0.1",
        "--out",
        "receipt.json",
    ]);
    let parsed = drift_parse_args(&args).expect("parse drift receipt args");
    assert_eq!(
        parsed,
        DriftReceiptArgs {
            candidate: "candidate.json".to_string(),
            current: "current.json".to_string(),
            max_top_probability_delta: "0.05".to_string(),
            max_margin_delta: "0.1".to_string(),
            out_path: "receipt.json".to_string(),
        }
    );
    assert_eq!(parsed.max_top_probability_delta.parse::<f64>().unwrap(), 0.05);
    assert_eq!(parsed.max_margin_delta.parse::<f64>().unwrap(), 0.1);
}

#[test]
fn drift_receipt_rejects_non_numeric_budget_and_reads_summaries() {
    let err = drift_parse_args(&strings(&["--max-margin-delta=wide"])).err().unwrap();
    assert!(err.message().starts_with("invalid value for --max-margin-delta\n"));
    let doc = object(vec![
        ("artifact", text("model")),
        ("artifact_version", text("1.0.0")),
        ("predicted_class", JsonValue::UInt(7)),
        ("top_probability", JsonValue::Float(0.9f64.to_bits())),
        ("margin_to_second", JsonValue::UInt(0)),
    ]);
    let summary = load_summary(&doc, "c.json").expect("summary");
    assert_eq!(summary.predicted_class, 7);
    assert_eq!(summary.top_probability, JsonValue::Float(0.9f64.to_bits()));
    let doc = object(vec![
        ("artifact", text("model")),
        ("artifact_version", text("1.0.0")),
        ("predicted_class", JsonValue::UInt(7)),
        ("top_probability", text("high")),
    ]);
    assert_eq!(
        load_summary(&doc, "c.json").err().unwrap(),
        "infer output drift summary `c.json` missing number field `top_probability`"
    );
    assert_eq!(
        load_summary(&text("x"), "c.json").err().unwrap(),
        "infer output drift summary `c.json` must be an object"
    );
}

#[test]
fn parse_args_defaults_artifact_when_not_provided() {
    let args = strings(&["--seed", "42", "--batch-size", "64"]);
    let parsed = eval_parse_args(&args).expect("parse args");
    assert_eq!(parsed.artifact, None);
    assert_eq!(parsed.seed, 42);
    assert_eq!(parsed.batch_size, 64);
}

#[test]
fn parse_args_accepts_explicit_artifact_path() {
    let args = strings(&["artifacts/inference/0.1.0/model.mpk", "--max-batches", "4"]);
    let parsed = eval_parse_args(&args).expect("parse args");
    assert_eq!(parsed.artifact.as_deref(), Some("artifacts/inference/0.1.0/model.mpk"));
    assert_eq!(parsed.max_batches, 4);
}

#[test]
fn parse_args_accepts_named_artifact_flag() {
    let args = strings(&["--artifact", "artifacts/inference/0.2.0/model.mpk", "--max-batches", "4"]);
    let parsed = eval_parse_args(&args).expect("parse args");
    assert_eq!(parsed.artifact.as_deref(), Some("artifacts/inference/0.2.0/model.mpk"));
    assert_eq!(parsed.max_batches, 4);
}

#[test]
fn cmd_eval_parse_args_rejects_unknown_flag() {
    let args = strings(&["--bogus"]);
    let err = eval_parse_args(&args).expect_err("unknown flag should fail");
    assert!(err.contains("unknown argument: --bogus"), "unexpected error: {err}");
}

#[test]
fn parse_args_accepts_min_accuracy() {
    let args = strings(&["--min-accuracy", "0.98", "--max-batches", "4"]);
    let parsed = eval_parse_args(&args).expect("parse args");
    assert_eq!(parsed.min_accuracy.as_deref().map(|t| t.parse::<f64>().unwrap()), Some(0.98));
    assert_eq!(parsed.max_batches, 4);
}

#[test]
fn parse_args_rejects_out_of_range_min_accuracy() {
    let args = strings(&["--min-accuracy", "1.5"]);
    let err = eval_parse_args(&args).expect_err("must reject invalid min accuracy");
    assert!(err.contains("--min-accuracy must be in range"));
}

#[test]
fn min_accuracy_range_follows_the_parsed_float() {
    let texts = [
        "0", "-0", "0.0", "1", "1.0", "1e0", "10e-1", ".5", "5.", "0.98", "1.5", "-0.5", "2",
        "1.0000000000000001", "1.00000000000000011102230246251565404236316680908203125",
        "1.00000000000000011102230246251565404236316680908203126", "1.0000000000000003",
        "-1e-400", "-2.4703282292062328e-324", "-2.4703282292062327e-324", "-5e-324", "1e-400",
        "0.1e1", "0.01e2", "00001.000", "1e99999999999999999999999", "-1e-99999999999999999999",
        "1E-0", "+0.25", "nan", "NaN", "inf", "-Infinity", "infinity",
    ];
    for t in texts {
        let v: f64 = t.parse().expect("a float text");
        let expected = (0.0..=1.0).contains(&v);
        let got = eval_parse_args(&strings(&["--min-accuracy", t])).is_ok();
        assert_eq!(got, expected, "{t}");
    }
    let err = eval_parse_args(&strings(&["--min-accuracy", "-0.5"])).err().unwrap();
    assert!(err.starts_with("--min-accuracy must be in range [0.0, 1.0]\n"));
}

#[test]
fn eval_rejects_zero_batches_and_bad_numbers() {
    let err = eval_parse_args(&strings(&["--batch-size", "0"])).err().unwrap();
    assert!(err.starts_with("--batch-size must be > 0\n"));
    let err = eval_parse_args(&strings(&["--max-batches", "0"])).err().unwrap();
    assert!(err.starts_with("--max-batches must be > 0\n"));
    let err = eval_parse_args(&strings(&["--seed", "x1"])).err().unwrap();
    assert!(err.starts_with("invalid value for --seed: x1\n"));
    let err = eval_parse_args(&strings(&["--out"])).err().unwrap();
    assert!(err.starts_with("missing value for --out\n"));
    let parsed = eval_parse_args(&strings(&[])).expect("defaults");
    assert_eq!(parsed.out_path, "artifacts/eval/mnist_eval_summary.json");
    assert_eq!(parsed.batch_size, 128);
    assert_eq!(parsed.max_batches, 8);
}

#[test]
fn load_profile_splits_requests_evenly() {
    let shares = load::plan_shares(10, 4);
    assert_eq!(shares, vec![3, 3, 2, 2]);
    assert_eq!(shares.iter().sum::<u64>(), 10);
    assert_eq!(load::plan_shares(3, 5), vec![1, 1, 1, 0, 0]);
    let args = load::parse_args(&strings(&[
        "--addr=127.0.0.1:8080",
        "--requests=10",
        "--concurrency",
        "4",
        "--latency-budget-ms-p99=250",
        "--error-budget-ratio=0.01",
    ]))
    .expect("args");
    assert_eq!(args.requests, 10);
    let err = load::parse_args(&strings(&[
        "--addr=h",
        "--requests=0",
        "--concurrency=1",
        "--latency-budget-ms-p99=1",
        "--error-budget-ratio=1",
    ]))
    .err()
    .unwrap();
    assert!(err.message().starts_with("--requests and --concurrency must be greater than 0\n"));
}

#[test]
fn load_profile_reads_http_status_lines() {
    assert_eq!(load::response_status("HTTP/1.1 200 OK\r\nContent-Length: 0\r\n\r\n"), Ok(200));
    assert_eq!(load::response_status("HTTP/1.1   503\n"), Ok(503));
    assert_eq!(load::response_status(""), Err("http response missing status line".to_string()));
    assert_eq!(
        load::response_status("HTTP/1.1\r\n"),
        Err("http response status line malformed: HTTP/1.1".to_string())
    );
    let err = load::response_status("HTTP/1.1 abc OK").err().unwrap();
    assert!(err.starts_with("parse http status code from `HTTP/1.1 abc OK`: "));
    let err = load::response_status("HTTP/1.1 70000 OK").err().unwrap();
    assert!(err.starts_with("parse http status code from `HTTP/1.1 70000 OK`: "));
    let head = load::request_head("h:1", "00-ab", 12);
    assert_eq!(
        head,
        "POST /infer HTTP/1.1\r\nHost: h:1\r\nContent-Type: application/json\r\ntraceparent: 00-ab\r\nContent-Length: 12\r\nConnection: close\r\n\r\n"
    );
    let summary = load::summarize_worker(2, &vec![200, 204, 500, 302]);
    assert_eq!(summary.success_count, 2);
    assert_eq!(summary.error_count, 2);
    let entry = load::worker_entry(&summary);
    assert_eq!(field(&entry, "worker_index"), Some(&JsonValue::UInt(2)));
}

#[test]
fn runtime_profile_copies_a_passed_benchmark() {
    let run = entries(vec![
        ("benchmark_status", text("passed")),
        ("schema_version", text("1")),
        ("artifact_version", text("0.1.0")),
        ("model_size", text("small")),
        ("node_count", JsonValue::UInt(1)),
        ("gpus_per_node", JsonValue::UInt(2)),
        ("world_size", JsonValue::UInt(2)),
        ("parallelism", object(vec![("dp", JsonValue::UInt(2))])),
        ("metrics", object(vec![])),
        ("runtime_settings", object(vec![])),
        ("environment_fingerprint", object(vec![])),
    ]);
    let profile = runtime_profile::build_profile(&run).expect("profile");
    assert_eq!(field(&profile, "world_size"), Some(&JsonValue::UInt(2)));
    assert_eq!(field(&profile, "benchmark_status"), None);
    let failed = entries(vec![("benchmark_status", text("failed"))]);
    assert_eq!(
        runtime_profile::build_profile(&failed).err().unwrap(),
        "benchmark run must have benchmark_status=`passed`, got `failed`"
    );
    let partial = entries(vec![("benchmark_status", text("passed")), ("schema_version", JsonValue::UInt(1))]);
    assert_eq!(
        runtime_profile::build_profile(&partial).err().unwrap(),
        "benchmark run field `schema_version` must be a string"
    );
    let missing = entries(vec![]);
    assert_eq!(
        runtime_profile::build_profile(&missing).err().unwrap(),
        "benchmark run is missing required field `benchmark_status`"
    );
    let err = runtime_profile::parse_args(&strings(&["--out", "x.json"])).err().unwrap();
    assert!(err.message().starts_with("missing required argument --benchmark-run\n"));
}

#[test]
fn benchmark_requires_names_and_reports_failures() {
    let err = bench::parse_args(&strings(&["--dp", "2"])).err().unwrap();
    assert!(err.message().starts_with("missing required benchmark fields\n"));
    let err = bench::parse_args(&strings(&["--benchmark-command", " "])).err().unwrap();
    assert!(err.message().starts_with("--benchmark-command must be non-empty\n"));
    let args = bench::parse_args(&strings(&[
        "--artifact-version",
        "0.1.0",
        "--model-size",
        "s",
        "--backend",
        "wgpu",
        "--system",
        "linux",
        "--gpu-model",
        "a100",
        "--burn-version",
        "0.16",
        "--benchmark-command",
        "true",
        "--tp",
        "2",
    ]))
    .expect("args");
    assert_eq!(args.tp, 2);
    assert_eq!(args.step_time_ms, "0.0");
    let artifact = bench::build_artifact(
        &args,
        &JsonValue::Float(1.5f64.to_bits()),
        &JsonValue::UInt(100),
        &JsonValue::Float(0.4f64.to_bits()),
        42,
    );
    assert_eq!(field(&artifact, "benchmark_status"), Some(&text("passed")));
    assert_eq!(field(&artifact, "benchmark_duration_ms"), Some(&JsonValue::UInt(42)));
    assert_eq!(bench::benchmark_failure(Some(3), " boom\n"), "benchmark command failed with status 3: boom");
    assert_eq!(bench::benchmark_failure(Some(-1), ""), "benchmark command failed with status -1: ");
    assert_eq!(bench::benchmark_failure(None, "x"), "benchmark command failed with status signal: x");
}

#[test]
fn local_profile_checks_contract_and_profile() {
    let args = local::parse_args(&strings(&[
        "--package-contract",
        "c.json",
        "--quality-metric",
        "accuracy",
        "--quality-value",
        "0.99",
        "--minimum-quality-value",
        "0.98",
        "--observed-latency-ms-p99",
        "12.5",
        "--observed-max-memory-bytes",
        "100",
        "--observed-package-bytes",
        "50",
    ]))
    .expect("args");
    assert_eq!(args.observed_package_bytes, 50);
    assert_eq!(args.out_path, "artifacts/eval/optimized_model_local_profile.json");
    let err = local::parse_args(&strings(&["--package-contract", "c.json"])).err().unwrap();
    assert!(err.starts_with("missing required argument --quality-metric\n"));
    let err = local::parse_args(&strings(&["--quality-value", "x"])).err().unwrap();
    assert!(err.starts_with("invalid value for --quality-value\n"));
    let err = local::parse_args(&strings(&["--out"])).err().unwrap();
    assert!(err.starts_with("missing required argument --out\n"));
    let contract = entries(vec![
        ("packaging_inputs", object(vec![("optimization_profile_path", text("p.json"))])),
        ("target_environment", text("edge")),
        ("input_artifact_version", text("0.1.0")),
        ("optimization_steps", JsonValue::Array(vec![])),
        ("runtime_precision_contract", object(vec![])),
        ("optimized_artifact_path", text("o.mpk")),
        ("export_format", text("burn")),
    ]);
    assert_eq!(local::optimization_profile_path(&contract), Ok("p.json".to_string()));
    let profile = entries(vec![
        ("target_environment", text("edge")),
        (
            "output_constraints",
            object(vec![
                ("max_latency_ms_p99", JsonValue::Float(20.0f64.to_bits())),
                ("max_memory_bytes", JsonValue::UInt(200)),
                ("max_package_bytes", JsonValue::UInt(60)),
            ]),
        ),
    ]);
    let inputs = local::read_profile_inputs(&contract, &profile).expect("inputs");
    assert_eq!(inputs.memory_budget_bytes, 200);
    assert_eq!(inputs.export_format, "burn");
    let other = entries(vec![("target_environment", text("cloud"))]);
    assert_eq!(
        local::read_profile_inputs(&contract, &other).err().unwrap(),
        "package contract target_environment `edge` does not match optimization profile target_environment `cloud`"
    );
    assert_eq!(
        local::optimization_profile_path(&entries(vec![])).err().unwrap(),
        "optimized model package contract is missing required field `packaging_inputs`"
    );
}

#[test]
fn snapshot_refresh_keeps_kind_and_records_versions() {
    let args = refresh::parse_args(&strings(&[
        "--current-snapshot=s.json",
        "--profiler-path",
        "/usr/bin/perf",
        "--captured-at-unix-ms=-5",
    ]))
    .expect("args");
    assert_eq!(args.captured_at_unix_ms, -5);
    let current = entries(vec![
        ("profile_kind", text("cpu")),
        ("profiler", text("perf")),
        ("profiler_path", text("/old/perf")),
        ("profiler_version", text("5.0")),
    ]);
    let snapshot = refresh::build_snapshot(&args, &current, "6.1", "linux", "x86_64").expect("snapshot");
    assert_eq!(field(&snapshot, "profiler_version"), Some(&text("6.1")));
    assert_eq!(field(&snapshot, "host_arch"), Some(&text("x86_64")));
    let receipt = refresh::build_refresh_receipt(&args, &current, "6.1").expect("receipt");
    assert_eq!(field(&receipt, "previous_profiler_version"), Some(&text("5.0")));
    assert_eq!(field(&receipt, "captured_at_unix_ms"), Some(&JsonValue::NegInt(-5)));
    let err = refresh::parse_args(&strings(&["--captured-at-unix-ms=soon"])).err().unwrap();
    assert!(err.message().starts_with("invalid value for --captured-at-unix-ms\n"));
    let err = refresh::check_snapshot(&entries(vec![("profile_kind", text("cpu"))]), "s.json").err().unwrap();
    assert_eq!(err, "profiling environment snapshot `s.json` missing string field `profiler`");
}
