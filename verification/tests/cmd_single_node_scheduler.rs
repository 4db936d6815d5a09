use afterburner::cmd_single_node_scheduler::{load_inventory, load_job, parse_args, schedule, SchedulerArgs};
use afterburner::json::JsonValue;

fn text(s: &str) -> JsonValue {
    JsonValue::Str(s.to_string())
}

fn object(pairs: Vec<(&str, JsonValue)>) -> JsonValue {
    let mut entries: Vec<(String, JsonValue)> =
        pairs.into_iter().map(|(k, v)| (k.to_string(), v)).collect();
    entries.sort_by(|a, b| a.0.cmp(&b.0));
    JsonValue::Object(entries)
}

fn field<'a>(v: &'a JsonValue, key: &str) -> &'a JsonValue {
    match v {
        JsonValue::Object(entries) => &entries.iter().find(|(k, _)| k == key).expect(key).1,
        other => panic!("not an object: {other:?}"),
    }
}

#[test]
fn cmd_single_node_scheduler_parse_args_accepts_required_flags() {
    let args = vec![
        "--job".to_string(),
        "fixtures/gpu_scheduler_job_request.example.json".to_string(),
        "--inventory".to_string(),
        "fixtures/gpu_inventory.example.json".to_string(),
    ];
    let parsed = parse_args(&args).expect("parse scheduler args");
    assert_eq!(
        parsed,
        SchedulerArgs {
            job_path: "fixtures/gpu_scheduler_job_request.example.json".to_string(),
            inventory_path: "fixtures/gpu_inventory.example.json".to_string(),
            out_lease: "artifacts/deploy/gpu_scheduler_lease.json".to_string(),
            out_unit: "artifacts/deploy/afterburner-job.service".to_string(),
        }
    );
}

fn job(gpu_count: u64, mode: &str) -> JsonValue {
    object(vec![
        ("schema_version", text("1")),
        ("job_id", text("j7")),
        ("priority", JsonValue::UInt(3)),
        ("gpu_count", JsonValue::UInt(gpu_count)),
        ("checkpoint_mode", text(mode)),
        ("working_directory", text("/srv/job")),
        ("exec_start", text("/usr/bin/train")),
    ])
}

fn inventory(states: &[&str]) -> JsonValue {
    object(vec![
        ("schema_version", text("1")),
        ("node_id", text("node-a")),
        (
            "gpus",
            JsonValue::Array(
                states
                    .iter()
                    .enumerate()
                    .map(|(i, s)| object(vec![("gpu_id", text(&format!("gpu{i}"))), ("state", text(s))]))
                    .collect(),
            ),
        ),
    ])
}

#[test]
fn scheduler_leases_first_free_gpu_and_writes_unit() {
    let j = load_job(&job(1, "cooperative"), "job.json").expect("job");
    let inv = load_inventory(&inventory(&["busy", "free", "free"]), "inv.json").expect("inv");
    let (lease, unit) = schedule(&j, &inv).expect("schedule");
    assert_eq!(field(&lease, "gpu_ids"), &JsonValue::Array(vec![text("gpu1")]));
    assert_eq!(field(&lease, "lease_id"), &text("lease-j7"));
    assert_eq!(field(&lease, "service_unit"), &text("afterburner-j7.service"));
    assert_eq!(field(&lease, "priority"), &JsonValue::UInt(3));
    assert!(unit.starts_with("[Unit]\nDescription=Afterburner job j7\n"));
    assert!(unit.contains("Environment=AFTERBURNER_GPU_IDS=gpu1\nExecStart=/usr/bin/train\n"));
    assert!(unit.ends_with("WantedBy=default.target\n"));
}

#[test]
fn scheduler_refusals() {
    let j = load_job(&job(2, "none"), "job.json").expect("job");
    let inv = load_inventory(&inventory(&["free"]), "inv.json").expect("inv");
    assert_eq!(
        schedule(&j, &inv).err().unwrap().message(),
        "single-node scheduler currently supports gpu_count = 1 only"
    );
    let j = load_job(&job(1, "none"), "job.json").expect("job");
    let inv = load_inventory(&inventory(&["busy"]), "inv.json").expect("inv");
    assert_eq!(schedule(&j, &inv).err().unwrap().message(), "no free gpu available");
    assert_eq!(
        load_job(&job(1, "eager"), "job.json").err().unwrap().message(),
        "job.json field `checkpoint_mode` must be `cooperative` or `none`"
    );
    let bad = object(vec![("schema_version", text("2"))]);
    assert_eq!(
        load_job(&bad, "job.json").err().unwrap().message(),
        "job.json field `schema_version` must be `1`, got `2`"
    );
    let bad = object(vec![("schema_version", text("1")), ("node_id", text("n")), ("gpus", JsonValue::Array(vec![text("x")]))]);
    assert_eq!(
        load_inventory(&bad, "inv.json").err().unwrap().message(),
        "inv.json gpu entries must be objects"
    );
    let bad = object(vec![("schema_version", text("1")), ("node_id", text("  "))]);
    assert_eq!(
        load_inventory(&bad, "inv.json").err().unwrap().message(),
        "inv.json must define non-empty string field `node_id`"
    );
}
