use afterburner::cmd_scheduler_runtime_simulation::{
    checkpoint_restart_report, layout_feasibility, layout_products_fit, lease_transitions,
    lifecycle_report, load_scenario, parse_args, simulation_report, validate_scenario,
    artifact_emission_report,
};
use afterburner::json::JsonValue;

fn text(s: &str) -> JsonValue {
    JsonValue::Str(s.to_string())
}

fn object(pairs: Vec<(&str, JsonValue)>) -> JsonValue {
    let mut entries: Vec<(String, JsonValue)> =
        pairs.into_iter().map(|(k, v)| (k.to_string(), v)).collect();
    entries.sort_by(|a, b| a.0.cmp(&b.0));
    JsonValue::Object(entries)
}

fn field<'a>(v: &'a JsonValue, key: &str) -> &'a JsonValue {
    match v {
        JsonValue::Object(entries) => &entries.iter().find(|(k, _)| k == key).expect(key).1,
        other => panic!("not an object: {other:?}"),
    }
}

fn message(direction: &str, kind: &str) -> JsonValue {
    object(vec![
        ("direction", text(direction)),
        ("kind", text(kind)),
        ("job_id", text("job-1")),
        ("lease_id", text("lease-1")),
    ])
}

fn scenario(kinds: &[(&str, &str)], dp: u64) -> JsonValue {
    object(vec![
        ("schema_version", text("1")),
        ("scenario_name", text("two-node")),
        (
            "inventory",
            object(vec![("node_count", JsonValue::UInt(2)), ("gpus_per_node", JsonValue::UInt(4))]),
        ),
        (
            "lease",
            object(vec![
                ("job_id", text("job-1")),
                ("lease_id", text("lease-1")),
                ("node_ids", JsonValue::Array(vec![text("n0"), text("n1")])),
                (
                    "gpu_ids",
                    JsonValue::Array((0..8).map(|i| text(&format!("g{i}"))).collect()),
                ),
                ("checkpoint_mode", text("cooperative")),
            ]),
        ),
        (
            "layout",
            object(vec![
                ("world_size", JsonValue::UInt(8)),
                (
                    "parallelism",
                    object(vec![
                        ("dp", JsonValue::UInt(dp)),
                        ("tp", JsonValue::UInt(2)),
                        ("pp", JsonValue::UInt(1)),
                        ("sp_cp", JsonValue::UInt(1)),
                        ("ep", JsonValue::UInt(1)),
                        ("gas", JsonValue::UInt(1)),
                        ("microbatch_size", JsonValue::UInt(4)),
                        ("zero_stage", JsonValue::UInt(1)),
                    ]),
                ),
            ]),
        ),
        (
            "lifecycle_messages",
            JsonValue::Array(kinds.iter().map(|(d, k)| message(d, k)).collect()),
        ),
        (
            "checkpoint_restart",
            object(vec![
                ("checkpoint_group", text("grp")),
                ("restart_after_kind", text("CHECKPOINTED")),
                ("expected_resume_kind", text("READY")),
            ]),
        ),
        (
            "artifact_plan",
            JsonValue::Array(vec![
                object(vec![
                    ("kind", text("checkpoint")),
                    ("event", text("checkpoint_written")),
                    ("path", text("ckpt")),
                    ("after_kind", text("CHECKPOINTED")),
                ]),
                object(vec![
                    ("kind", text("report")),
                    ("event", text("report_written")),
                    ("path", text("report.json")),
                    ("after_kind", text("STOP")),
                ]),
            ]),
        ),
    ])
}

const S2R: &str = "scheduler_to_runtime";
const R2S: &str = "runtime_to_scheduler";

#[test]
fn simulation_reports_checkpoint_restart_and_transitions() {
    let doc = scenario(
        &[(S2R, "START"), (R2S, "READY"), (R2S, "CHECKPOINTED"), (S2R, "START"), (R2S, "READY"), (R2S, "BOGUS")],
        4,
    );
    let s = load_scenario(&doc, "s.json").expect("scenario");
    validate_scenario(&s, "s.json").expect("valid");
    let cr = checkpoint_restart_report(&s);
    assert_eq!(field(&cr, "checkpointed_observed"), &JsonValue::Bool(true));
    assert_eq!(field(&cr, "restart_observed"), &JsonValue::Bool(true));
    assert_eq!(field(&cr, "expected_resume_observed"), &JsonValue::Bool(true));
    assert_eq!(field(&cr, "restart_permitted"), &JsonValue::Bool(true));
    let tr = lease_transitions(&s);
    match &tr {
        JsonValue::Array(items) => {
            assert_eq!(items.len(), 6);
            assert_eq!(field(&items[0], "from_state"), &text("pending"));
            assert_eq!(field(&items[0], "to_state"), &text("leased"));
            assert_eq!(field(&items[2], "to_state"), &text("checkpointed"));
            assert_eq!(field(&items[5], "from_state"), &text("running"));
            assert_eq!(field(&items[5], "to_state"), &text("running"));
        }
        other => panic!("{other:?}"),
    }
    let lc = lifecycle_report(&s);
    assert_eq!(field(&lc, "final_kind"), &text("BOGUS"));
    match field(&lc, "messages") {
        JsonValue::Array(items) => {
            assert_eq!(field(&items[1], "accepted"), &JsonValue::Bool(true));
            assert_eq!(field(&items[5], "accepted"), &JsonValue::Bool(false));
        }
        other => panic!("{other:?}"),
    }
    let ae = artifact_emission_report(&s);
    assert_eq!(field(&ae, "all_expected_emitted"), &JsonValue::Bool(false));
    match field(&ae, "expected") {
        JsonValue::Array(items) => {
            assert_eq!(field(&items[0], "emitted_after_step"), &JsonValue::UInt(2));
            assert_eq!(field(&items[1], "emitted_after_step"), &JsonValue::Null);
        }
        other => panic!("{other:?}"),
    }
}

#[test]
fn simulation_layout_checks_and_feasibility() {
    let s = load_scenario(&scenario(&[(S2R, "START")], 4), "s.json").expect("scenario");
    assert!(layout_products_fit(&s));
    let lf = layout_feasibility(&s);
    assert_eq!(field(&lf, "feasible"), &JsonValue::Bool(true));
    let s = load_scenario(&scenario(&[(S2R, "START")], 3), "s.json").expect("scenario");
    let lf = layout_feasibility(&s);
    assert_eq!(field(&lf, "feasible"), &JsonValue::Bool(false));
    match field(&lf, "checks") {
        JsonValue::Array(items) => {
            assert_eq!(field(&items[1], "passed"), &JsonValue::Bool(false));
            assert_eq!(field(&items[1], "detail"), &text("world_size=8 parallelism_product=6"));
            assert_eq!(field(&items[0], "detail"), &text("available_gpus=8 world_size=8"));
        }
        other => panic!("{other:?}"),
    }
    let s = load_scenario(&scenario(&[(S2R, "START")], u64::MAX), "s.json").expect("scenario");
    assert!(!layout_products_fit(&s));
}

#[test]
fn simulation_validation_and_reading_errors() {
    let s = load_scenario(&scenario(&[], 4), "s.json").expect("scenario");
    let err = validate_scenario(&s, "s.json").err().unwrap();
    assert_eq!(
        err.message(),
        "scheduler/runtime simulation scenario `s.json` must contain at least one lifecycle message"
    );
    let err = load_scenario(&text("x"), "s.json").err().unwrap();
    assert_eq!(err.message(), "scheduler/runtime simulation scenario `s.json` must be an object");
    let err = load_scenario(&object(vec![("schema_version", text("1"))]), "s.json").err().unwrap();
    assert_eq!(err.message(), "simulation scenario `s.json` missing string field `scenario_name`");
}

#[test]
fn simulation_report_counts_ticks() {
    let args = parse_args(&vec!["--scenario=s.json".to_string()]).expect("args");
    assert_eq!(args.out_path, "artifacts/simulation/scheduler_runtime_simulation_report.json");
    let s = load_scenario(&scenario(&[(S2R, "START"), (R2S, "READY")], 4), "s.json").expect("s");
    let report = simulation_report(&args, &s);
    assert_eq!(field(&report, "tick_count"), &JsonValue::UInt(2));
    assert_eq!(field(&report, "scenario_path"), &text("s.json"));
}
