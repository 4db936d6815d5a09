use vstd::prelude::*;
use crate::cli::{
    empty_message, last_number, last_number_of, last_text, last_text_of, missing_arg,
    missing_message, opt_view, require_arg, require_filled, require_non_empty, rule, rules_view,
    scan, scan_args, texts_view, FlagRule, InlineForm, RuleSpec, ValueKind,
};
use crate::fields::{
    check_reads, first_read_failure, json_outcome, outcome, read, reads_view, str_field, str_of,
    u64_field, u64_of, value_field, value_of, CommandError, Failure, ReadKind,
};
use crate::fields::{or_else, push_opt_str, push_opt_text, with_opt_str, with_opt_text};
use crate::json::{entries_get, entries_view, object_from_pairs, object_of, Json, JsonValue};
use crate::text::{is_blank, owned, trimmed};
use crate::command_reconciliation::{build_reconciliation, reconciliation_spec};

verus! {

/// The arguments of `deploy scheduler-heartbeat-reconcile`.
#[derive(Debug, PartialEq, Eq)]
pub struct HeartbeatReconcileArgs {
    pub heartbeat: String,
    pub current_heartbeat: String,
    pub out_path: String,
}

pub struct HeartbeatReconcileArgsView {
    pub heartbeat: Seq<char>,
    pub current_heartbeat: Seq<char>,
    pub out_path: Seq<char>,
}

impl View for HeartbeatReconcileArgs {
    type V = HeartbeatReconcileArgsView;

    open spec fn view(&self) -> HeartbeatReconcileArgsView {
        HeartbeatReconcileArgsView {
            heartbeat: self.heartbeat@,
            current_heartbeat: self.current_heartbeat@,
            out_path: self.out_path@,
        }
    }
}

pub open spec fn usage_text() -> Seq<char> {
    "usage: afterburner deploy scheduler-heartbeat-reconcile --heartbeat PATH --current-heartbeat PATH [--out PATH]"@
}

pub fn usage() -> (r: &'static str)
    ensures
        r@ == usage_text(),
{
    "usage: afterburner deploy scheduler-heartbeat-reconcile --heartbeat PATH --current-heartbeat PATH [--out PATH]"
}

pub open spec fn rules_spec() -> Seq<RuleSpec> {
    seq![
        RuleSpec { name: "--heartbeat"@, kind: ValueKind::Text, inline: InlineForm::StripAll },
        RuleSpec { name: "--current-heartbeat"@, kind: ValueKind::Text, inline: InlineForm::StripAll },
        RuleSpec { name: "--out"@, kind: ValueKind::Text, inline: InlineForm::StripAll },
    ]
}

fn rules() -> (r: Vec<FlagRule>)
    ensures
        rules_view(r@) == rules_spec(),
{
    let mut r = Vec::new();
    r.push(rule("--heartbeat", ValueKind::Text, InlineForm::StripAll));
    r.push(rule("--current-heartbeat", ValueKind::Text, InlineForm::StripAll));
    r.push(rule("--out", ValueKind::Text, InlineForm::StripAll));
    assert(rules_view(r@) =~= rules_spec());
    r
}

/// The arguments that the command line gives, or why it is refused.
pub open spec fn parse_args_spec(args: Seq<Seq<char>>) -> Result<HeartbeatReconcileArgsView, Failure> {
    match scan(rules_spec(), args, "deploy scheduler-heartbeat-reconcile"@, usage_text()) {
        Err(m) => Err(Failure::InvalidArg(m)),
        Ok(a) => {
            match last_text(a, 0) {
                None => Err(Failure::InvalidArg(missing_message("--heartbeat"@, usage_text()))),
                Some(v_heartbeat) => {
                    match last_text(a, 1) {
                        None => Err(Failure::InvalidArg(missing_message("--current-heartbeat"@, usage_text()))),
                        Some(v_current_heartbeat) => {
                            Ok(HeartbeatReconcileArgsView {
                                heartbeat: v_heartbeat,
                                current_heartbeat: v_current_heartbeat,
                                out_path: match last_text(a, 2) { Some(p) => p, None => "artifacts/deploy/gpu_scheduler_heartbeat_reconciliation.json"@ },
                            })
                        }
                    }
                }
            }
        },
    }
}

pub fn parse_args(args: &Vec<String>) -> (r: Result<HeartbeatReconcileArgs, CommandError>)
    ensures
        outcome(r) == parse_args_spec(texts_view(args@)),
{
    let rules = rules();
    let a = match scan_args(&rules, args, "deploy scheduler-heartbeat-reconcile", usage()) {
        Ok(a) => a,
        Err(m) => {
            return Err(CommandError::InvalidArg(m));
        },
    };
    let heartbeat = match require_arg(last_text_of(&a, 0), "--heartbeat", usage()) {
        Ok(v) => v,
        Err(m) => {
            return Err(CommandError::InvalidArg(m));
        },
    };
    let current_heartbeat = match require_arg(last_text_of(&a, 1), "--current-heartbeat", usage()) {
        Ok(v) => v,
        Err(m) => {
            return Err(CommandError::InvalidArg(m));
        },
    };
    let out_path = match last_text_of(&a, 2) {
        Some(s) => s,
        None => owned("artifacts/deploy/gpu_scheduler_heartbeat_reconciliation.json"),
    };
    Ok(HeartbeatReconcileArgs { heartbeat, current_heartbeat, out_path })
}

/// What a heartbeat says of its job, lease, worker and state, with its progress marker when it has one.
pub open spec fn payload_spec(heartbeat: Seq<(Seq<char>, Json)>, path: Seq<char>) -> Result<Json, Failure> {
    match first_read_failure(heartbeat, seq![("job_id"@, ReadKind::Str), ("lease_id"@, ReadKind::Str), ("worker_id"@, ReadKind::Str), ("state"@, ReadKind::Str), ("observed_at_unix_ms"@, ReadKind::U64)], path, "gpu scheduler heartbeat"@) {
        Some(m) => Err(Failure::Parse(m)),
        None => Ok(object_of(with_opt_str(seq![
                ("job_id"@, Json::Str(str_of(heartbeat, "job_id"@))),
                ("lease_id"@, Json::Str(str_of(heartbeat, "lease_id"@))),
                ("worker_id"@, Json::Str(str_of(heartbeat, "worker_id"@))),
                ("state"@, Json::Str(str_of(heartbeat, "state"@))),
                ("observed_at_unix_ms"@, Json::UInt(u64_of(heartbeat, "observed_at_unix_ms"@))),
            ], "progress_marker"@, entries_get(heartbeat, "progress_marker"@)))),
    }
}

/// Reads the payload of a heartbeat.
pub fn heartbeat_payload(heartbeat: &Vec<(String, JsonValue)>, path: &str) -> (r: Result<JsonValue, CommandError>)
    ensures
        json_outcome(r) == payload_spec(entries_view(heartbeat@), path@),
{
    let mut reads0 = Vec::new();
    reads0.push(read("job_id", ReadKind::Str));
    reads0.push(read("lease_id", ReadKind::Str));
    reads0.push(read("worker_id", ReadKind::Str));
    reads0.push(read("state", ReadKind::Str));
    reads0.push(read("observed_at_unix_ms", ReadKind::U64));
    assert(reads_view(reads0@) =~= seq![("job_id"@, ReadKind::Str), ("lease_id"@, ReadKind::Str), ("worker_id"@, ReadKind::Str), ("state"@, ReadKind::Str), ("observed_at_unix_ms"@, ReadKind::U64)]);
    match check_reads(heartbeat, &reads0, path, "gpu scheduler heartbeat") {
        Err(m) => {
            return Err(CommandError::Parse(m));
        },
        Ok(_) => {},
    }
    assert(reads_view(reads0@)[0].0 == "job_id"@);
    assert(reads_view(reads0@)[1].0 == "lease_id"@);
    assert(reads_view(reads0@)[2].0 == "worker_id"@);
    assert(reads_view(reads0@)[3].0 == "state"@);
    assert(reads_view(reads0@)[4].0 == "observed_at_unix_ms"@);
    let mut pairs: Vec<(String, JsonValue)> = Vec::new();
    pairs.push((owned("job_id"), JsonValue::Str(str_field(heartbeat, "job_id"))));
    pairs.push((owned("lease_id"), JsonValue::Str(str_field(heartbeat, "lease_id"))));
    pairs.push((owned("worker_id"), JsonValue::Str(str_field(heartbeat, "worker_id"))));
    pairs.push((owned("state"), JsonValue::Str(str_field(heartbeat, "state"))));
    pairs.push((owned("observed_at_unix_ms"), JsonValue::UInt(u64_field(heartbeat, "observed_at_unix_ms"))));
    proof {
        let heartbeat = entries_view(heartbeat@);
        let path = path@;
        assert(entries_view(pairs@) =~= seq![
                ("job_id"@, Json::Str(str_of(heartbeat, "job_id"@))),
                ("lease_id"@, Json::Str(str_of(heartbeat, "lease_id"@))),
                ("worker_id"@, Json::Str(str_of(heartbeat, "worker_id"@))),
                ("state"@, Json::Str(str_of(heartbeat, "state"@))),
                ("observed_at_unix_ms"@, Json::UInt(u64_of(heartbeat, "observed_at_unix_ms"@))),
            ]);
    }
    push_opt_str(&mut pairs, "progress_marker", heartbeat, "progress_marker");
    Ok(object_from_pairs(pairs))
}


/// The reconciliation of the desired heartbeat with the current one.
pub open spec fn reconcile_spec(
    args: HeartbeatReconcileArgsView,
    desired: Seq<(Seq<char>, Json)>,
    current: Seq<(Seq<char>, Json)>,
) -> Result<Json, Failure> {
    match payload_spec(desired, args.heartbeat) {
        Err(f) => Err(f),
        Ok(d) => match payload_spec(current, args.current_heartbeat) {
            Err(f) => Err(f),
            Ok(c) => Ok(
                reconciliation_spec(
                    "heartbeat_path"@,
                    args.heartbeat,
                    "current_heartbeat_path"@,
                    args.current_heartbeat,
                    d,
                    c,
                ),
            ),
        },
    }
}

/// Reconciles the desired heartbeat with the current one.
pub fn reconcile(
    args: &HeartbeatReconcileArgs,
    desired: &Vec<(String, JsonValue)>,
    current: &Vec<(String, JsonValue)>,
) -> (r: Result<JsonValue, CommandError>)
    ensures
        json_outcome(r) == reconcile_spec(args@, entries_view(desired@), entries_view(current@)),
{
    let d = match heartbeat_payload(desired, args.heartbeat.as_str()) {
        Ok(d) => d,
        Err(e) => {
            return Err(e);
        },
    };
    let c = match heartbeat_payload(current, args.current_heartbeat.as_str()) {
        Ok(c) => c,
        Err(e) => {
            return Err(e);
        },
    };
    Ok(
        build_reconciliation(
            "heartbeat_path",
            args.heartbeat.as_str(),
            "current_heartbeat_path",
            args.current_heartbeat.as_str(),
            d,
            c,
        ),
    )
}


} // verus!
