use vstd::prelude::*;
use crate::cli::{
    empty_message, last_number, last_number_of, last_text, last_text_of, missing_arg,
    missing_message, opt_view, require_arg, require_filled, require_non_empty, rule, rules_view,
    scan, scan_args, texts_view, FlagRule, InlineForm, RuleSpec, ValueKind,
};
use crate::fields::{
    check_reads, first_read_failure, json_outcome, outcome, read, reads_view, str_field, str_of,
    u64_field, u64_of, value_field, value_of, CommandError, Failure, ReadKind,
};
use crate::fields::{or_else, push_opt_str, push_opt_text, with_opt_str, with_opt_text};
use crate::json::{entries_get, entries_view, object_from_pairs, object_of, Json, JsonValue};
use crate::text::{is_blank, owned, trimmed};
use crate::command_reconciliation::{build_reconciliation, reconciliation_spec};

verus! {

/// The arguments of `deploy reconcile-scheduler-heartbeat-pointer`.
#[derive(Debug, PartialEq, Eq)]
pub struct PointerReconcileArgs {
    pub pointer: String,
    pub current_pointer: String,
    pub out_path: String,
}

pub struct PointerReconcileArgsView {
    pub pointer: Seq<char>,
    pub current_pointer: Seq<char>,
    pub out_path: Seq<char>,
}

impl View for PointerReconcileArgs {
    type V = PointerReconcileArgsView;

    open spec fn view(&self) -> PointerReconcileArgsView {
        PointerReconcileArgsView {
            pointer: self.pointer@,
            current_pointer: self.current_pointer@,
            out_path: self.out_path@,
        }
    }
}

pub open spec fn usage_text() -> Seq<char> {
    "usage: afterburner debug deploy reconcile-scheduler-heartbeat-pointer --pointer PATH --current-pointer PATH [--out PATH]"@
}

pub fn usage() -> (r: &'static str)
    ensures
        r@ == usage_text(),
{
    "usage: afterburner debug deploy reconcile-scheduler-heartbeat-pointer --pointer PATH --current-pointer PATH [--out PATH]"
}

pub open spec fn rules_spec() -> Seq<RuleSpec> {
    seq![
        RuleSpec { name: "--pointer"@, kind: ValueKind::Text, inline: InlineForm::StripAll },
        RuleSpec { name: "--current-pointer"@, kind: ValueKind::Text, inline: InlineForm::StripAll },
        RuleSpec { name: "--out"@, kind: ValueKind::Text, inline: InlineForm::StripAll },
    ]
}

fn rules() -> (r: Vec<FlagRule>)
    ensures
        rules_view(r@) == rules_spec(),
{
    let mut r = Vec::new();
    r.push(rule("--pointer", ValueKind::Text, InlineForm::StripAll));
    r.push(rule("--current-pointer", ValueKind::Text, InlineForm::StripAll));
    r.push(rule("--out", ValueKind::Text, InlineForm::StripAll));
    assert(rules_view(r@) =~= rules_spec());
    r
}

/// The arguments that the command line gives, or why it is refused.
pub open spec fn parse_args_spec(args: Seq<Seq<char>>) -> Result<PointerReconcileArgsView, Failure> {
    match scan(rules_spec(), args, "deploy reconcile-scheduler-heartbeat-pointer"@, usage_text()) {
        Err(m) => Err(Failure::InvalidArg(m)),
        Ok(a) => {
            match last_text(a, 0) {
                None => Err(Failure::InvalidArg(missing_message("--pointer"@, usage_text()))),
                Some(v_pointer) => {
                    match last_text(a, 1) {
                        None => Err(Failure::InvalidArg(missing_message("--current-pointer"@, usage_text()))),
                        Some(v_current_pointer) => {
                            Ok(PointerReconcileArgsView {
                                pointer: v_pointer,
                                current_pointer: v_current_pointer,
                                out_path: match last_text(a, 2) { Some(p) => p, None => "artifacts/deploy/gpu_scheduler_heartbeat_pointer_reconciliation.json"@ },
                            })
                        }
                    }
                }
            }
        },
    }
}

pub fn parse_args(args: &Vec<String>) -> (r: Result<PointerReconcileArgs, CommandError>)
    ensures
        outcome(r) == parse_args_spec(texts_view(args@)),
{
    let rules = rules();
    let a = match scan_args(&rules, args, "deploy reconcile-scheduler-heartbeat-pointer", usage()) {
        Ok(a) => a,
        Err(m) => {
            return Err(CommandError::InvalidArg(m));
        },
    };
    let pointer = match require_arg(last_text_of(&a, 0), "--pointer", usage()) {
        Ok(v) => v,
        Err(m) => {
            return Err(CommandError::InvalidArg(m));
        },
    };
    let current_pointer = match require_arg(last_text_of(&a, 1), "--current-pointer", usage()) {
        Ok(v) => v,
        Err(m) => {
            return Err(CommandError::InvalidArg(m));
        },
    };
    let out_path = match last_text_of(&a, 2) {
        Some(s) => s,
        None => owned("artifacts/deploy/gpu_scheduler_heartbeat_pointer_reconciliation.json"),
    };
    Ok(PointerReconcileArgs { pointer, current_pointer, out_path })
}

/// What a heartbeat pointer says of its heartbeat, job, lease, worker and state, with its progress marker when it has one.
pub open spec fn payload_spec(pointer: Seq<(Seq<char>, Json)>, path: Seq<char>) -> Result<Json, Failure> {
    match first_read_failure(pointer, seq![("heartbeat_path"@, ReadKind::Str), ("job_id"@, ReadKind::Str), ("lease_id"@, ReadKind::Str), ("worker_id"@, ReadKind::Str), ("state"@, ReadKind::Str), ("observed_at_unix_ms"@, ReadKind::U64)], path, "gpu scheduler heartbeat pointer"@) {
        Some(m) => Err(Failure::Parse(m)),
        None => Ok(object_of(with_opt_str(seq![
                ("heartbeat_path"@, Json::Str(str_of(pointer, "heartbeat_path"@))),
                ("job_id"@, Json::Str(str_of(pointer, "job_id"@))),
                ("lease_id"@, Json::Str(str_of(pointer, "lease_id"@))),
                ("worker_id"@, Json::Str(str_of(pointer, "worker_id"@))),
                ("state"@, Json::Str(str_of(pointer, "state"@))),
                ("observed_at_unix_ms"@, Json::UInt(u64_of(pointer, "observed_at_unix_ms"@))),
            ], "progress_marker"@, entries_get(pointer, "progress_marker"@)))),
    }
}

/// Reads the payload of a heartbeat pointer.
pub fn pointer_payload(pointer: &Vec<(String, JsonValue)>, path: &str) -> (r: Result<JsonValue, CommandError>)
    ensures
        json_outcome(r) == payload_spec(entries_view(pointer@), path@),
{
    let mut reads0 = Vec::new();
    reads0.push(read("heartbeat_path", ReadKind::Str));
    reads0.push(read("job_id", ReadKind::Str));
    reads0.push(read("lease_id", ReadKind::Str));
    reads0.push(read("worker_id", ReadKind::Str));
    reads0.push(read("state", ReadKind::Str));
    reads0.push(read("observed_at_unix_ms", ReadKind::U64));
    assert(reads_view(reads0@) =~= seq![("heartbeat_path"@, ReadKind::Str), ("job_id"@, ReadKind::Str), ("lease_id"@, ReadKind::Str), ("worker_id"@, ReadKind::Str), ("state"@, ReadKind::Str), ("observed_at_unix_ms"@, ReadKind::U64)]);
    match check_reads(pointer, &reads0, path, "gpu scheduler heartbeat pointer") {
        Err(m) => {
            return Err(CommandError::Parse(m));
        },
        Ok(_) => {},
    }
    assert(reads_view(reads0@)[0].0 == "heartbeat_path"@);
    assert(reads_view(reads0@)[1].0 == "job_id"@);
    assert(reads_view(reads0@)[2].0 == "lease_id"@);
    assert(reads_view(reads0@)[3].0 == "worker_id"@);
    assert(reads_view(reads0@)[4].0 == "state"@);
    assert(reads_view(reads0@)[5].0 == "observed_at_unix_ms"@);
    let mut pairs: Vec<(String, JsonValue)> = Vec::new();
    pairs.push((owned("heartbeat_path"), JsonValue::Str(str_field(pointer, "heartbeat_path"))));
    pairs.push((owned("job_id"), JsonValue::Str(str_field(pointer, "job_id"))));
    pairs.push((owned("lease_id"), JsonValue::Str(str_field(pointer, "lease_id"))));
    pairs.push((owned("worker_id"), JsonValue::Str(str_field(pointer, "worker_id"))));
    pairs.push((owned("state"), JsonValue::Str(str_field(pointer, "state"))));
    pairs.push((owned("observed_at_unix_ms"), JsonValue::UInt(u64_field(pointer, "observed_at_unix_ms"))));
    proof {
        let pointer = entries_view(pointer@);
        let path = path@;
        assert(entries_view(pairs@) =~= seq![
                ("heartbeat_path"@, Json::Str(str_of(pointer, "heartbeat_path"@))),
                ("job_id"@, Json::Str(str_of(pointer, "job_id"@))),
                ("lease_id"@, Json::Str(str_of(pointer, "lease_id"@))),
                ("worker_id"@, Json::Str(str_of(pointer, "worker_id"@))),
                ("state"@, Json::Str(str_of(pointer, "state"@))),
                ("observed_at_unix_ms"@, Json::UInt(u64_of(pointer, "observed_at_unix_ms"@))),
            ]);
    }
    push_opt_str(&mut pairs, "progress_marker", pointer, "progress_marker");
    Ok(object_from_pairs(pairs))
}


/// The reconciliation of the desired heartbeat pointer with the current one.
pub open spec fn reconcile_spec(
    args: PointerReconcileArgsView,
    desired: Seq<(Seq<char>, Json)>,
    current: Seq<(Seq<char>, Json)>,
) -> Result<Json, Failure> {
    match payload_spec(desired, args.pointer) {
        Err(f) => Err(f),
        Ok(d) => match payload_spec(current, args.current_pointer) {
            Err(f) => Err(f),
            Ok(c) => Ok(
                reconciliation_spec(
                    "pointer_path"@,
                    args.pointer,
                    "current_pointer_path"@,
                    args.current_pointer,
                    d,
                    c,
                ),
            ),
        },
    }
}

/// Reconciles the desired heartbeat pointer with the current one.
pub fn reconcile(
    args: &PointerReconcileArgs,
    desired: &Vec<(String, JsonValue)>,
    current: &Vec<(String, JsonValue)>,
) -> (r: Result<JsonValue, CommandError>)
    ensures
        json_outcome(r) == reconcile_spec(args@, entries_view(desired@), entries_view(current@)),
{
    let d = match pointer_payload(desired, args.pointer.as_str()) {
        Ok(d) => d,
        Err(e) => {
            return Err(e);
        },
    };
    let c = match pointer_payload(current, args.current_pointer.as_str()) {
        Ok(c) => c,
        Err(e) => {
            return Err(e);
        },
    };
    Ok(
        build_reconciliation(
            "pointer_path",
            args.pointer.as_str(),
            "current_pointer_path",
            args.current_pointer.as_str(),
            d,
            c,
        ),
    )
}


} // verus!
