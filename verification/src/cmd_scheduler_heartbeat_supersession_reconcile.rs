use vstd::prelude::*;
use crate::cli::{
    empty_message, last_number, last_number_of, last_text, last_text_of, missing_arg,
    missing_message, opt_view, require_arg, require_filled, require_non_empty, rule, rules_view,
    scan, scan_args, texts_view, FlagRule, InlineForm, RuleSpec, ValueKind,
};
use crate::fields::{
    check_reads, first_read_failure, json_outcome, outcome, read, reads_view, str_field, str_of,
    u64_field, u64_of, value_field, value_of, CommandError, Failure, ReadKind,
};
use crate::fields::{or_else, push_opt_str, push_opt_text, with_opt_str, with_opt_text};
use crate::json::{entries_get, entries_view, object_from_pairs, object_of, Json, JsonValue};
use crate::text::{is_blank, owned, trimmed};
use crate::command_reconciliation::{build_reconciliation, reconciliation_spec};

verus! {

/// The arguments of `deploy scheduler-heartbeat supersession reconcile`.
#[derive(Debug, PartialEq, Eq)]
pub struct SupersessionReconcileArgs {
    pub supersession: String,
    pub current_supersession: String,
    pub out_path: String,
}

pub struct SupersessionReconcileArgsView {
    pub supersession: Seq<char>,
    pub current_supersession: Seq<char>,
    pub out_path: Seq<char>,
}

impl View for SupersessionReconcileArgs {
    type V = SupersessionReconcileArgsView;

    open spec fn view(&self) -> SupersessionReconcileArgsView {
        SupersessionReconcileArgsView {
            supersession: self.supersession@,
            current_supersession: self.current_supersession@,
            out_path: self.out_path@,
        }
    }
}

pub open spec fn usage_text() -> Seq<char> {
    "usage: afterburner debug deploy scheduler-heartbeat supersession reconcile --supersession PATH --current-supersession PATH [--out PATH]"@
}

pub fn usage() -> (r: &'static str)
    ensures
        r@ == usage_text(),
{
    "usage: afterburner debug deploy scheduler-heartbeat supersession reconcile --supersession PATH --current-supersession PATH [--out PATH]"
}

pub open spec fn rules_spec() -> Seq<RuleSpec> {
    seq![
        RuleSpec { name: "--supersession"@, kind: ValueKind::Text, inline: InlineForm::StripAll },
        RuleSpec { name: "--current-supersession"@, kind: ValueKind::Text, inline: InlineForm::StripAll },
        RuleSpec { name: "--out"@, kind: ValueKind::Text, inline: InlineForm::StripAll },
    ]
}

fn rules() -> (r: Vec<FlagRule>)
    ensures
        rules_view(r@) == rules_spec(),
{
    let mut r = Vec::new();
    r.push(rule("--supersession", ValueKind::Text, InlineForm::StripAll));
    r.push(rule("--current-supersession", ValueKind::Text, InlineForm::StripAll));
    r.push(rule("--out", ValueKind::Text, InlineForm::StripAll));
    assert(rules_view(r@) =~= rules_spec());
    r
}

/// The arguments that the command line gives, or why it is refused.
pub open spec fn parse_args_spec(args: Seq<Seq<char>>) -> Result<SupersessionReconcileArgsView, Failure> {
    match scan(rules_spec(), args, "deploy scheduler-heartbeat supersession reconcile"@, usage_text()) {
        Err(m) => Err(Failure::InvalidArg(m)),
        Ok(a) => {
            match last_text(a, 0) {
                None => Err(Failure::InvalidArg(missing_message("--supersession"@, usage_text()))),
                Some(v_supersession) => {
                    match last_text(a, 1) {
                        None => Err(Failure::InvalidArg(missing_message("--current-supersession"@, usage_text()))),
                        Some(v_current_supersession) => {
                            Ok(SupersessionReconcileArgsView {
                                supersession: v_supersession,
                                current_supersession: v_current_supersession,
                                out_path: match last_text(a, 2) { Some(p) => p, None => "artifacts/deploy/gpu_scheduler_heartbeat_supersession_reconciliation.json"@ },
                            })
                        }
                    }
                }
            }
        },
    }
}

pub fn parse_args(args: &Vec<String>) -> (r: Result<SupersessionReconcileArgs, CommandError>)
    ensures
        outcome(r) == parse_args_spec(texts_view(args@)),
{
    let rules = rules();
    let a = match scan_args(&rules, args, "deploy scheduler-heartbeat supersession reconcile", usage()) {
        Ok(a) => a,
        Err(m) => {
            return Err(CommandError::InvalidArg(m));
        },
    };
    let supersession = match require_arg(last_text_of(&a, 0), "--supersession", usage()) {
        Ok(v) => v,
        Err(m) => {
            return Err(CommandError::InvalidArg(m));
        },
    };
    let current_supersession = match require_arg(last_text_of(&a, 1), "--current-supersession", usage()) {
        Ok(v) => v,
        Err(m) => {
            return Err(CommandError::InvalidArg(m));
        },
    };
    let out_path = match last_text_of(&a, 2) {
        Some(s) => s,
        None => owned("artifacts/deploy/gpu_scheduler_heartbeat_supersession_reconciliation.json"),
    };
    Ok(SupersessionReconcileArgs { supersession, current_supersession, out_path })
}

/// What a heartbeat supersession says of its job, lease and worker, the two states and observation times and when it happened, with the progress markers that it has.
pub open spec fn payload_spec(supersession: Seq<(Seq<char>, Json)>, path: Seq<char>) -> Result<Json, Failure> {
    match first_read_failure(supersession, seq![("job_id"@, ReadKind::Str), ("lease_id"@, ReadKind::Str), ("worker_id"@, ReadKind::Str), ("previous_state"@, ReadKind::Str), ("next_state"@, ReadKind::Str), ("previous_observed_at_unix_ms"@, ReadKind::U64), ("next_observed_at_unix_ms"@, ReadKind::U64), ("superseded_at_unix_ms"@, ReadKind::U64)], path, "gpu scheduler heartbeat supersession"@) {
        Some(m) => Err(Failure::Parse(m)),
        None => Ok(object_of(with_opt_str(with_opt_str(seq![
                ("job_id"@, Json::Str(str_of(supersession, "job_id"@))),
                ("lease_id"@, Json::Str(str_of(supersession, "lease_id"@))),
                ("worker_id"@, Json::Str(str_of(supersession, "worker_id"@))),
                ("previous_state"@, Json::Str(str_of(supersession, "previous_state"@))),
                ("next_state"@, Json::Str(str_of(supersession, "next_state"@))),
                ("previous_observed_at_unix_ms"@, Json::UInt(u64_of(supersession, "previous_observed_at_unix_ms"@))),
                ("next_observed_at_unix_ms"@, Json::UInt(u64_of(supersession, "next_observed_at_unix_ms"@))),
                ("superseded_at_unix_ms"@, Json::UInt(u64_of(supersession, "superseded_at_unix_ms"@))),
            ], "previous_progress_marker"@, entries_get(supersession, "previous_progress_marker"@)), "next_progress_marker"@, entries_get(supersession, "next_progress_marker"@)))),
    }
}

/// Reads the payload of a heartbeat supersession.
pub fn supersession_payload(supersession: &Vec<(String, JsonValue)>, path: &str) -> (r: Result<JsonValue, CommandError>)
    ensures
        json_outcome(r) == payload_spec(entries_view(supersession@), path@),
{
    let mut reads0 = Vec::new();
    reads0.push(read("job_id", ReadKind::Str));
    reads0.push(read("lease_id", ReadKind::Str));
    reads0.push(read("worker_id", ReadKind::Str));
    reads0.push(read("previous_state", ReadKind::Str));
    reads0.push(read("next_state", ReadKind::Str));
    reads0.push(read("previous_observed_at_unix_ms", ReadKind::U64));
    reads0.push(read("next_observed_at_unix_ms", ReadKind::U64));
    reads0.push(read("superseded_at_unix_ms", ReadKind::U64));
    assert(reads_view(reads0@) =~= seq![("job_id"@, ReadKind::Str), ("lease_id"@, ReadKind::Str), ("worker_id"@, ReadKind::Str), ("previous_state"@, ReadKind::Str), ("next_state"@, ReadKind::Str), ("previous_observed_at_unix_ms"@, ReadKind::U64), ("next_observed_at_unix_ms"@, ReadKind::U64), ("superseded_at_unix_ms"@, ReadKind::U64)]);
    match check_reads(supersession, &reads0, path, "gpu scheduler heartbeat supersession") {
        Err(m) => {
            return Err(CommandError::Parse(m));
        },
        Ok(_) => {},
    }
    assert(reads_view(reads0@)[0].0 == "job_id"@);
    assert(reads_view(reads0@)[1].0 == "lease_id"@);
    assert(reads_view(reads0@)[2].0 == "worker_id"@);
    assert(reads_view(reads0@)[3].0 == "previous_state"@);
    assert(reads_view(reads0@)[4].0 == "next_state"@);
    assert(reads_view(reads0@)[5].0 == "previous_observed_at_unix_ms"@);
    assert(reads_view(reads0@)[6].0 == "next_observed_at_unix_ms"@);
    assert(reads_view(reads0@)[7].0 == "superseded_at_unix_ms"@);
    let mut pairs: Vec<(String, JsonValue)> = Vec::new();
    pairs.push((owned("job_id"), JsonValue::Str(str_field(supersession, "job_id"))));
    pairs.push((owned("lease_id"), JsonValue::Str(str_field(supersession, "lease_id"))));
    pairs.push((owned("worker_id"), JsonValue::Str(str_field(supersession, "worker_id"))));
    pairs.push((owned("previous_state"), JsonValue::Str(str_field(supersession, "previous_state"))));
    pairs.push((owned("next_state"), JsonValue::Str(str_field(supersession, "next_state"))));
    pairs.push((owned("previous_observed_at_unix_ms"), JsonValue::UInt(u64_field(supersession, "previous_observed_at_unix_ms"))));
    pairs.push((owned("next_observed_at_unix_ms"), JsonValue::UInt(u64_field(supersession, "next_observed_at_unix_ms"))));
    pairs.push((owned("superseded_at_unix_ms"), JsonValue::UInt(u64_field(supersession, "superseded_at_unix_ms"))));
    proof {
        let supersession = entries_view(supersession@);
        let path = path@;
        assert(entries_view(pairs@) =~= seq![
                ("job_id"@, Json::Str(str_of(supersession, "job_id"@))),
                ("lease_id"@, Json::Str(str_of(supersession, "lease_id"@))),
                ("worker_id"@, Json::Str(str_of(supersession, "worker_id"@))),
                ("previous_state"@, Json::Str(str_of(supersession, "previous_state"@))),
                ("next_state"@, Json::Str(str_of(supersession, "next_state"@))),
                ("previous_observed_at_unix_ms"@, Json::UInt(u64_of(supersession, "previous_observed_at_unix_ms"@))),
                ("next_observed_at_unix_ms"@, Json::UInt(u64_of(supersession, "next_observed_at_unix_ms"@))),
                ("superseded_at_unix_ms"@, Json::UInt(u64_of(supersession, "superseded_at_unix_ms"@))),
            ]);
    }
    push_opt_str(&mut pairs, "previous_progress_marker", supersession, "previous_progress_marker");
    push_opt_str(&mut pairs, "next_progress_marker", supersession, "next_progress_marker");
    Ok(object_from_pairs(pairs))
}


/// The reconciliation of the desired heartbeat supersession with the current one.
pub open spec fn reconcile_spec(
    args: SupersessionReconcileArgsView,
    desired: Seq<(Seq<char>, Json)>,
    current: Seq<(Seq<char>, Json)>,
) -> Result<Json, Failure> {
    match payload_spec(desired, args.supersession) {
        Err(f) => Err(f),
        Ok(d) => match payload_spec(current, args.current_supersession) {
            Err(f) => Err(f),
            Ok(c) => Ok(
                reconciliation_spec(
                    "supersession_path"@,
                    args.supersession,
                    "current_supersession_path"@,
                    args.current_supersession,
                    d,
                    c,
                ),
            ),
        },
    }
}

/// Reconciles the desired heartbeat supersession with the current one.
pub fn reconcile(
    args: &SupersessionReconcileArgs,
    desired: &Vec<(String, JsonValue)>,
    current: &Vec<(String, JsonValue)>,
) -> (r: Result<JsonValue, CommandError>)
    ensures
        json_outcome(r) == reconcile_spec(args@, entries_view(desired@), entries_view(current@)),
{
    let d = match supersession_payload(desired, args.supersession.as_str()) {
        Ok(d) => d,
        Err(e) => {
            return Err(e);
        },
    };
    let c = match supersession_payload(current, args.current_supersession.as_str()) {
        Ok(c) => c,
        Err(e) => {
            return Err(e);
        },
    };
    Ok(
        build_reconciliation(
            "supersession_path",
            args.supersession.as_str(),
            "current_supersession_path",
            args.current_supersession.as_str(),
            d,
            c,
        ),
    )
}


} // verus!
