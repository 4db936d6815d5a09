use vstd::prelude::*;
use crate::cli::{
    empty_message, last_number, last_number_of, last_text, last_text_of, missing_arg,
    missing_message, opt_view, require_arg, require_filled, require_non_empty, rule, rules_view,
    scan, scan_args, texts_view, FlagRule, InlineForm, RuleSpec, ValueKind,
};
use crate::fields::{
    check_reads, first_read_failure, json_outcome, outcome, read, reads_view, str_field, str_of,
    u64_field, u64_of, value_field, value_of, CommandError, Failure, ReadKind,
};
use crate::fields::{or_else, push_opt_str, push_opt_text, with_opt_str, with_opt_text};
use crate::json::{entries_get, entries_view, object_from_pairs, object_of, Json, JsonValue};
use crate::text::{is_blank, owned, trimmed};

verus! {

/// The arguments of `deploy record-scheduler-heartbeat-pointer-rollback-supersession-history`.
#[derive(Debug, PartialEq, Eq)]
pub struct RollbackSupersessionHistoryArgs {
    pub supersession: String,
    pub event: String,
    pub recorded_at_unix_ms: u64,
    pub out_path: String,
}

pub struct RollbackSupersessionHistoryArgsView {
    pub supersession: Seq<char>,
    pub event: Seq<char>,
    pub recorded_at_unix_ms: u64,
    pub out_path: Seq<char>,
}

impl View for RollbackSupersessionHistoryArgs {
    type V = RollbackSupersessionHistoryArgsView;

    open spec fn view(&self) -> RollbackSupersessionHistoryArgsView {
        RollbackSupersessionHistoryArgsView {
            supersession: self.supersession@,
            event: self.event@,
            recorded_at_unix_ms: self.recorded_at_unix_ms,
            out_path: self.out_path@,
        }
    }
}

pub open spec fn usage_text() -> Seq<char> {
    "usage: afterburner debug deploy record-scheduler-heartbeat-pointer-rollback-supersession-history --supersession PATH --event NAME --recorded-at-unix-ms MS [--out PATH]"@
}

pub fn usage() -> (r: &'static str)
    ensures
        r@ == usage_text(),
{
    "usage: afterburner debug deploy record-scheduler-heartbeat-pointer-rollback-supersession-history --supersession PATH --event NAME --recorded-at-unix-ms MS [--out PATH]"
}

pub open spec fn rules_spec() -> Seq<RuleSpec> {
    seq![
        RuleSpec { name: "--supersession"@, kind: ValueKind::Text, inline: InlineForm::StripAll },
        RuleSpec { name: "--event"@, kind: ValueKind::Text, inline: InlineForm::StripAll },
        RuleSpec { name: "--recorded-at-unix-ms"@, kind: ValueKind::Number, inline: InlineForm::StripAll },
        RuleSpec { name: "--out"@, kind: ValueKind::Text, inline: InlineForm::StripAll },
    ]
}

fn rules() -> (r: Vec<FlagRule>)
    ensures
        rules_view(r@) == rules_spec(),
{
    let mut r = Vec::new();
    r.push(rule("--supersession", ValueKind::Text, InlineForm::StripAll));
    r.push(rule("--event", ValueKind::Text, InlineForm::StripAll));
    r.push(rule("--recorded-at-unix-ms", ValueKind::Number, InlineForm::StripAll));
    r.push(rule("--out", ValueKind::Text, InlineForm::StripAll));
    assert(rules_view(r@) =~= rules_spec());
    r
}

/// The arguments that the command line gives, or why it is refused.
pub open spec fn parse_args_spec(args: Seq<Seq<char>>) -> Result<RollbackSupersessionHistoryArgsView, Failure> {
    match scan(rules_spec(), args, "deploy record-scheduler-heartbeat-pointer-rollback-supersession-history"@, usage_text()) {
        Err(m) => Err(Failure::InvalidArg(m)),
        Ok(a) => {
            match last_text(a, 0) {
                None => Err(Failure::InvalidArg(missing_message("--supersession"@, usage_text()))),
                Some(v_supersession) => {
                    match last_text(a, 1) {
                        None => Err(Failure::InvalidArg(missing_message("--event"@, usage_text()))),
                        Some(v_event) => {
                            match last_number(a, 2) {
                                None => Err(Failure::InvalidArg(missing_message("--recorded-at-unix-ms"@, usage_text()))),
                                Some(v_recorded_at_unix_ms) => {
                                    Ok(RollbackSupersessionHistoryArgsView {
                                        supersession: v_supersession,
                                        event: v_event,
                                        recorded_at_unix_ms: v_recorded_at_unix_ms,
                                        out_path: match last_text(a, 3) { Some(p) => p, None => "artifacts/deploy/gpu_scheduler_heartbeat_pointer_rollback_supersession_history.json"@ },
                                    })
                                }
                            }
                        }
                    }
                }
            }
        },
    }
}

pub fn parse_args(args: &Vec<String>) -> (r: Result<RollbackSupersessionHistoryArgs, CommandError>)
    ensures
        outcome(r) == parse_args_spec(texts_view(args@)),
{
    let rules = rules();
    let a = match scan_args(&rules, args, "deploy record-scheduler-heartbeat-pointer-rollback-supersession-history", usage()) {
        Ok(a) => a,
        Err(m) => {
            return Err(CommandError::InvalidArg(m));
        },
    };
    let supersession = match require_arg(last_text_of(&a, 0), "--supersession", usage()) {
        Ok(v) => v,
        Err(m) => {
            return Err(CommandError::InvalidArg(m));
        },
    };
    let event = match require_arg(last_text_of(&a, 1), "--event", usage()) {
        Ok(v) => v,
        Err(m) => {
            return Err(CommandError::InvalidArg(m));
        },
    };
    let recorded_at_unix_ms = match last_number_of(&a, 2) {
        Some(n) => n,
        None => {
            return Err(CommandError::InvalidArg(missing_arg("--recorded-at-unix-ms", usage())));
        },
    };
    let out_path = match last_text_of(&a, 3) {
        Some(s) => s,
        None => owned("artifacts/deploy/gpu_scheduler_heartbeat_pointer_rollback_supersession_history.json"),
    };
    Ok(RollbackSupersessionHistoryArgs { supersession, event, recorded_at_unix_ms, out_path })
}

/// The history entry that records a pointer rollback supersession under an event, with the restored progress markers that it has.
pub open spec fn entry_spec(args: RollbackSupersessionHistoryArgsView, supersession: Seq<(Seq<char>, Json)>) -> Result<Json, Failure> {
    match first_read_failure(supersession, seq![("previous_restored_pointer_path"@, ReadKind::Str), ("next_restored_pointer_path"@, ReadKind::Str), ("previous_restored_heartbeat_path"@, ReadKind::Str), ("next_restored_heartbeat_path"@, ReadKind::Str), ("job_id"@, ReadKind::Str), ("lease_id"@, ReadKind::Str), ("worker_id"@, ReadKind::Str), ("previous_restored_state"@, ReadKind::Str), ("next_restored_state"@, ReadKind::Str), ("previous_restored_observed_at_unix_ms"@, ReadKind::U64), ("next_restored_observed_at_unix_ms"@, ReadKind::U64), ("superseded_at_unix_ms"@, ReadKind::U64)], args.supersession, "gpu scheduler heartbeat pointer rollback supersession"@) {
        Some(m) => Err(Failure::Parse(m)),
        None => Ok(object_of(with_opt_str(with_opt_str(seq![
                ("event"@, Json::Str(args.event)),
                ("supersession_path"@, Json::Str(args.supersession)),
                ("previous_restored_pointer_path"@, Json::Str(str_of(supersession, "previous_restored_pointer_path"@))),
                ("next_restored_pointer_path"@, Json::Str(str_of(supersession, "next_restored_pointer_path"@))),
                ("previous_restored_heartbeat_path"@, Json::Str(str_of(supersession, "previous_restored_heartbeat_path"@))),
                ("next_restored_heartbeat_path"@, Json::Str(str_of(supersession, "next_restored_heartbeat_path"@))),
                ("job_id"@, Json::Str(str_of(supersession, "job_id"@))),
                ("lease_id"@, Json::Str(str_of(supersession, "lease_id"@))),
                ("worker_id"@, Json::Str(str_of(supersession, "worker_id"@))),
                ("previous_restored_state"@, Json::Str(str_of(supersession, "previous_restored_state"@))),
                ("next_restored_state"@, Json::Str(str_of(supersession, "next_restored_state"@))),
                ("previous_restored_observed_at_unix_ms"@, Json::UInt(u64_of(supersession, "previous_restored_observed_at_unix_ms"@))),
                ("next_restored_observed_at_unix_ms"@, Json::UInt(u64_of(supersession, "next_restored_observed_at_unix_ms"@))),
                ("superseded_at_unix_ms"@, Json::UInt(u64_of(supersession, "superseded_at_unix_ms"@))),
                ("recorded_at_unix_ms"@, Json::UInt(args.recorded_at_unix_ms)),
            ], "previous_restored_progress_marker"@, entries_get(supersession, "previous_restored_progress_marker"@)), "next_restored_progress_marker"@, entries_get(supersession, "next_restored_progress_marker"@)))),
    }
}

/// Builds the history entry from the supersession's fields.
pub fn history_entry(args: &RollbackSupersessionHistoryArgs, supersession: &Vec<(String, JsonValue)>) -> (r: Result<JsonValue, CommandError>)
    ensures
        json_outcome(r) == entry_spec(args@, entries_view(supersession@)),
{
    let mut reads0 = Vec::new();
    reads0.push(read("previous_restored_pointer_path", ReadKind::Str));
    reads0.push(read("next_restored_pointer_path", ReadKind::Str));
    reads0.push(read("previous_restored_heartbeat_path", ReadKind::Str));
    reads0.push(read("next_restored_heartbeat_path", ReadKind::Str));
    reads0.push(read("job_id", ReadKind::Str));
    reads0.push(read("lease_id", ReadKind::Str));
    reads0.push(read("worker_id", ReadKind::Str));
    reads0.push(read("previous_restored_state", ReadKind::Str));
    reads0.push(read("next_restored_state", ReadKind::Str));
    reads0.push(read("previous_restored_observed_at_unix_ms", ReadKind::U64));
    reads0.push(read("next_restored_observed_at_unix_ms", ReadKind::U64));
    reads0.push(read("superseded_at_unix_ms", ReadKind::U64));
    assert(reads_view(reads0@) =~= seq![("previous_restored_pointer_path"@, ReadKind::Str), ("next_restored_pointer_path"@, ReadKind::Str), ("previous_restored_heartbeat_path"@, ReadKind::Str), ("next_restored_heartbeat_path"@, ReadKind::Str), ("job_id"@, ReadKind::Str), ("lease_id"@, ReadKind::Str), ("worker_id"@, ReadKind::Str), ("previous_restored_state"@, ReadKind::Str), ("next_restored_state"@, ReadKind::Str), ("previous_restored_observed_at_unix_ms"@, ReadKind::U64), ("next_restored_observed_at_unix_ms"@, ReadKind::U64), ("superseded_at_unix_ms"@, ReadKind::U64)]);
    match check_reads(supersession, &reads0, args.supersession.as_str(), "gpu scheduler heartbeat pointer rollback supersession") {
        Err(m) => {
            return Err(CommandError::Parse(m));
        },
        Ok(_) => {},
    }
    assert(reads_view(reads0@)[0].0 == "previous_restored_pointer_path"@);
    assert(reads_view(reads0@)[1].0 == "next_restored_pointer_path"@);
    assert(reads_view(reads0@)[2].0 == "previous_restored_heartbeat_path"@);
    assert(reads_view(reads0@)[3].0 == "next_restored_heartbeat_path"@);
    assert(reads_view(reads0@)[4].0 == "job_id"@);
    assert(reads_view(reads0@)[5].0 == "lease_id"@);
    assert(reads_view(reads0@)[6].0 == "worker_id"@);
    assert(reads_view(reads0@)[7].0 == "previous_restored_state"@);
    assert(reads_view(reads0@)[8].0 == "next_restored_state"@);
    assert(reads_view(reads0@)[9].0 == "previous_restored_observed_at_unix_ms"@);
    assert(reads_view(reads0@)[10].0 == "next_restored_observed_at_unix_ms"@);
    assert(reads_view(reads0@)[11].0 == "superseded_at_unix_ms"@);
    let mut pairs: Vec<(String, JsonValue)> = Vec::new();
    pairs.push((owned("event"), JsonValue::Str(args.event.clone())));
    pairs.push((owned("supersession_path"), JsonValue::Str(args.supersession.clone())));
    pairs.push((owned("previous_restored_pointer_path"), JsonValue::Str(str_field(supersession, "previous_restored_pointer_path"))));
    pairs.push((owned("next_restored_pointer_path"), JsonValue::Str(str_field(supersession, "next_restored_pointer_path"))));
    pairs.push((owned("previous_restored_heartbeat_path"), JsonValue::Str(str_field(supersession, "previous_restored_heartbeat_path"))));
    pairs.push((owned("next_restored_heartbeat_path"), JsonValue::Str(str_field(supersession, "next_restored_heartbeat_path"))));
    pairs.push((owned("job_id"), JsonValue::Str(str_field(supersession, "job_id"))));
    pairs.push((owned("lease_id"), JsonValue::Str(str_field(supersession, "lease_id"))));
    pairs.push((owned("worker_id"), JsonValue::Str(str_field(supersession, "worker_id"))));
    pairs.push((owned("previous_restored_state"), JsonValue::Str(str_field(supersession, "previous_restored_state"))));
    pairs.push((owned("next_restored_state"), JsonValue::Str(str_field(supersession, "next_restored_state"))));
    pairs.push((owned("previous_restored_observed_at_unix_ms"), JsonValue::UInt(u64_field(supersession, "previous_restored_observed_at_unix_ms"))));
    pairs.push((owned("next_restored_observed_at_unix_ms"), JsonValue::UInt(u64_field(supersession, "next_restored_observed_at_unix_ms"))));
    pairs.push((owned("superseded_at_unix_ms"), JsonValue::UInt(u64_field(supersession, "superseded_at_unix_ms"))));
    pairs.push((owned("recorded_at_unix_ms"), JsonValue::UInt(args.recorded_at_unix_ms)));
    proof {
        let args = args@;
        let supersession = entries_view(supersession@);
        assert(entries_view(pairs@) =~= seq![
                ("event"@, Json::Str(args.event)),
                ("supersession_path"@, Json::Str(args.supersession)),
                ("previous_restored_pointer_path"@, Json::Str(str_of(supersession, "previous_restored_pointer_path"@))),
                ("next_restored_pointer_path"@, Json::Str(str_of(supersession, "next_restored_pointer_path"@))),
                ("previous_restored_heartbeat_path"@, Json::Str(str_of(supersession, "previous_restored_heartbeat_path"@))),
                ("next_restored_heartbeat_path"@, Json::Str(str_of(supersession, "next_restored_heartbeat_path"@))),
                ("job_id"@, Json::Str(str_of(supersession, "job_id"@))),
                ("lease_id"@, Json::Str(str_of(supersession, "lease_id"@))),
                ("worker_id"@, Json::Str(str_of(supersession, "worker_id"@))),
                ("previous_restored_state"@, Json::Str(str_of(supersession, "previous_restored_state"@))),
                ("next_restored_state"@, Json::Str(str_of(supersession, "next_restored_state"@))),
                ("previous_restored_observed_at_unix_ms"@, Json::UInt(u64_of(supersession, "previous_restored_observed_at_unix_ms"@))),
                ("next_restored_observed_at_unix_ms"@, Json::UInt(u64_of(supersession, "next_restored_observed_at_unix_ms"@))),
                ("superseded_at_unix_ms"@, Json::UInt(u64_of(supersession, "superseded_at_unix_ms"@))),
                ("recorded_at_unix_ms"@, Json::UInt(args.recorded_at_unix_ms)),
            ]);
    }
    push_opt_str(&mut pairs, "previous_restored_progress_marker", supersession, "previous_restored_progress_marker");
    push_opt_str(&mut pairs, "next_restored_progress_marker", supersession, "next_restored_progress_marker");
    Ok(object_from_pairs(pairs))
}


} // verus!
