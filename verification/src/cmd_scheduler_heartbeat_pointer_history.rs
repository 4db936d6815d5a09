use vstd::prelude::*;
use crate::cli::{
    empty_message, last_number, last_number_of, last_text, last_text_of, missing_arg,
    missing_message, opt_view, require_arg, require_filled, require_non_empty, rule, rules_view,
    scan, scan_args, texts_view, FlagRule, InlineForm, RuleSpec, ValueKind,
};
use crate::fields::{
    check_reads, first_read_failure, json_outcome, outcome, read, reads_view, str_field, str_of,
    u64_field, u64_of, value_field, value_of, CommandError, Failure, ReadKind,
};
use crate::fields::{or_else, push_opt_str, push_opt_text, with_opt_str, with_opt_text};
use crate::json::{entries_get, entries_view, object_from_pairs, object_of, Json, JsonValue};
use crate::text::{is_blank, owned, trimmed};

verus! {

/// The arguments of `deploy record-scheduler-heartbeat-pointer-history`.
#[derive(Debug, PartialEq, Eq)]
pub struct PointerHistoryArgs {
    pub pointer: String,
    pub event: String,
    pub recorded_at_unix_ms: u64,
    pub out_path: String,
}

pub struct PointerHistoryArgsView {
    pub pointer: Seq<char>,
    pub event: Seq<char>,
    pub recorded_at_unix_ms: u64,
    pub out_path: Seq<char>,
}

impl View for PointerHistoryArgs {
    type V = PointerHistoryArgsView;

    open spec fn view(&self) -> PointerHistoryArgsView {
        PointerHistoryArgsView {
            pointer: self.pointer@,
            event: self.event@,
            recorded_at_unix_ms: self.recorded_at_unix_ms,
            out_path: self.out_path@,
        }
    }
}

pub open spec fn usage_text() -> Seq<char> {
    "usage: afterburner debug deploy record-scheduler-heartbeat-pointer-history --pointer PATH --event NAME --recorded-at-unix-ms MS [--out PATH]"@
}

pub fn usage() -> (r: &'static str)
    ensures
        r@ == usage_text(),
{
    "usage: afterburner debug deploy record-scheduler-heartbeat-pointer-history --pointer PATH --event NAME --recorded-at-unix-ms MS [--out PATH]"
}

pub open spec fn rules_spec() -> Seq<RuleSpec> {
    seq![
        RuleSpec { name: "--pointer"@, kind: ValueKind::Text, inline: InlineForm::StripAll },
        RuleSpec { name: "--event"@, kind: ValueKind::Text, inline: InlineForm::StripAll },
        RuleSpec { name: "--recorded-at-unix-ms"@, kind: ValueKind::Number, inline: InlineForm::StripAll },
        RuleSpec { name: "--out"@, kind: ValueKind::Text, inline: InlineForm::StripAll },
    ]
}

fn rules() -> (r: Vec<FlagRule>)
    ensures
        rules_view(r@) == rules_spec(),
{
    let mut r = Vec::new();
    r.push(rule("--pointer", ValueKind::Text, InlineForm::StripAll));
    r.push(rule("--event", ValueKind::Text, InlineForm::StripAll));
    r.push(rule("--recorded-at-unix-ms", ValueKind::Number, InlineForm::StripAll));
    r.push(rule("--out", ValueKind::Text, InlineForm::StripAll));
    assert(rules_view(r@) =~= rules_spec());
    r
}

/// The arguments that the command line gives, or why it is refused.
pub open spec fn parse_args_spec(args: Seq<Seq<char>>) -> Result<PointerHistoryArgsView, Failure> {
    match scan(rules_spec(), args, "deploy record-scheduler-heartbeat-pointer-history"@, usage_text()) {
        Err(m) => Err(Failure::InvalidArg(m)),
        Ok(a) => {
            match last_text(a, 0) {
                None => Err(Failure::InvalidArg(missing_message("--pointer"@, usage_text()))),
                Some(v_pointer) => {
                    match last_text(a, 1) {
                        None => Err(Failure::InvalidArg(missing_message("--event"@, usage_text()))),
                        Some(v_event) => {
                            match last_number(a, 2) {
                                None => Err(Failure::InvalidArg(missing_message("--recorded-at-unix-ms"@, usage_text()))),
                                Some(v_recorded_at_unix_ms) => {
                                    Ok(PointerHistoryArgsView {
                                        pointer: v_pointer,
                                        event: v_event,
                                        recorded_at_unix_ms: v_recorded_at_unix_ms,
                                        out_path: match last_text(a, 3) { Some(p) => p, None => "artifacts/deploy/gpu_scheduler_heartbeat_pointer_history.json"@ },
                                    })
                                }
                            }
                        }
                    }
                }
            }
        },
    }
}

pub fn parse_args(args: &Vec<String>) -> (r: Result<PointerHistoryArgs, CommandError>)
    ensures
        outcome(r) == parse_args_spec(texts_view(args@)),
{
    let rules = rules();
    let a = match scan_args(&rules, args, "deploy record-scheduler-heartbeat-pointer-history", usage()) {
        Ok(a) => a,
        Err(m) => {
            return Err(CommandError::InvalidArg(m));
        },
    };
    let pointer = match require_arg(last_text_of(&a, 0), "--pointer", usage()) {
        Ok(v) => v,
        Err(m) => {
            return Err(CommandError::InvalidArg(m));
        },
    };
    let event = match require_arg(last_text_of(&a, 1), "--event", usage()) {
        Ok(v) => v,
        Err(m) => {
            return Err(CommandError::InvalidArg(m));
        },
    };
    let recorded_at_unix_ms = match last_number_of(&a, 2) {
        Some(n) => n,
        None => {
            return Err(CommandError::InvalidArg(missing_arg("--recorded-at-unix-ms", usage())));
        },
    };
    let out_path = match last_text_of(&a, 3) {
        Some(s) => s,
        None => owned("artifacts/deploy/gpu_scheduler_heartbeat_pointer_history.json"),
    };
    Ok(PointerHistoryArgs { pointer, event, recorded_at_unix_ms, out_path })
}

/// The history entry that records a heartbeat pointer under an event, with its progress marker when it has one.
pub open spec fn entry_spec(args: PointerHistoryArgsView, pointer: Seq<(Seq<char>, Json)>) -> Result<Json, Failure> {
    match first_read_failure(pointer, seq![("heartbeat_path"@, ReadKind::Str), ("job_id"@, ReadKind::Str), ("lease_id"@, ReadKind::Str), ("worker_id"@, ReadKind::Str), ("state"@, ReadKind::Str), ("observed_at_unix_ms"@, ReadKind::U64)], args.pointer, "gpu scheduler heartbeat pointer"@) {
        Some(m) => Err(Failure::Parse(m)),
        None => Ok(object_of(with_opt_str(seq![
                ("event"@, Json::Str(args.event)),
                ("pointer_path"@, Json::Str(args.pointer)),
                ("heartbeat_path"@, Json::Str(str_of(pointer, "heartbeat_path"@))),
                ("job_id"@, Json::Str(str_of(pointer, "job_id"@))),
                ("lease_id"@, Json::Str(str_of(pointer, "lease_id"@))),
                ("worker_id"@, Json::Str(str_of(pointer, "worker_id"@))),
                ("state"@, Json::Str(str_of(pointer, "state"@))),
                ("observed_at_unix_ms"@, Json::UInt(u64_of(pointer, "observed_at_unix_ms"@))),
                ("recorded_at_unix_ms"@, Json::UInt(args.recorded_at_unix_ms)),
            ], "progress_marker"@, entries_get(pointer, "progress_marker"@)))),
    }
}

/// Builds the history entry from the pointer's fields.
pub fn history_entry(args: &PointerHistoryArgs, pointer: &Vec<(String, JsonValue)>) -> (r: Result<JsonValue, CommandError>)
    ensures
        json_outcome(r) == entry_spec(args@, entries_view(pointer@)),
{
    let mut reads0 = Vec::new();
    reads0.push(read("heartbeat_path", ReadKind::Str));
    reads0.push(read("job_id", ReadKind::Str));
    reads0.push(read("lease_id", ReadKind::Str));
    reads0.push(read("worker_id", ReadKind::Str));
    reads0.push(read("state", ReadKind::Str));
    reads0.push(read("observed_at_unix_ms", ReadKind::U64));
    assert(reads_view(reads0@) =~= seq![("heartbeat_path"@, ReadKind::Str), ("job_id"@, ReadKind::Str), ("lease_id"@, ReadKind::Str), ("worker_id"@, ReadKind::Str), ("state"@, ReadKind::Str), ("observed_at_unix_ms"@, ReadKind::U64)]);
    match check_reads(pointer, &reads0, args.pointer.as_str(), "gpu scheduler heartbeat pointer") {
        Err(m) => {
            return Err(CommandError::Parse(m));
        },
        Ok(_) => {},
    }
    assert(reads_view(reads0@)[0].0 == "heartbeat_path"@);
    assert(reads_view(reads0@)[1].0 == "job_id"@);
    assert(reads_view(reads0@)[2].0 == "lease_id"@);
    assert(reads_view(reads0@)[3].0 == "worker_id"@);
    assert(reads_view(reads0@)[4].0 == "state"@);
    assert(reads_view(reads0@)[5].0 == "observed_at_unix_ms"@);
    let mut pairs: Vec<(String, JsonValue)> = Vec::new();
    pairs.push((owned("event"), JsonValue::Str(args.event.clone())));
    pairs.push((owned("pointer_path"), JsonValue::Str(args.pointer.clone())));
    pairs.push((owned("heartbeat_path"), JsonValue::Str(str_field(pointer, "heartbeat_path"))));
    pairs.push((owned("job_id"), JsonValue::Str(str_field(pointer, "job_id"))));
    pairs.push((owned("lease_id"), JsonValue::Str(str_field(pointer, "lease_id"))));
    pairs.push((owned("worker_id"), JsonValue::Str(str_field(pointer, "worker_id"))));
    pairs.push((owned("state"), JsonValue::Str(str_field(pointer, "state"))));
    pairs.push((owned("observed_at_unix_ms"), JsonValue::UInt(u64_field(pointer, "observed_at_unix_ms"))));
    pairs.push((owned("recorded_at_unix_ms"), JsonValue::UInt(args.recorded_at_unix_ms)));
    proof {
        let args = args@;
        let pointer = entries_view(pointer@);
        assert(entries_view(pairs@) =~= seq![
                ("event"@, Json::Str(args.event)),
                ("pointer_path"@, Json::Str(args.pointer)),
                ("heartbeat_path"@, Json::Str(str_of(pointer, "heartbeat_path"@))),
                ("job_id"@, Json::Str(str_of(pointer, "job_id"@))),
                ("lease_id"@, Json::Str(str_of(pointer, "lease_id"@))),
                ("worker_id"@, Json::Str(str_of(pointer, "worker_id"@))),
                ("state"@, Json::Str(str_of(pointer, "state"@))),
                ("observed_at_unix_ms"@, Json::UInt(u64_of(pointer, "observed_at_unix_ms"@))),
                ("recorded_at_unix_ms"@, Json::UInt(args.recorded_at_unix_ms)),
            ]);
    }
    push_opt_str(&mut pairs, "progress_marker", pointer, "progress_marker");
    Ok(object_from_pairs(pairs))
}


} // verus!
