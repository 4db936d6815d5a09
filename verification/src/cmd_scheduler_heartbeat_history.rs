use vstd::prelude::*;
use crate::cli::{
    empty_message, last_number, last_number_of, last_text, last_text_of, missing_arg,
    missing_message, opt_view, require_arg, require_filled, require_non_empty, rule, rules_view,
    scan, scan_args, texts_view, FlagRule, InlineForm, RuleSpec, ValueKind,
};
use crate::fields::{
    check_reads, first_read_failure, json_outcome, outcome, read, reads_view, str_field, str_of,
    u64_field, u64_of, value_field, value_of, CommandError, Failure, ReadKind,
};
use crate::fields::{or_else, push_opt_str, push_opt_text, with_opt_str, with_opt_text};
use crate::json::{entries_get, entries_view, object_from_pairs, object_of, Json, JsonValue};
use crate::text::{is_blank, owned, trimmed};

verus! {

/// The arguments of `deploy record-scheduler-heartbeat-history`.
#[derive(Debug, PartialEq, Eq)]
pub struct HeartbeatHistoryArgs {
    pub heartbeat: String,
    pub event: String,
    pub recorded_at_unix_ms: u64,
    pub out_path: String,
}

pub struct HeartbeatHistoryArgsView {
    pub heartbeat: Seq<char>,
    pub event: Seq<char>,
    pub recorded_at_unix_ms: u64,
    pub out_path: Seq<char>,
}

impl View for HeartbeatHistoryArgs {
    type V = HeartbeatHistoryArgsView;

    open spec fn view(&self) -> HeartbeatHistoryArgsView {
        HeartbeatHistoryArgsView {
            heartbeat: self.heartbeat@,
            event: self.event@,
            recorded_at_unix_ms: self.recorded_at_unix_ms,
            out_path: self.out_path@,
        }
    }
}

pub open spec fn usage_text() -> Seq<char> {
    "usage: afterburner deploy record-scheduler-heartbeat-history --heartbeat PATH --event NAME --recorded-at-unix-ms MS [--out PATH]"@
}

pub fn usage() -> (r: &'static str)
    ensures
        r@ == usage_text(),
{
    "usage: afterburner deploy record-scheduler-heartbeat-history --heartbeat PATH --event NAME --recorded-at-unix-ms MS [--out PATH]"
}

pub open spec fn rules_spec() -> Seq<RuleSpec> {
    seq![
        RuleSpec { name: "--heartbeat"@, kind: ValueKind::Text, inline: InlineForm::StripAll },
        RuleSpec { name: "--event"@, kind: ValueKind::Text, inline: InlineForm::StripAll },
        RuleSpec { name: "--recorded-at-unix-ms"@, kind: ValueKind::Number, inline: InlineForm::StripAll },
        RuleSpec { name: "--out"@, kind: ValueKind::Text, inline: InlineForm::StripAll },
    ]
}

fn rules() -> (r: Vec<FlagRule>)
    ensures
        rules_view(r@) == rules_spec(),
{
    let mut r = Vec::new();
    r.push(rule("--heartbeat", ValueKind::Text, InlineForm::StripAll));
    r.push(rule("--event", ValueKind::Text, InlineForm::StripAll));
    r.push(rule("--recorded-at-unix-ms", ValueKind::Number, InlineForm::StripAll));
    r.push(rule("--out", ValueKind::Text, InlineForm::StripAll));
    assert(rules_view(r@) =~= rules_spec());
    r
}

/// The arguments that the command line gives, or why it is refused.
pub open spec fn parse_args_spec(args: Seq<Seq<char>>) -> Result<HeartbeatHistoryArgsView, Failure> {
    match scan(rules_spec(), args, "deploy record-scheduler-heartbeat-history"@, usage_text()) {
        Err(m) => Err(Failure::InvalidArg(m)),
        Ok(a) => {
            match last_text(a, 0) {
                None => Err(Failure::InvalidArg(missing_message("--heartbeat"@, usage_text()))),
                Some(v_heartbeat) => {
                    match last_text(a, 1) {
                        None => Err(Failure::InvalidArg(missing_message("--event"@, usage_text()))),
                        Some(v_event) => {
                            match last_number(a, 2) {
                                None => Err(Failure::InvalidArg(missing_message("--recorded-at-unix-ms"@, usage_text()))),
                                Some(v_recorded_at_unix_ms) => {
                                    Ok(HeartbeatHistoryArgsView {
                                        heartbeat: v_heartbeat,
                                        event: v_event,
                                        recorded_at_unix_ms: v_recorded_at_unix_ms,
                                        out_path: match last_text(a, 3) { Some(p) => p, None => "artifacts/deploy/gpu_scheduler_heartbeat_history.json"@ },
                                    })
                                }
                            }
                        }
                    }
                }
            }
        },
    }
}

pub fn parse_args(args: &Vec<String>) -> (r: Result<HeartbeatHistoryArgs, CommandError>)
    ensures
        outcome(r) == parse_args_spec(texts_view(args@)),
{
    let rules = rules();
    let a = match scan_args(&rules, args, "deploy record-scheduler-heartbeat-history", usage()) {
        Ok(a) => a,
        Err(m) => {
            return Err(CommandError::InvalidArg(m));
        },
    };
    let heartbeat = match require_arg(last_text_of(&a, 0), "--heartbeat", usage()) {
        Ok(v) => v,
        Err(m) => {
            return Err(CommandError::InvalidArg(m));
        },
    };
    let event = match require_arg(last_text_of(&a, 1), "--event", usage()) {
        Ok(v) => v,
        Err(m) => {
            return Err(CommandError::InvalidArg(m));
        },
    };
    let recorded_at_unix_ms = match last_number_of(&a, 2) {
        Some(n) => n,
        None => {
            return Err(CommandError::InvalidArg(missing_arg("--recorded-at-unix-ms", usage())));
        },
    };
    let out_path = match last_text_of(&a, 3) {
        Some(s) => s,
        None => owned("artifacts/deploy/gpu_scheduler_heartbeat_history.json"),
    };
    Ok(HeartbeatHistoryArgs { heartbeat, event, recorded_at_unix_ms, out_path })
}

/// The history entry that records a heartbeat under an event, with its progress marker when it has one.
pub open spec fn entry_spec(args: HeartbeatHistoryArgsView, heartbeat: Seq<(Seq<char>, Json)>) -> Result<Json, Failure> {
    match first_read_failure(heartbeat, seq![("job_id"@, ReadKind::FilledStr), ("lease_id"@, ReadKind::FilledStr), ("worker_id"@, ReadKind::FilledStr), ("state"@, ReadKind::FilledStr), ("observed_at_unix_ms"@, ReadKind::U64)], args.heartbeat, "gpu scheduler heartbeat"@) {
        Some(m) => Err(Failure::Parse(m)),
        None => Ok(object_of(with_opt_str(seq![
                ("event"@, Json::Str(args.event)),
                ("heartbeat_path"@, Json::Str(args.heartbeat)),
                ("job_id"@, Json::Str(str_of(heartbeat, "job_id"@))),
                ("lease_id"@, Json::Str(str_of(heartbeat, "lease_id"@))),
                ("worker_id"@, Json::Str(str_of(heartbeat, "worker_id"@))),
                ("state"@, Json::Str(str_of(heartbeat, "state"@))),
                ("observed_at_unix_ms"@, Json::UInt(u64_of(heartbeat, "observed_at_unix_ms"@))),
                ("recorded_at_unix_ms"@, Json::UInt(args.recorded_at_unix_ms)),
            ], "progress_marker"@, entries_get(heartbeat, "progress_marker"@)))),
    }
}

/// Builds the history entry from the heartbeat's fields.
pub fn history_entry(args: &HeartbeatHistoryArgs, heartbeat: &Vec<(String, JsonValue)>) -> (r: Result<JsonValue, CommandError>)
    ensures
        json_outcome(r) == entry_spec(args@, entries_view(heartbeat@)),
{
    let mut reads0 = Vec::new();
    reads0.push(read("job_id", ReadKind::FilledStr));
    reads0.push(read("lease_id", ReadKind::FilledStr));
    reads0.push(read("worker_id", ReadKind::FilledStr));
    reads0.push(read("state", ReadKind::FilledStr));
    reads0.push(read("observed_at_unix_ms", ReadKind::U64));
    assert(reads_view(reads0@) =~= seq![("job_id"@, ReadKind::FilledStr), ("lease_id"@, ReadKind::FilledStr), ("worker_id"@, ReadKind::FilledStr), ("state"@, ReadKind::FilledStr), ("observed_at_unix_ms"@, ReadKind::U64)]);
    match check_reads(heartbeat, &reads0, args.heartbeat.as_str(), "gpu scheduler heartbeat") {
        Err(m) => {
            return Err(CommandError::Parse(m));
        },
        Ok(_) => {},
    }
    assert(reads_view(reads0@)[0].0 == "job_id"@);
    assert(reads_view(reads0@)[1].0 == "lease_id"@);
    assert(reads_view(reads0@)[2].0 == "worker_id"@);
    assert(reads_view(reads0@)[3].0 == "state"@);
    assert(reads_view(reads0@)[4].0 == "observed_at_unix_ms"@);
    let mut pairs: Vec<(String, JsonValue)> = Vec::new();
    pairs.push((owned("event"), JsonValue::Str(args.event.clone())));
    pairs.push((owned("heartbeat_path"), JsonValue::Str(args.heartbeat.clone())));
    pairs.push((owned("job_id"), JsonValue::Str(str_field(heartbeat, "job_id"))));
    pairs.push((owned("lease_id"), JsonValue::Str(str_field(heartbeat, "lease_id"))));
    pairs.push((owned("worker_id"), JsonValue::Str(str_field(heartbeat, "worker_id"))));
    pairs.push((owned("state"), JsonValue::Str(str_field(heartbeat, "state"))));
    pairs.push((owned("observed_at_unix_ms"), JsonValue::UInt(u64_field(heartbeat, "observed_at_unix_ms"))));
    pairs.push((owned("recorded_at_unix_ms"), JsonValue::UInt(args.recorded_at_unix_ms)));
    proof {
        let args = args@;
        let heartbeat = entries_view(heartbeat@);
        assert(entries_view(pairs@) =~= seq![
                ("event"@, Json::Str(args.event)),
                ("heartbeat_path"@, Json::Str(args.heartbeat)),
                ("job_id"@, Json::Str(str_of(heartbeat, "job_id"@))),
                ("lease_id"@, Json::Str(str_of(heartbeat, "lease_id"@))),
                ("worker_id"@, Json::Str(str_of(heartbeat, "worker_id"@))),
                ("state"@, Json::Str(str_of(heartbeat, "state"@))),
                ("observed_at_unix_ms"@, Json::UInt(u64_of(heartbeat, "observed_at_unix_ms"@))),
                ("recorded_at_unix_ms"@, Json::UInt(args.recorded_at_unix_ms)),
            ]);
    }
    push_opt_str(&mut pairs, "progress_marker", heartbeat, "progress_marker");
    Ok(object_from_pairs(pairs))
}


} // verus!
