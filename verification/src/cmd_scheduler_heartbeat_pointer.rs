use vstd::prelude::*;
use crate::cli::{
    empty_message, last_number, last_number_of, last_text, last_text_of, missing_arg,
    missing_message, opt_view, require_arg, require_filled, require_non_empty, rule, rules_view,
    scan, scan_args, texts_view, FlagRule, InlineForm, RuleSpec, ValueKind,
};
use crate::fields::{
    check_reads, first_read_failure, json_outcome, outcome, read, reads_view, str_field, str_of,
    u64_field, u64_of, value_field, value_of, CommandError, Failure, ReadKind,
};
use crate::fields::{or_else, push_opt_str, with_opt_str};
use crate::json::{entries_get, entries_view, object_from_pairs, object_of, Json, JsonValue};
use crate::text::{is_blank, owned, trimmed};

verus! {

/// The arguments of `deploy point-scheduler-heartbeat`.
#[derive(Debug, PartialEq, Eq)]
pub struct HeartbeatPointerArgs {
    pub heartbeat: String,
    pub out_path: String,
}

pub struct HeartbeatPointerArgsView {
    pub heartbeat: Seq<char>,
    pub out_path: Seq<char>,
}

impl View for HeartbeatPointerArgs {
    type V = HeartbeatPointerArgsView;

    open spec fn view(&self) -> HeartbeatPointerArgsView {
        HeartbeatPointerArgsView {
            heartbeat: self.heartbeat@,
            out_path: self.out_path@,
        }
    }
}

pub open spec fn usage_text() -> Seq<char> {
    "usage: afterburner debug deploy point-scheduler-heartbeat --heartbeat PATH [--out PATH]"@
}

pub fn usage() -> (r: &'static str)
    ensures
        r@ == usage_text(),
{
    "usage: afterburner debug deploy point-scheduler-heartbeat --heartbeat PATH [--out PATH]"
}

pub open spec fn rules_spec() -> Seq<RuleSpec> {
    seq![
        RuleSpec { name: "--heartbeat"@, kind: ValueKind::Text, inline: InlineForm::StripAll },
        RuleSpec { name: "--out"@, kind: ValueKind::Text, inline: InlineForm::StripAll },
    ]
}

fn rules() -> (r: Vec<FlagRule>)
    ensures
        rules_view(r@) == rules_spec(),
{
    let mut r = Vec::new();
    r.push(rule("--heartbeat", ValueKind::Text, InlineForm::StripAll));
    r.push(rule("--out", ValueKind::Text, InlineForm::StripAll));
    assert(rules_view(r@) =~= rules_spec());
    r
}

/// The arguments that the command line gives, or why it is refused.
pub open spec fn parse_args_spec(args: Seq<Seq<char>>) -> Result<HeartbeatPointerArgsView, Failure> {
    match scan(rules_spec(), args, "deploy point-scheduler-heartbeat"@, usage_text()) {
        Err(m) => Err(Failure::InvalidArg(m)),
        Ok(a) => {
            match last_text(a, 0) {
                None => Err(Failure::InvalidArg(missing_message("--heartbeat"@, usage_text()))),
                Some(v_heartbeat) => {
                    Ok(HeartbeatPointerArgsView {
                        heartbeat: v_heartbeat,
                        out_path: match last_text(a, 1) { Some(p) => p, None => "artifacts/deploy/gpu_scheduler_heartbeat_pointer.json"@ },
                    })
                }
            }
        },
    }
}

pub fn parse_args(args: &Vec<String>) -> (r: Result<HeartbeatPointerArgs, CommandError>)
    ensures
        outcome(r) == parse_args_spec(texts_view(args@)),
{
    let rules = rules();
    let a = match scan_args(&rules, args, "deploy point-scheduler-heartbeat", usage()) {
        Ok(a) => a,
        Err(m) => {
            return Err(CommandError::InvalidArg(m));
        },
    };
    let heartbeat = match require_arg(last_text_of(&a, 0), "--heartbeat", usage()) {
        Ok(v) => v,
        Err(m) => {
            return Err(CommandError::InvalidArg(m));
        },
    };
    let out_path = match last_text_of(&a, 1) {
        Some(s) => s,
        None => owned("artifacts/deploy/gpu_scheduler_heartbeat_pointer.json"),
    };
    Ok(HeartbeatPointerArgs { heartbeat, out_path })
}

/// The pointer to a heartbeat: its identity and state, and its progress marker when it has one.
pub open spec fn pointer_spec(args: HeartbeatPointerArgsView, heartbeat: Seq<(Seq<char>, Json)>) -> Result<Json, Failure> {
    match first_read_failure(heartbeat, seq![("job_id"@, ReadKind::FilledStr), ("lease_id"@, ReadKind::FilledStr), ("worker_id"@, ReadKind::FilledStr), ("state"@, ReadKind::FilledStr), ("observed_at_unix_ms"@, ReadKind::U64)], args.heartbeat, "gpu scheduler heartbeat"@) {
        Some(m) => Err(Failure::Parse(m)),
        None => Ok(object_of(with_opt_str(seq![
                ("schema_version"@, Json::Str("1"@)),
                ("heartbeat_path"@, Json::Str(args.heartbeat)),
                ("job_id"@, Json::Str(str_of(heartbeat, "job_id"@))),
                ("lease_id"@, Json::Str(str_of(heartbeat, "lease_id"@))),
                ("worker_id"@, Json::Str(str_of(heartbeat, "worker_id"@))),
                ("state"@, Json::Str(str_of(heartbeat, "state"@))),
                ("observed_at_unix_ms"@, Json::UInt(u64_of(heartbeat, "observed_at_unix_ms"@))),
            ], "progress_marker"@, entries_get(heartbeat, "progress_marker"@)))),
    }
}

/// Builds the pointer from the heartbeat's fields.
pub fn build_pointer(args: &HeartbeatPointerArgs, heartbeat: &Vec<(String, JsonValue)>) -> (r: Result<JsonValue, CommandError>)
    ensures
        json_outcome(r) == pointer_spec(args@, entries_view(heartbeat@)),
{
    let mut reads0 = Vec::new();
    reads0.push(read("job_id", ReadKind::FilledStr));
    reads0.push(read("lease_id", ReadKind::FilledStr));
    reads0.push(read("worker_id", ReadKind::FilledStr));
    reads0.push(read("state", ReadKind::FilledStr));
    reads0.push(read("observed_at_unix_ms", ReadKind::U64));
    assert(reads_view(reads0@) =~= seq![("job_id"@, ReadKind::FilledStr), ("lease_id"@, ReadKind::FilledStr), ("worker_id"@, ReadKind::FilledStr), ("state"@, ReadKind::FilledStr), ("observed_at_unix_ms"@, ReadKind::U64)]);
    match check_reads(heartbeat, &reads0, args.heartbeat.as_str(), "gpu scheduler heartbeat") {
        Err(m) => {
            return Err(CommandError::Parse(m));
        },
        Ok(_) => {},
    }
    assert(reads_view(reads0@)[0].0 == "job_id"@);
    assert(reads_view(reads0@)[1].0 == "lease_id"@);
    assert(reads_view(reads0@)[2].0 == "worker_id"@);
    assert(reads_view(reads0@)[3].0 == "state"@);
    assert(reads_view(reads0@)[4].0 == "observed_at_unix_ms"@);
    let mut pairs: Vec<(String, JsonValue)> = Vec::new();
    pairs.push((owned("schema_version"), JsonValue::Str(owned("1"))));
    pairs.push((owned("heartbeat_path"), JsonValue::Str(args.heartbeat.clone())));
    pairs.push((owned("job_id"), JsonValue::Str(str_field(heartbeat, "job_id"))));
    pairs.push((owned("lease_id"), JsonValue::Str(str_field(heartbeat, "lease_id"))));
    pairs.push((owned("worker_id"), JsonValue::Str(str_field(heartbeat, "worker_id"))));
    pairs.push((owned("state"), JsonValue::Str(str_field(heartbeat, "state"))));
    pairs.push((owned("observed_at_unix_ms"), JsonValue::UInt(u64_field(heartbeat, "observed_at_unix_ms"))));
    proof {
        let args = args@;
        let heartbeat = entries_view(heartbeat@);
        assert(entries_view(pairs@) =~= seq![
                ("schema_version"@, Json::Str("1"@)),
                ("heartbeat_path"@, Json::Str(args.heartbeat)),
                ("job_id"@, Json::Str(str_of(heartbeat, "job_id"@))),
                ("lease_id"@, Json::Str(str_of(heartbeat, "lease_id"@))),
                ("worker_id"@, Json::Str(str_of(heartbeat, "worker_id"@))),
                ("state"@, Json::Str(str_of(heartbeat, "state"@))),
                ("observed_at_unix_ms"@, Json::UInt(u64_of(heartbeat, "observed_at_unix_ms"@))),
            ]);
    }
    push_opt_str(&mut pairs, "progress_marker", heartbeat, "progress_marker");
    Ok(object_from_pairs(pairs))
}


} // verus!
