use vstd::prelude::*;
use crate::cli::{
    empty_message, last_number, last_number_of, last_text, last_text_of, missing_arg,
    missing_message, opt_view, require_arg, require_filled, require_non_empty, rule, rules_view,
    scan, scan_args, texts_view, FlagRule, InlineForm, RuleSpec, ValueKind,
};
use crate::fields::{
    check_reads, first_read_failure, json_outcome, outcome, read, reads_view, str_field, str_of,
    u64_field, u64_of, value_field, value_of, CommandError, Failure, ReadKind,
};
use crate::fields::{or_else, push_opt_str, push_opt_text, with_opt_str, with_opt_text};
use crate::json::{entries_get, entries_view, object_from_pairs, object_of, Json, JsonValue};
use crate::text::{is_blank, owned, trimmed};

verus! {

/// The arguments of `deploy scheduler-heartbeat`.
#[derive(Debug, PartialEq, Eq)]
pub struct HeartbeatArgs {
    pub job_id: String,
    pub lease_id: String,
    pub worker_id: String,
    pub state: String,
    pub observed_at_unix_ms: u64,
    pub progress_marker: Option<String>,
    pub out_path: String,
}

pub struct HeartbeatArgsView {
    pub job_id: Seq<char>,
    pub lease_id: Seq<char>,
    pub worker_id: Seq<char>,
    pub state: Seq<char>,
    pub observed_at_unix_ms: u64,
    pub progress_marker: Option<Seq<char>>,
    pub out_path: Seq<char>,
}

impl View for HeartbeatArgs {
    type V = HeartbeatArgsView;

    open spec fn view(&self) -> HeartbeatArgsView {
        HeartbeatArgsView {
            job_id: self.job_id@,
            lease_id: self.lease_id@,
            worker_id: self.worker_id@,
            state: self.state@,
            observed_at_unix_ms: self.observed_at_unix_ms,
            progress_marker: opt_view(self.progress_marker),
            out_path: self.out_path@,
        }
    }
}

pub open spec fn usage_text() -> Seq<char> {
    "usage: afterburner deploy scheduler-heartbeat --job-id ID --lease-id ID --worker-id ID --state STATE --observed-at-unix-ms MS [--progress-marker TEXT] [--out PATH]"@
}

pub fn usage() -> (r: &'static str)
    ensures
        r@ == usage_text(),
{
    "usage: afterburner deploy scheduler-heartbeat --job-id ID --lease-id ID --worker-id ID --state STATE --observed-at-unix-ms MS [--progress-marker TEXT] [--out PATH]"
}

pub open spec fn rules_spec() -> Seq<RuleSpec> {
    seq![
        RuleSpec { name: "--job-id"@, kind: ValueKind::FilledOrInvalid, inline: InlineForm::AfterEquals },
        RuleSpec { name: "--lease-id"@, kind: ValueKind::FilledOrInvalid, inline: InlineForm::AfterEquals },
        RuleSpec { name: "--worker-id"@, kind: ValueKind::FilledOrInvalid, inline: InlineForm::AfterEquals },
        RuleSpec { name: "--state"@, kind: ValueKind::FilledOrInvalid, inline: InlineForm::AfterEquals },
        RuleSpec { name: "--observed-at-unix-ms"@, kind: ValueKind::Number, inline: InlineForm::AfterEquals },
        RuleSpec { name: "--progress-marker"@, kind: ValueKind::FilledOrInvalid, inline: InlineForm::AfterEquals },
        RuleSpec { name: "--out"@, kind: ValueKind::FilledOrInvalid, inline: InlineForm::AfterEquals },
    ]
}

fn rules() -> (r: Vec<FlagRule>)
    ensures
        rules_view(r@) == rules_spec(),
{
    let mut r = Vec::new();
    r.push(rule("--job-id", ValueKind::FilledOrInvalid, InlineForm::AfterEquals));
    r.push(rule("--lease-id", ValueKind::FilledOrInvalid, InlineForm::AfterEquals));
    r.push(rule("--worker-id", ValueKind::FilledOrInvalid, InlineForm::AfterEquals));
    r.push(rule("--state", ValueKind::FilledOrInvalid, InlineForm::AfterEquals));
    r.push(rule("--observed-at-unix-ms", ValueKind::Number, InlineForm::AfterEquals));
    r.push(rule("--progress-marker", ValueKind::FilledOrInvalid, InlineForm::AfterEquals));
    r.push(rule("--out", ValueKind::FilledOrInvalid, InlineForm::AfterEquals));
    assert(rules_view(r@) =~= rules_spec());
    r
}

/// The arguments that the command line gives, or why it is refused.
pub open spec fn parse_args_spec(args: Seq<Seq<char>>) -> Result<HeartbeatArgsView, Failure> {
    match scan(rules_spec(), args, "deploy scheduler-heartbeat"@, usage_text()) {
        Err(m) => Err(Failure::InvalidArg(m)),
        Ok(a) => {
            match last_text(a, 0) {
                None => Err(Failure::InvalidArg(missing_message("--job-id"@, usage_text()))),
                Some(v_job_id) => {
                    match last_text(a, 1) {
                        None => Err(Failure::InvalidArg(missing_message("--lease-id"@, usage_text()))),
                        Some(v_lease_id) => {
                            match last_text(a, 2) {
                                None => Err(Failure::InvalidArg(missing_message("--worker-id"@, usage_text()))),
                                Some(v_worker_id) => {
                                    match last_text(a, 3) {
                                        None => Err(Failure::InvalidArg(missing_message("--state"@, usage_text()))),
                                        Some(v_state) => {
                                            match last_number(a, 4) {
                                                None => Err(Failure::InvalidArg(missing_message("--observed-at-unix-ms"@, usage_text()))),
                                                Some(v_observed_at_unix_ms) => {
                                                    Ok(HeartbeatArgsView {
                                                        job_id: v_job_id,
                                                        lease_id: v_lease_id,
                                                        worker_id: v_worker_id,
                                                        state: v_state,
                                                        observed_at_unix_ms: v_observed_at_unix_ms,
                                                        progress_marker: last_text(a, 5),
                                                        out_path: match last_text(a, 6) { Some(p) => p, None => "artifacts/deploy/gpu_scheduler_heartbeat.json"@ },
                                                    })
                                                }
                                            }
                                        }
                                    }
                                }
                            }
                        }
                    }
                }
            }
        },
    }
}

pub fn parse_args(args: &Vec<String>) -> (r: Result<HeartbeatArgs, CommandError>)
    ensures
        outcome(r) == parse_args_spec(texts_view(args@)),
{
    let rules = rules();
    let a = match scan_args(&rules, args, "deploy scheduler-heartbeat", usage()) {
        Ok(a) => a,
        Err(m) => {
            return Err(CommandError::InvalidArg(m));
        },
    };
    let job_id = match require_arg(last_text_of(&a, 0), "--job-id", usage()) {
        Ok(v) => v,
        Err(m) => {
            return Err(CommandError::InvalidArg(m));
        },
    };
    let lease_id = match require_arg(last_text_of(&a, 1), "--lease-id", usage()) {
        Ok(v) => v,
        Err(m) => {
            return Err(CommandError::InvalidArg(m));
        },
    };
    let worker_id = match require_arg(last_text_of(&a, 2), "--worker-id", usage()) {
        Ok(v) => v,
        Err(m) => {
            return Err(CommandError::InvalidArg(m));
        },
    };
    let state = match require_arg(last_text_of(&a, 3), "--state", usage()) {
        Ok(v) => v,
        Err(m) => {
            return Err(CommandError::InvalidArg(m));
        },
    };
    let observed_at_unix_ms = match last_number_of(&a, 4) {
        Some(n) => n,
        None => {
            return Err(CommandError::InvalidArg(missing_arg("--observed-at-unix-ms", usage())));
        },
    };
    let progress_marker = last_text_of(&a, 5);
    let out_path = match last_text_of(&a, 6) {
        Some(s) => s,
        None => owned("artifacts/deploy/gpu_scheduler_heartbeat.json"),
    };
    Ok(HeartbeatArgs { job_id, lease_id, worker_id, state, observed_at_unix_ms, progress_marker, out_path })
}

/// The heartbeat of a worker, as the arguments give it, with its progress marker when one is given.
pub open spec fn heartbeat_spec(args: HeartbeatArgsView) -> Json {
    object_of(with_opt_text(seq![
            ("schema_version"@, Json::Str("1"@)),
            ("job_id"@, Json::Str(args.job_id)),
            ("lease_id"@, Json::Str(args.lease_id)),
            ("worker_id"@, Json::Str(args.worker_id)),
            ("state"@, Json::Str(args.state)),
            ("observed_at_unix_ms"@, Json::UInt(args.observed_at_unix_ms)),
        ], "progress_marker"@, args.progress_marker))
}

/// Builds the heartbeat.
pub fn build_heartbeat(args: &HeartbeatArgs) -> (r: JsonValue)
    ensures
        r@ == heartbeat_spec(args@),
{
    let mut pairs: Vec<(String, JsonValue)> = Vec::new();
    pairs.push((owned("schema_version"), JsonValue::Str(owned("1"))));
    pairs.push((owned("job_id"), JsonValue::Str(args.job_id.clone())));
    pairs.push((owned("lease_id"), JsonValue::Str(args.lease_id.clone())));
    pairs.push((owned("worker_id"), JsonValue::Str(args.worker_id.clone())));
    pairs.push((owned("state"), JsonValue::Str(args.state.clone())));
    pairs.push((owned("observed_at_unix_ms"), JsonValue::UInt(args.observed_at_unix_ms)));
    proof {
        let args = args@;
        assert(entries_view(pairs@) =~= seq![
            ("schema_version"@, Json::Str("1"@)),
            ("job_id"@, Json::Str(args.job_id)),
            ("lease_id"@, Json::Str(args.lease_id)),
            ("worker_id"@, Json::Str(args.worker_id)),
            ("state"@, Json::Str(args.state)),
            ("observed_at_unix_ms"@, Json::UInt(args.observed_at_unix_ms)),
        ]);
    }
    push_opt_text(&mut pairs, "progress_marker", &args.progress_marker);
    object_from_pairs(pairs)
}


} // verus!
