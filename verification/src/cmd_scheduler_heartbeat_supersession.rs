use vstd::prelude::*;
use crate::cli::{
    empty_message, last_number, last_number_of, last_text, last_text_of, missing_arg,
    missing_message, opt_view, require_arg, require_filled, require_non_empty, rule, rules_view,
    scan, scan_args, texts_view, FlagRule, InlineForm, RuleSpec, ValueKind,
};
use crate::fields::{
    check_reads, first_read_failure, json_outcome, outcome, read, reads_view, str_field, str_of,
    u64_field, u64_of, value_field, value_of, CommandError, Failure, ReadKind,
};
use crate::fields::{or_else, push_opt_str, push_opt_text, with_opt_str, with_opt_text};
use crate::json::{entries_get, entries_view, object_from_pairs, object_of, Json, JsonValue};
use crate::text::{is_blank, owned, trimmed};

verus! {

/// The arguments of `deploy scheduler-heartbeat-supersede`.
#[derive(Debug, PartialEq, Eq)]
pub struct SupersessionArgs {
    pub previous_heartbeat: String,
    pub next_heartbeat: String,
    pub superseded_at_unix_ms: u64,
    pub out_path: String,
}

pub struct SupersessionArgsView {
    pub previous_heartbeat: Seq<char>,
    pub next_heartbeat: Seq<char>,
    pub superseded_at_unix_ms: u64,
    pub out_path: Seq<char>,
}

impl View for SupersessionArgs {
    type V = SupersessionArgsView;

    open spec fn view(&self) -> SupersessionArgsView {
        SupersessionArgsView {
            previous_heartbeat: self.previous_heartbeat@,
            next_heartbeat: self.next_heartbeat@,
            superseded_at_unix_ms: self.superseded_at_unix_ms,
            out_path: self.out_path@,
        }
    }
}

pub open spec fn usage_text() -> Seq<char> {
    "usage: afterburner debug deploy scheduler-heartbeat-supersede --previous-heartbeat PATH --next-heartbeat PATH --superseded-at-unix-ms MS [--out PATH]"@
}

pub fn usage() -> (r: &'static str)
    ensures
        r@ == usage_text(),
{
    "usage: afterburner debug deploy scheduler-heartbeat-supersede --previous-heartbeat PATH --next-heartbeat PATH --superseded-at-unix-ms MS [--out PATH]"
}

pub open spec fn rules_spec() -> Seq<RuleSpec> {
    seq![
        RuleSpec { name: "--previous-heartbeat"@, kind: ValueKind::Text, inline: InlineForm::StripAll },
        RuleSpec { name: "--next-heartbeat"@, kind: ValueKind::Text, inline: InlineForm::StripAll },
        RuleSpec { name: "--superseded-at-unix-ms"@, kind: ValueKind::Number, inline: InlineForm::StripAll },
        RuleSpec { name: "--out"@, kind: ValueKind::Text, inline: InlineForm::StripAll },
    ]
}

fn rules() -> (r: Vec<FlagRule>)
    ensures
        rules_view(r@) == rules_spec(),
{
    let mut r = Vec::new();
    r.push(rule("--previous-heartbeat", ValueKind::Text, InlineForm::StripAll));
    r.push(rule("--next-heartbeat", ValueKind::Text, InlineForm::StripAll));
    r.push(rule("--superseded-at-unix-ms", ValueKind::Number, InlineForm::StripAll));
    r.push(rule("--out", ValueKind::Text, InlineForm::StripAll));
    assert(rules_view(r@) =~= rules_spec());
    r
}

/// The arguments that the command line gives, or why it is refused.
pub open spec fn parse_args_spec(args: Seq<Seq<char>>) -> Result<SupersessionArgsView, Failure> {
    match scan(rules_spec(), args, "deploy scheduler-heartbeat-supersede"@, usage_text()) {
        Err(m) => Err(Failure::InvalidArg(m)),
        Ok(a) => {
            match last_text(a, 0) {
                None => Err(Failure::InvalidArg(missing_message("--previous-heartbeat"@, usage_text()))),
                Some(v_previous_heartbeat) => {
                    match last_text(a, 1) {
                        None => Err(Failure::InvalidArg(missing_message("--next-heartbeat"@, usage_text()))),
                        Some(v_next_heartbeat) => {
                            match last_number(a, 2) {
                                None => Err(Failure::InvalidArg(missing_message("--superseded-at-unix-ms"@, usage_text()))),
                                Some(v_superseded_at_unix_ms) => {
                                    Ok(SupersessionArgsView {
                                        previous_heartbeat: v_previous_heartbeat,
                                        next_heartbeat: v_next_heartbeat,
                                        superseded_at_unix_ms: v_superseded_at_unix_ms,
                                        out_path: match last_text(a, 3) { Some(p) => p, None => "artifacts/deploy/gpu_scheduler_heartbeat_supersession.json"@ },
                                    })
                                }
                            }
                        }
                    }
                }
            }
        },
    }
}

pub fn parse_args(args: &Vec<String>) -> (r: Result<SupersessionArgs, CommandError>)
    ensures
        outcome(r) == parse_args_spec(texts_view(args@)),
{
    let rules = rules();
    let a = match scan_args(&rules, args, "deploy scheduler-heartbeat-supersede", usage()) {
        Ok(a) => a,
        Err(m) => {
            return Err(CommandError::InvalidArg(m));
        },
    };
    let previous_heartbeat = match require_arg(last_text_of(&a, 0), "--previous-heartbeat", usage()) {
        Ok(v) => v,
        Err(m) => {
            return Err(CommandError::InvalidArg(m));
        },
    };
    let next_heartbeat = match require_arg(last_text_of(&a, 1), "--next-heartbeat", usage()) {
        Ok(v) => v,
        Err(m) => {
            return Err(CommandError::InvalidArg(m));
        },
    };
    let superseded_at_unix_ms = match last_number_of(&a, 2) {
        Some(n) => n,
        None => {
            return Err(CommandError::InvalidArg(missing_arg("--superseded-at-unix-ms", usage())));
        },
    };
    let out_path = match last_text_of(&a, 3) {
        Some(s) => s,
        None => owned("artifacts/deploy/gpu_scheduler_heartbeat_supersession.json"),
    };
    Ok(SupersessionArgs { previous_heartbeat, next_heartbeat, superseded_at_unix_ms, out_path })
}

/// The supersession of one heartbeat by the next: both are for one job, lease and worker, and the next differs in state, observation time or progress marker.
pub open spec fn supersession_spec(args: SupersessionArgsView, previous: Seq<(Seq<char>, Json)>, next: Seq<(Seq<char>, Json)>) -> Result<Json, Failure> {
    match or_else(first_read_failure(previous, seq![("job_id"@, ReadKind::FilledStr)], args.previous_heartbeat, "gpu scheduler heartbeat"@), or_else(first_read_failure(next, seq![("job_id"@, ReadKind::FilledStr)], args.next_heartbeat, "gpu scheduler heartbeat"@), or_else(if str_of(previous, "job_id"@) == str_of(next, "job_id"@) { None } else { Some("heartbeats must share one job_id, found `"@ + str_of(previous, "job_id"@) + "` and `"@ + str_of(next, "job_id"@) + "`"@) }, or_else(first_read_failure(previous, seq![("lease_id"@, ReadKind::FilledStr)], args.previous_heartbeat, "gpu scheduler heartbeat"@), or_else(first_read_failure(next, seq![("lease_id"@, ReadKind::FilledStr)], args.next_heartbeat, "gpu scheduler heartbeat"@), or_else(if str_of(previous, "lease_id"@) == str_of(next, "lease_id"@) { None } else { Some("heartbeats must share one lease_id, found `"@ + str_of(previous, "lease_id"@) + "` and `"@ + str_of(next, "lease_id"@) + "`"@) }, or_else(first_read_failure(previous, seq![("worker_id"@, ReadKind::FilledStr)], args.previous_heartbeat, "gpu scheduler heartbeat"@), or_else(first_read_failure(next, seq![("worker_id"@, ReadKind::FilledStr)], args.next_heartbeat, "gpu scheduler heartbeat"@), or_else(if str_of(previous, "worker_id"@) == str_of(next, "worker_id"@) { None } else { Some("heartbeats must share one worker_id, found `"@ + str_of(previous, "worker_id"@) + "` and `"@ + str_of(next, "worker_id"@) + "`"@) }, or_else(first_read_failure(previous, seq![("state"@, ReadKind::FilledStr)], args.previous_heartbeat, "gpu scheduler heartbeat"@), or_else(first_read_failure(next, seq![("state"@, ReadKind::FilledStr)], args.next_heartbeat, "gpu scheduler heartbeat"@), or_else(first_read_failure(previous, seq![("observed_at_unix_ms"@, ReadKind::U64)], args.previous_heartbeat, "gpu scheduler heartbeat"@), or_else(first_read_failure(next, seq![("observed_at_unix_ms"@, ReadKind::U64)], args.next_heartbeat, "gpu scheduler heartbeat"@), if !(str_of(previous, "state"@) == str_of(next, "state"@) && u64_of(previous, "observed_at_unix_ms"@) == u64_of(next, "observed_at_unix_ms"@) && crate::fields::opt_filled_of(previous, "progress_marker"@) == crate::fields::opt_filled_of(next, "progress_marker"@)) { None } else { Some("next heartbeat `"@ + args.next_heartbeat + "` must differ from previous heartbeat `"@ + args.previous_heartbeat + "` in state, observed_at_unix_ms, or progress_marker"@) }))))))))))))) {
        Some(m) => Err(Failure::Parse(m)),
        None => Ok(object_of(with_opt_text(with_opt_text(seq![
                ("schema_version"@, Json::Str("1"@)),
                ("previous_heartbeat_path"@, Json::Str(args.previous_heartbeat)),
                ("next_heartbeat_path"@, Json::Str(args.next_heartbeat)),
                ("job_id"@, Json::Str(str_of(next, "job_id"@))),
                ("lease_id"@, Json::Str(str_of(next, "lease_id"@))),
                ("worker_id"@, Json::Str(str_of(next, "worker_id"@))),
                ("previous_state"@, Json::Str(str_of(previous, "state"@))),
                ("next_state"@, Json::Str(str_of(next, "state"@))),
                ("previous_observed_at_unix_ms"@, Json::UInt(u64_of(previous, "observed_at_unix_ms"@))),
                ("next_observed_at_unix_ms"@, Json::UInt(u64_of(next, "observed_at_unix_ms"@))),
                ("superseded_at_unix_ms"@, Json::UInt(args.superseded_at_unix_ms)),
            ], "previous_progress_marker"@, crate::fields::opt_filled_of(previous, "progress_marker"@)), "next_progress_marker"@, crate::fields::opt_filled_of(next, "progress_marker"@)))),
    }
}

/// Checks the two heartbeats and builds the supersession.
pub fn build_supersession(args: &SupersessionArgs, previous: &Vec<(String, JsonValue)>, next: &Vec<(String, JsonValue)>) -> (r: Result<JsonValue, CommandError>)
    ensures
        json_outcome(r) == supersession_spec(args@, entries_view(previous@), entries_view(next@)),
{
    let mut reads0 = Vec::new();
    reads0.push(read("job_id", ReadKind::FilledStr));
    assert(reads_view(reads0@) =~= seq![("job_id"@, ReadKind::FilledStr)]);
    match check_reads(previous, &reads0, args.previous_heartbeat.as_str(), "gpu scheduler heartbeat") {
        Err(m) => {
            return Err(CommandError::Parse(m));
        },
        Ok(_) => {},
    }
    assert(reads_view(reads0@)[0].0 == "job_id"@);
    let mut reads1 = Vec::new();
    reads1.push(read("job_id", ReadKind::FilledStr));
    assert(reads_view(reads1@) =~= seq![("job_id"@, ReadKind::FilledStr)]);
    match check_reads(next, &reads1, args.next_heartbeat.as_str(), "gpu scheduler heartbeat") {
        Err(m) => {
            return Err(CommandError::Parse(m));
        },
        Ok(_) => {},
    }
    assert(reads_view(reads1@)[0].0 == "job_id"@);
    if !(crate::json::text_eq(str_field(previous, "job_id").as_str(), str_field(next, "job_id").as_str())) {
        return Err(CommandError::Parse(crate::text::cat5("heartbeats must share one job_id, found `", str_field(previous, "job_id").as_str(), "` and `", str_field(next, "job_id").as_str(), "`")));
    }
    let mut reads3 = Vec::new();
    reads3.push(read("lease_id", ReadKind::FilledStr));
    assert(reads_view(reads3@) =~= seq![("lease_id"@, ReadKind::FilledStr)]);
    match check_reads(previous, &reads3, args.previous_heartbeat.as_str(), "gpu scheduler heartbeat") {
        Err(m) => {
            return Err(CommandError::Parse(m));
        },
        Ok(_) => {},
    }
    assert(reads_view(reads3@)[0].0 == "lease_id"@);
    let mut reads4 = Vec::new();
    reads4.push(read("lease_id", ReadKind::FilledStr));
    assert(reads_view(reads4@) =~= seq![("lease_id"@, ReadKind::FilledStr)]);
    match check_reads(next, &reads4, args.next_heartbeat.as_str(), "gpu scheduler heartbeat") {
        Err(m) => {
            return Err(CommandError::Parse(m));
        },
        Ok(_) => {},
    }
    assert(reads_view(reads4@)[0].0 == "lease_id"@);
    if !(crate::json::text_eq(str_field(previous, "lease_id").as_str(), str_field(next, "lease_id").as_str())) {
        return Err(CommandError::Parse(crate::text::cat5("heartbeats must share one lease_id, found `", str_field(previous, "lease_id").as_str(), "` and `", str_field(next, "lease_id").as_str(), "`")));
    }
    let mut reads6 = Vec::new();
    reads6.push(read("worker_id", ReadKind::FilledStr));
    assert(reads_view(reads6@) =~= seq![("worker_id"@, ReadKind::FilledStr)]);
    match check_reads(previous, &reads6, args.previous_heartbeat.as_str(), "gpu scheduler heartbeat") {
        Err(m) => {
            return Err(CommandError::Parse(m));
        },
        Ok(_) => {},
    }
    assert(reads_view(reads6@)[0].0 == "worker_id"@);
    let mut reads7 = Vec::new();
    reads7.push(read("worker_id", ReadKind::FilledStr));
    assert(reads_view(reads7@) =~= seq![("worker_id"@, ReadKind::FilledStr)]);
    match check_reads(next, &reads7, args.next_heartbeat.as_str(), "gpu scheduler heartbeat") {
        Err(m) => {
            return Err(CommandError::Parse(m));
        },
        Ok(_) => {},
    }
    assert(reads_view(reads7@)[0].0 == "worker_id"@);
    if !(crate::json::text_eq(str_field(previous, "worker_id").as_str(), str_field(next, "worker_id").as_str())) {
        return Err(CommandError::Parse(crate::text::cat5("heartbeats must share one worker_id, found `", str_field(previous, "worker_id").as_str(), "` and `", str_field(next, "worker_id").as_str(), "`")));
    }
    let mut reads9 = Vec::new();
    reads9.push(read("state", ReadKind::FilledStr));
    assert(reads_view(reads9@) =~= seq![("state"@, ReadKind::FilledStr)]);
    match check_reads(previous, &reads9, args.previous_heartbeat.as_str(), "gpu scheduler heartbeat") {
        Err(m) => {
            return Err(CommandError::Parse(m));
        },
        Ok(_) => {},
    }
    assert(reads_view(reads9@)[0].0 == "state"@);
    let mut reads10 = Vec::new();
    reads10.push(read("state", ReadKind::FilledStr));
    assert(reads_view(reads10@) =~= seq![("state"@, ReadKind::FilledStr)]);
    match check_reads(next, &reads10, args.next_heartbeat.as_str(), "gpu scheduler heartbeat") {
        Err(m) => {
            return Err(CommandError::Parse(m));
        },
        Ok(_) => {},
    }
    assert(reads_view(reads10@)[0].0 == "state"@);
    let mut reads11 = Vec::new();
    reads11.push(read("observed_at_unix_ms", ReadKind::U64));
    assert(reads_view(reads11@) =~= seq![("observed_at_unix_ms"@, ReadKind::U64)]);
    match check_reads(previous, &reads11, args.previous_heartbeat.as_str(), "gpu scheduler heartbeat") {
        Err(m) => {
            return Err(CommandError::Parse(m));
        },
        Ok(_) => {},
    }
    assert(reads_view(reads11@)[0].0 == "observed_at_unix_ms"@);
    let mut reads12 = Vec::new();
    reads12.push(read("observed_at_unix_ms", ReadKind::U64));
    assert(reads_view(reads12@) =~= seq![("observed_at_unix_ms"@, ReadKind::U64)]);
    match check_reads(next, &reads12, args.next_heartbeat.as_str(), "gpu scheduler heartbeat") {
        Err(m) => {
            return Err(CommandError::Parse(m));
        },
        Ok(_) => {},
    }
    assert(reads_view(reads12@)[0].0 == "observed_at_unix_ms"@);
    if !(!(crate::json::text_eq(str_field(previous, "state").as_str(), str_field(next, "state").as_str()) && u64_field(previous, "observed_at_unix_ms") == u64_field(next, "observed_at_unix_ms") && crate::fields::same_opt_text(&crate::fields::opt_filled_field(previous, "progress_marker"), &crate::fields::opt_filled_field(next, "progress_marker")))) {
        return Err(CommandError::Parse(crate::text::cat5("next heartbeat `", args.next_heartbeat.as_str(), "` must differ from previous heartbeat `", args.previous_heartbeat.as_str(), "` in state, observed_at_unix_ms, or progress_marker")));
    }
    let mut pairs: Vec<(String, JsonValue)> = Vec::new();
    pairs.push((owned("schema_version"), JsonValue::Str(owned("1"))));
    pairs.push((owned("previous_heartbeat_path"), JsonValue::Str(args.previous_heartbeat.clone())));
    pairs.push((owned("next_heartbeat_path"), JsonValue::Str(args.next_heartbeat.clone())));
    pairs.push((owned("job_id"), JsonValue::Str(str_field(next, "job_id"))));
    pairs.push((owned("lease_id"), JsonValue::Str(str_field(next, "lease_id"))));
    pairs.push((owned("worker_id"), JsonValue::Str(str_field(next, "worker_id"))));
    pairs.push((owned("previous_state"), JsonValue::Str(str_field(previous, "state"))));
    pairs.push((owned("next_state"), JsonValue::Str(str_field(next, "state"))));
    pairs.push((owned("previous_observed_at_unix_ms"), JsonValue::UInt(u64_field(previous, "observed_at_unix_ms"))));
    pairs.push((owned("next_observed_at_unix_ms"), JsonValue::UInt(u64_field(next, "observed_at_unix_ms"))));
    pairs.push((owned("superseded_at_unix_ms"), JsonValue::UInt(args.superseded_at_unix_ms)));
    proof {
        let args = args@;
        let previous = entries_view(previous@);
        let next = entries_view(next@);
        assert(entries_view(pairs@) =~= seq![
                ("schema_version"@, Json::Str("1"@)),
                ("previous_heartbeat_path"@, Json::Str(args.previous_heartbeat)),
                ("next_heartbeat_path"@, Json::Str(args.next_heartbeat)),
                ("job_id"@, Json::Str(str_of(next, "job_id"@))),
                ("lease_id"@, Json::Str(str_of(next, "lease_id"@))),
                ("worker_id"@, Json::Str(str_of(next, "worker_id"@))),
                ("previous_state"@, Json::Str(str_of(previous, "state"@))),
                ("next_state"@, Json::Str(str_of(next, "state"@))),
                ("previous_observed_at_unix_ms"@, Json::UInt(u64_of(previous, "observed_at_unix_ms"@))),
                ("next_observed_at_unix_ms"@, Json::UInt(u64_of(next, "observed_at_unix_ms"@))),
                ("superseded_at_unix_ms"@, Json::UInt(args.superseded_at_unix_ms)),
            ]);
    }
    push_opt_text(&mut pairs, "previous_progress_marker", &crate::fields::opt_filled_field(previous, "progress_marker"));
    push_opt_text(&mut pairs, "next_progress_marker", &crate::fields::opt_filled_field(next, "progress_marker"));
    Ok(object_from_pairs(pairs))
}


/// A heartbeat never supersedes itself: superseding a heartbeat by the same one is refused.
pub proof fn law_no_self_supersession(args: SupersessionArgsView, record: Seq<(Seq<char>, Json)>)
    ensures
        supersession_spec(args, record, record) is Err,
{
}

} // verus!
