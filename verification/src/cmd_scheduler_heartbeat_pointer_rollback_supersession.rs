use vstd::prelude::*;
use crate::cli::{
    empty_message, last_number, last_number_of, last_text, last_text_of, missing_arg,
    missing_message, opt_view, require_arg, require_filled, require_non_empty, rule, rules_view,
    scan, scan_args, texts_view, FlagRule, InlineForm, RuleSpec, ValueKind,
};
use crate::fields::{
    check_reads, first_read_failure, json_outcome, outcome, read, reads_view, str_field, str_of,
    u64_field, u64_of, value_field, value_of, CommandError, Failure, ReadKind,
};
use crate::fields::{or_else, push_opt_str, push_opt_text, with_opt_str, with_opt_text};
use crate::json::{entries_get, entries_view, object_from_pairs, object_of, Json, JsonValue};
use crate::text::{is_blank, owned, trimmed};
use crate::json::lemma_object_view;

verus! {

/// The arguments of `deploy scheduler-heartbeat-point-rollback-supersede`.
#[derive(Debug, PartialEq, Eq)]
pub struct RollbackSupersessionArgs {
    pub previous_rollback: String,
    pub next_rollback: String,
    pub superseded_at_unix_ms: u64,
    pub out_path: String,
}

pub struct RollbackSupersessionArgsView {
    pub previous_rollback: Seq<char>,
    pub next_rollback: Seq<char>,
    pub superseded_at_unix_ms: u64,
    pub out_path: Seq<char>,
}

impl View for RollbackSupersessionArgs {
    type V = RollbackSupersessionArgsView;

    open spec fn view(&self) -> RollbackSupersessionArgsView {
        RollbackSupersessionArgsView {
            previous_rollback: self.previous_rollback@,
            next_rollback: self.next_rollback@,
            superseded_at_unix_ms: self.superseded_at_unix_ms,
            out_path: self.out_path@,
        }
    }
}

pub open spec fn usage_text() -> Seq<char> {
    "usage: afterburner debug deploy scheduler-heartbeat-point-rollback-supersede --previous-rollback PATH --next-rollback PATH --superseded-at-unix-ms MS [--out PATH]"@
}

pub fn usage() -> (r: &'static str)
    ensures
        r@ == usage_text(),
{
    "usage: afterburner debug deploy scheduler-heartbeat-point-rollback-supersede --previous-rollback PATH --next-rollback PATH --superseded-at-unix-ms MS [--out PATH]"
}

pub open spec fn rules_spec() -> Seq<RuleSpec> {
    seq![
        RuleSpec { name: "--previous-rollback"@, kind: ValueKind::Text, inline: InlineForm::StripAll },
        RuleSpec { name: "--next-rollback"@, kind: ValueKind::Text, inline: InlineForm::StripAll },
        RuleSpec { name: "--superseded-at-unix-ms"@, kind: ValueKind::Number, inline: InlineForm::StripAll },
        RuleSpec { name: "--out"@, kind: ValueKind::Text, inline: InlineForm::StripAll },
    ]
}

fn rules() -> (r: Vec<FlagRule>)
    ensures
        rules_view(r@) == rules_spec(),
{
    let mut r = Vec::new();
    r.push(rule("--previous-rollback", ValueKind::Text, InlineForm::StripAll));
    r.push(rule("--next-rollback", ValueKind::Text, InlineForm::StripAll));
    r.push(rule("--superseded-at-unix-ms", ValueKind::Number, InlineForm::StripAll));
    r.push(rule("--out", ValueKind::Text, InlineForm::StripAll));
    assert(rules_view(r@) =~= rules_spec());
    r
}

/// The arguments that the command line gives, or why it is refused.
pub open spec fn parse_args_spec(args: Seq<Seq<char>>) -> Result<RollbackSupersessionArgsView, Failure> {
    match scan(rules_spec(), args, "deploy scheduler-heartbeat-point-rollback-supersede"@, usage_text()) {
        Err(m) => Err(Failure::InvalidArg(m)),
        Ok(a) => {
            match last_text(a, 0) {
                None => Err(Failure::InvalidArg(missing_message("--previous-rollback"@, usage_text()))),
                Some(v_previous_rollback) => {
                    match last_text(a, 1) {
                        None => Err(Failure::InvalidArg(missing_message("--next-rollback"@, usage_text()))),
                        Some(v_next_rollback) => {
                            match last_number(a, 2) {
                                None => Err(Failure::InvalidArg(missing_message("--superseded-at-unix-ms"@, usage_text()))),
                                Some(v_superseded_at_unix_ms) => {
                                    Ok(RollbackSupersessionArgsView {
                                        previous_rollback: v_previous_rollback,
                                        next_rollback: v_next_rollback,
                                        superseded_at_unix_ms: v_superseded_at_unix_ms,
                                        out_path: match last_text(a, 3) { Some(p) => p, None => "artifacts/deploy/gpu_scheduler_heartbeat_pointer_rollback_supersession.json"@ },
                                    })
                                }
                            }
                        }
                    }
                }
            }
        },
    }
}

pub fn parse_args(args: &Vec<String>) -> (r: Result<RollbackSupersessionArgs, CommandError>)
    ensures
        outcome(r) == parse_args_spec(texts_view(args@)),
{
    let rules = rules();
    let a = match scan_args(&rules, args, "deploy scheduler-heartbeat-point-rollback-supersede", usage()) {
        Ok(a) => a,
        Err(m) => {
            return Err(CommandError::InvalidArg(m));
        },
    };
    let previous_rollback = match require_arg(last_text_of(&a, 0), "--previous-rollback", usage()) {
        Ok(v) => v,
        Err(m) => {
            return Err(CommandError::InvalidArg(m));
        },
    };
    let next_rollback = match require_arg(last_text_of(&a, 1), "--next-rollback", usage()) {
        Ok(v) => v,
        Err(m) => {
            return Err(CommandError::InvalidArg(m));
        },
    };
    let superseded_at_unix_ms = match last_number_of(&a, 2) {
        Some(n) => n,
        None => {
            return Err(CommandError::InvalidArg(missing_arg("--superseded-at-unix-ms", usage())));
        },
    };
    let out_path = match last_text_of(&a, 3) {
        Some(s) => s,
        None => owned("artifacts/deploy/gpu_scheduler_heartbeat_pointer_rollback_supersession.json"),
    };
    Ok(RollbackSupersessionArgs { previous_rollback, next_rollback, superseded_at_unix_ms, out_path })
}

/// The supersession of one heartbeat pointer rollback by the next: both are for one job, lease and worker, and the next restores another pointer, heartbeat, state, observation time or progress marker.
pub open spec fn supersession_spec(args: RollbackSupersessionArgsView, previous: Seq<(Seq<char>, Json)>, next: Seq<(Seq<char>, Json)>) -> Result<Json, Failure> {
    match or_else(first_read_failure(previous, seq![("job_id"@, ReadKind::PlainStr)], args.previous_rollback, "gpu scheduler heartbeat pointer rollback"@), or_else(first_read_failure(next, seq![("job_id"@, ReadKind::PlainStr)], args.next_rollback, "gpu scheduler heartbeat pointer rollback"@), or_else(if str_of(previous, "job_id"@) == str_of(next, "job_id"@) { None } else { Some("rollback records must share one job_id, found `"@ + str_of(previous, "job_id"@) + "` and `"@ + str_of(next, "job_id"@) + "`"@) }, or_else(first_read_failure(previous, seq![("lease_id"@, ReadKind::PlainStr)], args.previous_rollback, "gpu scheduler heartbeat pointer rollback"@), or_else(first_read_failure(next, seq![("lease_id"@, ReadKind::PlainStr)], args.next_rollback, "gpu scheduler heartbeat pointer rollback"@), or_else(if str_of(previous, "lease_id"@) == str_of(next, "lease_id"@) { None } else { Some("rollback records must share one lease_id, found `"@ + str_of(previous, "lease_id"@) + "` and `"@ + str_of(next, "lease_id"@) + "`"@) }, or_else(first_read_failure(previous, seq![("worker_id"@, ReadKind::PlainStr)], args.previous_rollback, "gpu scheduler heartbeat pointer rollback"@), or_else(first_read_failure(next, seq![("worker_id"@, ReadKind::PlainStr)], args.next_rollback, "gpu scheduler heartbeat pointer rollback"@), or_else(if str_of(previous, "worker_id"@) == str_of(next, "worker_id"@) { None } else { Some("rollback records must share one worker_id, found `"@ + str_of(previous, "worker_id"@) + "` and `"@ + str_of(next, "worker_id"@) + "`"@) }, or_else(first_read_failure(previous, seq![("restored_pointer_path"@, ReadKind::PlainStr)], args.previous_rollback, "gpu scheduler heartbeat pointer rollback"@), or_else(first_read_failure(next, seq![("restored_pointer_path"@, ReadKind::PlainStr)], args.next_rollback, "gpu scheduler heartbeat pointer rollback"@), or_else(first_read_failure(previous, seq![("restored_heartbeat_path"@, ReadKind::PlainStr)], args.previous_rollback, "gpu scheduler heartbeat pointer rollback"@), or_else(first_read_failure(next, seq![("restored_heartbeat_path"@, ReadKind::PlainStr)], args.next_rollback, "gpu scheduler heartbeat pointer rollback"@), or_else(first_read_failure(previous, seq![("restored_state"@, ReadKind::PlainStr)], args.previous_rollback, "gpu scheduler heartbeat pointer rollback"@), or_else(first_read_failure(next, seq![("restored_state"@, ReadKind::PlainStr)], args.next_rollback, "gpu scheduler heartbeat pointer rollback"@), or_else(first_read_failure(previous, seq![("restored_observed_at_unix_ms"@, ReadKind::PlainU64)], args.previous_rollback, "gpu scheduler heartbeat pointer rollback"@), or_else(first_read_failure(next, seq![("restored_observed_at_unix_ms"@, ReadKind::PlainU64)], args.next_rollback, "gpu scheduler heartbeat pointer rollback"@), if !(str_of(previous, "restored_pointer_path"@) == str_of(next, "restored_pointer_path"@) && str_of(previous, "restored_heartbeat_path"@) == str_of(next, "restored_heartbeat_path"@) && str_of(previous, "restored_state"@) == str_of(next, "restored_state"@) && u64_of(previous, "restored_observed_at_unix_ms"@) == u64_of(next, "restored_observed_at_unix_ms"@) && crate::fields::opt_str_of(previous, "restored_progress_marker"@) == crate::fields::opt_str_of(next, "restored_progress_marker"@)) { None } else { Some("next rollback `"@ + args.next_rollback + "` must differ from previous rollback `"@ + args.previous_rollback + "` in restored_pointer_path, restored_heartbeat_path, restored_state, restored_observed_at_unix_ms, or restored_progress_marker"@) }))))))))))))))))) {
        Some(m) => Err(Failure::Parse(m)),
        None => Ok(object_of(with_opt_str(with_opt_str(seq![
                ("schema_version"@, Json::Str("1"@)),
                ("previous_rollback_path"@, Json::Str(args.previous_rollback)),
                ("next_rollback_path"@, Json::Str(args.next_rollback)),
                ("previous_restored_pointer_path"@, Json::Str(str_of(previous, "restored_pointer_path"@))),
                ("next_restored_pointer_path"@, Json::Str(str_of(next, "restored_pointer_path"@))),
                ("previous_restored_heartbeat_path"@, Json::Str(str_of(previous, "restored_heartbeat_path"@))),
                ("next_restored_heartbeat_path"@, Json::Str(str_of(next, "restored_heartbeat_path"@))),
                ("job_id"@, Json::Str(str_of(next, "job_id"@))),
                ("lease_id"@, Json::Str(str_of(next, "lease_id"@))),
                ("worker_id"@, Json::Str(str_of(next, "worker_id"@))),
                ("previous_restored_state"@, Json::Str(str_of(previous, "restored_state"@))),
                ("next_restored_state"@, Json::Str(str_of(next, "restored_state"@))),
                ("previous_restored_observed_at_unix_ms"@, Json::UInt(u64_of(previous, "restored_observed_at_unix_ms"@))),
                ("next_restored_observed_at_unix_ms"@, Json::UInt(u64_of(next, "restored_observed_at_unix_ms"@))),
                ("superseded_at_unix_ms"@, Json::UInt(args.superseded_at_unix_ms)),
            ], "previous_restored_progress_marker"@, entries_get(previous, "restored_progress_marker"@)), "next_restored_progress_marker"@, entries_get(next, "restored_progress_marker"@)))),
    }
}

/// Checks the two rollback records and builds the supersession.
pub fn build_supersession(args: &RollbackSupersessionArgs, previous: &Vec<(String, JsonValue)>, next: &Vec<(String, JsonValue)>) -> (r: Result<JsonValue, CommandError>)
    ensures
        json_outcome(r) == supersession_spec(args@, entries_view(previous@), entries_view(next@)),
{
    let mut reads0 = Vec::new();
    reads0.push(read("job_id", ReadKind::PlainStr));
    assert(reads_view(reads0@) =~= seq![("job_id"@, ReadKind::PlainStr)]);
    match check_reads(previous, &reads0, args.previous_rollback.as_str(), "gpu scheduler heartbeat pointer rollback") {
        Err(m) => {
            return Err(CommandError::Parse(m));
        },
        Ok(_) => {},
    }
    assert(reads_view(reads0@)[0].0 == "job_id"@);
    let mut reads1 = Vec::new();
    reads1.push(read("job_id", ReadKind::PlainStr));
    assert(reads_view(reads1@) =~= seq![("job_id"@, ReadKind::PlainStr)]);
    match check_reads(next, &reads1, args.next_rollback.as_str(), "gpu scheduler heartbeat pointer rollback") {
        Err(m) => {
            return Err(CommandError::Parse(m));
        },
        Ok(_) => {},
    }
    assert(reads_view(reads1@)[0].0 == "job_id"@);
    if !(crate::json::text_eq(str_field(previous, "job_id").as_str(), str_field(next, "job_id").as_str())) {
        return Err(CommandError::Parse(crate::text::cat5("rollback records must share one job_id, found `", str_field(previous, "job_id").as_str(), "` and `", str_field(next, "job_id").as_str(), "`")));
    }
    let mut reads3 = Vec::new();
    reads3.push(read("lease_id", ReadKind::PlainStr));
    assert(reads_view(reads3@) =~= seq![("lease_id"@, ReadKind::PlainStr)]);
    match check_reads(previous, &reads3, args.previous_rollback.as_str(), "gpu scheduler heartbeat pointer rollback") {
        Err(m) => {
            return Err(CommandError::Parse(m));
        },
        Ok(_) => {},
    }
    assert(reads_view(reads3@)[0].0 == "lease_id"@);
    let mut reads4 = Vec::new();
    reads4.push(read("lease_id", ReadKind::PlainStr));
    assert(reads_view(reads4@) =~= seq![("lease_id"@, ReadKind::PlainStr)]);
    match check_reads(next, &reads4, args.next_rollback.as_str(), "gpu scheduler heartbeat pointer rollback") {
        Err(m) => {
            return Err(CommandError::Parse(m));
        },
        Ok(_) => {},
    }
    assert(reads_view(reads4@)[0].0 == "lease_id"@);
    if !(crate::json::text_eq(str_field(previous, "lease_id").as_str(), str_field(next, "lease_id").as_str())) {
        return Err(CommandError::Parse(crate::text::cat5("rollback records must share one lease_id, found `", str_field(previous, "lease_id").as_str(), "` and `", str_field(next, "lease_id").as_str(), "`")));
    }
    let mut reads6 = Vec::new();
    reads6.push(read("worker_id", ReadKind::PlainStr));
    assert(reads_view(reads6@) =~= seq![("worker_id"@, ReadKind::PlainStr)]);
    match check_reads(previous, &reads6, args.previous_rollback.as_str(), "gpu scheduler heartbeat pointer rollback") {
        Err(m) => {
            return Err(CommandError::Parse(m));
        },
        Ok(_) => {},
    }
    assert(reads_view(reads6@)[0].0 == "worker_id"@);
    let mut reads7 = Vec::new();
    reads7.push(read("worker_id", ReadKind::PlainStr));
    assert(reads_view(reads7@) =~= seq![("worker_id"@, ReadKind::PlainStr)]);
    match check_reads(next, &reads7, args.next_rollback.as_str(), "gpu scheduler heartbeat pointer rollback") {
        Err(m) => {
            return Err(CommandError::Parse(m));
        },
        Ok(_) => {},
    }
    assert(reads_view(reads7@)[0].0 == "worker_id"@);
    if !(crate::json::text_eq(str_field(previous, "worker_id").as_str(), str_field(next, "worker_id").as_str())) {
        return Err(CommandError::Parse(crate::text::cat5("rollback records must share one worker_id, found `", str_field(previous, "worker_id").as_str(), "` and `", str_field(next, "worker_id").as_str(), "`")));
    }
    let mut reads9 = Vec::new();
    reads9.push(read("restored_pointer_path", ReadKind::PlainStr));
    assert(reads_view(reads9@) =~= seq![("restored_pointer_path"@, ReadKind::PlainStr)]);
    match check_reads(previous, &reads9, args.previous_rollback.as_str(), "gpu scheduler heartbeat pointer rollback") {
        Err(m) => {
            return Err(CommandError::Parse(m));
        },
        Ok(_) => {},
    }
    assert(reads_view(reads9@)[0].0 == "restored_pointer_path"@);
    let mut reads10 = Vec::new();
    reads10.push(read("restored_pointer_path", ReadKind::PlainStr));
    assert(reads_view(reads10@) =~= seq![("restored_pointer_path"@, ReadKind::PlainStr)]);
    match check_reads(next, &reads10, args.next_rollback.as_str(), "gpu scheduler heartbeat pointer rollback") {
        Err(m) => {
            return Err(CommandError::Parse(m));
        },
        Ok(_) => {},
    }
    assert(reads_view(reads10@)[0].0 == "restored_pointer_path"@);
    let mut reads11 = Vec::new();
    reads11.push(read("restored_heartbeat_path", ReadKind::PlainStr));
    assert(reads_view(reads11@) =~= seq![("restored_heartbeat_path"@, ReadKind::PlainStr)]);
    match check_reads(previous, &reads11, args.previous_rollback.as_str(), "gpu scheduler heartbeat pointer rollback") {
        Err(m) => {
            return Err(CommandError::Parse(m));
        },
        Ok(_) => {},
    }
    assert(reads_view(reads11@)[0].0 == "restored_heartbeat_path"@);
    let mut reads12 = Vec::new();
    reads12.push(read("restored_heartbeat_path", ReadKind::PlainStr));
    assert(reads_view(reads12@) =~= seq![("restored_heartbeat_path"@, ReadKind::PlainStr)]);
    match check_reads(next, &reads12, args.next_rollback.as_str(), "gpu scheduler heartbeat pointer rollback") {
        Err(m) => {
            return Err(CommandError::Parse(m));
        },
        Ok(_) => {},
    }
    assert(reads_view(reads12@)[0].0 == "restored_heartbeat_path"@);
    let mut reads13 = Vec::new();
    reads13.push(read("restored_state", ReadKind::PlainStr));
    assert(reads_view(reads13@) =~= seq![("restored_state"@, ReadKind::PlainStr)]);
    match check_reads(previous, &reads13, args.previous_rollback.as_str(), "gpu scheduler heartbeat pointer rollback") {
        Err(m) => {
            return Err(CommandError::Parse(m));
        },
        Ok(_) => {},
    }
    assert(reads_view(reads13@)[0].0 == "restored_state"@);
    let mut reads14 = Vec::new();
    reads14.push(read("restored_state", ReadKind::PlainStr));
    assert(reads_view(reads14@) =~= seq![("restored_state"@, ReadKind::PlainStr)]);
    match check_reads(next, &reads14, args.next_rollback.as_str(), "gpu scheduler heartbeat pointer rollback") {
        Err(m) => {
            return Err(CommandError::Parse(m));
        },
        Ok(_) => {},
    }
    assert(reads_view(reads14@)[0].0 == "restored_state"@);
    let mut reads15 = Vec::new();
    reads15.push(read("restored_observed_at_unix_ms", ReadKind::PlainU64));
    assert(reads_view(reads15@) =~= seq![("restored_observed_at_unix_ms"@, ReadKind::PlainU64)]);
    match check_reads(previous, &reads15, args.previous_rollback.as_str(), "gpu scheduler heartbeat pointer rollback") {
        Err(m) => {
            return Err(CommandError::Parse(m));
        },
        Ok(_) => {},
    }
    assert(reads_view(reads15@)[0].0 == "restored_observed_at_unix_ms"@);
    let mut reads16 = Vec::new();
    reads16.push(read("restored_observed_at_unix_ms", ReadKind::PlainU64));
    assert(reads_view(reads16@) =~= seq![("restored_observed_at_unix_ms"@, ReadKind::PlainU64)]);
    match check_reads(next, &reads16, args.next_rollback.as_str(), "gpu scheduler heartbeat pointer rollback") {
        Err(m) => {
            return Err(CommandError::Parse(m));
        },
        Ok(_) => {},
    }
    assert(reads_view(reads16@)[0].0 == "restored_observed_at_unix_ms"@);
    if !(!(crate::json::text_eq(str_field(previous, "restored_pointer_path").as_str(), str_field(next, "restored_pointer_path").as_str()) && crate::json::text_eq(str_field(previous, "restored_heartbeat_path").as_str(), str_field(next, "restored_heartbeat_path").as_str()) && crate::json::text_eq(str_field(previous, "restored_state").as_str(), str_field(next, "restored_state").as_str()) && u64_field(previous, "restored_observed_at_unix_ms") == u64_field(next, "restored_observed_at_unix_ms") && crate::fields::same_opt_text(&crate::fields::opt_str_field(previous, "restored_progress_marker"), &crate::fields::opt_str_field(next, "restored_progress_marker")))) {
        return Err(CommandError::Parse(crate::text::cat5("next rollback `", args.next_rollback.as_str(), "` must differ from previous rollback `", args.previous_rollback.as_str(), "` in restored_pointer_path, restored_heartbeat_path, restored_state, restored_observed_at_unix_ms, or restored_progress_marker")));
    }
    let mut pairs: Vec<(String, JsonValue)> = Vec::new();
    pairs.push((owned("schema_version"), JsonValue::Str(owned("1"))));
    pairs.push((owned("previous_rollback_path"), JsonValue::Str(args.previous_rollback.clone())));
    pairs.push((owned("next_rollback_path"), JsonValue::Str(args.next_rollback.clone())));
    pairs.push((owned("previous_restored_pointer_path"), JsonValue::Str(str_field(previous, "restored_pointer_path"))));
    pairs.push((owned("next_restored_pointer_path"), JsonValue::Str(str_field(next, "restored_pointer_path"))));
    pairs.push((owned("previous_restored_heartbeat_path"), JsonValue::Str(str_field(previous, "restored_heartbeat_path"))));
    pairs.push((owned("next_restored_heartbeat_path"), JsonValue::Str(str_field(next, "restored_heartbeat_path"))));
    pairs.push((owned("job_id"), JsonValue::Str(str_field(next, "job_id"))));
    pairs.push((owned("lease_id"), JsonValue::Str(str_field(next, "lease_id"))));
    pairs.push((owned("worker_id"), JsonValue::Str(str_field(next, "worker_id"))));
    pairs.push((owned("previous_restored_state"), JsonValue::Str(str_field(previous, "restored_state"))));
    pairs.push((owned("next_restored_state"), JsonValue::Str(str_field(next, "restored_state"))));
    pairs.push((owned("previous_restored_observed_at_unix_ms"), JsonValue::UInt(u64_field(previous, "restored_observed_at_unix_ms"))));
    pairs.push((owned("next_restored_observed_at_unix_ms"), JsonValue::UInt(u64_field(next, "restored_observed_at_unix_ms"))));
    pairs.push((owned("superseded_at_unix_ms"), JsonValue::UInt(args.superseded_at_unix_ms)));
    proof {
        let args = args@;
        let previous = entries_view(previous@);
        let next = entries_view(next@);
        assert(entries_view(pairs@) =~= seq![
                ("schema_version"@, Json::Str("1"@)),
                ("previous_rollback_path"@, Json::Str(args.previous_rollback)),
                ("next_rollback_path"@, Json::Str(args.next_rollback)),
                ("previous_restored_pointer_path"@, Json::Str(str_of(previous, "restored_pointer_path"@))),
                ("next_restored_pointer_path"@, Json::Str(str_of(next, "restored_pointer_path"@))),
                ("previous_restored_heartbeat_path"@, Json::Str(str_of(previous, "restored_heartbeat_path"@))),
                ("next_restored_heartbeat_path"@, Json::Str(str_of(next, "restored_heartbeat_path"@))),
                ("job_id"@, Json::Str(str_of(next, "job_id"@))),
                ("lease_id"@, Json::Str(str_of(next, "lease_id"@))),
                ("worker_id"@, Json::Str(str_of(next, "worker_id"@))),
                ("previous_restored_state"@, Json::Str(str_of(previous, "restored_state"@))),
                ("next_restored_state"@, Json::Str(str_of(next, "restored_state"@))),
                ("previous_restored_observed_at_unix_ms"@, Json::UInt(u64_of(previous, "restored_observed_at_unix_ms"@))),
                ("next_restored_observed_at_unix_ms"@, Json::UInt(u64_of(next, "restored_observed_at_unix_ms"@))),
                ("superseded_at_unix_ms"@, Json::UInt(args.superseded_at_unix_ms)),
            ]);
    }
    push_opt_str(&mut pairs, "previous_restored_progress_marker", previous, "restored_progress_marker");
    push_opt_str(&mut pairs, "next_restored_progress_marker", next, "restored_progress_marker");
    Ok(object_from_pairs(pairs))
}

/// KIND PATH must be a JSON object
pub open spec fn not_object_message(kind: Seq<char>, path: Seq<char>) -> Seq<char> {
    kind + " "@ + path + " must be a JSON object"@
}

/// The entries of a rollback record, or the message that the parsed
/// document is no object. (Reading and parsing the file happen before.)
pub fn load_rollback(document: &JsonValue, path: &str) -> (r: Result<Vec<(String, JsonValue)>, String>)
    ensures
        match document@ {
            Json::Object(es) => r matches Ok(o) && entries_view(o@) == es,
            _ => r matches Err(m) && m@ == not_object_message(
                "gpu scheduler heartbeat pointer rollback"@,
                path@,
            ),
        },
{
    match document {
        JsonValue::Object(es) => {
            proof {
                lemma_object_view(*es);
            }
            match crate::json::json_clone(document) {
                JsonValue::Object(c) => {
                    proof {
                        lemma_object_view(c);
                    }
                    Ok(c)
                },
                _ => Err(String::new()),
            }
        },
        _ => {
            let m = crate::text::cat4("gpu scheduler heartbeat pointer rollback", " ", path, " must be a JSON object");
            Err(m)
        },
    }
}

/// A pointer rollback never supersedes itself: superseding a rollback record by the same one is refused.
pub proof fn law_no_self_supersession(args: RollbackSupersessionArgsView, record: Seq<(Seq<char>, Json)>)
    ensures
        supersession_spec(args, record, record) is Err,
{
}

} // verus!
