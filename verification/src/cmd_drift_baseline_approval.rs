use vstd::prelude::*;
use crate::cli::{
    empty_message, last_number, last_number_of, last_text, last_text_of, missing_arg,
    missing_message, opt_view, require_arg, require_filled, require_non_empty, rule, rules_view,
    scan, scan_args, texts_view, FlagRule, InlineForm, RuleSpec, ValueKind,
};
use crate::fields::{
    check_reads, first_read_failure, json_outcome, outcome, read, reads_view, str_field, str_of,
    u64_field, u64_of, value_field, value_of, CommandError, Failure, ReadKind,
};
use crate::fields::{or_else, push_opt_str, push_opt_text, with_opt_str, with_opt_text};
use crate::json::{entries_get, entries_view, object_from_pairs, object_of, Json, JsonValue};
use crate::text::{is_blank, owned, trimmed};

verus! {

/// The arguments of `drift-approve-baseline`.
#[derive(Debug, PartialEq, Eq)]
pub struct ApprovalArgs {
    pub baseline: String,
    pub approved_by: String,
    pub approval_ticket: String,
    pub approved_at_unix_ms: u64,
    pub out_path: String,
}

pub struct ApprovalArgsView {
    pub baseline: Seq<char>,
    pub approved_by: Seq<char>,
    pub approval_ticket: Seq<char>,
    pub approved_at_unix_ms: u64,
    pub out_path: Seq<char>,
}

impl View for ApprovalArgs {
    type V = ApprovalArgsView;

    open spec fn view(&self) -> ApprovalArgsView {
        ApprovalArgsView {
            baseline: self.baseline@,
            approved_by: self.approved_by@,
            approval_ticket: self.approval_ticket@,
            approved_at_unix_ms: self.approved_at_unix_ms,
            out_path: self.out_path@,
        }
    }
}

pub open spec fn usage_text() -> Seq<char> {
    "usage: afterburner drift-approve-baseline --baseline PATH --approved-by NAME --approval-ticket TICKET --approved-at-unix-ms N [--out PATH]"@
}

pub fn usage() -> (r: &'static str)
    ensures
        r@ == usage_text(),
{
    "usage: afterburner drift-approve-baseline --baseline PATH --approved-by NAME --approval-ticket TICKET --approved-at-unix-ms N [--out PATH]"
}

pub open spec fn rules_spec() -> Seq<RuleSpec> {
    seq![
        RuleSpec { name: "--baseline"@, kind: ValueKind::Text, inline: InlineForm::StripAll },
        RuleSpec { name: "--approved-by"@, kind: ValueKind::Text, inline: InlineForm::StripAll },
        RuleSpec { name: "--approval-ticket"@, kind: ValueKind::Text, inline: InlineForm::StripAll },
        RuleSpec { name: "--approved-at-unix-ms"@, kind: ValueKind::Number, inline: InlineForm::StripAll },
        RuleSpec { name: "--out"@, kind: ValueKind::Text, inline: InlineForm::StripAll },
    ]
}

fn rules() -> (r: Vec<FlagRule>)
    ensures
        rules_view(r@) == rules_spec(),
{
    let mut r = Vec::new();
    r.push(rule("--baseline", ValueKind::Text, InlineForm::StripAll));
    r.push(rule("--approved-by", ValueKind::Text, InlineForm::StripAll));
    r.push(rule("--approval-ticket", ValueKind::Text, InlineForm::StripAll));
    r.push(rule("--approved-at-unix-ms", ValueKind::Number, InlineForm::StripAll));
    r.push(rule("--out", ValueKind::Text, InlineForm::StripAll));
    assert(rules_view(r@) =~= rules_spec());
    r
}

/// The arguments that the command line gives, or why it is refused.
pub open spec fn parse_args_spec(args: Seq<Seq<char>>) -> Result<ApprovalArgsView, Failure> {
    match scan(rules_spec(), args, "drift-approve-baseline"@, usage_text()) {
        Err(m) => Err(Failure::InvalidArg(m)),
        Ok(a) => {
            match last_text(a, 0) {
                None => Err(Failure::InvalidArg(missing_message("--baseline"@, usage_text()))),
                Some(v_baseline) => {
                    match last_text(a, 1) {
                        None => Err(Failure::InvalidArg(missing_message("--approved-by"@, usage_text()))),
                        Some(v_approved_by) => {
                            match last_text(a, 2) {
                                None => Err(Failure::InvalidArg(missing_message("--approval-ticket"@, usage_text()))),
                                Some(v_approval_ticket) => {
                                    match last_number(a, 3) {
                                        None => Err(Failure::InvalidArg(missing_message("--approved-at-unix-ms"@, usage_text()))),
                                        Some(v_approved_at_unix_ms) => {
                                            Ok(ApprovalArgsView {
                                                baseline: v_baseline,
                                                approved_by: v_approved_by,
                                                approval_ticket: v_approval_ticket,
                                                approved_at_unix_ms: v_approved_at_unix_ms,
                                                out_path: match last_text(a, 4) { Some(p) => p, None => "artifacts/eval/infer_output_drift_baseline_approval.json"@ },
                                            })
                                        }
                                    }
                                }
                            }
                        }
                    }
                }
            }
        },
    }
}

pub fn parse_args(args: &Vec<String>) -> (r: Result<ApprovalArgs, CommandError>)
    ensures
        outcome(r) == parse_args_spec(texts_view(args@)),
{
    let rules = rules();
    let a = match scan_args(&rules, args, "drift-approve-baseline", usage()) {
        Ok(a) => a,
        Err(m) => {
            return Err(CommandError::InvalidArg(m));
        },
    };
    let baseline = match require_arg(last_text_of(&a, 0), "--baseline", usage()) {
        Ok(v) => v,
        Err(m) => {
            return Err(CommandError::InvalidArg(m));
        },
    };
    let approved_by = match require_arg(last_text_of(&a, 1), "--approved-by", usage()) {
        Ok(v) => v,
        Err(m) => {
            return Err(CommandError::InvalidArg(m));
        },
    };
    let approval_ticket = match require_arg(last_text_of(&a, 2), "--approval-ticket", usage()) {
        Ok(v) => v,
        Err(m) => {
            return Err(CommandError::InvalidArg(m));
        },
    };
    let approved_at_unix_ms = match last_number_of(&a, 3) {
        Some(n) => n,
        None => {
            return Err(CommandError::InvalidArg(missing_arg("--approved-at-unix-ms", usage())));
        },
    };
    let out_path = match last_text_of(&a, 4) {
        Some(s) => s,
        None => owned("artifacts/eval/infer_output_drift_baseline_approval.json"),
    };
    Ok(ApprovalArgs { baseline, approved_by, approval_ticket, approved_at_unix_ms, out_path })
}

/// The approval of a drift baseline: what the baseline is for, and who approved it when.
pub open spec fn approval_spec(args: ApprovalArgsView, baseline: Seq<(Seq<char>, Json)>) -> Result<Json, Failure> {
    match first_read_failure(baseline, seq![("artifact"@, ReadKind::Str), ("artifact_version"@, ReadKind::Str), ("policy_profile"@, ReadKind::Str)], args.baseline, "baseline"@) {
        Some(m) => Err(Failure::Parse(m)),
        None => Ok(object_of(seq![
                ("schema_version"@, Json::Str("1"@)),
                ("baseline_path"@, Json::Str(args.baseline)),
                ("artifact"@, Json::Str(str_of(baseline, "artifact"@))),
                ("artifact_version"@, Json::Str(str_of(baseline, "artifact_version"@))),
                ("policy_profile"@, Json::Str(str_of(baseline, "policy_profile"@))),
                ("approved_by"@, Json::Str(args.approved_by)),
                ("approval_ticket"@, Json::Str(args.approval_ticket)),
                ("approved_at_unix_ms"@, Json::UInt(args.approved_at_unix_ms)),
            ])),
    }
}

/// Builds the approval from the baseline's fields and the arguments.
pub fn build_approval(args: &ApprovalArgs, baseline: &Vec<(String, JsonValue)>) -> (r: Result<JsonValue, CommandError>)
    ensures
        json_outcome(r) == approval_spec(args@, entries_view(baseline@)),
{
    let mut reads0 = Vec::new();
    reads0.push(read("artifact", ReadKind::Str));
    reads0.push(read("artifact_version", ReadKind::Str));
    reads0.push(read("policy_profile", ReadKind::Str));
    assert(reads_view(reads0@) =~= seq![("artifact"@, ReadKind::Str), ("artifact_version"@, ReadKind::Str), ("policy_profile"@, ReadKind::Str)]);
    match check_reads(baseline, &reads0, args.baseline.as_str(), "baseline") {
        Err(m) => {
            return Err(CommandError::Parse(m));
        },
        Ok(_) => {},
    }
    assert(reads_view(reads0@)[0].0 == "artifact"@);
    assert(reads_view(reads0@)[1].0 == "artifact_version"@);
    assert(reads_view(reads0@)[2].0 == "policy_profile"@);
    let mut pairs: Vec<(String, JsonValue)> = Vec::new();
    pairs.push((owned("schema_version"), JsonValue::Str(owned("1"))));
    pairs.push((owned("baseline_path"), JsonValue::Str(args.baseline.clone())));
    pairs.push((owned("artifact"), JsonValue::Str(str_field(baseline, "artifact"))));
    pairs.push((owned("artifact_version"), JsonValue::Str(str_field(baseline, "artifact_version"))));
    pairs.push((owned("policy_profile"), JsonValue::Str(str_field(baseline, "policy_profile"))));
    pairs.push((owned("approved_by"), JsonValue::Str(args.approved_by.clone())));
    pairs.push((owned("approval_ticket"), JsonValue::Str(args.approval_ticket.clone())));
    pairs.push((owned("approved_at_unix_ms"), JsonValue::UInt(args.approved_at_unix_ms)));
    proof {
        let args = args@;
        let baseline = entries_view(baseline@);
        assert(entries_view(pairs@) =~= seq![
                ("schema_version"@, Json::Str("1"@)),
                ("baseline_path"@, Json::Str(args.baseline)),
                ("artifact"@, Json::Str(str_of(baseline, "artifact"@))),
                ("artifact_version"@, Json::Str(str_of(baseline, "artifact_version"@))),
                ("policy_profile"@, Json::Str(str_of(baseline, "policy_profile"@))),
                ("approved_by"@, Json::Str(args.approved_by)),
                ("approval_ticket"@, Json::Str(args.approval_ticket)),
                ("approved_at_unix_ms"@, Json::UInt(args.approved_at_unix_ms)),
            ]);
    }
    Ok(object_from_pairs(pairs))
}


} // verus!
