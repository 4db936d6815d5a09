use vstd::prelude::*;
use crate::cli::{
    empty_message, last_number, last_number_of, last_text, last_text_of, missing_arg,
    missing_message, opt_view, require_arg, require_filled, require_non_empty, rule, rules_view,
    scan, scan_args, texts_view, FlagRule, InlineForm, RuleSpec, ValueKind,
};
use crate::fields::{
    check_reads, first_read_failure, json_outcome, outcome, read, reads_view, str_field, str_of,
    u64_field, u64_of, value_field, value_of, CommandError, Failure, ReadKind,
};
use crate::fields::{or_else, push_opt_str, with_opt_str};
use crate::json::{entries_get, entries_view, object_from_pairs, object_of, Json, JsonValue};
use crate::text::{is_blank, owned, trimmed};

verus! {

/// The arguments of `source approval-receipt`.
#[derive(Debug, PartialEq, Eq)]
pub struct ApprovalReceiptArgs {
    pub source: String,
    pub source_revision: String,
    pub approval_status: String,
    pub approved_by: String,
    pub approval_ticket: String,
    pub approved_at_unix_ms: u64,
    pub out_path: String,
}

pub struct ApprovalReceiptArgsView {
    pub source: Seq<char>,
    pub source_revision: Seq<char>,
    pub approval_status: Seq<char>,
    pub approved_by: Seq<char>,
    pub approval_ticket: Seq<char>,
    pub approved_at_unix_ms: u64,
    pub out_path: Seq<char>,
}

impl View for ApprovalReceiptArgs {
    type V = ApprovalReceiptArgsView;

    open spec fn view(&self) -> ApprovalReceiptArgsView {
        ApprovalReceiptArgsView {
            source: self.source@,
            source_revision: self.source_revision@,
            approval_status: self.approval_status@,
            approved_by: self.approved_by@,
            approval_ticket: self.approval_ticket@,
            approved_at_unix_ms: self.approved_at_unix_ms,
            out_path: self.out_path@,
        }
    }
}

pub open spec fn usage_text() -> Seq<char> {
    "usage: afterburner source approval-receipt --source NAME --source-revision REV --approval-status STATUS --approved-by NAME --approval-ticket TICKET --approved-at-unix-ms N [--out PATH]"@
}

pub fn usage() -> (r: &'static str)
    ensures
        r@ == usage_text(),
{
    "usage: afterburner source approval-receipt --source NAME --source-revision REV --approval-status STATUS --approved-by NAME --approval-ticket TICKET --approved-at-unix-ms N [--out PATH]"
}

pub open spec fn rules_spec() -> Seq<RuleSpec> {
    seq![
        RuleSpec { name: "--source"@, kind: ValueKind::Text, inline: InlineForm::StripAll },
        RuleSpec { name: "--source-revision"@, kind: ValueKind::Text, inline: InlineForm::StripAll },
        RuleSpec { name: "--approval-status"@, kind: ValueKind::Text, inline: InlineForm::StripAll },
        RuleSpec { name: "--approved-by"@, kind: ValueKind::Text, inline: InlineForm::StripAll },
        RuleSpec { name: "--approval-ticket"@, kind: ValueKind::Text, inline: InlineForm::StripAll },
        RuleSpec { name: "--approved-at-unix-ms"@, kind: ValueKind::Number, inline: InlineForm::StripAll },
        RuleSpec { name: "--out"@, kind: ValueKind::Text, inline: InlineForm::StripAll },
    ]
}

fn rules() -> (r: Vec<FlagRule>)
    ensures
        rules_view(r@) == rules_spec(),
{
    let mut r = Vec::new();
    r.push(rule("--source", ValueKind::Text, InlineForm::StripAll));
    r.push(rule("--source-revision", ValueKind::Text, InlineForm::StripAll));
    r.push(rule("--approval-status", ValueKind::Text, InlineForm::StripAll));
    r.push(rule("--approved-by", ValueKind::Text, InlineForm::StripAll));
    r.push(rule("--approval-ticket", ValueKind::Text, InlineForm::StripAll));
    r.push(rule("--approved-at-unix-ms", ValueKind::Number, InlineForm::StripAll));
    r.push(rule("--out", ValueKind::Text, InlineForm::StripAll));
    assert(rules_view(r@) =~= rules_spec());
    r
}

/// The arguments that the command line gives, or why it is refused.
pub open spec fn parse_args_spec(args: Seq<Seq<char>>) -> Result<ApprovalReceiptArgsView, Failure> {
    match scan(rules_spec(), args, "source approval-receipt"@, usage_text()) {
        Err(m) => Err(Failure::InvalidArg(m)),
        Ok(a) => {
            match last_text(a, 0) {
                None => Err(Failure::InvalidArg(missing_message("--source"@, usage_text()))),
                Some(v_source) => if is_blank(v_source) { Err(Failure::InvalidArg(empty_message("--source"@, usage_text()))) } else {
                    match last_text(a, 1) {
                        None => Err(Failure::InvalidArg(missing_message("--source-revision"@, usage_text()))),
                        Some(v_source_revision) => if is_blank(v_source_revision) { Err(Failure::InvalidArg(empty_message("--source-revision"@, usage_text()))) } else {
                            match last_text(a, 2) {
                                None => Err(Failure::InvalidArg(missing_message("--approval-status"@, usage_text()))),
                                Some(v_approval_status) => if is_blank(v_approval_status) { Err(Failure::InvalidArg(empty_message("--approval-status"@, usage_text()))) } else {
                                    match last_text(a, 3) {
                                        None => Err(Failure::InvalidArg(missing_message("--approved-by"@, usage_text()))),
                                        Some(v_approved_by) => if is_blank(v_approved_by) { Err(Failure::InvalidArg(empty_message("--approved-by"@, usage_text()))) } else {
                                            match last_text(a, 4) {
                                                None => Err(Failure::InvalidArg(missing_message("--approval-ticket"@, usage_text()))),
                                                Some(v_approval_ticket) => if is_blank(v_approval_ticket) { Err(Failure::InvalidArg(empty_message("--approval-ticket"@, usage_text()))) } else {
                                                    match last_number(a, 5) {
                                                        None => Err(Failure::InvalidArg(missing_message("--approved-at-unix-ms"@, usage_text()))),
                                                        Some(v_approved_at_unix_ms) => {
                                                            Ok(ApprovalReceiptArgsView {
                                                                source: v_source,
                                                                source_revision: v_source_revision,
                                                                approval_status: v_approval_status,
                                                                approved_by: v_approved_by,
                                                                approval_ticket: v_approval_ticket,
                                                                approved_at_unix_ms: v_approved_at_unix_ms,
                                                                out_path: match last_text(a, 6) { Some(p) => p, None => "artifacts/data/pretraining_source_approval_receipt.json"@ },
                                                            })
                                                        }
                                                    }
                                                }
                                            }
                                        }
                                    }
                                }
                            }
                        }
                    }
                }
            }
        },
    }
}

pub fn parse_args(args: &Vec<String>) -> (r: Result<ApprovalReceiptArgs, CommandError>)
    ensures
        outcome(r) == parse_args_spec(texts_view(args@)),
{
    let rules = rules();
    let a = match scan_args(&rules, args, "source approval-receipt", usage()) {
        Ok(a) => a,
        Err(m) => {
            return Err(CommandError::InvalidArg(m));
        },
    };
    let source = match require_filled(last_text_of(&a, 0), "--source", usage()) {
        Ok(v) => v,
        Err(m) => {
            return Err(CommandError::InvalidArg(m));
        },
    };
    let source_revision = match require_filled(last_text_of(&a, 1), "--source-revision", usage()) {
        Ok(v) => v,
        Err(m) => {
            return Err(CommandError::InvalidArg(m));
        },
    };
    let approval_status = match require_filled(last_text_of(&a, 2), "--approval-status", usage()) {
        Ok(v) => v,
        Err(m) => {
            return Err(CommandError::InvalidArg(m));
        },
    };
    let approved_by = match require_filled(last_text_of(&a, 3), "--approved-by", usage()) {
        Ok(v) => v,
        Err(m) => {
            return Err(CommandError::InvalidArg(m));
        },
    };
    let approval_ticket = match require_filled(last_text_of(&a, 4), "--approval-ticket", usage()) {
        Ok(v) => v,
        Err(m) => {
            return Err(CommandError::InvalidArg(m));
        },
    };
    let approved_at_unix_ms = match last_number_of(&a, 5) {
        Some(n) => n,
        None => {
            return Err(CommandError::InvalidArg(missing_arg("--approved-at-unix-ms", usage())));
        },
    };
    let out_path = match last_text_of(&a, 6) {
        Some(s) => s,
        None => owned("artifacts/data/pretraining_source_approval_receipt.json"),
    };
    Ok(ApprovalReceiptArgs { source, source_revision, approval_status, approved_by, approval_ticket, approved_at_unix_ms, out_path })
}

/// The approval receipt of a pretraining source, as the arguments give it.
pub open spec fn receipt_spec(args: ApprovalReceiptArgsView) -> Json {
    object_of(seq![
            ("schema_version"@, Json::Str("1"@)),
            ("source"@, Json::Str(args.source)),
            ("source_revision"@, Json::Str(args.source_revision)),
            ("approval_status"@, Json::Str(args.approval_status)),
            ("approved_by"@, Json::Str(args.approved_by)),
            ("approval_ticket"@, Json::Str(args.approval_ticket)),
            ("approved_at_unix_ms"@, Json::UInt(args.approved_at_unix_ms)),
        ])
}

/// Builds the approval receipt.
pub fn build_receipt(args: &ApprovalReceiptArgs) -> (r: JsonValue)
    ensures
        r@ == receipt_spec(args@),
{
    let mut pairs: Vec<(String, JsonValue)> = Vec::new();
    pairs.push((owned("schema_version"), JsonValue::Str(owned("1"))));
    pairs.push((owned("source"), JsonValue::Str(args.source.clone())));
    pairs.push((owned("source_revision"), JsonValue::Str(args.source_revision.clone())));
    pairs.push((owned("approval_status"), JsonValue::Str(args.approval_status.clone())));
    pairs.push((owned("approved_by"), JsonValue::Str(args.approved_by.clone())));
    pairs.push((owned("approval_ticket"), JsonValue::Str(args.approval_ticket.clone())));
    pairs.push((owned("approved_at_unix_ms"), JsonValue::UInt(args.approved_at_unix_ms)));
    proof {
        let args = args@;
        assert(entries_view(pairs@) =~= seq![
            ("schema_version"@, Json::Str("1"@)),
            ("source"@, Json::Str(args.source)),
            ("source_revision"@, Json::Str(args.source_revision)),
            ("approval_status"@, Json::Str(args.approval_status)),
            ("approved_by"@, Json::Str(args.approved_by)),
            ("approval_ticket"@, Json::Str(args.approval_ticket)),
            ("approved_at_unix_ms"@, Json::UInt(args.approved_at_unix_ms)),
        ]);
    }
    object_from_pairs(pairs)
}


} // verus!
