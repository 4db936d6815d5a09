use vstd::prelude::*;
use crate::cli::{
    empty_message, last_number, last_number_of, last_text, last_text_of, missing_arg,
    missing_message, opt_view, require_arg, require_filled, require_non_empty, rule, rules_view,
    scan, scan_args, texts_view, FlagRule, InlineForm, RuleSpec, ValueKind,
};
use crate::fields::{
    check_reads, first_read_failure, json_outcome, outcome, read, reads_view, str_field, str_of,
    u64_field, u64_of, value_field, value_of, CommandError, Failure, ReadKind,
};
use crate::fields::{or_else, push_opt_str, push_opt_text, with_opt_str, with_opt_text};
use crate::json::{entries_get, entries_view, object_from_pairs, object_of, Json, JsonValue};
use crate::text::{is_blank, owned, trimmed};
use crate::command_reconciliation::{build_reconciliation, reconciliation_spec};

verus! {

/// The arguments of `deploy reconcile-verification-receipt-rollback-supersession`.
#[derive(Debug, PartialEq, Eq)]
pub struct ReceiptRollbackSupersessionReconcileArgs {
    pub supersession: String,
    pub current_supersession: String,
    pub out_path: String,
}

pub struct ReceiptRollbackSupersessionReconcileArgsView {
    pub supersession: Seq<char>,
    pub current_supersession: Seq<char>,
    pub out_path: Seq<char>,
}

impl View for ReceiptRollbackSupersessionReconcileArgs {
    type V = ReceiptRollbackSupersessionReconcileArgsView;

    open spec fn view(&self) -> ReceiptRollbackSupersessionReconcileArgsView {
        ReceiptRollbackSupersessionReconcileArgsView {
            supersession: self.supersession@,
            current_supersession: self.current_supersession@,
            out_path: self.out_path@,
        }
    }
}

pub open spec fn usage_text() -> Seq<char> {
    "usage: afterburner debug deploy reconcile-verification-receipt-rollback-supersession --supersession PATH --current-supersession PATH [--out PATH]"@
}

pub fn usage() -> (r: &'static str)
    ensures
        r@ == usage_text(),
{
    "usage: afterburner debug deploy reconcile-verification-receipt-rollback-supersession --supersession PATH --current-supersession PATH [--out PATH]"
}

pub open spec fn rules_spec() -> Seq<RuleSpec> {
    seq![
        RuleSpec { name: "--supersession"@, kind: ValueKind::Text, inline: InlineForm::StripAll },
        RuleSpec { name: "--current-supersession"@, kind: ValueKind::Text, inline: InlineForm::StripAll },
        RuleSpec { name: "--out"@, kind: ValueKind::Text, inline: InlineForm::StripAll },
    ]
}

fn rules() -> (r: Vec<FlagRule>)
    ensures
        rules_view(r@) == rules_spec(),
{
    let mut r = Vec::new();
    r.push(rule("--supersession", ValueKind::Text, InlineForm::StripAll));
    r.push(rule("--current-supersession", ValueKind::Text, InlineForm::StripAll));
    r.push(rule("--out", ValueKind::Text, InlineForm::StripAll));
    assert(rules_view(r@) =~= rules_spec());
    r
}

/// The arguments that the command line gives, or why it is refused.
pub open spec fn parse_args_spec(args: Seq<Seq<char>>) -> Result<ReceiptRollbackSupersessionReconcileArgsView, Failure> {
    match scan(rules_spec(), args, "deploy reconcile-verification-receipt-rollback-supersession"@, usage_text()) {
        Err(m) => Err(Failure::InvalidArg(m)),
        Ok(a) => {
            match last_text(a, 0) {
                None => Err(Failure::InvalidArg(missing_message("--supersession"@, usage_text()))),
                Some(v_supersession) => {
                    match last_text(a, 1) {
                        None => Err(Failure::InvalidArg(missing_message("--current-supersession"@, usage_text()))),
                        Some(v_current_supersession) => {
                            Ok(ReceiptRollbackSupersessionReconcileArgsView {
                                supersession: v_supersession,
                                current_supersession: v_current_supersession,
                                out_path: match last_text(a, 2) { Some(p) => p, None => "artifacts/deploy/deployment_verification_receipt_rollback_supersession_reconciliation.json"@ },
                            })
                        }
                    }
                }
            }
        },
    }
}

pub fn parse_args(args: &Vec<String>) -> (r: Result<ReceiptRollbackSupersessionReconcileArgs, CommandError>)
    ensures
        outcome(r) == parse_args_spec(texts_view(args@)),
{
    let rules = rules();
    let a = match scan_args(&rules, args, "deploy reconcile-verification-receipt-rollback-supersession", usage()) {
        Ok(a) => a,
        Err(m) => {
            return Err(CommandError::InvalidArg(m));
        },
    };
    let supersession = match require_arg(last_text_of(&a, 0), "--supersession", usage()) {
        Ok(v) => v,
        Err(m) => {
            return Err(CommandError::InvalidArg(m));
        },
    };
    let current_supersession = match require_arg(last_text_of(&a, 1), "--current-supersession", usage()) {
        Ok(v) => v,
        Err(m) => {
            return Err(CommandError::InvalidArg(m));
        },
    };
    let out_path = match last_text_of(&a, 2) {
        Some(s) => s,
        None => owned("artifacts/deploy/deployment_verification_receipt_rollback_supersession_reconciliation.json"),
    };
    Ok(ReceiptRollbackSupersessionReconcileArgs { supersession, current_supersession, out_path })
}

/// What a receipt rollback supersession says: the two rollbacks, the receipts and versions they restore, the profile and when it happened.
pub open spec fn payload_spec(supersession: Seq<(Seq<char>, Json)>, path: Seq<char>) -> Result<Json, Failure> {
    match first_read_failure(supersession, seq![("previous_rollback_path"@, ReadKind::Str), ("next_rollback_path"@, ReadKind::Str), ("previous_restored_receipt_path"@, ReadKind::Str), ("next_restored_receipt_path"@, ReadKind::Str), ("previous_restored_artifact_version"@, ReadKind::Str), ("next_restored_artifact_version"@, ReadKind::Str), ("profile_name"@, ReadKind::Str), ("superseded_at_unix_ms"@, ReadKind::U64)], path, "deployment verification receipt rollback supersession"@) {
        Some(m) => Err(Failure::Parse(m)),
        None => Ok(object_of(seq![
                ("previous_rollback_path"@, Json::Str(str_of(supersession, "previous_rollback_path"@))),
                ("next_rollback_path"@, Json::Str(str_of(supersession, "next_rollback_path"@))),
                ("previous_restored_receipt_path"@, Json::Str(str_of(supersession, "previous_restored_receipt_path"@))),
                ("next_restored_receipt_path"@, Json::Str(str_of(supersession, "next_restored_receipt_path"@))),
                ("previous_restored_artifact_version"@, Json::Str(str_of(supersession, "previous_restored_artifact_version"@))),
                ("next_restored_artifact_version"@, Json::Str(str_of(supersession, "next_restored_artifact_version"@))),
                ("profile_name"@, Json::Str(str_of(supersession, "profile_name"@))),
                ("superseded_at_unix_ms"@, Json::UInt(u64_of(supersession, "superseded_at_unix_ms"@))),
            ])),
    }
}

/// Reads the payload of a receipt rollback supersession.
pub fn supersession_payload(supersession: &Vec<(String, JsonValue)>, path: &str) -> (r: Result<JsonValue, CommandError>)
    ensures
        json_outcome(r) == payload_spec(entries_view(supersession@), path@),
{
    let mut reads0 = Vec::new();
    reads0.push(read("previous_rollback_path", ReadKind::Str));
    reads0.push(read("next_rollback_path", ReadKind::Str));
    reads0.push(read("previous_restored_receipt_path", ReadKind::Str));
    reads0.push(read("next_restored_receipt_path", ReadKind::Str));
    reads0.push(read("previous_restored_artifact_version", ReadKind::Str));
    reads0.push(read("next_restored_artifact_version", ReadKind::Str));
    reads0.push(read("profile_name", ReadKind::Str));
    reads0.push(read("superseded_at_unix_ms", ReadKind::U64));
    assert(reads_view(reads0@) =~= seq![("previous_rollback_path"@, ReadKind::Str), ("next_rollback_path"@, ReadKind::Str), ("previous_restored_receipt_path"@, ReadKind::Str), ("next_restored_receipt_path"@, ReadKind::Str), ("previous_restored_artifact_version"@, ReadKind::Str), ("next_restored_artifact_version"@, ReadKind::Str), ("profile_name"@, ReadKind::Str), ("superseded_at_unix_ms"@, ReadKind::U64)]);
    match check_reads(supersession, &reads0, path, "deployment verification receipt rollback supersession") {
        Err(m) => {
            return Err(CommandError::Parse(m));
        },
        Ok(_) => {},
    }
    assert(reads_view(reads0@)[0].0 == "previous_rollback_path"@);
    assert(reads_view(reads0@)[1].0 == "next_rollback_path"@);
    assert(reads_view(reads0@)[2].0 == "previous_restored_receipt_path"@);
    assert(reads_view(reads0@)[3].0 == "next_restored_receipt_path"@);
    assert(reads_view(reads0@)[4].0 == "previous_restored_artifact_version"@);
    assert(reads_view(reads0@)[5].0 == "next_restored_artifact_version"@);
    assert(reads_view(reads0@)[6].0 == "profile_name"@);
    assert(reads_view(reads0@)[7].0 == "superseded_at_unix_ms"@);
    let mut pairs: Vec<(String, JsonValue)> = Vec::new();
    pairs.push((owned("previous_rollback_path"), JsonValue::Str(str_field(supersession, "previous_rollback_path"))));
    pairs.push((owned("next_rollback_path"), JsonValue::Str(str_field(supersession, "next_rollback_path"))));
    pairs.push((owned("previous_restored_receipt_path"), JsonValue::Str(str_field(supersession, "previous_restored_receipt_path"))));
    pairs.push((owned("next_restored_receipt_path"), JsonValue::Str(str_field(supersession, "next_restored_receipt_path"))));
    pairs.push((owned("previous_restored_artifact_version"), JsonValue::Str(str_field(supersession, "previous_restored_artifact_version"))));
    pairs.push((owned("next_restored_artifact_version"), JsonValue::Str(str_field(supersession, "next_restored_artifact_version"))));
    pairs.push((owned("profile_name"), JsonValue::Str(str_field(supersession, "profile_name"))));
    pairs.push((owned("superseded_at_unix_ms"), JsonValue::UInt(u64_field(supersession, "superseded_at_unix_ms"))));
    proof {
        let supersession = entries_view(supersession@);
        let path = path@;
        assert(entries_view(pairs@) =~= seq![
                ("previous_rollback_path"@, Json::Str(str_of(supersession, "previous_rollback_path"@))),
                ("next_rollback_path"@, Json::Str(str_of(supersession, "next_rollback_path"@))),
                ("previous_restored_receipt_path"@, Json::Str(str_of(supersession, "previous_restored_receipt_path"@))),
                ("next_restored_receipt_path"@, Json::Str(str_of(supersession, "next_restored_receipt_path"@))),
                ("previous_restored_artifact_version"@, Json::Str(str_of(supersession, "previous_restored_artifact_version"@))),
                ("next_restored_artifact_version"@, Json::Str(str_of(supersession, "next_restored_artifact_version"@))),
                ("profile_name"@, Json::Str(str_of(supersession, "profile_name"@))),
                ("superseded_at_unix_ms"@, Json::UInt(u64_of(supersession, "superseded_at_unix_ms"@))),
            ]);
    }
    Ok(object_from_pairs(pairs))
}


/// The reconciliation of the desired receipt rollback supersession with the current one.
pub open spec fn reconcile_spec(
    args: ReceiptRollbackSupersessionReconcileArgsView,
    desired: Seq<(Seq<char>, Json)>,
    current: Seq<(Seq<char>, Json)>,
) -> Result<Json, Failure> {
    match payload_spec(desired, args.supersession) {
        Err(f) => Err(f),
        Ok(d) => match payload_spec(current, args.current_supersession) {
            Err(f) => Err(f),
            Ok(c) => Ok(
                reconciliation_spec(
                    "supersession_path"@,
                    args.supersession,
                    "current_supersession_path"@,
                    args.current_supersession,
                    d,
                    c,
                ),
            ),
        },
    }
}

/// Reconciles the desired receipt rollback supersession with the current one.
pub fn reconcile(
    args: &ReceiptRollbackSupersessionReconcileArgs,
    desired: &Vec<(String, JsonValue)>,
    current: &Vec<(String, JsonValue)>,
) -> (r: Result<JsonValue, CommandError>)
    ensures
        json_outcome(r) == reconcile_spec(args@, entries_view(desired@), entries_view(current@)),
{
    let d = match supersession_payload(desired, args.supersession.as_str()) {
        Ok(d) => d,
        Err(e) => {
            return Err(e);
        },
    };
    let c = match supersession_payload(current, args.current_supersession.as_str()) {
        Ok(c) => c,
        Err(e) => {
            return Err(e);
        },
    };
    Ok(
        build_reconciliation(
            "supersession_path",
            args.supersession.as_str(),
            "current_supersession_path",
            args.current_supersession.as_str(),
            d,
            c,
        ),
    )
}


} // verus!
