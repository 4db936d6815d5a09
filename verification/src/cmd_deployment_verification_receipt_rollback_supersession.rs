use vstd::prelude::*;
use crate::cli::{
    empty_message, last_number, last_number_of, last_text, last_text_of, missing_arg,
    missing_message, opt_view, require_arg, require_filled, require_non_empty, rule, rules_view,
    scan, scan_args, texts_view, FlagRule, InlineForm, RuleSpec, ValueKind,
};
use crate::fields::{
    check_reads, first_read_failure, json_outcome, outcome, read, reads_view, str_field, str_of,
    u64_field, u64_of, value_field, value_of, CommandError, Failure, ReadKind,
};
use crate::fields::{or_else, push_opt_str, push_opt_text, with_opt_str, with_opt_text};
use crate::json::{entries_get, entries_view, object_from_pairs, object_of, Json, JsonValue};
use crate::text::{is_blank, owned, trimmed};

verus! {

/// The arguments of `deploy supersede-verification-receipt-rollback`.
#[derive(Debug, PartialEq, Eq)]
pub struct ReceiptRollbackSupersessionArgs {
    pub previous_rollback: String,
    pub next_rollback: String,
    pub superseded_at_unix_ms: u64,
    pub out_path: String,
}

pub struct ReceiptRollbackSupersessionArgsView {
    pub previous_rollback: Seq<char>,
    pub next_rollback: Seq<char>,
    pub superseded_at_unix_ms: u64,
    pub out_path: Seq<char>,
}

impl View for ReceiptRollbackSupersessionArgs {
    type V = ReceiptRollbackSupersessionArgsView;

    open spec fn view(&self) -> ReceiptRollbackSupersessionArgsView {
        ReceiptRollbackSupersessionArgsView {
            previous_rollback: self.previous_rollback@,
            next_rollback: self.next_rollback@,
            superseded_at_unix_ms: self.superseded_at_unix_ms,
            out_path: self.out_path@,
        }
    }
}

pub open spec fn usage_text() -> Seq<char> {
    "usage: afterburner debug deploy supersede-verification-receipt-rollback --previous-rollback PATH --next-rollback PATH --superseded-at-unix-ms N [--out PATH]"@
}

pub fn usage() -> (r: &'static str)
    ensures
        r@ == usage_text(),
{
    "usage: afterburner debug deploy supersede-verification-receipt-rollback --previous-rollback PATH --next-rollback PATH --superseded-at-unix-ms N [--out PATH]"
}

pub open spec fn rules_spec() -> Seq<RuleSpec> {
    seq![
        RuleSpec { name: "--previous-rollback"@, kind: ValueKind::Text, inline: InlineForm::StripAll },
        RuleSpec { name: "--next-rollback"@, kind: ValueKind::Text, inline: InlineForm::StripAll },
        RuleSpec { name: "--superseded-at-unix-ms"@, kind: ValueKind::Number, inline: InlineForm::StripAll },
        RuleSpec { name: "--out"@, kind: ValueKind::Text, inline: InlineForm::StripAll },
    ]
}

fn rules() -> (r: Vec<FlagRule>)
    ensures
        rules_view(r@) == rules_spec(),
{
    let mut r = Vec::new();
    r.push(rule("--previous-rollback", ValueKind::Text, InlineForm::StripAll));
    r.push(rule("--next-rollback", ValueKind::Text, InlineForm::StripAll));
    r.push(rule("--superseded-at-unix-ms", ValueKind::Number, InlineForm::StripAll));
    r.push(rule("--out", ValueKind::Text, InlineForm::StripAll));
    assert(rules_view(r@) =~= rules_spec());
    r
}

/// The arguments that the command line gives, or why it is refused.
pub open spec fn parse_args_spec(args: Seq<Seq<char>>) -> Result<ReceiptRollbackSupersessionArgsView, Failure> {
    match scan(rules_spec(), args, "deploy supersede-verification-receipt-rollback"@, usage_text()) {
        Err(m) => Err(Failure::InvalidArg(m)),
        Ok(a) => {
            match last_text(a, 0) {
                None => Err(Failure::InvalidArg(missing_message("--previous-rollback"@, usage_text()))),
                Some(v_previous_rollback) => {
                    match last_text(a, 1) {
                        None => Err(Failure::InvalidArg(missing_message("--next-rollback"@, usage_text()))),
                        Some(v_next_rollback) => {
                            match last_number(a, 2) {
                                None => Err(Failure::InvalidArg(missing_message("--superseded-at-unix-ms"@, usage_text()))),
                                Some(v_superseded_at_unix_ms) => {
                                    Ok(ReceiptRollbackSupersessionArgsView {
                                        previous_rollback: v_previous_rollback,
                                        next_rollback: v_next_rollback,
                                        superseded_at_unix_ms: v_superseded_at_unix_ms,
                                        out_path: match last_text(a, 3) { Some(p) => p, None => "artifacts/deploy/deployment_verification_receipt_rollback_supersession.json"@ },
                                    })
                                }
                            }
                        }
                    }
                }
            }
        },
    }
}

pub fn parse_args(args: &Vec<String>) -> (r: Result<ReceiptRollbackSupersessionArgs, CommandError>)
    ensures
        outcome(r) == parse_args_spec(texts_view(args@)),
{
    let rules = rules();
    let a = match scan_args(&rules, args, "deploy supersede-verification-receipt-rollback", usage()) {
        Ok(a) => a,
        Err(m) => {
            return Err(CommandError::InvalidArg(m));
        },
    };
    let previous_rollback = match require_arg(last_text_of(&a, 0), "--previous-rollback", usage()) {
        Ok(v) => v,
        Err(m) => {
            return Err(CommandError::InvalidArg(m));
        },
    };
    let next_rollback = match require_arg(last_text_of(&a, 1), "--next-rollback", usage()) {
        Ok(v) => v,
        Err(m) => {
            return Err(CommandError::InvalidArg(m));
        },
    };
    let superseded_at_unix_ms = match last_number_of(&a, 2) {
        Some(n) => n,
        None => {
            return Err(CommandError::InvalidArg(missing_arg("--superseded-at-unix-ms", usage())));
        },
    };
    let out_path = match last_text_of(&a, 3) {
        Some(s) => s,
        None => owned("artifacts/deploy/deployment_verification_receipt_rollback_supersession.json"),
    };
    Ok(ReceiptRollbackSupersessionArgs { previous_rollback, next_rollback, superseded_at_unix_ms, out_path })
}

/// The supersession of one receipt rollback by the next: both are for one profile, and the next restores another artifact version.
pub open spec fn supersession_spec(args: ReceiptRollbackSupersessionArgsView, previous: Seq<(Seq<char>, Json)>, next: Seq<(Seq<char>, Json)>) -> Result<Json, Failure> {
    match or_else(first_read_failure(previous, seq![("profile_name"@, ReadKind::Str)], args.previous_rollback, "deployment verification receipt rollback"@), or_else(first_read_failure(next, seq![("profile_name"@, ReadKind::Str)], args.next_rollback, "deployment verification receipt rollback"@), or_else(if str_of(previous, "profile_name"@) == str_of(next, "profile_name"@) { None } else { Some("rollback records must share one profile_name, found `"@ + str_of(previous, "profile_name"@) + "` and `"@ + str_of(next, "profile_name"@) + "`"@) }, or_else(first_read_failure(previous, seq![("restored_artifact_version"@, ReadKind::Str)], args.previous_rollback, "deployment verification receipt rollback"@), or_else(first_read_failure(next, seq![("restored_artifact_version"@, ReadKind::Str)], args.next_rollback, "deployment verification receipt rollback"@), or_else(if str_of(previous, "restored_artifact_version"@) != str_of(next, "restored_artifact_version"@) { None } else { Some("next rollback `"@ + args.next_rollback + "` must target a different restored_artifact_version than previous rollback `"@ + args.previous_rollback + "`"@) }, or_else(first_read_failure(previous, seq![("restored_receipt_path"@, ReadKind::Str)], args.previous_rollback, "deployment verification receipt rollback"@), first_read_failure(next, seq![("restored_receipt_path"@, ReadKind::Str)], args.next_rollback, "deployment verification receipt rollback"@)))))))) {
        Some(m) => Err(Failure::Parse(m)),
        None => Ok(object_of(seq![
                ("schema_version"@, Json::Str("1"@)),
                ("previous_rollback_path"@, Json::Str(args.previous_rollback)),
                ("next_rollback_path"@, Json::Str(args.next_rollback)),
                ("previous_restored_receipt_path"@, Json::Str(str_of(previous, "restored_receipt_path"@))),
                ("next_restored_receipt_path"@, Json::Str(str_of(next, "restored_receipt_path"@))),
                ("previous_restored_artifact_version"@, Json::Str(str_of(previous, "restored_artifact_version"@))),
                ("next_restored_artifact_version"@, Json::Str(str_of(next, "restored_artifact_version"@))),
                ("profile_name"@, Json::Str(str_of(next, "profile_name"@))),
                ("superseded_at_unix_ms"@, Json::UInt(args.superseded_at_unix_ms)),
            ])),
    }
}

/// Checks the two rollback records and builds the supersession.
pub fn build_supersession(args: &ReceiptRollbackSupersessionArgs, previous: &Vec<(String, JsonValue)>, next: &Vec<(String, JsonValue)>) -> (r: Result<JsonValue, CommandError>)
    ensures
        json_outcome(r) == supersession_spec(args@, entries_view(previous@), entries_view(next@)),
{
    let mut reads0 = Vec::new();
    reads0.push(read("profile_name", ReadKind::Str));
    assert(reads_view(reads0@) =~= seq![("profile_name"@, ReadKind::Str)]);
    match check_reads(previous, &reads0, args.previous_rollback.as_str(), "deployment verification receipt rollback") {
        Err(m) => {
            return Err(CommandError::Parse(m));
        },
        Ok(_) => {},
    }
    assert(reads_view(reads0@)[0].0 == "profile_name"@);
    let mut reads1 = Vec::new();
    reads1.push(read("profile_name", ReadKind::Str));
    assert(reads_view(reads1@) =~= seq![("profile_name"@, ReadKind::Str)]);
    match check_reads(next, &reads1, args.next_rollback.as_str(), "deployment verification receipt rollback") {
        Err(m) => {
            return Err(CommandError::Parse(m));
        },
        Ok(_) => {},
    }
    assert(reads_view(reads1@)[0].0 == "profile_name"@);
    if !(crate::json::text_eq(str_field(previous, "profile_name").as_str(), str_field(next, "profile_name").as_str())) {
        return Err(CommandError::Parse(crate::text::cat5("rollback records must share one profile_name, found `", str_field(previous, "profile_name").as_str(), "` and `", str_field(next, "profile_name").as_str(), "`")));
    }
    let mut reads3 = Vec::new();
    reads3.push(read("restored_artifact_version", ReadKind::Str));
    assert(reads_view(reads3@) =~= seq![("restored_artifact_version"@, ReadKind::Str)]);
    match check_reads(previous, &reads3, args.previous_rollback.as_str(), "deployment verification receipt rollback") {
        Err(m) => {
            return Err(CommandError::Parse(m));
        },
        Ok(_) => {},
    }
    assert(reads_view(reads3@)[0].0 == "restored_artifact_version"@);
    let mut reads4 = Vec::new();
    reads4.push(read("restored_artifact_version", ReadKind::Str));
    assert(reads_view(reads4@) =~= seq![("restored_artifact_version"@, ReadKind::Str)]);
    match check_reads(next, &reads4, args.next_rollback.as_str(), "deployment verification receipt rollback") {
        Err(m) => {
            return Err(CommandError::Parse(m));
        },
        Ok(_) => {},
    }
    assert(reads_view(reads4@)[0].0 == "restored_artifact_version"@);
    if !(!crate::json::text_eq(str_field(previous, "restored_artifact_version").as_str(), str_field(next, "restored_artifact_version").as_str())) {
        return Err(CommandError::Parse(crate::text::cat5("next rollback `", args.next_rollback.as_str(), "` must target a different restored_artifact_version than previous rollback `", args.previous_rollback.as_str(), "`")));
    }
    let mut reads6 = Vec::new();
    reads6.push(read("restored_receipt_path", ReadKind::Str));
    assert(reads_view(reads6@) =~= seq![("restored_receipt_path"@, ReadKind::Str)]);
    match check_reads(previous, &reads6, args.previous_rollback.as_str(), "deployment verification receipt rollback") {
        Err(m) => {
            return Err(CommandError::Parse(m));
        },
        Ok(_) => {},
    }
    assert(reads_view(reads6@)[0].0 == "restored_receipt_path"@);
    let mut reads7 = Vec::new();
    reads7.push(read("restored_receipt_path", ReadKind::Str));
    assert(reads_view(reads7@) =~= seq![("restored_receipt_path"@, ReadKind::Str)]);
    match check_reads(next, &reads7, args.next_rollback.as_str(), "deployment verification receipt rollback") {
        Err(m) => {
            return Err(CommandError::Parse(m));
        },
        Ok(_) => {},
    }
    assert(reads_view(reads7@)[0].0 == "restored_receipt_path"@);
    let mut pairs: Vec<(String, JsonValue)> = Vec::new();
    pairs.push((owned("schema_version"), JsonValue::Str(owned("1"))));
    pairs.push((owned("previous_rollback_path"), JsonValue::Str(args.previous_rollback.clone())));
    pairs.push((owned("next_rollback_path"), JsonValue::Str(args.next_rollback.clone())));
    pairs.push((owned("previous_restored_receipt_path"), JsonValue::Str(str_field(previous, "restored_receipt_path"))));
    pairs.push((owned("next_restored_receipt_path"), JsonValue::Str(str_field(next, "restored_receipt_path"))));
    pairs.push((owned("previous_restored_artifact_version"), JsonValue::Str(str_field(previous, "restored_artifact_version"))));
    pairs.push((owned("next_restored_artifact_version"), JsonValue::Str(str_field(next, "restored_artifact_version"))));
    pairs.push((owned("profile_name"), JsonValue::Str(str_field(next, "profile_name"))));
    pairs.push((owned("superseded_at_unix_ms"), JsonValue::UInt(args.superseded_at_unix_ms)));
    proof {
        let args = args@;
        let previous = entries_view(previous@);
        let next = entries_view(next@);
        assert(entries_view(pairs@) =~= seq![
                ("schema_version"@, Json::Str("1"@)),
                ("previous_rollback_path"@, Json::Str(args.previous_rollback)),
                ("next_rollback_path"@, Json::Str(args.next_rollback)),
                ("previous_restored_receipt_path"@, Json::Str(str_of(previous, "restored_receipt_path"@))),
                ("next_restored_receipt_path"@, Json::Str(str_of(next, "restored_receipt_path"@))),
                ("previous_restored_artifact_version"@, Json::Str(str_of(previous, "restored_artifact_version"@))),
                ("next_restored_artifact_version"@, Json::Str(str_of(next, "restored_artifact_version"@))),
                ("profile_name"@, Json::Str(str_of(next, "profile_name"@))),
                ("superseded_at_unix_ms"@, Json::UInt(args.superseded_at_unix_ms)),
            ]);
    }
    Ok(object_from_pairs(pairs))
}


/// A receipt rollback never supersedes itself: superseding a rollback record by the same one is refused.
pub proof fn law_no_self_supersession(args: ReceiptRollbackSupersessionArgsView, record: Seq<(Seq<char>, Json)>)
    ensures
        supersession_spec(args, record, record) is Err,
{
}

} // verus!
