use vstd::prelude::*;
use crate::cli::{
    empty_message, last_number, last_number_of, last_text, last_text_of, missing_arg,
    missing_message, opt_view, require_arg, require_filled, require_non_empty, rule, rules_view,
    scan, scan_args, texts_view, FlagRule, InlineForm, RuleSpec, ValueKind,
};
use crate::fields::{
    check_reads, first_read_failure, json_outcome, outcome, read, reads_view, str_field, str_of,
    u64_field, u64_of, value_field, value_of, CommandError, Failure, ReadKind,
};
use crate::fields::{or_else, push_opt_str, with_opt_str};
use crate::json::{entries_get, entries_view, object_from_pairs, object_of, Json, JsonValue};
use crate::text::{is_blank, owned, trimmed};

verus! {

/// The arguments of `deploy point-verification-receipt-transport-locator`.
#[derive(Debug, PartialEq, Eq)]
pub struct LocatorArgs {
    pub receipt: String,
    pub out_path: String,
}

pub struct LocatorArgsView {
    pub receipt: Seq<char>,
    pub out_path: Seq<char>,
}

impl View for LocatorArgs {
    type V = LocatorArgsView;

    open spec fn view(&self) -> LocatorArgsView {
        LocatorArgsView {
            receipt: self.receipt@,
            out_path: self.out_path@,
        }
    }
}

pub open spec fn usage_text() -> Seq<char> {
    "usage: afterburner debug deploy point-verification-receipt-transport-locator --receipt PATH [--out PATH]"@
}

pub fn usage() -> (r: &'static str)
    ensures
        r@ == usage_text(),
{
    "usage: afterburner debug deploy point-verification-receipt-transport-locator --receipt PATH [--out PATH]"
}

pub open spec fn rules_spec() -> Seq<RuleSpec> {
    seq![
        RuleSpec { name: "--receipt"@, kind: ValueKind::Text, inline: InlineForm::StripAll },
        RuleSpec { name: "--out"@, kind: ValueKind::Text, inline: InlineForm::StripAll },
    ]
}

fn rules() -> (r: Vec<FlagRule>)
    ensures
        rules_view(r@) == rules_spec(),
{
    let mut r = Vec::new();
    r.push(rule("--receipt", ValueKind::Text, InlineForm::StripAll));
    r.push(rule("--out", ValueKind::Text, InlineForm::StripAll));
    assert(rules_view(r@) =~= rules_spec());
    r
}

/// The arguments that the command line gives, or why it is refused.
pub open spec fn parse_args_spec(args: Seq<Seq<char>>) -> Result<LocatorArgsView, Failure> {
    match scan(rules_spec(), args, "deploy point-verification-receipt-transport-locator"@, usage_text()) {
        Err(m) => Err(Failure::InvalidArg(m)),
        Ok(a) => {
            match last_text(a, 0) {
                None => Err(Failure::InvalidArg(missing_message("--receipt"@, usage_text()))),
                Some(v_receipt) => {
                    Ok(LocatorArgsView {
                        receipt: v_receipt,
                        out_path: match last_text(a, 1) { Some(p) => p, None => "artifacts/deploy/deployment_verification_receipt_transport_locator.json"@ },
                    })
                }
            }
        },
    }
}

pub fn parse_args(args: &Vec<String>) -> (r: Result<LocatorArgs, CommandError>)
    ensures
        outcome(r) == parse_args_spec(texts_view(args@)),
{
    let rules = rules();
    let a = match scan_args(&rules, args, "deploy point-verification-receipt-transport-locator", usage()) {
        Ok(a) => a,
        Err(m) => {
            return Err(CommandError::InvalidArg(m));
        },
    };
    let receipt = match require_arg(last_text_of(&a, 0), "--receipt", usage()) {
        Ok(v) => v,
        Err(m) => {
            return Err(CommandError::InvalidArg(m));
        },
    };
    let out_path = match last_text_of(&a, 1) {
        Some(s) => s,
        None => owned("artifacts/deploy/deployment_verification_receipt_transport_locator.json"),
    };
    Ok(LocatorArgs { receipt, out_path })
}

/// The transport locator of a verification receipt: the artifact version, the profile and the verdict.
pub open spec fn locator_spec(args: LocatorArgsView, receipt: Seq<(Seq<char>, Json)>) -> Result<Json, Failure> {
    match first_read_failure(receipt, seq![("artifact_version"@, ReadKind::Str), ("profile_name"@, ReadKind::Str), ("verification_status"@, ReadKind::Str)], args.receipt, "deployment verification receipt"@) {
        Some(m) => Err(Failure::Parse(m)),
        None => Ok(object_of(seq![
                ("schema_version"@, Json::Str("1"@)),
                ("receipt_path"@, Json::Str(args.receipt)),
                ("artifact_version"@, Json::Str(str_of(receipt, "artifact_version"@))),
                ("profile_name"@, Json::Str(str_of(receipt, "profile_name"@))),
                ("verification_status"@, Json::Str(str_of(receipt, "verification_status"@))),
            ])),
    }
}

/// Builds the locator from the receipt's fields.
pub fn build_locator(args: &LocatorArgs, receipt: &Vec<(String, JsonValue)>) -> (r: Result<JsonValue, CommandError>)
    ensures
        json_outcome(r) == locator_spec(args@, entries_view(receipt@)),
{
    let mut reads0 = Vec::new();
    reads0.push(read("artifact_version", ReadKind::Str));
    reads0.push(read("profile_name", ReadKind::Str));
    reads0.push(read("verification_status", ReadKind::Str));
    assert(reads_view(reads0@) =~= seq![("artifact_version"@, ReadKind::Str), ("profile_name"@, ReadKind::Str), ("verification_status"@, ReadKind::Str)]);
    match check_reads(receipt, &reads0, args.receipt.as_str(), "deployment verification receipt") {
        Err(m) => {
            return Err(CommandError::Parse(m));
        },
        Ok(_) => {},
    }
    assert(reads_view(reads0@)[0].0 == "artifact_version"@);
    assert(reads_view(reads0@)[1].0 == "profile_name"@);
    assert(reads_view(reads0@)[2].0 == "verification_status"@);
    let mut pairs: Vec<(String, JsonValue)> = Vec::new();
    pairs.push((owned("schema_version"), JsonValue::Str(owned("1"))));
    pairs.push((owned("receipt_path"), JsonValue::Str(args.receipt.clone())));
    pairs.push((owned("artifact_version"), JsonValue::Str(str_field(receipt, "artifact_version"))));
    pairs.push((owned("profile_name"), JsonValue::Str(str_field(receipt, "profile_name"))));
    pairs.push((owned("verification_status"), JsonValue::Str(str_field(receipt, "verification_status"))));
    proof {
        let args = args@;
        let receipt = entries_view(receipt@);
        assert(entries_view(pairs@) =~= seq![
                ("schema_version"@, Json::Str("1"@)),
                ("receipt_path"@, Json::Str(args.receipt)),
                ("artifact_version"@, Json::Str(str_of(receipt, "artifact_version"@))),
                ("profile_name"@, Json::Str(str_of(receipt, "profile_name"@))),
                ("verification_status"@, Json::Str(str_of(receipt, "verification_status"@))),
            ]);
    }
    Ok(object_from_pairs(pairs))
}


} // verus!
