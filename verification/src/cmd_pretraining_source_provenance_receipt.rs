use vstd::prelude::*;
use crate::cli::{
    empty_message, last_number, last_number_of, last_text, last_text_of, missing_arg,
    missing_message, opt_view, require_arg, require_filled, require_non_empty, rule, rules_view,
    scan, scan_args, texts_view, FlagRule, InlineForm, RuleSpec, ValueKind,
};
use crate::fields::{
    check_reads, first_read_failure, json_outcome, outcome, read, reads_view, str_field, str_of,
    u64_field, u64_of, value_field, value_of, CommandError, Failure, ReadKind,
};
use crate::fields::{or_else, push_opt_str, with_opt_str};
use crate::json::{entries_get, entries_view, object_from_pairs, object_of, Json, JsonValue};
use crate::text::{is_blank, owned, trimmed};

verus! {

/// The arguments of `source provenance receipt`.
#[derive(Debug, PartialEq, Eq)]
pub struct ProvenanceReceiptArgs {
    pub approval_receipt: String,
    pub registry_entry_path: String,
    pub upstream_locator: String,
    pub reviewed_metadata_sha256: String,
    pub out_path: String,
}

pub struct ProvenanceReceiptArgsView {
    pub approval_receipt: Seq<char>,
    pub registry_entry_path: Seq<char>,
    pub upstream_locator: Seq<char>,
    pub reviewed_metadata_sha256: Seq<char>,
    pub out_path: Seq<char>,
}

impl View for ProvenanceReceiptArgs {
    type V = ProvenanceReceiptArgsView;

    open spec fn view(&self) -> ProvenanceReceiptArgsView {
        ProvenanceReceiptArgsView {
            approval_receipt: self.approval_receipt@,
            registry_entry_path: self.registry_entry_path@,
            upstream_locator: self.upstream_locator@,
            reviewed_metadata_sha256: self.reviewed_metadata_sha256@,
            out_path: self.out_path@,
        }
    }
}

pub open spec fn usage_text() -> Seq<char> {
    "usage: afterburner source provenance receipt --approval-receipt PATH --registry-entry-path PATH --upstream-locator LOCATOR --reviewed-metadata-sha256 SHA256 [--out PATH]"@
}

pub fn usage() -> (r: &'static str)
    ensures
        r@ == usage_text(),
{
    "usage: afterburner source provenance receipt --approval-receipt PATH --registry-entry-path PATH --upstream-locator LOCATOR --reviewed-metadata-sha256 SHA256 [--out PATH]"
}

pub open spec fn rules_spec() -> Seq<RuleSpec> {
    seq![
        RuleSpec { name: "--approval-receipt"@, kind: ValueKind::Text, inline: InlineForm::StripAll },
        RuleSpec { name: "--registry-entry-path"@, kind: ValueKind::Text, inline: InlineForm::StripAll },
        RuleSpec { name: "--upstream-locator"@, kind: ValueKind::Text, inline: InlineForm::StripAll },
        RuleSpec { name: "--reviewed-metadata-sha256"@, kind: ValueKind::Text, inline: InlineForm::StripAll },
        RuleSpec { name: "--out"@, kind: ValueKind::Text, inline: InlineForm::StripAll },
    ]
}

fn rules() -> (r: Vec<FlagRule>)
    ensures
        rules_view(r@) == rules_spec(),
{
    let mut r = Vec::new();
    r.push(rule("--approval-receipt", ValueKind::Text, InlineForm::StripAll));
    r.push(rule("--registry-entry-path", ValueKind::Text, InlineForm::StripAll));
    r.push(rule("--upstream-locator", ValueKind::Text, InlineForm::StripAll));
    r.push(rule("--reviewed-metadata-sha256", ValueKind::Text, InlineForm::StripAll));
    r.push(rule("--out", ValueKind::Text, InlineForm::StripAll));
    assert(rules_view(r@) =~= rules_spec());
    r
}

/// The arguments that the command line gives, or why it is refused.
pub open spec fn parse_args_spec(args: Seq<Seq<char>>) -> Result<ProvenanceReceiptArgsView, Failure> {
    match scan(rules_spec(), args, "source provenance receipt"@, usage_text()) {
        Err(m) => Err(Failure::InvalidArg(m)),
        Ok(a) => {
            match last_text(a, 3) {
                None => Err(Failure::InvalidArg(missing_message("--reviewed-metadata-sha256"@, usage_text()))),
                Some(v_reviewed_metadata_sha256) => if is_blank(v_reviewed_metadata_sha256) { Err(Failure::InvalidArg(empty_message("--reviewed-metadata-sha256"@, usage_text()))) } else {
                    if !(crate::data::lower_hex_sha256(v_reviewed_metadata_sha256)) { Err(Failure::InvalidArg("--reviewed-metadata-sha256 must be 64 lowercase hex characters\n"@ + usage_text())) } else {
                    match last_text(a, 0) {
                        None => Err(Failure::InvalidArg(missing_message("--approval-receipt"@, usage_text()))),
                        Some(v_approval_receipt) => {
                            match last_text(a, 1) {
                                None => Err(Failure::InvalidArg(missing_message("--registry-entry-path"@, usage_text()))),
                                Some(v_registry_entry_path) => if is_blank(v_registry_entry_path) { Err(Failure::InvalidArg(empty_message("--registry-entry-path"@, usage_text()))) } else {
                                    match last_text(a, 2) {
                                        None => Err(Failure::InvalidArg(missing_message("--upstream-locator"@, usage_text()))),
                                        Some(v_upstream_locator) => if is_blank(v_upstream_locator) { Err(Failure::InvalidArg(empty_message("--upstream-locator"@, usage_text()))) } else {
                                            Ok(ProvenanceReceiptArgsView {
                                                approval_receipt: v_approval_receipt,
                                                registry_entry_path: v_registry_entry_path,
                                                upstream_locator: v_upstream_locator,
                                                reviewed_metadata_sha256: v_reviewed_metadata_sha256,
                                                out_path: match last_text(a, 4) { Some(p) => p, None => "artifacts/data/pretraining_source_provenance_receipt.json"@ },
                                            })
                                        }
                                    }
                                }
                            }
                        }
                    }
                    }
                }
            }
        },
    }
}

pub fn parse_args(args: &Vec<String>) -> (r: Result<ProvenanceReceiptArgs, CommandError>)
    ensures
        outcome(r) == parse_args_spec(texts_view(args@)),
{
    let rules = rules();
    let a = match scan_args(&rules, args, "source provenance receipt", usage()) {
        Ok(a) => a,
        Err(m) => {
            return Err(CommandError::InvalidArg(m));
        },
    };
    let reviewed_metadata_sha256 = match require_filled(last_text_of(&a, 3), "--reviewed-metadata-sha256", usage()) {
        Ok(v) => v,
        Err(m) => {
            return Err(CommandError::InvalidArg(m));
        },
    };
    if !(crate::data::is_lower_hex_sha256(reviewed_metadata_sha256.as_str())) {
        return Err(CommandError::InvalidArg(crate::text::cat("--reviewed-metadata-sha256 must be 64 lowercase hex characters\n", usage())));
    }
    let approval_receipt = match require_arg(last_text_of(&a, 0), "--approval-receipt", usage()) {
        Ok(v) => v,
        Err(m) => {
            return Err(CommandError::InvalidArg(m));
        },
    };
    let registry_entry_path = match require_filled(last_text_of(&a, 1), "--registry-entry-path", usage()) {
        Ok(v) => v,
        Err(m) => {
            return Err(CommandError::InvalidArg(m));
        },
    };
    let upstream_locator = match require_filled(last_text_of(&a, 2), "--upstream-locator", usage()) {
        Ok(v) => v,
        Err(m) => {
            return Err(CommandError::InvalidArg(m));
        },
    };
    let out_path = match last_text_of(&a, 4) {
        Some(s) => s,
        None => owned("artifacts/data/pretraining_source_provenance_receipt.json"),
    };
    Ok(ProvenanceReceiptArgs { approval_receipt, registry_entry_path, upstream_locator, reviewed_metadata_sha256, out_path })
}

/// The provenance receipt of a pretraining source, as the arguments give it.
pub open spec fn receipt_spec(args: ProvenanceReceiptArgsView) -> Json {
    object_of(seq![
            ("schema_version"@, Json::Str("1"@)),
            ("approval_receipt_path"@, Json::Str(args.approval_receipt)),
            ("registry_entry_path"@, Json::Str(args.registry_entry_path)),
            ("upstream_locator"@, Json::Str(args.upstream_locator)),
            ("reviewed_metadata_sha256"@, Json::Str(args.reviewed_metadata_sha256)),
        ])
}

/// Builds the provenance receipt.
pub fn build_receipt(args: &ProvenanceReceiptArgs) -> (r: JsonValue)
    ensures
        r@ == receipt_spec(args@),
{
    let mut pairs: Vec<(String, JsonValue)> = Vec::new();
    pairs.push((owned("schema_version"), JsonValue::Str(owned("1"))));
    pairs.push((owned("approval_receipt_path"), JsonValue::Str(args.approval_receipt.clone())));
    pairs.push((owned("registry_entry_path"), JsonValue::Str(args.registry_entry_path.clone())));
    pairs.push((owned("upstream_locator"), JsonValue::Str(args.upstream_locator.clone())));
    pairs.push((owned("reviewed_metadata_sha256"), JsonValue::Str(args.reviewed_metadata_sha256.clone())));
    proof {
        let args = args@;
        assert(entries_view(pairs@) =~= seq![
            ("schema_version"@, Json::Str("1"@)),
            ("approval_receipt_path"@, Json::Str(args.approval_receipt)),
            ("registry_entry_path"@, Json::Str(args.registry_entry_path)),
            ("upstream_locator"@, Json::Str(args.upstream_locator)),
            ("reviewed_metadata_sha256"@, Json::Str(args.reviewed_metadata_sha256)),
        ]);
    }
    object_from_pairs(pairs)
}


} // verus!
