use vstd::prelude::*;
use crate::cli::{
    empty_message, last_number, last_number_of, last_text, last_text_of, missing_arg,
    missing_message, opt_view, require_arg, require_filled, require_non_empty, rule, rules_view,
    scan, scan_args, texts_view, FlagRule, InlineForm, RuleSpec, ValueKind,
};
use crate::fields::{
    check_reads, first_read_failure, json_outcome, outcome, read, reads_view, str_field, str_of,
    u64_field, u64_of, value_field, value_of, CommandError, Failure, ReadKind,
};
use crate::fields::{or_else, push_opt_str, with_opt_str};
use crate::json::{entries_get, entries_view, object_from_pairs, object_of, Json, JsonValue};
use crate::text::{is_blank, owned, trimmed};

verus! {

/// The arguments of `source provenance-evidence-bundle`.
#[derive(Debug, PartialEq, Eq)]
pub struct EvidenceBundleArgs {
    pub provenance_receipt: String,
    pub out_path: String,
}

pub struct EvidenceBundleArgsView {
    pub provenance_receipt: Seq<char>,
    pub out_path: Seq<char>,
}

impl View for EvidenceBundleArgs {
    type V = EvidenceBundleArgsView;

    open spec fn view(&self) -> EvidenceBundleArgsView {
        EvidenceBundleArgsView {
            provenance_receipt: self.provenance_receipt@,
            out_path: self.out_path@,
        }
    }
}

pub open spec fn usage_text() -> Seq<char> {
    "usage: afterburner source provenance-evidence-bundle --provenance-receipt PATH [--out PATH]"@
}

pub fn usage() -> (r: &'static str)
    ensures
        r@ == usage_text(),
{
    "usage: afterburner source provenance-evidence-bundle --provenance-receipt PATH [--out PATH]"
}

pub open spec fn rules_spec() -> Seq<RuleSpec> {
    seq![
        RuleSpec { name: "--provenance-receipt"@, kind: ValueKind::Text, inline: InlineForm::StripAll },
        RuleSpec { name: "--out"@, kind: ValueKind::Text, inline: InlineForm::StripAll },
    ]
}

fn rules() -> (r: Vec<FlagRule>)
    ensures
        rules_view(r@) == rules_spec(),
{
    let mut r = Vec::new();
    r.push(rule("--provenance-receipt", ValueKind::Text, InlineForm::StripAll));
    r.push(rule("--out", ValueKind::Text, InlineForm::StripAll));
    assert(rules_view(r@) =~= rules_spec());
    r
}

/// The arguments that the command line gives, or why it is refused.
pub open spec fn parse_args_spec(args: Seq<Seq<char>>) -> Result<EvidenceBundleArgsView, Failure> {
    match scan(rules_spec(), args, "source provenance-evidence-bundle"@, usage_text()) {
        Err(m) => Err(Failure::InvalidArg(m)),
        Ok(a) => {
            match last_text(a, 0) {
                None => Err(Failure::InvalidArg(missing_message("--provenance-receipt"@, usage_text()))),
                Some(v_provenance_receipt) => {
                    Ok(EvidenceBundleArgsView {
                        provenance_receipt: v_provenance_receipt,
                        out_path: match last_text(a, 1) { Some(p) => p, None => "artifacts/data/pretraining_source_provenance_evidence_bundle.json"@ },
                    })
                }
            }
        },
    }
}

pub fn parse_args(args: &Vec<String>) -> (r: Result<EvidenceBundleArgs, CommandError>)
    ensures
        outcome(r) == parse_args_spec(texts_view(args@)),
{
    let rules = rules();
    let a = match scan_args(&rules, args, "source provenance-evidence-bundle", usage()) {
        Ok(a) => a,
        Err(m) => {
            return Err(CommandError::InvalidArg(m));
        },
    };
    let provenance_receipt = match require_arg(last_text_of(&a, 0), "--provenance-receipt", usage()) {
        Ok(v) => v,
        Err(m) => {
            return Err(CommandError::InvalidArg(m));
        },
    };
    let out_path = match last_text_of(&a, 1) {
        Some(s) => s,
        None => owned("artifacts/data/pretraining_source_provenance_evidence_bundle.json"),
    };
    Ok(EvidenceBundleArgs { provenance_receipt, out_path })
}

/// The evidence bundle of a pretraining source: its approval, and the provenance receipt as its one evidence source.
pub open spec fn bundle_spec(args: EvidenceBundleArgsView, provenance: Seq<(Seq<char>, Json)>, approval: Seq<(Seq<char>, Json)>) -> Result<Json, Failure> {
    match or_else(first_read_failure(provenance, seq![("approval_receipt_path"@, ReadKind::Str)], args.provenance_receipt, "pretraining source artifact"@), or_else(first_read_failure(approval, seq![("source"@, ReadKind::Str), ("source_revision"@, ReadKind::Str), ("approval_status"@, ReadKind::Str)], str_of(provenance, "approval_receipt_path"@), "pretraining source artifact"@), first_read_failure(provenance, seq![("registry_entry_path"@, ReadKind::Str), ("upstream_locator"@, ReadKind::Str), ("reviewed_metadata_sha256"@, ReadKind::Str)], args.provenance_receipt, "pretraining source artifact"@))) {
        Some(m) => Err(Failure::Parse(m)),
        None => Ok(object_of(seq![
                ("schema_version"@, Json::Str("1"@)),
                ("approval_receipt_path"@, Json::Str(str_of(provenance, "approval_receipt_path"@))),
                ("provenance_receipt_path"@, Json::Str(args.provenance_receipt)),
                ("source"@, Json::Str(str_of(approval, "source"@))),
                ("source_revision"@, Json::Str(str_of(approval, "source_revision"@))),
                ("approval_status"@, Json::Str(str_of(approval, "approval_status"@))),
                ("evidence_count"@, Json::UInt(1)),
                ("evidence_sources"@, Json::Array(seq![object_of(seq![("registry_entry_path"@, Json::Str(str_of(provenance, "registry_entry_path"@))), ("upstream_locator"@, Json::Str(str_of(provenance, "upstream_locator"@))), ("reviewed_metadata_sha256"@, Json::Str(str_of(provenance, "reviewed_metadata_sha256"@)))])])),
            ])),
    }
}

/// Builds the evidence bundle from the provenance receipt and the approval receipt it names.
pub fn build_bundle(args: &EvidenceBundleArgs, provenance: &Vec<(String, JsonValue)>, approval: &Vec<(String, JsonValue)>) -> (r: Result<JsonValue, CommandError>)
    ensures
        json_outcome(r) == bundle_spec(args@, entries_view(provenance@), entries_view(approval@)),
{
    let mut reads0 = Vec::new();
    reads0.push(read("approval_receipt_path", ReadKind::Str));
    assert(reads_view(reads0@) =~= seq![("approval_receipt_path"@, ReadKind::Str)]);
    match check_reads(provenance, &reads0, args.provenance_receipt.as_str(), "pretraining source artifact") {
        Err(m) => {
            return Err(CommandError::Parse(m));
        },
        Ok(_) => {},
    }
    assert(reads_view(reads0@)[0].0 == "approval_receipt_path"@);
    let mut reads1 = Vec::new();
    reads1.push(read("source", ReadKind::Str));
    reads1.push(read("source_revision", ReadKind::Str));
    reads1.push(read("approval_status", ReadKind::Str));
    assert(reads_view(reads1@) =~= seq![("source"@, ReadKind::Str), ("source_revision"@, ReadKind::Str), ("approval_status"@, ReadKind::Str)]);
    match check_reads(approval, &reads1, str_field(provenance, "approval_receipt_path").as_str(), "pretraining source artifact") {
        Err(m) => {
            return Err(CommandError::Parse(m));
        },
        Ok(_) => {},
    }
    assert(reads_view(reads1@)[0].0 == "source"@);
    assert(reads_view(reads1@)[1].0 == "source_revision"@);
    assert(reads_view(reads1@)[2].0 == "approval_status"@);
    let mut reads2 = Vec::new();
    reads2.push(read("registry_entry_path", ReadKind::Str));
    reads2.push(read("upstream_locator", ReadKind::Str));
    reads2.push(read("reviewed_metadata_sha256", ReadKind::Str));
    assert(reads_view(reads2@) =~= seq![("registry_entry_path"@, ReadKind::Str), ("upstream_locator"@, ReadKind::Str), ("reviewed_metadata_sha256"@, ReadKind::Str)]);
    match check_reads(provenance, &reads2, args.provenance_receipt.as_str(), "pretraining source artifact") {
        Err(m) => {
            return Err(CommandError::Parse(m));
        },
        Ok(_) => {},
    }
    assert(reads_view(reads2@)[0].0 == "registry_entry_path"@);
    assert(reads_view(reads2@)[1].0 == "upstream_locator"@);
    assert(reads_view(reads2@)[2].0 == "reviewed_metadata_sha256"@);
    let mut items1: Vec<JsonValue> = Vec::new();
    let mut nested2: Vec<(String, JsonValue)> = Vec::new();
    nested2.push((owned("registry_entry_path"), JsonValue::Str(str_field(provenance, "registry_entry_path"))));
    nested2.push((owned("upstream_locator"), JsonValue::Str(str_field(provenance, "upstream_locator"))));
    nested2.push((owned("reviewed_metadata_sha256"), JsonValue::Str(str_field(provenance, "reviewed_metadata_sha256"))));
    proof {
        let args = args@;
        let provenance = entries_view(provenance@);
        let approval = entries_view(approval@);
        assert(entries_view(nested2@) =~= seq![("registry_entry_path"@, Json::Str(str_of(provenance, "registry_entry_path"@))), ("upstream_locator"@, Json::Str(str_of(provenance, "upstream_locator"@))), ("reviewed_metadata_sha256"@, Json::Str(str_of(provenance, "reviewed_metadata_sha256"@)))]);
    }
    items1.push(object_from_pairs(nested2));
    proof {
        crate::json::lemma_array_view(items1);
    }
    proof {
        let args = args@;
        let provenance = entries_view(provenance@);
        let approval = entries_view(approval@);
        assert(crate::json::items_view(items1@) =~= seq![object_of(seq![("registry_entry_path"@, Json::Str(str_of(provenance, "registry_entry_path"@))), ("upstream_locator"@, Json::Str(str_of(provenance, "upstream_locator"@))), ("reviewed_metadata_sha256"@, Json::Str(str_of(provenance, "reviewed_metadata_sha256"@)))])]);
    }
    let mut pairs: Vec<(String, JsonValue)> = Vec::new();
    pairs.push((owned("schema_version"), JsonValue::Str(owned("1"))));
    pairs.push((owned("approval_receipt_path"), JsonValue::Str(str_field(provenance, "approval_receipt_path"))));
    pairs.push((owned("provenance_receipt_path"), JsonValue::Str(args.provenance_receipt.clone())));
    pairs.push((owned("source"), JsonValue::Str(str_field(approval, "source"))));
    pairs.push((owned("source_revision"), JsonValue::Str(str_field(approval, "source_revision"))));
    pairs.push((owned("approval_status"), JsonValue::Str(str_field(approval, "approval_status"))));
    pairs.push((owned("evidence_count"), JsonValue::UInt(1)));
    pairs.push((owned("evidence_sources"), JsonValue::Array(items1)));
    proof {
        let args = args@;
        let provenance = entries_view(provenance@);
        let approval = entries_view(approval@);
        assert(entries_view(pairs@) =~= seq![
                ("schema_version"@, Json::Str("1"@)),
                ("approval_receipt_path"@, Json::Str(str_of(provenance, "approval_receipt_path"@))),
                ("provenance_receipt_path"@, Json::Str(args.provenance_receipt)),
                ("source"@, Json::Str(str_of(approval, "source"@))),
                ("source_revision"@, Json::Str(str_of(approval, "source_revision"@))),
                ("approval_status"@, Json::Str(str_of(approval, "approval_status"@))),
                ("evidence_count"@, Json::UInt(1)),
                ("evidence_sources"@, Json::Array(seq![object_of(seq![("registry_entry_path"@, Json::Str(str_of(provenance, "registry_entry_path"@))), ("upstream_locator"@, Json::Str(str_of(provenance, "upstream_locator"@))), ("reviewed_metadata_sha256"@, Json::Str(str_of(provenance, "reviewed_metadata_sha256"@)))])])),
            ]);
    }
    Ok(object_from_pairs(pairs))
}

/// The path of the approval receipt that a provenance receipt names.
pub fn approval_receipt_path(args: &EvidenceBundleArgs, provenance: &Vec<(String, JsonValue)>) -> (r:
    Result<String, CommandError>)
    ensures
        match first_read_failure(
            entries_view(provenance@),
            seq![("approval_receipt_path"@, ReadKind::Str)],
            args@.provenance_receipt,
            "pretraining source artifact"@,
        ) {
            Some(m) => r matches Err(CommandError::Parse(x)) && x@ == m,
            None => r matches Ok(p) && p@ == str_of(entries_view(provenance@), "approval_receipt_path"@),
        },
{
    let mut reads = Vec::new();
    reads.push(read("approval_receipt_path", ReadKind::Str));
    assert(reads_view(reads@) =~= seq![("approval_receipt_path"@, ReadKind::Str)]);
    match check_reads(provenance, &reads, args.provenance_receipt.as_str(), "pretraining source artifact") {
        Err(m) => Err(CommandError::Parse(m)),
        Ok(_) => {
            assert(reads_view(reads@)[0].0 == "approval_receipt_path"@);
            Ok(str_field(provenance, "approval_receipt_path"))
        },
    }
}

} // verus!
