use vstd::prelude::*;
use crate::cli::{
    empty_message, last_number, last_number_of, last_text, last_text_of, missing_arg,
    missing_message, opt_view, require_arg, require_filled, require_non_empty, rule, rules_view,
    scan, scan_args, texts_view, FlagRule, InlineForm, RuleSpec, ValueKind,
};
use crate::fields::{
    check_reads, first_read_failure, json_outcome, outcome, read, reads_view, str_field, str_of,
    u64_field, u64_of, value_field, value_of, CommandError, Failure, ReadKind,
};
use crate::fields::{or_else, push_opt_str, push_opt_text, with_opt_str, with_opt_text};
use crate::json::{entries_get, entries_view, object_from_pairs, object_of, Json, JsonValue};
use crate::text::{is_blank, owned, trimmed};

verus! {

/// The arguments of `profile provenance-receipt`.
#[derive(Debug, PartialEq, Eq)]
pub struct ProvenanceReceiptArgs {
    pub snapshot: String,
    pub refresh_receipt: Option<String>,
    pub captured_at_unix_ms: u64,
    pub out_path: String,
}

pub struct ProvenanceReceiptArgsView {
    pub snapshot: Seq<char>,
    pub refresh_receipt: Option<Seq<char>>,
    pub captured_at_unix_ms: u64,
    pub out_path: Seq<char>,
}

impl View for ProvenanceReceiptArgs {
    type V = ProvenanceReceiptArgsView;

    open spec fn view(&self) -> ProvenanceReceiptArgsView {
        ProvenanceReceiptArgsView {
            snapshot: self.snapshot@,
            refresh_receipt: opt_view(self.refresh_receipt),
            captured_at_unix_ms: self.captured_at_unix_ms,
            out_path: self.out_path@,
        }
    }
}

pub open spec fn usage_text() -> Seq<char> {
    "usage: afterburner profile provenance-receipt --snapshot PATH [--refresh-receipt PATH] --captured-at-unix-ms N [--out PATH]"@
}

pub fn usage() -> (r: &'static str)
    ensures
        r@ == usage_text(),
{
    "usage: afterburner profile provenance-receipt --snapshot PATH [--refresh-receipt PATH] --captured-at-unix-ms N [--out PATH]"
}

pub open spec fn rules_spec() -> Seq<RuleSpec> {
    seq![
        RuleSpec { name: "--snapshot"@, kind: ValueKind::Text, inline: InlineForm::StripAll },
        RuleSpec { name: "--refresh-receipt"@, kind: ValueKind::Text, inline: InlineForm::StripAll },
        RuleSpec { name: "--captured-at-unix-ms"@, kind: ValueKind::Number, inline: InlineForm::StripAll },
        RuleSpec { name: "--out"@, kind: ValueKind::Text, inline: InlineForm::StripAll },
    ]
}

fn rules() -> (r: Vec<FlagRule>)
    ensures
        rules_view(r@) == rules_spec(),
{
    let mut r = Vec::new();
    r.push(rule("--snapshot", ValueKind::Text, InlineForm::StripAll));
    r.push(rule("--refresh-receipt", ValueKind::Text, InlineForm::StripAll));
    r.push(rule("--captured-at-unix-ms", ValueKind::Number, InlineForm::StripAll));
    r.push(rule("--out", ValueKind::Text, InlineForm::StripAll));
    assert(rules_view(r@) =~= rules_spec());
    r
}

/// The arguments that the command line gives, or why it is refused.
pub open spec fn parse_args_spec(args: Seq<Seq<char>>) -> Result<ProvenanceReceiptArgsView, Failure> {
    match scan(rules_spec(), args, "profile provenance-receipt"@, usage_text()) {
        Err(m) => Err(Failure::InvalidArg(m)),
        Ok(a) => {
            match last_text(a, 0) {
                None => Err(Failure::InvalidArg(missing_message("--snapshot"@, usage_text()))),
                Some(v_snapshot) => {
                    match last_number(a, 2) {
                        None => Err(Failure::InvalidArg(missing_message("--captured-at-unix-ms"@, usage_text()))),
                        Some(v_captured_at_unix_ms) => {
                            Ok(ProvenanceReceiptArgsView {
                                snapshot: v_snapshot,
                                refresh_receipt: last_text(a, 1),
                                captured_at_unix_ms: v_captured_at_unix_ms,
                                out_path: match last_text(a, 3) { Some(p) => p, None => "artifacts/profiling/profiling_provenance_receipt.json"@ },
                            })
                        }
                    }
                }
            }
        },
    }
}

pub fn parse_args(args: &Vec<String>) -> (r: Result<ProvenanceReceiptArgs, CommandError>)
    ensures
        outcome(r) == parse_args_spec(texts_view(args@)),
{
    let rules = rules();
    let a = match scan_args(&rules, args, "profile provenance-receipt", usage()) {
        Ok(a) => a,
        Err(m) => {
            return Err(CommandError::InvalidArg(m));
        },
    };
    let snapshot = match require_arg(last_text_of(&a, 0), "--snapshot", usage()) {
        Ok(v) => v,
        Err(m) => {
            return Err(CommandError::InvalidArg(m));
        },
    };
    let captured_at_unix_ms = match last_number_of(&a, 2) {
        Some(n) => n,
        None => {
            return Err(CommandError::InvalidArg(missing_arg("--captured-at-unix-ms", usage())));
        },
    };
    let refresh_receipt = last_text_of(&a, 1);
    let out_path = match last_text_of(&a, 3) {
        Some(s) => s,
        None => owned("artifacts/profiling/profiling_provenance_receipt.json"),
    };
    Ok(ProvenanceReceiptArgs { snapshot, refresh_receipt, captured_at_unix_ms, out_path })
}

/// The provenance receipt of a profiling run: the snapshot it rests on, and the refresh receipt when one is named.
pub open spec fn receipt_spec(args: ProvenanceReceiptArgsView, snapshot: Seq<(Seq<char>, Json)>) -> Result<Json, Failure> {
    match first_read_failure(snapshot, seq![("profiler_version"@, ReadKind::Str), ("profile_kind"@, ReadKind::Str)], args.snapshot, "profiling environment snapshot"@) {
        Some(m) => Err(Failure::Parse(m)),
        None => Ok(object_of(with_opt_text(seq![
                ("schema_version"@, Json::Str("1"@)),
                ("snapshot_path"@, Json::Str(args.snapshot)),
                ("profile_kind"@, Json::Str(str_of(snapshot, "profile_kind"@))),
                ("profiler_version"@, Json::Str(str_of(snapshot, "profiler_version"@))),
                ("captured_at_unix_ms"@, Json::UInt(args.captured_at_unix_ms)),
            ], "refresh_receipt_path"@, args.refresh_receipt))),
    }
}

/// Builds the provenance receipt from the snapshot's fields.
pub fn build_receipt(args: &ProvenanceReceiptArgs, snapshot: &Vec<(String, JsonValue)>) -> (r: Result<JsonValue, CommandError>)
    ensures
        json_outcome(r) == receipt_spec(args@, entries_view(snapshot@)),
{
    let mut reads0 = Vec::new();
    reads0.push(read("profiler_version", ReadKind::Str));
    reads0.push(read("profile_kind", ReadKind::Str));
    assert(reads_view(reads0@) =~= seq![("profiler_version"@, ReadKind::Str), ("profile_kind"@, ReadKind::Str)]);
    match check_reads(snapshot, &reads0, args.snapshot.as_str(), "profiling environment snapshot") {
        Err(m) => {
            return Err(CommandError::Parse(m));
        },
        Ok(_) => {},
    }
    assert(reads_view(reads0@)[0].0 == "profiler_version"@);
    assert(reads_view(reads0@)[1].0 == "profile_kind"@);
    let mut pairs: Vec<(String, JsonValue)> = Vec::new();
    pairs.push((owned("schema_version"), JsonValue::Str(owned("1"))));
    pairs.push((owned("snapshot_path"), JsonValue::Str(args.snapshot.clone())));
    pairs.push((owned("profile_kind"), JsonValue::Str(str_field(snapshot, "profile_kind"))));
    pairs.push((owned("profiler_version"), JsonValue::Str(str_field(snapshot, "profiler_version"))));
    pairs.push((owned("captured_at_unix_ms"), JsonValue::UInt(args.captured_at_unix_ms)));
    proof {
        let args = args@;
        let snapshot = entries_view(snapshot@);
        assert(entries_view(pairs@) =~= seq![
                ("schema_version"@, Json::Str("1"@)),
                ("snapshot_path"@, Json::Str(args.snapshot)),
                ("profile_kind"@, Json::Str(str_of(snapshot, "profile_kind"@))),
                ("profiler_version"@, Json::Str(str_of(snapshot, "profiler_version"@))),
                ("captured_at_unix_ms"@, Json::UInt(args.captured_at_unix_ms)),
            ]);
    }
    push_opt_text(&mut pairs, "refresh_receipt_path", &args.refresh_receipt);
    Ok(object_from_pairs(pairs))
}


} // verus!
