use vstd::prelude::*;
use crate::cli::{
    empty_message, last_number, last_number_of, last_text, last_text_of, missing_arg,
    missing_message, opt_view, require_arg, require_filled, require_non_empty, rule, rules_view,
    scan, scan_args, texts_view, FlagRule, InlineForm, RuleSpec, ValueKind,
};
use crate::fields::{
    check_reads, first_read_failure, json_outcome, outcome, read, reads_view, str_field, str_of,
    u64_field, u64_of, value_field, value_of, CommandError, Failure, ReadKind,
};
use crate::fields::{or_else, push_opt_str, push_opt_text, with_opt_str, with_opt_text};
use crate::json::{entries_get, entries_view, object_from_pairs, object_of, Json, JsonValue};
use crate::text::{is_blank, owned, trimmed};
use crate::cmd_drift_baseline::{gate_spec, receipt_gate};

verus! {

/// The arguments of `drift-refresh-baseline`.
#[derive(Debug, PartialEq, Eq)]
pub struct RefreshArgs {
    pub summary: String,
    pub receipt: String,
    pub current_baseline: String,
    pub out_path: String,
    pub archive_path: String,
    pub refresh_receipt_path: String,
}

pub struct RefreshArgsView {
    pub summary: Seq<char>,
    pub receipt: Seq<char>,
    pub current_baseline: Seq<char>,
    pub out_path: Seq<char>,
    pub archive_path: Seq<char>,
    pub refresh_receipt_path: Seq<char>,
}

impl View for RefreshArgs {
    type V = RefreshArgsView;

    open spec fn view(&self) -> RefreshArgsView {
        RefreshArgsView {
            summary: self.summary@,
            receipt: self.receipt@,
            current_baseline: self.current_baseline@,
            out_path: self.out_path@,
            archive_path: self.archive_path@,
            refresh_receipt_path: self.refresh_receipt_path@,
        }
    }
}

pub open spec fn usage_text() -> Seq<char> {
    "usage: afterburner drift-refresh-baseline --summary PATH --receipt PATH --current-baseline PATH [--out PATH] [--archive PATH] [--refresh-receipt PATH]"@
}

pub fn usage() -> (r: &'static str)
    ensures
        r@ == usage_text(),
{
    "usage: afterburner drift-refresh-baseline --summary PATH --receipt PATH --current-baseline PATH [--out PATH] [--archive PATH] [--refresh-receipt PATH]"
}

pub open spec fn rules_spec() -> Seq<RuleSpec> {
    seq![
        RuleSpec { name: "--summary"@, kind: ValueKind::Text, inline: InlineForm::StripAll },
        RuleSpec { name: "--receipt"@, kind: ValueKind::Text, inline: InlineForm::StripAll },
        RuleSpec { name: "--current-baseline"@, kind: ValueKind::Text, inline: InlineForm::StripAll },
        RuleSpec { name: "--out"@, kind: ValueKind::Text, inline: InlineForm::StripAll },
        RuleSpec { name: "--archive"@, kind: ValueKind::Text, inline: InlineForm::StripAll },
        RuleSpec { name: "--refresh-receipt"@, kind: ValueKind::Text, inline: InlineForm::StripAll },
    ]
}

fn rules() -> (r: Vec<FlagRule>)
    ensures
        rules_view(r@) == rules_spec(),
{
    let mut r = Vec::new();
    r.push(rule("--summary", ValueKind::Text, InlineForm::StripAll));
    r.push(rule("--receipt", ValueKind::Text, InlineForm::StripAll));
    r.push(rule("--current-baseline", ValueKind::Text, InlineForm::StripAll));
    r.push(rule("--out", ValueKind::Text, InlineForm::StripAll));
    r.push(rule("--archive", ValueKind::Text, InlineForm::StripAll));
    r.push(rule("--refresh-receipt", ValueKind::Text, InlineForm::StripAll));
    assert(rules_view(r@) =~= rules_spec());
    r
}

/// The arguments that the command line gives, or why it is refused.
pub open spec fn parse_args_spec(args: Seq<Seq<char>>) -> Result<RefreshArgsView, Failure> {
    match scan(rules_spec(), args, "drift-refresh-baseline"@, usage_text()) {
        Err(m) => Err(Failure::InvalidArg(m)),
        Ok(a) => {
            match last_text(a, 0) {
                None => Err(Failure::InvalidArg(missing_message("--summary"@, usage_text()))),
                Some(v_summary) => {
                    match last_text(a, 1) {
                        None => Err(Failure::InvalidArg(missing_message("--receipt"@, usage_text()))),
                        Some(v_receipt) => {
                            match last_text(a, 2) {
                                None => Err(Failure::InvalidArg(missing_message("--current-baseline"@, usage_text()))),
                                Some(v_current_baseline) => {
                                    Ok(RefreshArgsView {
                                        summary: v_summary,
                                        receipt: v_receipt,
                                        current_baseline: v_current_baseline,
                                        out_path: match last_text(a, 3) { Some(p) => p, None => "artifacts/eval/infer_output_drift_baseline.json"@ },
                                        archive_path: match last_text(a, 4) { Some(p) => p, None => "artifacts/eval/infer_output_drift_baseline.previous.json"@ },
                                        refresh_receipt_path: match last_text(a, 5) { Some(p) => p, None => "artifacts/eval/infer_output_drift_baseline_refresh.json"@ },
                                    })
                                }
                            }
                        }
                    }
                }
            }
        },
    }
}

pub fn parse_args(args: &Vec<String>) -> (r: Result<RefreshArgs, CommandError>)
    ensures
        outcome(r) == parse_args_spec(texts_view(args@)),
{
    let rules = rules();
    let a = match scan_args(&rules, args, "drift-refresh-baseline", usage()) {
        Ok(a) => a,
        Err(m) => {
            return Err(CommandError::InvalidArg(m));
        },
    };
    let summary = match require_arg(last_text_of(&a, 0), "--summary", usage()) {
        Ok(v) => v,
        Err(m) => {
            return Err(CommandError::InvalidArg(m));
        },
    };
    let receipt = match require_arg(last_text_of(&a, 1), "--receipt", usage()) {
        Ok(v) => v,
        Err(m) => {
            return Err(CommandError::InvalidArg(m));
        },
    };
    let current_baseline = match require_arg(last_text_of(&a, 2), "--current-baseline", usage()) {
        Ok(v) => v,
        Err(m) => {
            return Err(CommandError::InvalidArg(m));
        },
    };
    let out_path = match last_text_of(&a, 3) {
        Some(s) => s,
        None => owned("artifacts/eval/infer_output_drift_baseline.json"),
    };
    let archive_path = match last_text_of(&a, 4) {
        Some(s) => s,
        None => owned("artifacts/eval/infer_output_drift_baseline.previous.json"),
    };
    let refresh_receipt_path = match last_text_of(&a, 5) {
        Some(s) => s,
        None => owned("artifacts/eval/infer_output_drift_baseline_refresh.json"),
    };
    Ok(RefreshArgs { summary, receipt, current_baseline, out_path, archive_path, refresh_receipt_path })
}

/// The refreshed drift baseline, from the receipt and the summary it judged; the two probabilities are the ones given.
pub open spec fn refreshed_baseline_spec(args: RefreshArgsView, receipt: Seq<(Seq<char>, Json)>, summary: Seq<(Seq<char>, Json)>, top_probability: Json, margin_to_second: Json) -> Result<Json, Failure> {
    match or_else(first_read_failure(receipt, seq![("policy_path"@, ReadKind::Str), ("policy_profile"@, ReadKind::Str)], args.receipt, "json object"@), first_read_failure(summary, seq![("artifact"@, ReadKind::Str), ("artifact_version"@, ReadKind::Str), ("backend"@, ReadKind::Str), ("predicted_class"@, ReadKind::U64), ("top_probability"@, ReadKind::Number), ("margin_to_second"@, ReadKind::Number), ("logits_sha256"@, ReadKind::Str), ("probabilities_sha256"@, ReadKind::Str)], args.summary, "json object"@)) {
        Some(m) => Err(Failure::Parse(m)),
        None => Ok(object_of(seq![
                ("schema_version"@, Json::Str("1"@)),
                ("summary_path"@, Json::Str(args.summary)),
                ("receipt_path"@, Json::Str(args.receipt)),
                ("policy_path"@, Json::Str(str_of(receipt, "policy_path"@))),
                ("policy_profile"@, Json::Str(str_of(receipt, "policy_profile"@))),
                ("artifact"@, Json::Str(str_of(summary, "artifact"@))),
                ("artifact_version"@, Json::Str(str_of(summary, "artifact_version"@))),
                ("backend"@, Json::Str(str_of(summary, "backend"@))),
                ("predicted_class"@, Json::UInt(u64_of(summary, "predicted_class"@))),
                ("top_probability"@, top_probability),
                ("margin_to_second"@, margin_to_second),
                ("logits_sha256"@, Json::Str(str_of(summary, "logits_sha256"@))),
                ("probabilities_sha256"@, Json::Str(str_of(summary, "probabilities_sha256"@))),
            ])),
    }
}

/// Builds the refreshed baseline.
pub fn build_refreshed_baseline(args: &RefreshArgs, receipt: &Vec<(String, JsonValue)>, summary: &Vec<(String, JsonValue)>, top_probability: &JsonValue, margin_to_second: &JsonValue) -> (r: Result<JsonValue, CommandError>)
    ensures
        json_outcome(r) == refreshed_baseline_spec(args@, entries_view(receipt@), entries_view(summary@), top_probability@, margin_to_second@),
{
    let mut reads0 = Vec::new();
    reads0.push(read("policy_path", ReadKind::Str));
    reads0.push(read("policy_profile", ReadKind::Str));
    assert(reads_view(reads0@) =~= seq![("policy_path"@, ReadKind::Str), ("policy_profile"@, ReadKind::Str)]);
    match check_reads(receipt, &reads0, args.receipt.as_str(), "json object") {
        Err(m) => {
            return Err(CommandError::Parse(m));
        },
        Ok(_) => {},
    }
    assert(reads_view(reads0@)[0].0 == "policy_path"@);
    assert(reads_view(reads0@)[1].0 == "policy_profile"@);
    let mut reads1 = Vec::new();
    reads1.push(read("artifact", ReadKind::Str));
    reads1.push(read("artifact_version", ReadKind::Str));
    reads1.push(read("backend", ReadKind::Str));
    reads1.push(read("predicted_class", ReadKind::U64));
    reads1.push(read("top_probability", ReadKind::Number));
    reads1.push(read("margin_to_second", ReadKind::Number));
    reads1.push(read("logits_sha256", ReadKind::Str));
    reads1.push(read("probabilities_sha256", ReadKind::Str));
    assert(reads_view(reads1@) =~= seq![("artifact"@, ReadKind::Str), ("artifact_version"@, ReadKind::Str), ("backend"@, ReadKind::Str), ("predicted_class"@, ReadKind::U64), ("top_probability"@, ReadKind::Number), ("margin_to_second"@, ReadKind::Number), ("logits_sha256"@, ReadKind::Str), ("probabilities_sha256"@, ReadKind::Str)]);
    match check_reads(summary, &reads1, args.summary.as_str(), "json object") {
        Err(m) => {
            return Err(CommandError::Parse(m));
        },
        Ok(_) => {},
    }
    assert(reads_view(reads1@)[0].0 == "artifact"@);
    assert(reads_view(reads1@)[1].0 == "artifact_version"@);
    assert(reads_view(reads1@)[2].0 == "backend"@);
    assert(reads_view(reads1@)[3].0 == "predicted_class"@);
    assert(reads_view(reads1@)[4].0 == "top_probability"@);
    assert(reads_view(reads1@)[5].0 == "margin_to_second"@);
    assert(reads_view(reads1@)[6].0 == "logits_sha256"@);
    assert(reads_view(reads1@)[7].0 == "probabilities_sha256"@);
    let mut pairs: Vec<(String, JsonValue)> = Vec::new();
    pairs.push((owned("schema_version"), JsonValue::Str(owned("1"))));
    pairs.push((owned("summary_path"), JsonValue::Str(args.summary.clone())));
    pairs.push((owned("receipt_path"), JsonValue::Str(args.receipt.clone())));
    pairs.push((owned("policy_path"), JsonValue::Str(str_field(receipt, "policy_path"))));
    pairs.push((owned("policy_profile"), JsonValue::Str(str_field(receipt, "policy_profile"))));
    pairs.push((owned("artifact"), JsonValue::Str(str_field(summary, "artifact"))));
    pairs.push((owned("artifact_version"), JsonValue::Str(str_field(summary, "artifact_version"))));
    pairs.push((owned("backend"), JsonValue::Str(str_field(summary, "backend"))));
    pairs.push((owned("predicted_class"), JsonValue::UInt(u64_field(summary, "predicted_class"))));
    pairs.push((owned("top_probability"), crate::json::json_clone(top_probability)));
    pairs.push((owned("margin_to_second"), crate::json::json_clone(margin_to_second)));
    pairs.push((owned("logits_sha256"), JsonValue::Str(str_field(summary, "logits_sha256"))));
    pairs.push((owned("probabilities_sha256"), JsonValue::Str(str_field(summary, "probabilities_sha256"))));
    proof {
        let args = args@;
        let receipt = entries_view(receipt@);
        let summary = entries_view(summary@);
        let top_probability = top_probability@;
        let margin_to_second = margin_to_second@;
        assert(entries_view(pairs@) =~= seq![
                ("schema_version"@, Json::Str("1"@)),
                ("summary_path"@, Json::Str(args.summary)),
                ("receipt_path"@, Json::Str(args.receipt)),
                ("policy_path"@, Json::Str(str_of(receipt, "policy_path"@))),
                ("policy_profile"@, Json::Str(str_of(receipt, "policy_profile"@))),
                ("artifact"@, Json::Str(str_of(summary, "artifact"@))),
                ("artifact_version"@, Json::Str(str_of(summary, "artifact_version"@))),
                ("backend"@, Json::Str(str_of(summary, "backend"@))),
                ("predicted_class"@, Json::UInt(u64_of(summary, "predicted_class"@))),
                ("top_probability"@, top_probability),
                ("margin_to_second"@, margin_to_second),
                ("logits_sha256"@, Json::Str(str_of(summary, "logits_sha256"@))),
                ("probabilities_sha256"@, Json::Str(str_of(summary, "probabilities_sha256"@))),
            ]);
    }
    Ok(object_from_pairs(pairs))
}

/// The receipt of a refresh: where the previous baseline went, and the versions before and after.
pub open spec fn refresh_receipt_spec(args: RefreshArgsView, current: Seq<(Seq<char>, Json)>, summary: Seq<(Seq<char>, Json)>, receipt: Seq<(Seq<char>, Json)>) -> Result<Json, Failure> {
    match or_else(first_read_failure(current, seq![("artifact_version"@, ReadKind::Str)], args.current_baseline, "json object"@), or_else(first_read_failure(summary, seq![("artifact_version"@, ReadKind::Str)], args.summary, "json object"@), first_read_failure(receipt, seq![("policy_profile"@, ReadKind::Str)], args.receipt, "json object"@))) {
        Some(m) => Err(Failure::Parse(m)),
        None => Ok(object_of(seq![
                ("schema_version"@, Json::Str("1"@)),
                ("previous_baseline_path"@, Json::Str(args.current_baseline)),
                ("archived_baseline_path"@, Json::Str(args.archive_path)),
                ("refreshed_baseline_path"@, Json::Str(args.out_path)),
                ("summary_path"@, Json::Str(args.summary)),
                ("receipt_path"@, Json::Str(args.receipt)),
                ("previous_artifact_version"@, Json::Str(str_of(current, "artifact_version"@))),
                ("next_artifact_version"@, Json::Str(str_of(summary, "artifact_version"@))),
                ("policy_profile"@, Json::Str(str_of(receipt, "policy_profile"@))),
            ])),
    }
}

/// Builds the refresh receipt.
pub fn build_refresh_receipt(args: &RefreshArgs, current: &Vec<(String, JsonValue)>, summary: &Vec<(String, JsonValue)>, receipt: &Vec<(String, JsonValue)>) -> (r: Result<JsonValue, CommandError>)
    ensures
        json_outcome(r) == refresh_receipt_spec(args@, entries_view(current@), entries_view(summary@), entries_view(receipt@)),
{
    let mut reads0 = Vec::new();
    reads0.push(read("artifact_version", ReadKind::Str));
    assert(reads_view(reads0@) =~= seq![("artifact_version"@, ReadKind::Str)]);
    match check_reads(current, &reads0, args.current_baseline.as_str(), "json object") {
        Err(m) => {
            return Err(CommandError::Parse(m));
        },
        Ok(_) => {},
    }
    assert(reads_view(reads0@)[0].0 == "artifact_version"@);
    let mut reads1 = Vec::new();
    reads1.push(read("artifact_version", ReadKind::Str));
    assert(reads_view(reads1@) =~= seq![("artifact_version"@, ReadKind::Str)]);
    match check_reads(summary, &reads1, args.summary.as_str(), "json object") {
        Err(m) => {
            return Err(CommandError::Parse(m));
        },
        Ok(_) => {},
    }
    assert(reads_view(reads1@)[0].0 == "artifact_version"@);
    let mut reads2 = Vec::new();
    reads2.push(read("policy_profile", ReadKind::Str));
    assert(reads_view(reads2@) =~= seq![("policy_profile"@, ReadKind::Str)]);
    match check_reads(receipt, &reads2, args.receipt.as_str(), "json object") {
        Err(m) => {
            return Err(CommandError::Parse(m));
        },
        Ok(_) => {},
    }
    assert(reads_view(reads2@)[0].0 == "policy_profile"@);
    let mut pairs: Vec<(String, JsonValue)> = Vec::new();
    pairs.push((owned("schema_version"), JsonValue::Str(owned("1"))));
    pairs.push((owned("previous_baseline_path"), JsonValue::Str(args.current_baseline.clone())));
    pairs.push((owned("archived_baseline_path"), JsonValue::Str(args.archive_path.clone())));
    pairs.push((owned("refreshed_baseline_path"), JsonValue::Str(args.out_path.clone())));
    pairs.push((owned("summary_path"), JsonValue::Str(args.summary.clone())));
    pairs.push((owned("receipt_path"), JsonValue::Str(args.receipt.clone())));
    pairs.push((owned("previous_artifact_version"), JsonValue::Str(str_field(current, "artifact_version"))));
    pairs.push((owned("next_artifact_version"), JsonValue::Str(str_field(summary, "artifact_version"))));
    pairs.push((owned("policy_profile"), JsonValue::Str(str_field(receipt, "policy_profile"))));
    proof {
        let args = args@;
        let current = entries_view(current@);
        let summary = entries_view(summary@);
        let receipt = entries_view(receipt@);
        assert(entries_view(pairs@) =~= seq![
                ("schema_version"@, Json::Str("1"@)),
                ("previous_baseline_path"@, Json::Str(args.current_baseline)),
                ("archived_baseline_path"@, Json::Str(args.archive_path)),
                ("refreshed_baseline_path"@, Json::Str(args.out_path)),
                ("summary_path"@, Json::Str(args.summary)),
                ("receipt_path"@, Json::Str(args.receipt)),
                ("previous_artifact_version"@, Json::Str(str_of(current, "artifact_version"@))),
                ("next_artifact_version"@, Json::Str(str_of(summary, "artifact_version"@))),
                ("policy_profile"@, Json::Str(str_of(receipt, "policy_profile"@))),
            ]);
    }
    Ok(object_from_pairs(pairs))
}

/// Checks, before anything is archived, that the receipt passed and judged
/// the requested summary.
pub fn check_refresh_receipt(args: &RefreshArgs, receipt: &Vec<(String, JsonValue)>) -> (r: Result<
    (),
    CommandError,
>)
    ensures
        match gate_spec(
            entries_view(receipt@),
            args@.receipt,
            args@.summary,
            "json object"@,
            "refresh"@,
        ) {
            Some(m) => r matches Err(CommandError::Parse(x)) && x@ == m,
            None => r is Ok,
        },
{
    match receipt_gate(receipt, args.receipt.as_str(), args.summary.as_str(), "json object", "refresh") {
        Some(m) => Err(CommandError::Parse(m)),
        None => Ok(()),
    }
}

} // verus!
