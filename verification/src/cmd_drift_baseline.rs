use vstd::prelude::*;
use crate::cli::{
    empty_message, last_number, last_number_of, last_text, last_text_of, missing_arg,
    missing_message, opt_view, require_arg, require_filled, require_non_empty, rule, rules_view,
    scan, scan_args, texts_view, FlagRule, InlineForm, RuleSpec, ValueKind,
};
use crate::fields::{
    check_reads, first_read_failure, json_outcome, outcome, read, reads_view, str_field, str_of,
    u64_field, u64_of, value_field, value_of, CommandError, Failure, ReadKind,
};
use crate::fields::{or_else, push_opt_str, push_opt_text, with_opt_str, with_opt_text};
use crate::json::{entries_get, entries_view, object_from_pairs, object_of, Json, JsonValue};
use crate::text::{is_blank, owned, trimmed};
use crate::paths::{paths_equal, same_path};
use crate::text::{cat4, cat5};

verus! {

/// The arguments of `drift-baseline`.
#[derive(Debug, PartialEq, Eq)]
pub struct BaselineArgs {
    pub summary: String,
    pub receipt: String,
    pub out_path: String,
}

pub struct BaselineArgsView {
    pub summary: Seq<char>,
    pub receipt: Seq<char>,
    pub out_path: Seq<char>,
}

impl View for BaselineArgs {
    type V = BaselineArgsView;

    open spec fn view(&self) -> BaselineArgsView {
        BaselineArgsView {
            summary: self.summary@,
            receipt: self.receipt@,
            out_path: self.out_path@,
        }
    }
}

pub open spec fn usage_text() -> Seq<char> {
    "usage: afterburner drift-baseline --summary PATH --receipt PATH [--out PATH]"@
}

pub fn usage() -> (r: &'static str)
    ensures
        r@ == usage_text(),
{
    "usage: afterburner drift-baseline --summary PATH --receipt PATH [--out PATH]"
}

pub open spec fn rules_spec() -> Seq<RuleSpec> {
    seq![
        RuleSpec { name: "--summary"@, kind: ValueKind::Text, inline: InlineForm::StripAll },
        RuleSpec { name: "--receipt"@, kind: ValueKind::Text, inline: InlineForm::StripAll },
        RuleSpec { name: "--out"@, kind: ValueKind::Text, inline: InlineForm::StripAll },
    ]
}

fn rules() -> (r: Vec<FlagRule>)
    ensures
        rules_view(r@) == rules_spec(),
{
    let mut r = Vec::new();
    r.push(rule("--summary", ValueKind::Text, InlineForm::StripAll));
    r.push(rule("--receipt", ValueKind::Text, InlineForm::StripAll));
    r.push(rule("--out", ValueKind::Text, InlineForm::StripAll));
    assert(rules_view(r@) =~= rules_spec());
    r
}

/// The arguments that the command line gives, or why it is refused.
pub open spec fn parse_args_spec(args: Seq<Seq<char>>) -> Result<BaselineArgsView, Failure> {
    match scan(rules_spec(), args, "drift-baseline"@, usage_text()) {
        Err(m) => Err(Failure::InvalidArg(m)),
        Ok(a) => {
            match last_text(a, 0) {
                None => Err(Failure::InvalidArg(missing_message("--summary"@, usage_text()))),
                Some(v_summary) => {
                    match last_text(a, 1) {
                        None => Err(Failure::InvalidArg(missing_message("--receipt"@, usage_text()))),
                        Some(v_receipt) => {
                            Ok(BaselineArgsView {
                                summary: v_summary,
                                receipt: v_receipt,
                                out_path: match last_text(a, 2) { Some(p) => p, None => "artifacts/eval/infer_output_drift_baseline.json"@ },
                            })
                        }
                    }
                }
            }
        },
    }
}

pub fn parse_args(args: &Vec<String>) -> (r: Result<BaselineArgs, CommandError>)
    ensures
        outcome(r) == parse_args_spec(texts_view(args@)),
{
    let rules = rules();
    let a = match scan_args(&rules, args, "drift-baseline", usage()) {
        Ok(a) => a,
        Err(m) => {
            return Err(CommandError::InvalidArg(m));
        },
    };
    let summary = match require_arg(last_text_of(&a, 0), "--summary", usage()) {
        Ok(v) => v,
        Err(m) => {
            return Err(CommandError::InvalidArg(m));
        },
    };
    let receipt = match require_arg(last_text_of(&a, 1), "--receipt", usage()) {
        Ok(v) => v,
        Err(m) => {
            return Err(CommandError::InvalidArg(m));
        },
    };
    let out_path = match last_text_of(&a, 2) {
        Some(s) => s,
        None => owned("artifacts/eval/infer_output_drift_baseline.json"),
    };
    Ok(BaselineArgs { summary, receipt, out_path })
}

/// The drift baseline captured from a passing receipt and the summary it judged; the two probabilities are the ones given.
pub open spec fn baseline_spec(args: BaselineArgsView, receipt: Seq<(Seq<char>, Json)>, summary: Seq<(Seq<char>, Json)>, top_probability: Json, margin_to_second: Json) -> Result<Json, Failure> {
    match or_else(gate_spec(receipt, args.receipt, args.summary, "infer output drift receipt"@, "capture"@), or_else(first_read_failure(receipt, seq![("policy_path"@, ReadKind::Str), ("policy_profile"@, ReadKind::Str)], args.receipt, "summary"@), first_read_failure(summary, seq![("artifact"@, ReadKind::Str), ("artifact_version"@, ReadKind::Str), ("backend"@, ReadKind::Str), ("predicted_class"@, ReadKind::U64), ("top_probability"@, ReadKind::Number), ("margin_to_second"@, ReadKind::Number), ("logits_sha256"@, ReadKind::Str), ("probabilities_sha256"@, ReadKind::Str)], args.summary, "summary"@))) {
        Some(m) => Err(Failure::Parse(m)),
        None => Ok(object_of(seq![
                ("schema_version"@, Json::Str("1"@)),
                ("summary_path"@, Json::Str(args.summary)),
                ("receipt_path"@, Json::Str(args.receipt)),
                ("policy_path"@, Json::Str(str_of(receipt, "policy_path"@))),
                ("policy_profile"@, Json::Str(str_of(receipt, "policy_profile"@))),
                ("artifact"@, Json::Str(str_of(summary, "artifact"@))),
                ("artifact_version"@, Json::Str(str_of(summary, "artifact_version"@))),
                ("backend"@, Json::Str(str_of(summary, "backend"@))),
                ("predicted_class"@, Json::UInt(u64_of(summary, "predicted_class"@))),
                ("top_probability"@, top_probability),
                ("margin_to_second"@, margin_to_second),
                ("logits_sha256"@, Json::Str(str_of(summary, "logits_sha256"@))),
                ("probabilities_sha256"@, Json::Str(str_of(summary, "probabilities_sha256"@))),
            ])),
    }
}

/// Checks the receipt and builds the baseline.
pub fn build_baseline(args: &BaselineArgs, receipt: &Vec<(String, JsonValue)>, summary: &Vec<(String, JsonValue)>, top_probability: &JsonValue, margin_to_second: &JsonValue) -> (r: Result<JsonValue, CommandError>)
    ensures
        json_outcome(r) == baseline_spec(args@, entries_view(receipt@), entries_view(summary@), top_probability@, margin_to_second@),
{
    if let Some(m) = receipt_gate(receipt, args.receipt.as_str(), args.summary.as_str(), "infer output drift receipt", "capture") {
        return Err(CommandError::Parse(m));
    }
    let mut reads1 = Vec::new();
    reads1.push(read("policy_path", ReadKind::Str));
    reads1.push(read("policy_profile", ReadKind::Str));
    assert(reads_view(reads1@) =~= seq![("policy_path"@, ReadKind::Str), ("policy_profile"@, ReadKind::Str)]);
    match check_reads(receipt, &reads1, args.receipt.as_str(), "summary") {
        Err(m) => {
            return Err(CommandError::Parse(m));
        },
        Ok(_) => {},
    }
    assert(reads_view(reads1@)[0].0 == "policy_path"@);
    assert(reads_view(reads1@)[1].0 == "policy_profile"@);
    let mut reads2 = Vec::new();
    reads2.push(read("artifact", ReadKind::Str));
    reads2.push(read("artifact_version", ReadKind::Str));
    reads2.push(read("backend", ReadKind::Str));
    reads2.push(read("predicted_class", ReadKind::U64));
    reads2.push(read("top_probability", ReadKind::Number));
    reads2.push(read("margin_to_second", ReadKind::Number));
    reads2.push(read("logits_sha256", ReadKind::Str));
    reads2.push(read("probabilities_sha256", ReadKind::Str));
    assert(reads_view(reads2@) =~= seq![("artifact"@, ReadKind::Str), ("artifact_version"@, ReadKind::Str), ("backend"@, ReadKind::Str), ("predicted_class"@, ReadKind::U64), ("top_probability"@, ReadKind::Number), ("margin_to_second"@, ReadKind::Number), ("logits_sha256"@, ReadKind::Str), ("probabilities_sha256"@, ReadKind::Str)]);
    match check_reads(summary, &reads2, args.summary.as_str(), "summary") {
        Err(m) => {
            return Err(CommandError::Parse(m));
        },
        Ok(_) => {},
    }
    assert(reads_view(reads2@)[0].0 == "artifact"@);
    assert(reads_view(reads2@)[1].0 == "artifact_version"@);
    assert(reads_view(reads2@)[2].0 == "backend"@);
    assert(reads_view(reads2@)[3].0 == "predicted_class"@);
    assert(reads_view(reads2@)[4].0 == "top_probability"@);
    assert(reads_view(reads2@)[5].0 == "margin_to_second"@);
    assert(reads_view(reads2@)[6].0 == "logits_sha256"@);
    assert(reads_view(reads2@)[7].0 == "probabilities_sha256"@);
    let mut pairs: Vec<(String, JsonValue)> = Vec::new();
    pairs.push((owned("schema_version"), JsonValue::Str(owned("1"))));
    pairs.push((owned("summary_path"), JsonValue::Str(args.summary.clone())));
    pairs.push((owned("receipt_path"), JsonValue::Str(args.receipt.clone())));
    pairs.push((owned("policy_path"), JsonValue::Str(str_field(receipt, "policy_path"))));
    pairs.push((owned("policy_profile"), JsonValue::Str(str_field(receipt, "policy_profile"))));
    pairs.push((owned("artifact"), JsonValue::Str(str_field(summary, "artifact"))));
    pairs.push((owned("artifact_version"), JsonValue::Str(str_field(summary, "artifact_version"))));
    pairs.push((owned("backend"), JsonValue::Str(str_field(summary, "backend"))));
    pairs.push((owned("predicted_class"), JsonValue::UInt(u64_field(summary, "predicted_class"))));
    pairs.push((owned("top_probability"), crate::json::json_clone(top_probability)));
    pairs.push((owned("margin_to_second"), crate::json::json_clone(margin_to_second)));
    pairs.push((owned("logits_sha256"), JsonValue::Str(str_field(summary, "logits_sha256"))));
    pairs.push((owned("probabilities_sha256"), JsonValue::Str(str_field(summary, "probabilities_sha256"))));
    proof {
        let args = args@;
        let receipt = entries_view(receipt@);
        let summary = entries_view(summary@);
        let top_probability = top_probability@;
        let margin_to_second = margin_to_second@;
        assert(entries_view(pairs@) =~= seq![
                ("schema_version"@, Json::Str("1"@)),
                ("summary_path"@, Json::Str(args.summary)),
                ("receipt_path"@, Json::Str(args.receipt)),
                ("policy_path"@, Json::Str(str_of(receipt, "policy_path"@))),
                ("policy_profile"@, Json::Str(str_of(receipt, "policy_profile"@))),
                ("artifact"@, Json::Str(str_of(summary, "artifact"@))),
                ("artifact_version"@, Json::Str(str_of(summary, "artifact_version"@))),
                ("backend"@, Json::Str(str_of(summary, "backend"@))),
                ("predicted_class"@, Json::UInt(u64_of(summary, "predicted_class"@))),
                ("top_probability"@, top_probability),
                ("margin_to_second"@, margin_to_second),
                ("logits_sha256"@, Json::Str(str_of(summary, "logits_sha256"@))),
                ("probabilities_sha256"@, Json::Str(str_of(summary, "probabilities_sha256"@))),
            ]);
    }
    Ok(object_from_pairs(pairs))
}

/// Why a drift receipt cannot stand behind a baseline for `summary_path`:
/// it must hold a boolean `passed` that is true, and name that summary as
/// its candidate (compared as paths). `kind` names the receipt in the
/// message about its candidate field; `word` is what the baseline is for.
pub open spec fn gate_spec(
    receipt: Seq<(Seq<char>, Json)>,
    receipt_path: Seq<char>,
    summary_path: Seq<char>,
    kind: Seq<char>,
    word: Seq<char>,
) -> Option<Seq<char>> {
    match entries_get(receipt, "passed"@) {
        Some(Json::Bool(passed)) => if !passed {
            Some(
                "infer output drift receipt `"@ + receipt_path + "` must be passing before baseline "@
                    + word,
            )
        } else {
            match first_read_failure(
                receipt,
                seq![("candidate_summary_path"@, ReadKind::Str)],
                receipt_path,
                kind,
            ) {
                Some(m) => Some(m),
                None => if same_path(str_of(receipt, "candidate_summary_path"@), summary_path) {
                    None
                } else {
                    Some(
                        "receipt candidate_summary_path `"@ + str_of(
                            receipt,
                            "candidate_summary_path"@,
                        ) + "` does not match requested summary `"@ + summary_path + "`"@,
                    )
                },
            }
        },
        _ => Some(
            "infer output drift receipt `"@ + receipt_path + "` missing boolean field `passed`"@,
        ),
    }
}

/// Checks that a drift receipt passed and judged the summary at
/// `summary_path`; the message of the first failure otherwise.
pub fn receipt_gate(
    receipt: &Vec<(String, JsonValue)>,
    receipt_path: &str,
    summary_path: &str,
    kind: &str,
    word: &str,
) -> (r: Option<String>)
    ensures
        match gate_spec(entries_view(receipt@), receipt_path@, summary_path@, kind@, word@) {
            Some(m) => r matches Some(x) && x@ == m,
            None => r is None,
        },
{
    match crate::json::map_get(receipt, "passed") {
        Some(JsonValue::Bool(passed)) => {
            if !*passed {
                return Some(
                    cat4(
                        "infer output drift receipt `",
                        receipt_path,
                        "` must be passing before baseline ",
                        word,
                    ),
                );
            }
        },
        _ => {
            return Some(
                crate::text::cat3(
                    "infer output drift receipt `",
                    receipt_path,
                    "` missing boolean field `passed`",
                ),
            );
        },
    }
    let mut reads = Vec::new();
    reads.push(read("candidate_summary_path", ReadKind::Str));
    assert(reads_view(reads@) =~= seq![("candidate_summary_path"@, ReadKind::Str)]);
    if let Err(m) = check_reads(receipt, &reads, receipt_path, kind) {
        return Some(m);
    }
    assert(reads_view(reads@)[0].0 == "candidate_summary_path"@);
    let candidate = str_field(receipt, "candidate_summary_path");
    if paths_equal(candidate.as_str(), summary_path) {
        None
    } else {
        Some(
            cat5(
                "receipt candidate_summary_path `",
                candidate.as_str(),
                "` does not match requested summary `",
                summary_path,
                "`",
            ),
        )
    }
}

} // verus!
