use vstd::prelude::*;
use crate::cli::{
    empty_message, last_number, last_number_of, last_text, last_text_of, missing_arg,
    missing_message, opt_view, require_arg, require_filled, require_non_empty, rule, rules_view,
    scan, scan_args, texts_view, FlagRule, InlineForm, RuleSpec, ValueKind,
};
use crate::fields::{
    check_reads, first_read_failure, json_outcome, outcome, read, reads_view, str_field, str_of,
    u64_field, u64_of, value_field, value_of, CommandError, Failure, ReadKind,
};
use crate::fields::{or_else, push_opt_str, push_opt_text, with_opt_str, with_opt_text};
use crate::json::{entries_get, entries_view, object_from_pairs, object_of, Json, JsonValue};
use crate::text::{is_blank, owned, trimmed};
use crate::json::{lemma_object_view, map_get};
use crate::text::cat5;

verus! {

/// The arguments of `drift-receipt`.
#[derive(Debug, PartialEq, Eq)]
pub struct DriftReceiptArgs {
    pub candidate: String,
    pub current: String,
    pub max_top_probability_delta: String,
    pub max_margin_delta: String,
    pub out_path: String,
}

pub struct DriftReceiptArgsView {
    pub candidate: Seq<char>,
    pub current: Seq<char>,
    pub max_top_probability_delta: Seq<char>,
    pub max_margin_delta: Seq<char>,
    pub out_path: Seq<char>,
}

impl View for DriftReceiptArgs {
    type V = DriftReceiptArgsView;

    open spec fn view(&self) -> DriftReceiptArgsView {
        DriftReceiptArgsView {
            candidate: self.candidate@,
            current: self.current@,
            max_top_probability_delta: self.max_top_probability_delta@,
            max_margin_delta: self.max_margin_delta@,
            out_path: self.out_path@,
        }
    }
}

pub open spec fn usage_text() -> Seq<char> {
    "usage: afterburner drift-receipt --candidate PATH --current PATH --max-top-probability-delta F64 --max-margin-delta F64 [--out PATH]"@
}

pub fn usage() -> (r: &'static str)
    ensures
        r@ == usage_text(),
{
    "usage: afterburner drift-receipt --candidate PATH --current PATH --max-top-probability-delta F64 --max-margin-delta F64 [--out PATH]"
}

pub open spec fn rules_spec() -> Seq<RuleSpec> {
    seq![
        RuleSpec { name: "--candidate"@, kind: ValueKind::Text, inline: InlineForm::StripAll },
        RuleSpec { name: "--current"@, kind: ValueKind::Text, inline: InlineForm::StripAll },
        RuleSpec { name: "--max-top-probability-delta"@, kind: ValueKind::Decimal, inline: InlineForm::StripAll },
        RuleSpec { name: "--max-margin-delta"@, kind: ValueKind::Decimal, inline: InlineForm::StripAll },
        RuleSpec { name: "--out"@, kind: ValueKind::Text, inline: InlineForm::StripAll },
    ]
}

fn rules() -> (r: Vec<FlagRule>)
    ensures
        rules_view(r@) == rules_spec(),
{
    let mut r = Vec::new();
    r.push(rule("--candidate", ValueKind::Text, InlineForm::StripAll));
    r.push(rule("--current", ValueKind::Text, InlineForm::StripAll));
    r.push(rule("--max-top-probability-delta", ValueKind::Decimal, InlineForm::StripAll));
    r.push(rule("--max-margin-delta", ValueKind::Decimal, InlineForm::StripAll));
    r.push(rule("--out", ValueKind::Text, InlineForm::StripAll));
    assert(rules_view(r@) =~= rules_spec());
    r
}

/// The arguments that the command line gives, or why it is refused.
pub open spec fn parse_args_spec(args: Seq<Seq<char>>) -> Result<DriftReceiptArgsView, Failure> {
    match scan(rules_spec(), args, "drift-receipt"@, usage_text()) {
        Err(m) => Err(Failure::InvalidArg(m)),
        Ok(a) => {
            match last_text(a, 0) {
                None => Err(Failure::InvalidArg(missing_message("--candidate"@, usage_text()))),
                Some(v_candidate) => {
                    match last_text(a, 1) {
                        None => Err(Failure::InvalidArg(missing_message("--current"@, usage_text()))),
                        Some(v_current) => {
                            match last_text(a, 2) {
                                None => Err(Failure::InvalidArg(missing_message("--max-top-probability-delta"@, usage_text()))),
                                Some(v_max_top_probability_delta) => {
                                    match last_text(a, 3) {
                                        None => Err(Failure::InvalidArg(missing_message("--max-margin-delta"@, usage_text()))),
                                        Some(v_max_margin_delta) => {
                                            Ok(DriftReceiptArgsView {
                                                candidate: v_candidate,
                                                current: v_current,
                                                max_top_probability_delta: v_max_top_probability_delta,
                                                max_margin_delta: v_max_margin_delta,
                                                out_path: match last_text(a, 4) { Some(p) => p, None => "artifacts/eval/infer_output_drift_receipt.json"@ },
                                            })
                                        }
                                    }
                                }
                            }
                        }
                    }
                }
            }
        },
    }
}

pub fn parse_args(args: &Vec<String>) -> (r: Result<DriftReceiptArgs, CommandError>)
    ensures
        outcome(r) == parse_args_spec(texts_view(args@)),
{
    let rules = rules();
    let a = match scan_args(&rules, args, "drift-receipt", usage()) {
        Ok(a) => a,
        Err(m) => {
            return Err(CommandError::InvalidArg(m));
        },
    };
    let candidate = match require_arg(last_text_of(&a, 0), "--candidate", usage()) {
        Ok(v) => v,
        Err(m) => {
            return Err(CommandError::InvalidArg(m));
        },
    };
    let current = match require_arg(last_text_of(&a, 1), "--current", usage()) {
        Ok(v) => v,
        Err(m) => {
            return Err(CommandError::InvalidArg(m));
        },
    };
    let max_top_probability_delta = match require_arg(last_text_of(&a, 2), "--max-top-probability-delta", usage()) {
        Ok(v) => v,
        Err(m) => {
            return Err(CommandError::InvalidArg(m));
        },
    };
    let max_margin_delta = match require_arg(last_text_of(&a, 3), "--max-margin-delta", usage()) {
        Ok(v) => v,
        Err(m) => {
            return Err(CommandError::InvalidArg(m));
        },
    };
    let out_path = match last_text_of(&a, 4) {
        Some(s) => s,
        None => owned("artifacts/eval/infer_output_drift_receipt.json"),
    };
    Ok(DriftReceiptArgs { candidate, current, max_top_probability_delta, max_margin_delta, out_path })
}

/// What an inference output summary says of one artifact's prediction.
/// The two probabilities are kept as the JSON numbers that the summary
/// holds.
#[derive(Debug, PartialEq, Eq)]
pub struct DriftSummary {
    pub artifact: String,
    pub artifact_version: String,
    pub predicted_class: u64,
    pub top_probability: JsonValue,
    pub margin_to_second: JsonValue,
}

pub struct DriftSummaryView {
    pub artifact: Seq<char>,
    pub artifact_version: Seq<char>,
    pub predicted_class: u64,
    pub top_probability: Json,
    pub margin_to_second: Json,
}

impl View for DriftSummary {
    type V = DriftSummaryView;

    open spec fn view(&self) -> DriftSummaryView {
        DriftSummaryView {
            artifact: self.artifact@,
            artifact_version: self.artifact_version@,
            predicted_class: self.predicted_class,
            top_probability: self.top_probability@,
            margin_to_second: self.margin_to_second@,
        }
    }
}

/// Whether the value is a JSON number, which reads as an `f64`.
pub open spec fn is_number(v: Json) -> bool {
    v is UInt || v is NegInt || v is Float
}

/// "infer output drift summary `PATH` missing WHAT field `KEY`"
pub open spec fn summary_field_message(path: Seq<char>, what: Seq<char>, key: Seq<char>) -> Seq<char> {
    "infer output drift summary `"@ + path + "` missing "@ + what + " field `"@ + key + "`"@
}

/// The summary that a parsed document holds, or why it is refused.
pub open spec fn summary_spec(doc: Json, path: Seq<char>) -> Result<DriftSummaryView, Seq<char>> {
    match doc {
        Json::Object(o) => match entries_get(o, "artifact"@) {
            Some(Json::Str(artifact)) => match entries_get(o, "artifact_version"@) {
                Some(Json::Str(artifact_version)) => match entries_get(o, "predicted_class"@) {
                    Some(Json::UInt(predicted_class)) => match entries_get(o, "top_probability"@) {
                        Some(top) => if !is_number(top) {
                            Err(summary_field_message(path, "number"@, "top_probability"@))
                        } else {
                            match entries_get(o, "margin_to_second"@) {
                                Some(margin) => if !is_number(margin) {
                                    Err(summary_field_message(path, "number"@, "margin_to_second"@))
                                } else {
                                    Ok(
                                        DriftSummaryView {
                                            artifact,
                                            artifact_version,
                                            predicted_class,
                                            top_probability: top,
                                            margin_to_second: margin,
                                        },
                                    )
                                },
                                None => Err(summary_field_message(path, "number"@, "margin_to_second"@)),
                            }
                        },
                        None => Err(summary_field_message(path, "number"@, "top_probability"@)),
                    },
                    _ => Err(summary_field_message(path, "integer"@, "predicted_class"@)),
                },
                _ => Err(summary_field_message(path, "string"@, "artifact_version"@)),
            },
            _ => Err(summary_field_message(path, "string"@, "artifact"@)),
        },
        _ => Err("infer output drift summary `"@ + path + "` must be an object"@),
    }
}

fn summary_field_error(path: &str, what: &str, key: &str) -> (r: String)
    ensures
        r@ == summary_field_message(path@, what@, key@),
{
    let mut m = cat5("infer output drift summary `", path, "` missing ", what, " field `");
    m.append(key);
    m.append("`");
    m
}

fn number_at(o: &Vec<(String, JsonValue)>, key: &str) -> (r: Option<JsonValue>)
    ensures
        match entries_get(entries_view(o@), key@) {
            Some(v) => if is_number(v) {
                r matches Some(x) && x@ == v
            } else {
                r is None
            },
            None => r is None,
        },
{
    match map_get(o, key) {
        Some(JsonValue::UInt(n)) => Some(JsonValue::UInt(*n)),
        Some(JsonValue::NegInt(n)) => Some(JsonValue::NegInt(*n)),
        Some(JsonValue::Float(b)) => Some(JsonValue::Float(*b)),
        _ => None,
    }
}

/// Reads the summary of an inference output from a parsed document.
/// (Reading and parsing the file happen before.)
pub fn load_summary(document: &JsonValue, path: &str) -> (r: Result<DriftSummary, String>)
    ensures
        match summary_spec(document@, path@) {
            Ok(v) => r matches Ok(x) && x@ == v,
            Err(m) => r matches Err(x) && x@ == m,
        },
{
    let o = match document {
        JsonValue::Object(o) => o,
        _ => {
            return Err(crate::text::cat3("infer output drift summary `", path, "` must be an object"));
        },
    };
    proof {
        lemma_object_view(*o);
    }
    let artifact = match map_get(o, "artifact") {
        Some(JsonValue::Str(s)) => s.clone(),
        _ => {
            return Err(summary_field_error(path, "string", "artifact"));
        },
    };
    let artifact_version = match map_get(o, "artifact_version") {
        Some(JsonValue::Str(s)) => s.clone(),
        _ => {
            return Err(summary_field_error(path, "string", "artifact_version"));
        },
    };
    let predicted_class = match map_get(o, "predicted_class") {
        Some(JsonValue::UInt(n)) => *n,
        _ => {
            return Err(summary_field_error(path, "integer", "predicted_class"));
        },
    };
    let top_probability = match number_at(o, "top_probability") {
        Some(v) => v,
        None => {
            return Err(summary_field_error(path, "number", "top_probability"));
        },
    };
    let margin_to_second = match number_at(o, "margin_to_second") {
        Some(v) => v,
        None => {
            return Err(summary_field_error(path, "number", "margin_to_second"));
        },
    };
    Ok(DriftSummary { artifact, artifact_version, predicted_class, top_probability, margin_to_second })
}

} // verus!
