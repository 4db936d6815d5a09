use vstd::prelude::*;
use crate::cli::{
    empty_message, last_number, last_number_of, last_text, last_text_of, missing_arg,
    missing_message, opt_view, require_arg, require_filled, require_non_empty, rule, rules_view,
    scan, scan_args, texts_view, FlagRule, InlineForm, RuleSpec, ValueKind,
};
use crate::fields::{
    check_reads, first_read_failure, json_outcome, outcome, read, reads_view, str_field, str_of,
    u64_field, u64_of, value_field, value_of, CommandError, Failure, ReadKind,
};
use crate::fields::{or_else, push_opt_str, push_opt_text, with_opt_str, with_opt_text};
use crate::json::{entries_get, entries_view, object_from_pairs, object_of, Json, JsonValue};
use crate::text::{is_blank, owned, trimmed};

verus! {

/// The arguments of `deploy record-verification-receipt-transport-locator-reconciliation-history`.
#[derive(Debug, PartialEq, Eq)]
pub struct LocatorReconciliationHistoryArgs {
    pub reconciliation: String,
    pub event: String,
    pub recorded_at_unix_ms: u64,
    pub out_path: String,
}

pub struct LocatorReconciliationHistoryArgsView {
    pub reconciliation: Seq<char>,
    pub event: Seq<char>,
    pub recorded_at_unix_ms: u64,
    pub out_path: Seq<char>,
}

impl View for LocatorReconciliationHistoryArgs {
    type V = LocatorReconciliationHistoryArgsView;

    open spec fn view(&self) -> LocatorReconciliationHistoryArgsView {
        LocatorReconciliationHistoryArgsView {
            reconciliation: self.reconciliation@,
            event: self.event@,
            recorded_at_unix_ms: self.recorded_at_unix_ms,
            out_path: self.out_path@,
        }
    }
}

pub open spec fn usage_text() -> Seq<char> {
    "usage: afterburner deploy record-verification-receipt-transport-locator-reconciliation-history --reconciliation PATH --event NAME --recorded-at-unix-ms MS [--out PATH]"@
}

pub fn usage() -> (r: &'static str)
    ensures
        r@ == usage_text(),
{
    "usage: afterburner deploy record-verification-receipt-transport-locator-reconciliation-history --reconciliation PATH --event NAME --recorded-at-unix-ms MS [--out PATH]"
}

pub open spec fn rules_spec() -> Seq<RuleSpec> {
    seq![
        RuleSpec { name: "--reconciliation"@, kind: ValueKind::Text, inline: InlineForm::StripAll },
        RuleSpec { name: "--event"@, kind: ValueKind::Text, inline: InlineForm::StripAll },
        RuleSpec { name: "--recorded-at-unix-ms"@, kind: ValueKind::Number, inline: InlineForm::StripAll },
        RuleSpec { name: "--out"@, kind: ValueKind::Text, inline: InlineForm::StripAll },
    ]
}

fn rules() -> (r: Vec<FlagRule>)
    ensures
        rules_view(r@) == rules_spec(),
{
    let mut r = Vec::new();
    r.push(rule("--reconciliation", ValueKind::Text, InlineForm::StripAll));
    r.push(rule("--event", ValueKind::Text, InlineForm::StripAll));
    r.push(rule("--recorded-at-unix-ms", ValueKind::Number, InlineForm::StripAll));
    r.push(rule("--out", ValueKind::Text, InlineForm::StripAll));
    assert(rules_view(r@) =~= rules_spec());
    r
}

/// The arguments that the command line gives, or why it is refused.
pub open spec fn parse_args_spec(args: Seq<Seq<char>>) -> Result<LocatorReconciliationHistoryArgsView, Failure> {
    match scan(rules_spec(), args, "deploy record-verification-receipt-transport-locator-reconciliation-history"@, usage_text()) {
        Err(m) => Err(Failure::InvalidArg(m)),
        Ok(a) => {
            match last_text(a, 0) {
                None => Err(Failure::InvalidArg(missing_message("--reconciliation"@, usage_text()))),
                Some(v_reconciliation) => {
                    match last_text(a, 1) {
                        None => Err(Failure::InvalidArg(missing_message("--event"@, usage_text()))),
                        Some(v_event) => {
                            match last_number(a, 2) {
                                None => Err(Failure::InvalidArg(missing_message("--recorded-at-unix-ms"@, usage_text()))),
                                Some(v_recorded_at_unix_ms) => {
                                    Ok(LocatorReconciliationHistoryArgsView {
                                        reconciliation: v_reconciliation,
                                        event: v_event,
                                        recorded_at_unix_ms: v_recorded_at_unix_ms,
                                        out_path: match last_text(a, 3) { Some(p) => p, None => "artifacts/deploy/deployment_verification_receipt_transport_locator_reconciliation_history.json"@ },
                                    })
                                }
                            }
                        }
                    }
                }
            }
        },
    }
}

pub fn parse_args(args: &Vec<String>) -> (r: Result<LocatorReconciliationHistoryArgs, CommandError>)
    ensures
        outcome(r) == parse_args_spec(texts_view(args@)),
{
    let rules = rules();
    let a = match scan_args(&rules, args, "deploy record-verification-receipt-transport-locator-reconciliation-history", usage()) {
        Ok(a) => a,
        Err(m) => {
            return Err(CommandError::InvalidArg(m));
        },
    };
    let reconciliation = match require_arg(last_text_of(&a, 0), "--reconciliation", usage()) {
        Ok(v) => v,
        Err(m) => {
            return Err(CommandError::InvalidArg(m));
        },
    };
    let event = match require_arg(last_text_of(&a, 1), "--event", usage()) {
        Ok(v) => v,
        Err(m) => {
            return Err(CommandError::InvalidArg(m));
        },
    };
    let recorded_at_unix_ms = match last_number_of(&a, 2) {
        Some(n) => n,
        None => {
            return Err(CommandError::InvalidArg(missing_arg("--recorded-at-unix-ms", usage())));
        },
    };
    let out_path = match last_text_of(&a, 3) {
        Some(s) => s,
        None => owned("artifacts/deploy/deployment_verification_receipt_transport_locator_reconciliation_history.json"),
    };
    Ok(LocatorReconciliationHistoryArgs { reconciliation, event, recorded_at_unix_ms, out_path })
}

/// The history entry that records a locator reconciliation under an event: what was reconciled, both states and the outcome.
pub open spec fn entry_spec(args: LocatorReconciliationHistoryArgsView, reconciliation: Seq<(Seq<char>, Json)>) -> Result<Json, Failure> {
    match first_read_failure(reconciliation, seq![("receipt_path"@, ReadKind::Str), ("locator_path"@, ReadKind::Str), ("reconciliation_status"@, ReadKind::Str), ("desired"@, ReadKind::Object), ("current"@, ReadKind::Object)], args.reconciliation, "deployment verification receipt transport locator reconciliation"@) {
        Some(m) => Err(Failure::Parse(m)),
        None => Ok(object_of(seq![
                ("event"@, Json::Str(args.event)),
                ("reconciliation_path"@, Json::Str(args.reconciliation)),
                ("receipt_path"@, Json::Str(str_of(reconciliation, "receipt_path"@))),
                ("locator_path"@, Json::Str(str_of(reconciliation, "locator_path"@))),
                ("reconciliation_status"@, Json::Str(str_of(reconciliation, "reconciliation_status"@))),
                ("desired"@, value_of(reconciliation, "desired"@)),
                ("current"@, value_of(reconciliation, "current"@)),
                ("recorded_at_unix_ms"@, Json::UInt(args.recorded_at_unix_ms)),
            ])),
    }
}

/// Builds the history entry from the reconciliation's fields.
pub fn history_entry(args: &LocatorReconciliationHistoryArgs, reconciliation: &Vec<(String, JsonValue)>) -> (r: Result<JsonValue, CommandError>)
    ensures
        json_outcome(r) == entry_spec(args@, entries_view(reconciliation@)),
{
    let mut reads0 = Vec::new();
    reads0.push(read("receipt_path", ReadKind::Str));
    reads0.push(read("locator_path", ReadKind::Str));
    reads0.push(read("reconciliation_status", ReadKind::Str));
    reads0.push(read("desired", ReadKind::Object));
    reads0.push(read("current", ReadKind::Object));
    assert(reads_view(reads0@) =~= seq![("receipt_path"@, ReadKind::Str), ("locator_path"@, ReadKind::Str), ("reconciliation_status"@, ReadKind::Str), ("desired"@, ReadKind::Object), ("current"@, ReadKind::Object)]);
    match check_reads(reconciliation, &reads0, args.reconciliation.as_str(), "deployment verification receipt transport locator reconciliation") {
        Err(m) => {
            return Err(CommandError::Parse(m));
        },
        Ok(_) => {},
    }
    assert(reads_view(reads0@)[0].0 == "receipt_path"@);
    assert(reads_view(reads0@)[1].0 == "locator_path"@);
    assert(reads_view(reads0@)[2].0 == "reconciliation_status"@);
    assert(reads_view(reads0@)[3].0 == "desired"@);
    assert(reads_view(reads0@)[4].0 == "current"@);
    let mut pairs: Vec<(String, JsonValue)> = Vec::new();
    pairs.push((owned("event"), JsonValue::Str(args.event.clone())));
    pairs.push((owned("reconciliation_path"), JsonValue::Str(args.reconciliation.clone())));
    pairs.push((owned("receipt_path"), JsonValue::Str(str_field(reconciliation, "receipt_path"))));
    pairs.push((owned("locator_path"), JsonValue::Str(str_field(reconciliation, "locator_path"))));
    pairs.push((owned("reconciliation_status"), JsonValue::Str(str_field(reconciliation, "reconciliation_status"))));
    pairs.push((owned("desired"), value_field(reconciliation, "desired")));
    pairs.push((owned("current"), value_field(reconciliation, "current")));
    pairs.push((owned("recorded_at_unix_ms"), JsonValue::UInt(args.recorded_at_unix_ms)));
    proof {
        let args = args@;
        let reconciliation = entries_view(reconciliation@);
        assert(entries_view(pairs@) =~= seq![
                ("event"@, Json::Str(args.event)),
                ("reconciliation_path"@, Json::Str(args.reconciliation)),
                ("receipt_path"@, Json::Str(str_of(reconciliation, "receipt_path"@))),
                ("locator_path"@, Json::Str(str_of(reconciliation, "locator_path"@))),
                ("reconciliation_status"@, Json::Str(str_of(reconciliation, "reconciliation_status"@))),
                ("desired"@, value_of(reconciliation, "desired"@)),
                ("current"@, value_of(reconciliation, "current"@)),
                ("recorded_at_unix_ms"@, Json::UInt(args.recorded_at_unix_ms)),
            ]);
    }
    Ok(object_from_pairs(pairs))
}


} // verus!
