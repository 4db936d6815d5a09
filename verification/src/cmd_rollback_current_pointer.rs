use vstd::prelude::*;
use crate::cli::{
    empty_message, last_number, last_number_of, last_text, last_text_of, missing_arg,
    missing_message, opt_view, require_arg, require_filled, require_non_empty, rule, rules_view,
    scan, scan_args, texts_view, FlagRule, InlineForm, RuleSpec, ValueKind,
};
use crate::fields::{
    check_reads, first_read_failure, json_outcome, outcome, read, reads_view, str_field, str_of,
    u64_field, u64_of, value_field, value_of, CommandError, Failure, ReadKind,
};
use crate::fields::{or_else, push_opt_str, with_opt_str};
use crate::json::{entries_get, entries_view, object_from_pairs, object_of, Json, JsonValue};
use crate::text::{is_blank, owned, trimmed};

verus! {

/// The arguments of `rollback current-pointer`.
#[derive(Debug, PartialEq, Eq)]
pub struct RollbackArgs {
    pub current_pointer: Option<String>,
    pub previous_version_path: Option<String>,
    pub out_record: String,
}

pub struct RollbackArgsView {
    pub current_pointer: Option<Seq<char>>,
    pub previous_version_path: Option<Seq<char>>,
    pub out_record: Seq<char>,
}

impl View for RollbackArgs {
    type V = RollbackArgsView;

    open spec fn view(&self) -> RollbackArgsView {
        RollbackArgsView {
            current_pointer: opt_view(self.current_pointer),
            previous_version_path: opt_view(self.previous_version_path),
            out_record: self.out_record@,
        }
    }
}

pub open spec fn usage_text() -> Seq<char> {
    "usage: afterburner rollback current-pointer [--current-pointer PATH] [--previous-version-file PATH] [--out-record PATH]"@
}

pub fn usage() -> (r: &'static str)
    ensures
        r@ == usage_text(),
{
    "usage: afterburner rollback current-pointer [--current-pointer PATH] [--previous-version-file PATH] [--out-record PATH]"
}

pub open spec fn rules_spec() -> Seq<RuleSpec> {
    seq![
        RuleSpec { name: "--current-pointer"@, kind: ValueKind::Text, inline: InlineForm::StripAll },
        RuleSpec { name: "--previous-version-file"@, kind: ValueKind::Text, inline: InlineForm::StripAll },
        RuleSpec { name: "--out-record"@, kind: ValueKind::Text, inline: InlineForm::StripAll },
    ]
}

fn rules() -> (r: Vec<FlagRule>)
    ensures
        rules_view(r@) == rules_spec(),
{
    let mut r = Vec::new();
    r.push(rule("--current-pointer", ValueKind::Text, InlineForm::StripAll));
    r.push(rule("--previous-version-file", ValueKind::Text, InlineForm::StripAll));
    r.push(rule("--out-record", ValueKind::Text, InlineForm::StripAll));
    assert(rules_view(r@) =~= rules_spec());
    r
}

/// The arguments that the command line gives, or why it is refused.
pub open spec fn parse_args_spec(args: Seq<Seq<char>>) -> Result<RollbackArgsView, Failure> {
    match scan(rules_spec(), args, "rollback current-pointer"@, usage_text()) {
        Err(m) => Err(Failure::InvalidArg(m)),
        Ok(a) => {
            Ok(RollbackArgsView {
                current_pointer: last_text(a, 0),
                previous_version_path: last_text(a, 1),
                out_record: match last_text(a, 2) { Some(p) => p, None => "artifacts/deploy/inference_current_pointer_rollback.json"@ },
            })
        },
    }
}

pub fn parse_args(args: &Vec<String>) -> (r: Result<RollbackArgs, CommandError>)
    ensures
        outcome(r) == parse_args_spec(texts_view(args@)),
{
    let rules = rules();
    let a = match scan_args(&rules, args, "rollback current-pointer", usage()) {
        Ok(a) => a,
        Err(m) => {
            return Err(CommandError::InvalidArg(m));
        },
    };
    let current_pointer = last_text_of(&a, 0);
    let previous_version_path = last_text_of(&a, 1);
    let out_record = match last_text_of(&a, 2) {
        Some(s) => s,
        None => owned("artifacts/deploy/inference_current_pointer_rollback.json"),
    };
    Ok(RollbackArgs { current_pointer, previous_version_path, out_record })
}

/// The record of a rollback of the current-version pointer.
pub open spec fn record_spec(
    current_pointer_path: Seq<char>,
    previous_version_path: Seq<char>,
    previous_version: Seq<char>,
    restored_version: Seq<char>,
) -> Json {
    object_of(
        seq![
            ("schema_version"@, Json::Str("1"@)),
            ("current_pointer_path"@, Json::Str(current_pointer_path)),
            ("previous_version_path"@, Json::Str(previous_version_path)),
            ("previous_version"@, Json::Str(previous_version)),
            ("restored_version"@, Json::Str(restored_version)),
        ],
    )
}

/// Builds the record of a rollback.
pub fn rollback_record(
    current_pointer_path: &str,
    previous_version_path: &str,
    previous_version: &str,
    restored_version: &str,
) -> (r: JsonValue)
    ensures
        r@ == record_spec(
            current_pointer_path@,
            previous_version_path@,
            previous_version@,
            restored_version@,
        ),
{
    let mut pairs: Vec<(String, JsonValue)> = Vec::new();
    pairs.push((owned("schema_version"), JsonValue::Str(owned("1"))));
    pairs.push((owned("current_pointer_path"), JsonValue::Str(owned(current_pointer_path))));
    pairs.push((owned("previous_version_path"), JsonValue::Str(owned(previous_version_path))));
    pairs.push((owned("previous_version"), JsonValue::Str(owned(previous_version))));
    pairs.push((owned("restored_version"), JsonValue::Str(owned(restored_version))));
    assert(entries_view(pairs@) =~= seq![
        ("schema_version"@, Json::Str("1"@)),
        ("current_pointer_path"@, Json::Str(current_pointer_path@)),
        ("previous_version_path"@, Json::Str(previous_version_path@)),
        ("previous_version"@, Json::Str(previous_version@)),
        ("restored_version"@, Json::Str(restored_version@)),
    ]);
    object_from_pairs(pairs)
}

} // verus!
