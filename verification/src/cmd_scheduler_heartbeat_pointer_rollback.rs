use vstd::prelude::*;
use crate::cli::{
    empty_message, last_number, last_number_of, last_text, last_text_of, missing_arg,
    missing_message, opt_view, require_arg, require_filled, require_non_empty, rule, rules_view,
    scan, scan_args, texts_view, FlagRule, InlineForm, RuleSpec, ValueKind,
};
use crate::fields::{
    check_reads, first_read_failure, json_outcome, outcome, read, reads_view, str_field, str_of,
    u64_field, u64_of, value_field, value_of, CommandError, Failure, ReadKind,
};
use crate::fields::{or_else, push_opt_str, push_opt_text, with_opt_str, with_opt_text};
use crate::json::{entries_get, entries_view, object_from_pairs, object_of, Json, JsonValue};
use crate::text::{is_blank, owned, trimmed};

verus! {

/// The arguments of `deploy scheduler-heartbeat pointer rollback`.
#[derive(Debug, PartialEq, Eq)]
pub struct PointerRollbackArgs {
    pub current_pointer: String,
    pub restored_pointer: String,
    pub rolled_back_at_unix_ms: u64,
    pub out_pointer: String,
    pub out_record: String,
}

pub struct PointerRollbackArgsView {
    pub current_pointer: Seq<char>,
    pub restored_pointer: Seq<char>,
    pub rolled_back_at_unix_ms: u64,
    pub out_pointer: Seq<char>,
    pub out_record: Seq<char>,
}

impl View for PointerRollbackArgs {
    type V = PointerRollbackArgsView;

    open spec fn view(&self) -> PointerRollbackArgsView {
        PointerRollbackArgsView {
            current_pointer: self.current_pointer@,
            restored_pointer: self.restored_pointer@,
            rolled_back_at_unix_ms: self.rolled_back_at_unix_ms,
            out_pointer: self.out_pointer@,
            out_record: self.out_record@,
        }
    }
}

pub open spec fn usage_text() -> Seq<char> {
    "usage: afterburner debug deploy scheduler-heartbeat pointer rollback --current-pointer PATH --restored-pointer PATH --rolled-back-at-unix-ms N [--out-pointer PATH] [--out-record PATH]"@
}

pub fn usage() -> (r: &'static str)
    ensures
        r@ == usage_text(),
{
    "usage: afterburner debug deploy scheduler-heartbeat pointer rollback --current-pointer PATH --restored-pointer PATH --rolled-back-at-unix-ms N [--out-pointer PATH] [--out-record PATH]"
}

pub open spec fn rules_spec() -> Seq<RuleSpec> {
    seq![
        RuleSpec { name: "--current-pointer"@, kind: ValueKind::Text, inline: InlineForm::StripAll },
        RuleSpec { name: "--restored-pointer"@, kind: ValueKind::Text, inline: InlineForm::StripAll },
        RuleSpec { name: "--rolled-back-at-unix-ms"@, kind: ValueKind::Number, inline: InlineForm::StripAll },
        RuleSpec { name: "--out-pointer"@, kind: ValueKind::Text, inline: InlineForm::StripAll },
        RuleSpec { name: "--out-record"@, kind: ValueKind::Text, inline: InlineForm::StripAll },
    ]
}

fn rules() -> (r: Vec<FlagRule>)
    ensures
        rules_view(r@) == rules_spec(),
{
    let mut r = Vec::new();
    r.push(rule("--current-pointer", ValueKind::Text, InlineForm::StripAll));
    r.push(rule("--restored-pointer", ValueKind::Text, InlineForm::StripAll));
    r.push(rule("--rolled-back-at-unix-ms", ValueKind::Number, InlineForm::StripAll));
    r.push(rule("--out-pointer", ValueKind::Text, InlineForm::StripAll));
    r.push(rule("--out-record", ValueKind::Text, InlineForm::StripAll));
    assert(rules_view(r@) =~= rules_spec());
    r
}

/// The arguments that the command line gives, or why it is refused.
pub open spec fn parse_args_spec(args: Seq<Seq<char>>) -> Result<PointerRollbackArgsView, Failure> {
    match scan(rules_spec(), args, "deploy scheduler-heartbeat pointer rollback"@, usage_text()) {
        Err(m) => Err(Failure::InvalidArg(m)),
        Ok(a) => {
            match last_text(a, 0) {
                None => Err(Failure::InvalidArg(missing_message("--current-pointer"@, usage_text()))),
                Some(v_current_pointer) => {
                    match last_text(a, 1) {
                        None => Err(Failure::InvalidArg(missing_message("--restored-pointer"@, usage_text()))),
                        Some(v_restored_pointer) => {
                            match last_number(a, 2) {
                                None => Err(Failure::InvalidArg(missing_message("--rolled-back-at-unix-ms"@, usage_text()))),
                                Some(v_rolled_back_at_unix_ms) => {
                                    Ok(PointerRollbackArgsView {
                                        current_pointer: v_current_pointer,
                                        restored_pointer: v_restored_pointer,
                                        rolled_back_at_unix_ms: v_rolled_back_at_unix_ms,
                                        out_pointer: match last_text(a, 3) { Some(p) => p, None => "artifacts/deploy/gpu_scheduler_heartbeat_pointer.json"@ },
                                        out_record: match last_text(a, 4) { Some(p) => p, None => "artifacts/deploy/gpu_scheduler_heartbeat_pointer_rollback.json"@ },
                                    })
                                }
                            }
                        }
                    }
                }
            }
        },
    }
}

pub fn parse_args(args: &Vec<String>) -> (r: Result<PointerRollbackArgs, CommandError>)
    ensures
        outcome(r) == parse_args_spec(texts_view(args@)),
{
    let rules = rules();
    let a = match scan_args(&rules, args, "deploy scheduler-heartbeat pointer rollback", usage()) {
        Ok(a) => a,
        Err(m) => {
            return Err(CommandError::InvalidArg(m));
        },
    };
    let current_pointer = match require_arg(last_text_of(&a, 0), "--current-pointer", usage()) {
        Ok(v) => v,
        Err(m) => {
            return Err(CommandError::InvalidArg(m));
        },
    };
    let restored_pointer = match require_arg(last_text_of(&a, 1), "--restored-pointer", usage()) {
        Ok(v) => v,
        Err(m) => {
            return Err(CommandError::InvalidArg(m));
        },
    };
    let rolled_back_at_unix_ms = match last_number_of(&a, 2) {
        Some(n) => n,
        None => {
            return Err(CommandError::InvalidArg(missing_arg("--rolled-back-at-unix-ms", usage())));
        },
    };
    let out_pointer = match last_text_of(&a, 3) {
        Some(s) => s,
        None => owned("artifacts/deploy/gpu_scheduler_heartbeat_pointer.json"),
    };
    let out_record = match last_text_of(&a, 4) {
        Some(s) => s,
        None => owned("artifacts/deploy/gpu_scheduler_heartbeat_pointer_rollback.json"),
    };
    Ok(PointerRollbackArgs { current_pointer, restored_pointer, rolled_back_at_unix_ms, out_pointer, out_record })
}


} // verus!
