use vstd::prelude::*;
use crate::cli::{
    empty_message, last_number, last_number_of, last_text, last_text_of, missing_arg,
    missing_message, opt_view, require_arg, require_filled, require_non_empty, rule, rules_view,
    scan, scan_args, texts_view, FlagRule, InlineForm, RuleSpec, ValueKind,
};
use crate::fields::{
    check_reads, first_read_failure, json_outcome, outcome, read, reads_view, str_field, str_of,
    u64_field, u64_of, value_field, value_of, CommandError, Failure, ReadKind,
};
use crate::fields::{or_else, push_opt_str, push_opt_text, with_opt_str, with_opt_text};
use crate::json::{entries_get, entries_view, object_from_pairs, object_of, Json, JsonValue};
use crate::text::{is_blank, owned, trimmed};

verus! {

/// The arguments of `deploy scheduler-heartbeat pointer rollback supersession reconcile`.
#[derive(Debug, PartialEq, Eq)]
pub struct RollbackSupersessionReconcileArgs {
    pub supersession: String,
    pub current_supersession: String,
    pub out_path: String,
}

pub struct RollbackSupersessionReconcileArgsView {
    pub supersession: Seq<char>,
    pub current_supersession: Seq<char>,
    pub out_path: Seq<char>,
}

impl View for RollbackSupersessionReconcileArgs {
    type V = RollbackSupersessionReconcileArgsView;

    open spec fn view(&self) -> RollbackSupersessionReconcileArgsView {
        RollbackSupersessionReconcileArgsView {
            supersession: self.supersession@,
            current_supersession: self.current_supersession@,
            out_path: self.out_path@,
        }
    }
}

pub open spec fn usage_text() -> Seq<char> {
    "usage: afterburner debug deploy scheduler-heartbeat pointer rollback supersession reconcile --supersession PATH --current-supersession PATH [--out PATH]"@
}

pub fn usage() -> (r: &'static str)
    ensures
        r@ == usage_text(),
{
    "usage: afterburner debug deploy scheduler-heartbeat pointer rollback supersession reconcile --supersession PATH --current-supersession PATH [--out PATH]"
}

pub open spec fn rules_spec() -> Seq<RuleSpec> {
    seq![
        RuleSpec { name: "--supersession"@, kind: ValueKind::Text, inline: InlineForm::StripAll },
        RuleSpec { name: "--current-supersession"@, kind: ValueKind::Text, inline: InlineForm::StripAll },
        RuleSpec { name: "--out"@, kind: ValueKind::Text, inline: InlineForm::StripAll },
    ]
}

fn rules() -> (r: Vec<FlagRule>)
    ensures
        rules_view(r@) == rules_spec(),
{
    let mut r = Vec::new();
    r.push(rule("--supersession", ValueKind::Text, InlineForm::StripAll));
    r.push(rule("--current-supersession", ValueKind::Text, InlineForm::StripAll));
    r.push(rule("--out", ValueKind::Text, InlineForm::StripAll));
    assert(rules_view(r@) =~= rules_spec());
    r
}

/// The arguments that the command line gives, or why it is refused.
pub open spec fn parse_args_spec(args: Seq<Seq<char>>) -> Result<RollbackSupersessionReconcileArgsView, Failure> {
    match scan(rules_spec(), args, "deploy scheduler-heartbeat pointer rollback supersession reconcile"@, usage_text()) {
        Err(m) => Err(Failure::InvalidArg(m)),
        Ok(a) => {
            match last_text(a, 0) {
                None => Err(Failure::InvalidArg(missing_message("--supersession"@, usage_text()))),
                Some(v_supersession) => {
                    match last_text(a, 1) {
                        None => Err(Failure::InvalidArg(missing_message("--current-supersession"@, usage_text()))),
                        Some(v_current_supersession) => {
                            Ok(RollbackSupersessionReconcileArgsView {
                                supersession: v_supersession,
                                current_supersession: v_current_supersession,
                                out_path: match last_text(a, 2) { Some(p) => p, None => "artifacts/deploy/gpu_scheduler_heartbeat_pointer_rollback_supersession_reconciliation.json"@ },
                            })
                        }
                    }
                }
            }
        },
    }
}

pub fn parse_args(args: &Vec<String>) -> (r: Result<RollbackSupersessionReconcileArgs, CommandError>)
    ensures
        outcome(r) == parse_args_spec(texts_view(args@)),
{
    let rules = rules();
    let a = match scan_args(&rules, args, "deploy scheduler-heartbeat pointer rollback supersession reconcile", usage()) {
        Ok(a) => a,
        Err(m) => {
            return Err(CommandError::InvalidArg(m));
        },
    };
    let supersession = match require_arg(last_text_of(&a, 0), "--supersession", usage()) {
        Ok(v) => v,
        Err(m) => {
            return Err(CommandError::InvalidArg(m));
        },
    };
    let current_supersession = match require_arg(last_text_of(&a, 1), "--current-supersession", usage()) {
        Ok(v) => v,
        Err(m) => {
            return Err(CommandError::InvalidArg(m));
        },
    };
    let out_path = match last_text_of(&a, 2) {
        Some(s) => s,
        None => owned("artifacts/deploy/gpu_scheduler_heartbeat_pointer_rollback_supersession_reconciliation.json"),
    };
    Ok(RollbackSupersessionReconcileArgs { supersession, current_supersession, out_path })
}


} // verus!
