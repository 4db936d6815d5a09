use vstd::prelude::*;
use crate::cli::{
    empty_message, last_number, last_number_of, last_text, last_text_of, missing_arg,
    missing_message, opt_view, require_arg, require_filled, require_non_empty, rule, rules_view,
    scan, scan_args, texts_view, FlagRule, InlineForm, RuleSpec, ValueKind,
};
use crate::fields::{
    check_reads, first_read_failure, json_outcome, outcome, read, reads_view, str_field, str_of,
    u64_field, u64_of, value_field, value_of, CommandError, Failure, ReadKind,
};
use crate::fields::{or_else, push_opt_str, push_opt_text, with_opt_str, with_opt_text};
use crate::json::{entries_get, entries_view, object_from_pairs, object_of, Json, JsonValue};
use crate::text::{is_blank, owned, trimmed};

verus! {

/// The arguments of `drift rollback-approved-baseline`.
#[derive(Debug, PartialEq, Eq)]
pub struct RollbackArgs {
    pub current_pointer: String,
    pub restored_approval: String,
    pub rolled_back_at_unix_ms: u64,
    pub out_pointer: String,
    pub out_record: String,
}

pub struct RollbackArgsView {
    pub current_pointer: Seq<char>,
    pub restored_approval: Seq<char>,
    pub rolled_back_at_unix_ms: u64,
    pub out_pointer: Seq<char>,
    pub out_record: Seq<char>,
}

impl View for RollbackArgs {
    type V = RollbackArgsView;

    open spec fn view(&self) -> RollbackArgsView {
        RollbackArgsView {
            current_pointer: self.current_pointer@,
            restored_approval: self.restored_approval@,
            rolled_back_at_unix_ms: self.rolled_back_at_unix_ms,
            out_pointer: self.out_pointer@,
            out_record: self.out_record@,
        }
    }
}

pub open spec fn usage_text() -> Seq<char> {
    "usage: afterburner drift rollback-approved-baseline --current-pointer PATH --restored-approval PATH --rolled-back-at-unix-ms N [--out-pointer PATH] [--out-record PATH]"@
}

pub fn usage() -> (r: &'static str)
    ensures
        r@ == usage_text(),
{
    "usage: afterburner drift rollback-approved-baseline --current-pointer PATH --restored-approval PATH --rolled-back-at-unix-ms N [--out-pointer PATH] [--out-record PATH]"
}

pub open spec fn rules_spec() -> Seq<RuleSpec> {
    seq![
        RuleSpec { name: "--current-pointer"@, kind: ValueKind::Text, inline: InlineForm::StripAll },
        RuleSpec { name: "--restored-approval"@, kind: ValueKind::Text, inline: InlineForm::StripAll },
        RuleSpec { name: "--rolled-back-at-unix-ms"@, kind: ValueKind::Number, inline: InlineForm::StripAll },
        RuleSpec { name: "--out-pointer"@, kind: ValueKind::Text, inline: InlineForm::StripAll },
        RuleSpec { name: "--out-record"@, kind: ValueKind::Text, inline: InlineForm::StripAll },
    ]
}

fn rules() -> (r: Vec<FlagRule>)
    ensures
        rules_view(r@) == rules_spec(),
{
    let mut r = Vec::new();
    r.push(rule("--current-pointer", ValueKind::Text, InlineForm::StripAll));
    r.push(rule("--restored-approval", ValueKind::Text, InlineForm::StripAll));
    r.push(rule("--rolled-back-at-unix-ms", ValueKind::Number, InlineForm::StripAll));
    r.push(rule("--out-pointer", ValueKind::Text, InlineForm::StripAll));
    r.push(rule("--out-record", ValueKind::Text, InlineForm::StripAll));
    assert(rules_view(r@) =~= rules_spec());
    r
}

/// The arguments that the command line gives, or why it is refused.
pub open spec fn parse_args_spec(args: Seq<Seq<char>>) -> Result<RollbackArgsView, Failure> {
    match scan(rules_spec(), args, "drift rollback-approved-baseline"@, usage_text()) {
        Err(m) => Err(Failure::InvalidArg(m)),
        Ok(a) => {
            match last_text(a, 0) {
                None => Err(Failure::InvalidArg(missing_message("--current-pointer"@, usage_text()))),
                Some(v_current_pointer) => {
                    match last_text(a, 1) {
                        None => Err(Failure::InvalidArg(missing_message("--restored-approval"@, usage_text()))),
                        Some(v_restored_approval) => {
                            match last_number(a, 2) {
                                None => Err(Failure::InvalidArg(missing_message("--rolled-back-at-unix-ms"@, usage_text()))),
                                Some(v_rolled_back_at_unix_ms) => {
                                    Ok(RollbackArgsView {
                                        current_pointer: v_current_pointer,
                                        restored_approval: v_restored_approval,
                                        rolled_back_at_unix_ms: v_rolled_back_at_unix_ms,
                                        out_pointer: match last_text(a, 3) { Some(p) => p, None => "artifacts/eval/infer_output_drift_baseline_pointer.json"@ },
                                        out_record: match last_text(a, 4) { Some(p) => p, None => "artifacts/eval/infer_output_drift_baseline_rollback.json"@ },
                                    })
                                }
                            }
                        }
                    }
                }
            }
        },
    }
}

pub fn parse_args(args: &Vec<String>) -> (r: Result<RollbackArgs, CommandError>)
    ensures
        outcome(r) == parse_args_spec(texts_view(args@)),
{
    let rules = rules();
    let a = match scan_args(&rules, args, "drift rollback-approved-baseline", usage()) {
        Ok(a) => a,
        Err(m) => {
            return Err(CommandError::InvalidArg(m));
        },
    };
    let current_pointer = match require_arg(last_text_of(&a, 0), "--current-pointer", usage()) {
        Ok(v) => v,
        Err(m) => {
            return Err(CommandError::InvalidArg(m));
        },
    };
    let restored_approval = match require_arg(last_text_of(&a, 1), "--restored-approval", usage()) {
        Ok(v) => v,
        Err(m) => {
            return Err(CommandError::InvalidArg(m));
        },
    };
    let rolled_back_at_unix_ms = match last_number_of(&a, 2) {
        Some(n) => n,
        None => {
            return Err(CommandError::InvalidArg(missing_arg("--rolled-back-at-unix-ms", usage())));
        },
    };
    let out_pointer = match last_text_of(&a, 3) {
        Some(s) => s,
        None => owned("artifacts/eval/infer_output_drift_baseline_pointer.json"),
    };
    let out_record = match last_text_of(&a, 4) {
        Some(s) => s,
        None => owned("artifacts/eval/infer_output_drift_baseline_rollback.json"),
    };
    Ok(RollbackArgs { current_pointer, restored_approval, rolled_back_at_unix_ms, out_pointer, out_record })
}

/// The pointer to the restored approval, when it is for the current pointer's policy profile.
pub open spec fn restored_pointer_spec(args: RollbackArgsView, current: Seq<(Seq<char>, Json)>, restored: Seq<(Seq<char>, Json)>) -> Result<Json, Failure> {
    match or_else(first_read_failure(current, seq![("policy_profile"@, ReadKind::Str)], args.current_pointer, "baseline pointer"@), or_else(first_read_failure(restored, seq![("policy_profile"@, ReadKind::Str)], args.restored_approval, "baseline pointer"@), or_else(if str_of(current, "policy_profile"@) == str_of(restored, "policy_profile"@) { None } else { Some("current pointer policy_profile `"@ + str_of(current, "policy_profile"@) + "` does not match restored approval policy_profile `"@ + str_of(restored, "policy_profile"@) + "`"@) }, first_read_failure(restored, seq![("artifact"@, ReadKind::Str), ("artifact_version"@, ReadKind::Str)], args.restored_approval, "baseline pointer"@)))) {
        Some(m) => Err(Failure::Parse(m)),
        None => Ok(object_of(seq![
                ("schema_version"@, Json::Str("1"@)),
                ("approval_path"@, Json::Str(args.restored_approval)),
                ("artifact"@, Json::Str(str_of(restored, "artifact"@))),
                ("artifact_version"@, Json::Str(str_of(restored, "artifact_version"@))),
                ("policy_profile"@, Json::Str(str_of(restored, "policy_profile"@))),
            ])),
    }
}

/// Checks the policy profiles and builds the restored pointer.
pub fn build_restored_pointer(args: &RollbackArgs, current: &Vec<(String, JsonValue)>, restored: &Vec<(String, JsonValue)>) -> (r: Result<JsonValue, CommandError>)
    ensures
        json_outcome(r) == restored_pointer_spec(args@, entries_view(current@), entries_view(restored@)),
{
    let mut reads0 = Vec::new();
    reads0.push(read("policy_profile", ReadKind::Str));
    assert(reads_view(reads0@) =~= seq![("policy_profile"@, ReadKind::Str)]);
    match check_reads(current, &reads0, args.current_pointer.as_str(), "baseline pointer") {
        Err(m) => {
            return Err(CommandError::Parse(m));
        },
        Ok(_) => {},
    }
    assert(reads_view(reads0@)[0].0 == "policy_profile"@);
    let mut reads1 = Vec::new();
    reads1.push(read("policy_profile", ReadKind::Str));
    assert(reads_view(reads1@) =~= seq![("policy_profile"@, ReadKind::Str)]);
    match check_reads(restored, &reads1, args.restored_approval.as_str(), "baseline pointer") {
        Err(m) => {
            return Err(CommandError::Parse(m));
        },
        Ok(_) => {},
    }
    assert(reads_view(reads1@)[0].0 == "policy_profile"@);
    if !(crate::json::text_eq(str_field(current, "policy_profile").as_str(), str_field(restored, "policy_profile").as_str())) {
        return Err(CommandError::Parse(crate::text::cat5("current pointer policy_profile `", str_field(current, "policy_profile").as_str(), "` does not match restored approval policy_profile `", str_field(restored, "policy_profile").as_str(), "`")));
    }
    let mut reads3 = Vec::new();
    reads3.push(read("artifact", ReadKind::Str));
    reads3.push(read("artifact_version", ReadKind::Str));
    assert(reads_view(reads3@) =~= seq![("artifact"@, ReadKind::Str), ("artifact_version"@, ReadKind::Str)]);
    match check_reads(restored, &reads3, args.restored_approval.as_str(), "baseline pointer") {
        Err(m) => {
            return Err(CommandError::Parse(m));
        },
        Ok(_) => {},
    }
    assert(reads_view(reads3@)[0].0 == "artifact"@);
    assert(reads_view(reads3@)[1].0 == "artifact_version"@);
    let mut pairs: Vec<(String, JsonValue)> = Vec::new();
    pairs.push((owned("schema_version"), JsonValue::Str(owned("1"))));
    pairs.push((owned("approval_path"), JsonValue::Str(args.restored_approval.clone())));
    pairs.push((owned("artifact"), JsonValue::Str(str_field(restored, "artifact"))));
    pairs.push((owned("artifact_version"), JsonValue::Str(str_field(restored, "artifact_version"))));
    pairs.push((owned("policy_profile"), JsonValue::Str(str_field(restored, "policy_profile"))));
    proof {
        let args = args@;
        let current = entries_view(current@);
        let restored = entries_view(restored@);
        assert(entries_view(pairs@) =~= seq![
                ("schema_version"@, Json::Str("1"@)),
                ("approval_path"@, Json::Str(args.restored_approval)),
                ("artifact"@, Json::Str(str_of(restored, "artifact"@))),
                ("artifact_version"@, Json::Str(str_of(restored, "artifact_version"@))),
                ("policy_profile"@, Json::Str(str_of(restored, "policy_profile"@))),
            ]);
    }
    Ok(object_from_pairs(pairs))
}

/// The record of a rollback: the version left and the version restored.
pub open spec fn rollback_record_spec(args: RollbackArgsView, current: Seq<(Seq<char>, Json)>, restored: Seq<(Seq<char>, Json)>) -> Result<Json, Failure> {
    match or_else(first_read_failure(current, seq![("artifact_version"@, ReadKind::Str)], args.current_pointer, "baseline pointer"@), first_read_failure(restored, seq![("artifact_version"@, ReadKind::Str), ("policy_profile"@, ReadKind::Str)], args.restored_approval, "baseline pointer"@)) {
        Some(m) => Err(Failure::Parse(m)),
        None => Ok(object_of(seq![
                ("schema_version"@, Json::Str("1"@)),
                ("current_pointer_path"@, Json::Str(args.current_pointer)),
                ("restored_approval_path"@, Json::Str(args.restored_approval)),
                ("previous_artifact_version"@, Json::Str(str_of(current, "artifact_version"@))),
                ("restored_artifact_version"@, Json::Str(str_of(restored, "artifact_version"@))),
                ("policy_profile"@, Json::Str(str_of(restored, "policy_profile"@))),
                ("rolled_back_at_unix_ms"@, Json::UInt(args.rolled_back_at_unix_ms)),
            ])),
    }
}

/// Builds the rollback record.
pub fn build_rollback_record(args: &RollbackArgs, current: &Vec<(String, JsonValue)>, restored: &Vec<(String, JsonValue)>) -> (r: Result<JsonValue, CommandError>)
    ensures
        json_outcome(r) == rollback_record_spec(args@, entries_view(current@), entries_view(restored@)),
{
    let mut reads0 = Vec::new();
    reads0.push(read("artifact_version", ReadKind::Str));
    assert(reads_view(reads0@) =~= seq![("artifact_version"@, ReadKind::Str)]);
    match check_reads(current, &reads0, args.current_pointer.as_str(), "baseline pointer") {
        Err(m) => {
            return Err(CommandError::Parse(m));
        },
        Ok(_) => {},
    }
    assert(reads_view(reads0@)[0].0 == "artifact_version"@);
    let mut reads1 = Vec::new();
    reads1.push(read("artifact_version", ReadKind::Str));
    reads1.push(read("policy_profile", ReadKind::Str));
    assert(reads_view(reads1@) =~= seq![("artifact_version"@, ReadKind::Str), ("policy_profile"@, ReadKind::Str)]);
    match check_reads(restored, &reads1, args.restored_approval.as_str(), "baseline pointer") {
        Err(m) => {
            return Err(CommandError::Parse(m));
        },
        Ok(_) => {},
    }
    assert(reads_view(reads1@)[0].0 == "artifact_version"@);
    assert(reads_view(reads1@)[1].0 == "policy_profile"@);
    let mut pairs: Vec<(String, JsonValue)> = Vec::new();
    pairs.push((owned("schema_version"), JsonValue::Str(owned("1"))));
    pairs.push((owned("current_pointer_path"), JsonValue::Str(args.current_pointer.clone())));
    pairs.push((owned("restored_approval_path"), JsonValue::Str(args.restored_approval.clone())));
    pairs.push((owned("previous_artifact_version"), JsonValue::Str(str_field(current, "artifact_version"))));
    pairs.push((owned("restored_artifact_version"), JsonValue::Str(str_field(restored, "artifact_version"))));
    pairs.push((owned("policy_profile"), JsonValue::Str(str_field(restored, "policy_profile"))));
    pairs.push((owned("rolled_back_at_unix_ms"), JsonValue::UInt(args.rolled_back_at_unix_ms)));
    proof {
        let args = args@;
        let current = entries_view(current@);
        let restored = entries_view(restored@);
        assert(entries_view(pairs@) =~= seq![
                ("schema_version"@, Json::Str("1"@)),
                ("current_pointer_path"@, Json::Str(args.current_pointer)),
                ("restored_approval_path"@, Json::Str(args.restored_approval)),
                ("previous_artifact_version"@, Json::Str(str_of(current, "artifact_version"@))),
                ("restored_artifact_version"@, Json::Str(str_of(restored, "artifact_version"@))),
                ("policy_profile"@, Json::Str(str_of(restored, "policy_profile"@))),
                ("rolled_back_at_unix_ms"@, Json::UInt(args.rolled_back_at_unix_ms)),
            ]);
    }
    Ok(object_from_pairs(pairs))
}


} // verus!
