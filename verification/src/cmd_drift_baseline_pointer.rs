use vstd::prelude::*;
use crate::cli::{
    empty_message, last_number, last_number_of, last_text, last_text_of, missing_arg,
    missing_message, opt_view, require_arg, require_filled, require_non_empty, rule, rules_view,
    scan, scan_args, texts_view, FlagRule, InlineForm, RuleSpec, ValueKind,
};
use crate::fields::{
    check_reads, first_read_failure, json_outcome, outcome, read, reads_view, str_field, str_of,
    u64_field, u64_of, value_field, value_of, CommandError, Failure, ReadKind,
};
use crate::json::{entries_view, object_from_pairs, object_of, Json, JsonValue};
use crate::text::{is_blank, owned, trimmed};

verus! {

/// The arguments of `drift point-approved-baseline`.
#[derive(Debug, PartialEq, Eq)]
pub struct PointerArgs {
    pub approval: String,
    pub out_path: String,
}

pub struct PointerArgsView {
    pub approval: Seq<char>,
    pub out_path: Seq<char>,
}

impl View for PointerArgs {
    type V = PointerArgsView;

    open spec fn view(&self) -> PointerArgsView {
        PointerArgsView {
            approval: self.approval@,
            out_path: self.out_path@,
        }
    }
}

pub open spec fn usage_text() -> Seq<char> {
    "usage: afterburner drift point-approved-baseline --approval PATH [--out PATH]"@
}

pub fn usage() -> (r: &'static str)
    ensures
        r@ == usage_text(),
{
    "usage: afterburner drift point-approved-baseline --approval PATH [--out PATH]"
}

pub open spec fn rules_spec() -> Seq<RuleSpec> {
    seq![
        RuleSpec { name: "--approval"@, kind: ValueKind::Text, inline: InlineForm::StripAll },
        RuleSpec { name: "--out"@, kind: ValueKind::Text, inline: InlineForm::StripAll },
    ]
}

fn rules() -> (r: Vec<FlagRule>)
    ensures
        rules_view(r@) == rules_spec(),
{
    let mut r = Vec::new();
    r.push(rule("--approval", ValueKind::Text, InlineForm::StripAll));
    r.push(rule("--out", ValueKind::Text, InlineForm::StripAll));
    assert(rules_view(r@) =~= rules_spec());
    r
}

/// The arguments that the command line gives, or why it is refused.
pub open spec fn parse_args_spec(args: Seq<Seq<char>>) -> Result<PointerArgsView, Failure> {
    match scan(rules_spec(), args, "drift point-approved-baseline"@, usage_text()) {
        Err(m) => Err(Failure::InvalidArg(m)),
        Ok(a) => {
            match last_text(a, 0) {
                None => Err(Failure::InvalidArg(missing_message("--approval"@, usage_text()))),
                Some(v_approval) => {
                    Ok(PointerArgsView {
                        approval: v_approval,
                        out_path: match last_text(a, 1) { Some(p) => p, None => "artifacts/eval/infer_output_drift_baseline_pointer.json"@ },
                    })
                }
            }
        },
    }
}

pub fn parse_args(args: &Vec<String>) -> (r: Result<PointerArgs, CommandError>)
    ensures
        outcome(r) == parse_args_spec(texts_view(args@)),
{
    let rules = rules();
    let a = match scan_args(&rules, args, "drift point-approved-baseline", usage()) {
        Ok(a) => a,
        Err(m) => {
            return Err(CommandError::InvalidArg(m));
        },
    };
    let approval = match require_arg(last_text_of(&a, 0), "--approval", usage()) {
        Ok(v) => v,
        Err(m) => {
            return Err(CommandError::InvalidArg(m));
        },
    };
    let out_path = match last_text_of(&a, 1) {
        Some(s) => s,
        None => owned("artifacts/eval/infer_output_drift_baseline_pointer.json"),
    };
    Ok(PointerArgs { approval, out_path })
}

pub open spec fn pointer_reads() -> Seq<(Seq<char>, ReadKind)> {
    seq![
        ("artifact"@, ReadKind::Str),
        ("artifact_version"@, ReadKind::Str),
        ("policy_profile"@, ReadKind::Str),
    ]
}

/// The pointer document for an approval.
pub open spec fn pointer_spec(args: PointerArgsView, approval: Seq<(Seq<char>, Json)>) -> Result<
    Json,
    Failure,
> {
    match first_read_failure(
        approval,
        pointer_reads(),
        args.approval,
        "drift baseline transport locator"@,
    ) {
        Some(m) => Err(Failure::Parse(m)),
        None => Ok(
            object_of(
                seq![
                    ("schema_version"@, Json::Str("1"@)),
                    ("approval_path"@, Json::Str(args.approval)),
                    ("artifact"@, Json::Str(str_of(approval, "artifact"@))),
                    ("artifact_version"@, Json::Str(str_of(approval, "artifact_version"@))),
                    ("policy_profile"@, Json::Str(str_of(approval, "policy_profile"@))),
                ],
            ),
        ),
    }
}

/// Builds the pointer document from the approval's fields.
pub fn build_pointer(args: &PointerArgs, approval: &Vec<(String, JsonValue)>) -> (r: Result<
    JsonValue,
    CommandError,
>)
    ensures
        json_outcome(r) == pointer_spec(args@, entries_view(approval@)),
{
    let mut reads = Vec::new();
    reads.push(read("artifact", ReadKind::Str));
    reads.push(read("artifact_version", ReadKind::Str));
    reads.push(read("policy_profile", ReadKind::Str));
    assert(reads_view(reads@) =~= pointer_reads());
    match check_reads(approval, &reads, args.approval.as_str(), "drift baseline transport locator") {
        Err(m) => {
            return Err(CommandError::Parse(m));
        },
        Ok(_) => {},
    }
    assert(reads_view(reads@)[1].0 == "artifact_version"@);
    assert(reads_view(reads@)[2].0 == "policy_profile"@);
    let mut pairs: Vec<(String, JsonValue)> = Vec::new();
    pairs.push((owned("schema_version"), JsonValue::Str(owned("1"))));
    pairs.push((owned("approval_path"), JsonValue::Str(args.approval.clone())));
    pairs.push((owned("artifact"), JsonValue::Str(str_field(approval, "artifact"))));
    pairs.push(
        (owned("artifact_version"), JsonValue::Str(str_field(approval, "artifact_version"))),
    );
    pairs.push((owned("policy_profile"), JsonValue::Str(str_field(approval, "policy_profile"))));
    let ghost o = entries_view(approval@);
    assert(entries_view(pairs@) =~= seq![
        ("schema_version"@, Json::Str("1"@)),
        ("approval_path"@, Json::Str(args.approval@)),
        ("artifact"@, Json::Str(str_of(o, "artifact"@))),
        ("artifact_version"@, Json::Str(str_of(o, "artifact_version"@))),
        ("policy_profile"@, Json::Str(str_of(o, "policy_profile"@))),
    ]);
    Ok(object_from_pairs(pairs))
}


} // verus!
