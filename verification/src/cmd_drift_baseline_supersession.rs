use vstd::prelude::*;
use crate::cli::{
    empty_message, last_number, last_number_of, last_text, last_text_of, missing_arg,
    missing_message, opt_view, require_arg, require_filled, require_non_empty, rule, rules_view,
    scan, scan_args, texts_view, FlagRule, InlineForm, RuleSpec, ValueKind,
};
use crate::fields::{
    check_reads, first_read_failure, json_outcome, outcome, read, reads_view, str_field, str_of,
    u64_field, u64_of, value_field, value_of, CommandError, Failure, ReadKind,
};
use crate::fields::{or_else, push_opt_str, push_opt_text, with_opt_str, with_opt_text};
use crate::json::{entries_get, entries_view, object_from_pairs, object_of, Json, JsonValue};
use crate::text::{is_blank, owned, trimmed};

verus! {

/// The arguments of `drift-supersede-baseline-approval`.
#[derive(Debug, PartialEq, Eq)]
pub struct SupersessionArgs {
    pub previous_approval: String,
    pub next_approval: String,
    pub superseded_at_unix_ms: u64,
    pub out_path: String,
}

pub struct SupersessionArgsView {
    pub previous_approval: Seq<char>,
    pub next_approval: Seq<char>,
    pub superseded_at_unix_ms: u64,
    pub out_path: Seq<char>,
}

impl View for SupersessionArgs {
    type V = SupersessionArgsView;

    open spec fn view(&self) -> SupersessionArgsView {
        SupersessionArgsView {
            previous_approval: self.previous_approval@,
            next_approval: self.next_approval@,
            superseded_at_unix_ms: self.superseded_at_unix_ms,
            out_path: self.out_path@,
        }
    }
}

pub open spec fn usage_text() -> Seq<char> {
    "usage: afterburner drift-supersede-baseline-approval --previous-approval PATH --next-approval PATH --superseded-at-unix-ms N [--out PATH]"@
}

pub fn usage() -> (r: &'static str)
    ensures
        r@ == usage_text(),
{
    "usage: afterburner drift-supersede-baseline-approval --previous-approval PATH --next-approval PATH --superseded-at-unix-ms N [--out PATH]"
}

pub open spec fn rules_spec() -> Seq<RuleSpec> {
    seq![
        RuleSpec { name: "--previous-approval"@, kind: ValueKind::Text, inline: InlineForm::StripAll },
        RuleSpec { name: "--next-approval"@, kind: ValueKind::Text, inline: InlineForm::StripAll },
        RuleSpec { name: "--superseded-at-unix-ms"@, kind: ValueKind::Number, inline: InlineForm::StripAll },
        RuleSpec { name: "--out"@, kind: ValueKind::Text, inline: InlineForm::StripAll },
    ]
}

fn rules() -> (r: Vec<FlagRule>)
    ensures
        rules_view(r@) == rules_spec(),
{
    let mut r = Vec::new();
    r.push(rule("--previous-approval", ValueKind::Text, InlineForm::StripAll));
    r.push(rule("--next-approval", ValueKind::Text, InlineForm::StripAll));
    r.push(rule("--superseded-at-unix-ms", ValueKind::Number, InlineForm::StripAll));
    r.push(rule("--out", ValueKind::Text, InlineForm::StripAll));
    assert(rules_view(r@) =~= rules_spec());
    r
}

/// The arguments that the command line gives, or why it is refused.
pub open spec fn parse_args_spec(args: Seq<Seq<char>>) -> Result<SupersessionArgsView, Failure> {
    match scan(rules_spec(), args, "drift-supersede-baseline-approval"@, usage_text()) {
        Err(m) => Err(Failure::InvalidArg(m)),
        Ok(a) => {
            match last_text(a, 0) {
                None => Err(Failure::InvalidArg(missing_message("--previous-approval"@, usage_text()))),
                Some(v_previous_approval) => {
                    match last_text(a, 1) {
                        None => Err(Failure::InvalidArg(missing_message("--next-approval"@, usage_text()))),
                        Some(v_next_approval) => {
                            match last_number(a, 2) {
                                None => Err(Failure::InvalidArg(missing_message("--superseded-at-unix-ms"@, usage_text()))),
                                Some(v_superseded_at_unix_ms) => {
                                    Ok(SupersessionArgsView {
                                        previous_approval: v_previous_approval,
                                        next_approval: v_next_approval,
                                        superseded_at_unix_ms: v_superseded_at_unix_ms,
                                        out_path: match last_text(a, 3) { Some(p) => p, None => "artifacts/eval/infer_output_drift_baseline_supersession.json"@ },
                                    })
                                }
                            }
                        }
                    }
                }
            }
        },
    }
}

pub fn parse_args(args: &Vec<String>) -> (r: Result<SupersessionArgs, CommandError>)
    ensures
        outcome(r) == parse_args_spec(texts_view(args@)),
{
    let rules = rules();
    let a = match scan_args(&rules, args, "drift-supersede-baseline-approval", usage()) {
        Ok(a) => a,
        Err(m) => {
            return Err(CommandError::InvalidArg(m));
        },
    };
    let previous_approval = match require_arg(last_text_of(&a, 0), "--previous-approval", usage()) {
        Ok(v) => v,
        Err(m) => {
            return Err(CommandError::InvalidArg(m));
        },
    };
    let next_approval = match require_arg(last_text_of(&a, 1), "--next-approval", usage()) {
        Ok(v) => v,
        Err(m) => {
            return Err(CommandError::InvalidArg(m));
        },
    };
    let superseded_at_unix_ms = match last_number_of(&a, 2) {
        Some(n) => n,
        None => {
            return Err(CommandError::InvalidArg(missing_arg("--superseded-at-unix-ms", usage())));
        },
    };
    let out_path = match last_text_of(&a, 3) {
        Some(s) => s,
        None => owned("artifacts/eval/infer_output_drift_baseline_supersession.json"),
    };
    Ok(SupersessionArgs { previous_approval, next_approval, superseded_at_unix_ms, out_path })
}

/// The supersession of one baseline approval by the next: they must be for different artifact versions and share a policy profile.
pub open spec fn supersession_spec(args: SupersessionArgsView, previous: Seq<(Seq<char>, Json)>, next: Seq<(Seq<char>, Json)>) -> Result<Json, Failure> {
    match or_else(first_read_failure(previous, seq![("artifact_version"@, ReadKind::Str)], args.previous_approval, "approval"@), or_else(first_read_failure(next, seq![("artifact_version"@, ReadKind::Str)], args.next_approval, "approval"@), or_else(if str_of(previous, "artifact_version"@) != str_of(next, "artifact_version"@) { None } else { Some("next approval `"@ + args.next_approval + "` must target a different artifact_version than previous approval `"@ + args.previous_approval + "`"@) }, or_else(first_read_failure(previous, seq![("policy_profile"@, ReadKind::Str)], args.previous_approval, "approval"@), or_else(first_read_failure(next, seq![("policy_profile"@, ReadKind::Str)], args.next_approval, "approval"@), or_else(if str_of(previous, "policy_profile"@) == str_of(next, "policy_profile"@) { None } else { Some("baseline approvals must share one policy_profile, found `"@ + str_of(previous, "policy_profile"@) + "` and `"@ + str_of(next, "policy_profile"@) + "`"@) }, first_read_failure(next, seq![("approval_ticket"@, ReadKind::Str)], args.next_approval, "approval"@))))))) {
        Some(m) => Err(Failure::Parse(m)),
        None => Ok(object_of(seq![
                ("schema_version"@, Json::Str("1"@)),
                ("previous_approval_path"@, Json::Str(args.previous_approval)),
                ("next_approval_path"@, Json::Str(args.next_approval)),
                ("superseded_by_approval_ticket"@, Json::Str(str_of(next, "approval_ticket"@))),
                ("previous_artifact_version"@, Json::Str(str_of(previous, "artifact_version"@))),
                ("next_artifact_version"@, Json::Str(str_of(next, "artifact_version"@))),
                ("policy_profile"@, Json::Str(str_of(next, "policy_profile"@))),
                ("superseded_at_unix_ms"@, Json::UInt(args.superseded_at_unix_ms)),
            ])),
    }
}

/// Checks the two approvals and builds the supersession.
pub fn build_supersession(args: &SupersessionArgs, previous: &Vec<(String, JsonValue)>, next: &Vec<(String, JsonValue)>) -> (r: Result<JsonValue, CommandError>)
    ensures
        json_outcome(r) == supersession_spec(args@, entries_view(previous@), entries_view(next@)),
{
    let mut reads0 = Vec::new();
    reads0.push(read("artifact_version", ReadKind::Str));
    assert(reads_view(reads0@) =~= seq![("artifact_version"@, ReadKind::Str)]);
    match check_reads(previous, &reads0, args.previous_approval.as_str(), "approval") {
        Err(m) => {
            return Err(CommandError::Parse(m));
        },
        Ok(_) => {},
    }
    assert(reads_view(reads0@)[0].0 == "artifact_version"@);
    let mut reads1 = Vec::new();
    reads1.push(read("artifact_version", ReadKind::Str));
    assert(reads_view(reads1@) =~= seq![("artifact_version"@, ReadKind::Str)]);
    match check_reads(next, &reads1, args.next_approval.as_str(), "approval") {
        Err(m) => {
            return Err(CommandError::Parse(m));
        },
        Ok(_) => {},
    }
    assert(reads_view(reads1@)[0].0 == "artifact_version"@);
    if !(!crate::json::text_eq(str_field(previous, "artifact_version").as_str(), str_field(next, "artifact_version").as_str())) {
        return Err(CommandError::Parse(crate::text::cat5("next approval `", args.next_approval.as_str(), "` must target a different artifact_version than previous approval `", args.previous_approval.as_str(), "`")));
    }
    let mut reads3 = Vec::new();
    reads3.push(read("policy_profile", ReadKind::Str));
    assert(reads_view(reads3@) =~= seq![("policy_profile"@, ReadKind::Str)]);
    match check_reads(previous, &reads3, args.previous_approval.as_str(), "approval") {
        Err(m) => {
            return Err(CommandError::Parse(m));
        },
        Ok(_) => {},
    }
    assert(reads_view(reads3@)[0].0 == "policy_profile"@);
    let mut reads4 = Vec::new();
    reads4.push(read("policy_profile", ReadKind::Str));
    assert(reads_view(reads4@) =~= seq![("policy_profile"@, ReadKind::Str)]);
    match check_reads(next, &reads4, args.next_approval.as_str(), "approval") {
        Err(m) => {
            return Err(CommandError::Parse(m));
        },
        Ok(_) => {},
    }
    assert(reads_view(reads4@)[0].0 == "policy_profile"@);
    if !(crate::json::text_eq(str_field(previous, "policy_profile").as_str(), str_field(next, "policy_profile").as_str())) {
        return Err(CommandError::Parse(crate::text::cat5("baseline approvals must share one policy_profile, found `", str_field(previous, "policy_profile").as_str(), "` and `", str_field(next, "policy_profile").as_str(), "`")));
    }
    let mut reads6 = Vec::new();
    reads6.push(read("approval_ticket", ReadKind::Str));
    assert(reads_view(reads6@) =~= seq![("approval_ticket"@, ReadKind::Str)]);
    match check_reads(next, &reads6, args.next_approval.as_str(), "approval") {
        Err(m) => {
            return Err(CommandError::Parse(m));
        },
        Ok(_) => {},
    }
    assert(reads_view(reads6@)[0].0 == "approval_ticket"@);
    let mut pairs: Vec<(String, JsonValue)> = Vec::new();
    pairs.push((owned("schema_version"), JsonValue::Str(owned("1"))));
    pairs.push((owned("previous_approval_path"), JsonValue::Str(args.previous_approval.clone())));
    pairs.push((owned("next_approval_path"), JsonValue::Str(args.next_approval.clone())));
    pairs.push((owned("superseded_by_approval_ticket"), JsonValue::Str(str_field(next, "approval_ticket"))));
    pairs.push((owned("previous_artifact_version"), JsonValue::Str(str_field(previous, "artifact_version"))));
    pairs.push((owned("next_artifact_version"), JsonValue::Str(str_field(next, "artifact_version"))));
    pairs.push((owned("policy_profile"), JsonValue::Str(str_field(next, "policy_profile"))));
    pairs.push((owned("superseded_at_unix_ms"), JsonValue::UInt(args.superseded_at_unix_ms)));
    proof {
        let args = args@;
        let previous = entries_view(previous@);
        let next = entries_view(next@);
        assert(entries_view(pairs@) =~= seq![
                ("schema_version"@, Json::Str("1"@)),
                ("previous_approval_path"@, Json::Str(args.previous_approval)),
                ("next_approval_path"@, Json::Str(args.next_approval)),
                ("superseded_by_approval_ticket"@, Json::Str(str_of(next, "approval_ticket"@))),
                ("previous_artifact_version"@, Json::Str(str_of(previous, "artifact_version"@))),
                ("next_artifact_version"@, Json::Str(str_of(next, "artifact_version"@))),
                ("policy_profile"@, Json::Str(str_of(next, "policy_profile"@))),
                ("superseded_at_unix_ms"@, Json::UInt(args.superseded_at_unix_ms)),
            ]);
    }
    Ok(object_from_pairs(pairs))
}


/// A baseline approval never supersedes itself: superseding an approval by the same one is refused.
pub proof fn law_no_self_supersession(args: SupersessionArgsView, record: Seq<(Seq<char>, Json)>)
    ensures
        supersession_spec(args, record, record) is Err,
{
}

} // verus!
