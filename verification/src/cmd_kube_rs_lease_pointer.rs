use vstd::prelude::*;
use crate::cli::{
    empty_message, last_number, last_number_of, last_text, last_text_of, missing_arg,
    missing_message, opt_view, require_arg, require_filled, require_non_empty, rule, rules_view,
    scan, scan_args, texts_view, FlagRule, InlineForm, RuleSpec, ValueKind,
};
use crate::fields::{
    check_reads, first_read_failure, json_outcome, outcome, read, reads_view, str_field, str_of,
    u64_field, u64_of, value_field, value_of, CommandError, Failure, ReadKind,
};
use crate::fields::{or_else, push_opt_str, with_opt_str};
use crate::json::{entries_get, entries_view, object_from_pairs, object_of, Json, JsonValue};
use crate::text::{is_blank, owned, trimmed};

verus! {

/// The arguments of `deploy point-kube-rs-lease`.
#[derive(Debug, PartialEq, Eq)]
pub struct LeasePointerArgs {
    pub reconciliation: String,
    pub out_path: String,
}

pub struct LeasePointerArgsView {
    pub reconciliation: Seq<char>,
    pub out_path: Seq<char>,
}

impl View for LeasePointerArgs {
    type V = LeasePointerArgsView;

    open spec fn view(&self) -> LeasePointerArgsView {
        LeasePointerArgsView {
            reconciliation: self.reconciliation@,
            out_path: self.out_path@,
        }
    }
}

pub open spec fn usage_text() -> Seq<char> {
    "usage: afterburner deploy point-kube-rs-lease --reconciliation PATH [--out PATH]"@
}

pub fn usage() -> (r: &'static str)
    ensures
        r@ == usage_text(),
{
    "usage: afterburner deploy point-kube-rs-lease --reconciliation PATH [--out PATH]"
}

pub open spec fn rules_spec() -> Seq<RuleSpec> {
    seq![
        RuleSpec { name: "--reconciliation"@, kind: ValueKind::Text, inline: InlineForm::StripAll },
        RuleSpec { name: "--out"@, kind: ValueKind::Text, inline: InlineForm::StripAll },
    ]
}

fn rules() -> (r: Vec<FlagRule>)
    ensures
        rules_view(r@) == rules_spec(),
{
    let mut r = Vec::new();
    r.push(rule("--reconciliation", ValueKind::Text, InlineForm::StripAll));
    r.push(rule("--out", ValueKind::Text, InlineForm::StripAll));
    assert(rules_view(r@) =~= rules_spec());
    r
}

/// The arguments that the command line gives, or why it is refused.
pub open spec fn parse_args_spec(args: Seq<Seq<char>>) -> Result<LeasePointerArgsView, Failure> {
    match scan(rules_spec(), args, "deploy point-kube-rs-lease"@, usage_text()) {
        Err(m) => Err(Failure::InvalidArg(m)),
        Ok(a) => {
            match last_text(a, 0) {
                None => Err(Failure::InvalidArg(missing_message("--reconciliation"@, usage_text()))),
                Some(v_reconciliation) => {
                    Ok(LeasePointerArgsView {
                        reconciliation: v_reconciliation,
                        out_path: match last_text(a, 1) { Some(p) => p, None => "artifacts/deploy/kube_rs_gpu_lease_pointer.json"@ },
                    })
                }
            }
        },
    }
}

pub fn parse_args(args: &Vec<String>) -> (r: Result<LeasePointerArgs, CommandError>)
    ensures
        outcome(r) == parse_args_spec(texts_view(args@)),
{
    let rules = rules();
    let a = match scan_args(&rules, args, "deploy point-kube-rs-lease", usage()) {
        Ok(a) => a,
        Err(m) => {
            return Err(CommandError::InvalidArg(m));
        },
    };
    let reconciliation = match require_arg(last_text_of(&a, 0), "--reconciliation", usage()) {
        Ok(v) => v,
        Err(m) => {
            return Err(CommandError::InvalidArg(m));
        },
    };
    let out_path = match last_text_of(&a, 1) {
        Some(s) => s,
        None => owned("artifacts/deploy/kube_rs_gpu_lease_pointer.json"),
    };
    Ok(LeasePointerArgs { reconciliation, out_path })
}

/// The pointer to a kube-rs lease reconciliation: the lease, its placement and its desired state.
pub open spec fn pointer_spec(args: LeasePointerArgsView, reconciliation: Seq<(Seq<char>, Json)>) -> Result<Json, Failure> {
    match first_read_failure(reconciliation, seq![("lease_id"@, ReadKind::Str), ("job_id"@, ReadKind::Str), ("node_id"@, ReadKind::Str), ("gpu_ids"@, ReadKind::Strings), ("checkpoint_mode"@, ReadKind::Str), ("namespace"@, ReadKind::Str), ("resource_name"@, ReadKind::Str), ("desired_state"@, ReadKind::Str)], args.reconciliation, "kube-rs gpu lease reconciliation"@) {
        Some(m) => Err(Failure::Parse(m)),
        None => Ok(object_of(seq![
                ("schema_version"@, Json::Str("1"@)),
                ("reconciliation_path"@, Json::Str(args.reconciliation)),
                ("lease_id"@, Json::Str(str_of(reconciliation, "lease_id"@))),
                ("job_id"@, Json::Str(str_of(reconciliation, "job_id"@))),
                ("node_id"@, Json::Str(str_of(reconciliation, "node_id"@))),
                ("gpu_ids"@, value_of(reconciliation, "gpu_ids"@)),
                ("checkpoint_mode"@, Json::Str(str_of(reconciliation, "checkpoint_mode"@))),
                ("namespace"@, Json::Str(str_of(reconciliation, "namespace"@))),
                ("resource_name"@, Json::Str(str_of(reconciliation, "resource_name"@))),
                ("desired_state"@, Json::Str(str_of(reconciliation, "desired_state"@))),
            ])),
    }
}

/// Builds the pointer from the reconciliation's fields.
pub fn build_pointer(args: &LeasePointerArgs, reconciliation: &Vec<(String, JsonValue)>) -> (r: Result<JsonValue, CommandError>)
    ensures
        json_outcome(r) == pointer_spec(args@, entries_view(reconciliation@)),
{
    let mut reads0 = Vec::new();
    reads0.push(read("lease_id", ReadKind::Str));
    reads0.push(read("job_id", ReadKind::Str));
    reads0.push(read("node_id", ReadKind::Str));
    reads0.push(read("gpu_ids", ReadKind::Strings));
    reads0.push(read("checkpoint_mode", ReadKind::Str));
    reads0.push(read("namespace", ReadKind::Str));
    reads0.push(read("resource_name", ReadKind::Str));
    reads0.push(read("desired_state", ReadKind::Str));
    assert(reads_view(reads0@) =~= seq![("lease_id"@, ReadKind::Str), ("job_id"@, ReadKind::Str), ("node_id"@, ReadKind::Str), ("gpu_ids"@, ReadKind::Strings), ("checkpoint_mode"@, ReadKind::Str), ("namespace"@, ReadKind::Str), ("resource_name"@, ReadKind::Str), ("desired_state"@, ReadKind::Str)]);
    match check_reads(reconciliation, &reads0, args.reconciliation.as_str(), "kube-rs gpu lease reconciliation") {
        Err(m) => {
            return Err(CommandError::Parse(m));
        },
        Ok(_) => {},
    }
    assert(reads_view(reads0@)[0].0 == "lease_id"@);
    assert(reads_view(reads0@)[1].0 == "job_id"@);
    assert(reads_view(reads0@)[2].0 == "node_id"@);
    assert(reads_view(reads0@)[3].0 == "gpu_ids"@);
    assert(reads_view(reads0@)[4].0 == "checkpoint_mode"@);
    assert(reads_view(reads0@)[5].0 == "namespace"@);
    assert(reads_view(reads0@)[6].0 == "resource_name"@);
    assert(reads_view(reads0@)[7].0 == "desired_state"@);
    let mut pairs: Vec<(String, JsonValue)> = Vec::new();
    pairs.push((owned("schema_version"), JsonValue::Str(owned("1"))));
    pairs.push((owned("reconciliation_path"), JsonValue::Str(args.reconciliation.clone())));
    pairs.push((owned("lease_id"), JsonValue::Str(str_field(reconciliation, "lease_id"))));
    pairs.push((owned("job_id"), JsonValue::Str(str_field(reconciliation, "job_id"))));
    pairs.push((owned("node_id"), JsonValue::Str(str_field(reconciliation, "node_id"))));
    pairs.push((owned("gpu_ids"), value_field(reconciliation, "gpu_ids")));
    pairs.push((owned("checkpoint_mode"), JsonValue::Str(str_field(reconciliation, "checkpoint_mode"))));
    pairs.push((owned("namespace"), JsonValue::Str(str_field(reconciliation, "namespace"))));
    pairs.push((owned("resource_name"), JsonValue::Str(str_field(reconciliation, "resource_name"))));
    pairs.push((owned("desired_state"), JsonValue::Str(str_field(reconciliation, "desired_state"))));
    proof {
        let args = args@;
        let reconciliation = entries_view(reconciliation@);
        assert(entries_view(pairs@) =~= seq![
                ("schema_version"@, Json::Str("1"@)),
                ("reconciliation_path"@, Json::Str(args.reconciliation)),
                ("lease_id"@, Json::Str(str_of(reconciliation, "lease_id"@))),
                ("job_id"@, Json::Str(str_of(reconciliation, "job_id"@))),
                ("node_id"@, Json::Str(str_of(reconciliation, "node_id"@))),
                ("gpu_ids"@, value_of(reconciliation, "gpu_ids"@)),
                ("checkpoint_mode"@, Json::Str(str_of(reconciliation, "checkpoint_mode"@))),
                ("namespace"@, Json::Str(str_of(reconciliation, "namespace"@))),
                ("resource_name"@, Json::Str(str_of(reconciliation, "resource_name"@))),
                ("desired_state"@, Json::Str(str_of(reconciliation, "desired_state"@))),
            ]);
    }
    Ok(object_from_pairs(pairs))
}


} // verus!
