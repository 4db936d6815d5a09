use vstd::prelude::*;
use crate::cli::{
    empty_message, last_number, last_number_of, last_text, last_text_of, missing_arg,
    missing_message, opt_view, require_arg, require_filled, require_non_empty, rule, rules_view,
    scan, scan_args, texts_view, FlagRule, InlineForm, RuleSpec, ValueKind,
};
use crate::fields::{
    check_reads, first_read_failure, json_outcome, outcome, read, reads_view, str_field, str_of,
    u64_field, u64_of, value_field, value_of, CommandError, Failure, ReadKind,
};
use crate::fields::{or_else, push_opt_str, push_opt_text, with_opt_str, with_opt_text};
use crate::json::{entries_get, entries_view, object_from_pairs, object_of, Json, JsonValue};
use crate::text::{is_blank, owned, trimmed};

verus! {

/// The arguments of `deploy kube-rs-lease-reconcile`.
#[derive(Debug, PartialEq, Eq)]
pub struct LeaseReconcileArgs {
    pub lease: String,
    pub namespace: String,
    pub resource_name: String,
    pub out_path: String,
}

pub struct LeaseReconcileArgsView {
    pub lease: Seq<char>,
    pub namespace: Seq<char>,
    pub resource_name: Seq<char>,
    pub out_path: Seq<char>,
}

impl View for LeaseReconcileArgs {
    type V = LeaseReconcileArgsView;

    open spec fn view(&self) -> LeaseReconcileArgsView {
        LeaseReconcileArgsView {
            lease: self.lease@,
            namespace: self.namespace@,
            resource_name: self.resource_name@,
            out_path: self.out_path@,
        }
    }
}

pub open spec fn usage_text() -> Seq<char> {
    "usage: afterburner deploy kube-rs-lease-reconcile --lease PATH --namespace NAME --resource-name NAME [--out PATH]"@
}

pub fn usage() -> (r: &'static str)
    ensures
        r@ == usage_text(),
{
    "usage: afterburner deploy kube-rs-lease-reconcile --lease PATH --namespace NAME --resource-name NAME [--out PATH]"
}

pub open spec fn rules_spec() -> Seq<RuleSpec> {
    seq![
        RuleSpec { name: "--lease"@, kind: ValueKind::Text, inline: InlineForm::StripAll },
        RuleSpec { name: "--namespace"@, kind: ValueKind::Text, inline: InlineForm::StripAll },
        RuleSpec { name: "--resource-name"@, kind: ValueKind::Text, inline: InlineForm::StripAll },
        RuleSpec { name: "--out"@, kind: ValueKind::Text, inline: InlineForm::StripAll },
    ]
}

fn rules() -> (r: Vec<FlagRule>)
    ensures
        rules_view(r@) == rules_spec(),
{
    let mut r = Vec::new();
    r.push(rule("--lease", ValueKind::Text, InlineForm::StripAll));
    r.push(rule("--namespace", ValueKind::Text, InlineForm::StripAll));
    r.push(rule("--resource-name", ValueKind::Text, InlineForm::StripAll));
    r.push(rule("--out", ValueKind::Text, InlineForm::StripAll));
    assert(rules_view(r@) =~= rules_spec());
    r
}

/// The arguments that the command line gives, or why it is refused.
pub open spec fn parse_args_spec(args: Seq<Seq<char>>) -> Result<LeaseReconcileArgsView, Failure> {
    match scan(rules_spec(), args, "deploy kube-rs-lease-reconcile"@, usage_text()) {
        Err(m) => Err(Failure::InvalidArg(m)),
        Ok(a) => {
            match last_text(a, 0) {
                None => Err(Failure::InvalidArg(missing_message("--lease"@, usage_text()))),
                Some(v_lease) => {
                    match last_text(a, 1) {
                        None => Err(Failure::InvalidArg(missing_message("--namespace"@, usage_text()))),
                        Some(v_namespace) => {
                            match last_text(a, 2) {
                                None => Err(Failure::InvalidArg(missing_message("--resource-name"@, usage_text()))),
                                Some(v_resource_name) => {
                                    Ok(LeaseReconcileArgsView {
                                        lease: v_lease,
                                        namespace: v_namespace,
                                        resource_name: v_resource_name,
                                        out_path: match last_text(a, 3) { Some(p) => p, None => "artifacts/deploy/kube_rs_gpu_lease_reconciliation.json"@ },
                                    })
                                }
                            }
                        }
                    }
                }
            }
        },
    }
}

pub fn parse_args(args: &Vec<String>) -> (r: Result<LeaseReconcileArgs, CommandError>)
    ensures
        outcome(r) == parse_args_spec(texts_view(args@)),
{
    let rules = rules();
    let a = match scan_args(&rules, args, "deploy kube-rs-lease-reconcile", usage()) {
        Ok(a) => a,
        Err(m) => {
            return Err(CommandError::InvalidArg(m));
        },
    };
    let lease = match require_arg(last_text_of(&a, 0), "--lease", usage()) {
        Ok(v) => v,
        Err(m) => {
            return Err(CommandError::InvalidArg(m));
        },
    };
    let namespace = match require_arg(last_text_of(&a, 1), "--namespace", usage()) {
        Ok(v) => v,
        Err(m) => {
            return Err(CommandError::InvalidArg(m));
        },
    };
    let resource_name = match require_arg(last_text_of(&a, 2), "--resource-name", usage()) {
        Ok(v) => v,
        Err(m) => {
            return Err(CommandError::InvalidArg(m));
        },
    };
    let out_path = match last_text_of(&a, 3) {
        Some(s) => s,
        None => owned("artifacts/deploy/kube_rs_gpu_lease_reconciliation.json"),
    };
    Ok(LeaseReconcileArgs { lease, namespace, resource_name, out_path })
}

/// The kube-rs reconciliation of a scheduler lease: the lease's placement, where it lives in the cluster, and that it should be present.
pub open spec fn reconciliation_spec(args: LeaseReconcileArgsView, lease: Seq<(Seq<char>, Json)>) -> Result<Json, Failure> {
    match first_read_failure(lease, seq![("lease_id"@, ReadKind::Str), ("job_id"@, ReadKind::Str), ("node_id"@, ReadKind::Str), ("gpu_ids"@, ReadKind::Strings), ("checkpoint_mode"@, ReadKind::Str)], args.lease, "gpu scheduler lease"@) {
        Some(m) => Err(Failure::Parse(m)),
        None => Ok(object_of(seq![
                ("schema_version"@, Json::Str("1"@)),
                ("lease_path"@, Json::Str(args.lease)),
                ("lease_id"@, Json::Str(str_of(lease, "lease_id"@))),
                ("job_id"@, Json::Str(str_of(lease, "job_id"@))),
                ("node_id"@, Json::Str(str_of(lease, "node_id"@))),
                ("gpu_ids"@, value_of(lease, "gpu_ids"@)),
                ("checkpoint_mode"@, Json::Str(str_of(lease, "checkpoint_mode"@))),
                ("namespace"@, Json::Str(args.namespace)),
                ("resource_name"@, Json::Str(args.resource_name)),
                ("desired_state"@, Json::Str("present"@)),
            ])),
    }
}

/// Builds the reconciliation from the lease's fields.
pub fn build_reconciliation(args: &LeaseReconcileArgs, lease: &Vec<(String, JsonValue)>) -> (r: Result<JsonValue, CommandError>)
    ensures
        json_outcome(r) == reconciliation_spec(args@, entries_view(lease@)),
{
    let mut reads0 = Vec::new();
    reads0.push(read("lease_id", ReadKind::Str));
    reads0.push(read("job_id", ReadKind::Str));
    reads0.push(read("node_id", ReadKind::Str));
    reads0.push(read("gpu_ids", ReadKind::Strings));
    reads0.push(read("checkpoint_mode", ReadKind::Str));
    assert(reads_view(reads0@) =~= seq![("lease_id"@, ReadKind::Str), ("job_id"@, ReadKind::Str), ("node_id"@, ReadKind::Str), ("gpu_ids"@, ReadKind::Strings), ("checkpoint_mode"@, ReadKind::Str)]);
    match check_reads(lease, &reads0, args.lease.as_str(), "gpu scheduler lease") {
        Err(m) => {
            return Err(CommandError::Parse(m));
        },
        Ok(_) => {},
    }
    assert(reads_view(reads0@)[0].0 == "lease_id"@);
    assert(reads_view(reads0@)[1].0 == "job_id"@);
    assert(reads_view(reads0@)[2].0 == "node_id"@);
    assert(reads_view(reads0@)[3].0 == "gpu_ids"@);
    assert(reads_view(reads0@)[4].0 == "checkpoint_mode"@);
    let mut pairs: Vec<(String, JsonValue)> = Vec::new();
    pairs.push((owned("schema_version"), JsonValue::Str(owned("1"))));
    pairs.push((owned("lease_path"), JsonValue::Str(args.lease.clone())));
    pairs.push((owned("lease_id"), JsonValue::Str(str_field(lease, "lease_id"))));
    pairs.push((owned("job_id"), JsonValue::Str(str_field(lease, "job_id"))));
    pairs.push((owned("node_id"), JsonValue::Str(str_field(lease, "node_id"))));
    pairs.push((owned("gpu_ids"), value_field(lease, "gpu_ids")));
    pairs.push((owned("checkpoint_mode"), JsonValue::Str(str_field(lease, "checkpoint_mode"))));
    pairs.push((owned("namespace"), JsonValue::Str(args.namespace.clone())));
    pairs.push((owned("resource_name"), JsonValue::Str(args.resource_name.clone())));
    pairs.push((owned("desired_state"), JsonValue::Str(owned("present"))));
    proof {
        let args = args@;
        let lease = entries_view(lease@);
        assert(entries_view(pairs@) =~= seq![
                ("schema_version"@, Json::Str("1"@)),
                ("lease_path"@, Json::Str(args.lease)),
                ("lease_id"@, Json::Str(str_of(lease, "lease_id"@))),
                ("job_id"@, Json::Str(str_of(lease, "job_id"@))),
                ("node_id"@, Json::Str(str_of(lease, "node_id"@))),
                ("gpu_ids"@, value_of(lease, "gpu_ids"@)),
                ("checkpoint_mode"@, Json::Str(str_of(lease, "checkpoint_mode"@))),
                ("namespace"@, Json::Str(args.namespace)),
                ("resource_name"@, Json::Str(args.resource_name)),
                ("desired_state"@, Json::Str("present"@)),
            ]);
    }
    Ok(object_from_pairs(pairs))
}


} // verus!
