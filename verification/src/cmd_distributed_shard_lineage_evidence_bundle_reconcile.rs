use vstd::prelude::*;
use crate::cli::{
    empty_message, last_number, last_number_of, last_text, last_text_of, missing_arg,
    missing_message, opt_view, require_arg, require_filled, require_non_empty, rule, rules_view,
    scan, scan_args, texts_view, FlagRule, InlineForm, RuleSpec, ValueKind,
};
use crate::fields::{
    check_reads, first_read_failure, json_outcome, outcome, read, reads_view, str_field, str_of,
    u64_field, u64_of, value_field, value_of, CommandError, Failure, ReadKind,
};
use crate::fields::{or_else, push_opt_str, push_opt_text, with_opt_str, with_opt_text};
use crate::json::{entries_get, entries_view, object_from_pairs, object_of, Json, JsonValue};
use crate::text::{is_blank, owned, trimmed};
use crate::command_reconciliation::{reconciliation_status, status_text};
use crate::fields::array_at;

verus! {

/// The arguments of `lineage bundle reconcile`.
#[derive(Debug, PartialEq, Eq)]
pub struct BundleReconcileArgs {
    pub receipt: String,
    pub bundle: String,
    pub out_path: String,
}

pub struct BundleReconcileArgsView {
    pub receipt: Seq<char>,
    pub bundle: Seq<char>,
    pub out_path: Seq<char>,
}

impl View for BundleReconcileArgs {
    type V = BundleReconcileArgsView;

    open spec fn view(&self) -> BundleReconcileArgsView {
        BundleReconcileArgsView {
            receipt: self.receipt@,
            bundle: self.bundle@,
            out_path: self.out_path@,
        }
    }
}

pub open spec fn usage_text() -> Seq<char> {
    "usage: afterburner debug lineage bundle reconcile --receipt PATH --bundle PATH [--out PATH]"@
}

pub fn usage() -> (r: &'static str)
    ensures
        r@ == usage_text(),
{
    "usage: afterburner debug lineage bundle reconcile --receipt PATH --bundle PATH [--out PATH]"
}

pub open spec fn rules_spec() -> Seq<RuleSpec> {
    seq![
        RuleSpec { name: "--receipt"@, kind: ValueKind::Text, inline: InlineForm::StripAll },
        RuleSpec { name: "--bundle"@, kind: ValueKind::Text, inline: InlineForm::StripAll },
        RuleSpec { name: "--out"@, kind: ValueKind::Text, inline: InlineForm::StripAll },
    ]
}

fn rules() -> (r: Vec<FlagRule>)
    ensures
        rules_view(r@) == rules_spec(),
{
    let mut r = Vec::new();
    r.push(rule("--receipt", ValueKind::Text, InlineForm::StripAll));
    r.push(rule("--bundle", ValueKind::Text, InlineForm::StripAll));
    r.push(rule("--out", ValueKind::Text, InlineForm::StripAll));
    assert(rules_view(r@) =~= rules_spec());
    r
}

/// The arguments that the command line gives, or why it is refused.
pub open spec fn parse_args_spec(args: Seq<Seq<char>>) -> Result<BundleReconcileArgsView, Failure> {
    match scan(rules_spec(), args, "lineage bundle reconcile"@, usage_text()) {
        Err(m) => Err(Failure::InvalidArg(m)),
        Ok(a) => {
            match last_text(a, 0) {
                None => Err(Failure::InvalidArg(missing_message("--receipt"@, usage_text()))),
                Some(v_receipt) => {
                    match last_text(a, 1) {
                        None => Err(Failure::InvalidArg(missing_message("--bundle"@, usage_text()))),
                        Some(v_bundle) => {
                            Ok(BundleReconcileArgsView {
                                receipt: v_receipt,
                                bundle: v_bundle,
                                out_path: match last_text(a, 2) { Some(p) => p, None => "artifacts/train/distributed_shard_lineage_evidence_bundle_reconciliation.json"@ },
                            })
                        }
                    }
                }
            }
        },
    }
}

pub fn parse_args(args: &Vec<String>) -> (r: Result<BundleReconcileArgs, CommandError>)
    ensures
        outcome(r) == parse_args_spec(texts_view(args@)),
{
    let rules = rules();
    let a = match scan_args(&rules, args, "lineage bundle reconcile", usage()) {
        Ok(a) => a,
        Err(m) => {
            return Err(CommandError::InvalidArg(m));
        },
    };
    let receipt = match require_arg(last_text_of(&a, 0), "--receipt", usage()) {
        Ok(v) => v,
        Err(m) => {
            return Err(CommandError::InvalidArg(m));
        },
    };
    let bundle = match require_arg(last_text_of(&a, 1), "--bundle", usage()) {
        Ok(v) => v,
        Err(m) => {
            return Err(CommandError::InvalidArg(m));
        },
    };
    let out_path = match last_text_of(&a, 2) {
        Some(s) => s,
        None => owned("artifacts/train/distributed_shard_lineage_evidence_bundle_reconciliation.json"),
    };
    Ok(BundleReconcileArgs { receipt, bundle, out_path })
}

pub open spec fn receipt_reads() -> Seq<(Seq<char>, ReadKind)> {
    seq![
        ("evidence_sources"@, ReadKind::ArrayStrict),
        ("shard_id"@, ReadKind::Str),
        ("source"@, ReadKind::Str),
        ("source_revision"@, ReadKind::Str),
        ("checkpoint_group"@, ReadKind::Str),
    ]
}

pub open spec fn bundle_reads() -> Seq<(Seq<char>, ReadKind)> {
    seq![
        ("receipt_path"@, ReadKind::Str),
        ("shard_id"@, ReadKind::Str),
        ("source"@, ReadKind::Str),
        ("source_revision"@, ReadKind::Str),
        ("checkpoint_group"@, ReadKind::Str),
        ("evidence_count"@, ReadKind::U64),
        ("evidence_sources"@, ReadKind::Any),
    ]
}

/// The bundle that the receipt calls for.
pub open spec fn desired_spec(args: BundleReconcileArgsView, receipt: Seq<(Seq<char>, Json)>) -> Json {
    object_of(
        seq![
            ("receipt_path"@, Json::Str(args.receipt)),
            ("shard_id"@, Json::Str(str_of(receipt, "shard_id"@))),
            ("source"@, Json::Str(str_of(receipt, "source"@))),
            ("source_revision"@, Json::Str(str_of(receipt, "source_revision"@))),
            ("checkpoint_group"@, Json::Str(str_of(receipt, "checkpoint_group"@))),
            ("evidence_count"@, Json::UInt(array_at(receipt, "evidence_sources"@).len() as u64)),
            ("evidence_sources"@, value_of(receipt, "evidence_sources"@)),
        ],
    )
}

/// What the bundle on disk says.
pub open spec fn current_spec(bundle: Seq<(Seq<char>, Json)>) -> Json {
    object_of(
        seq![
            ("receipt_path"@, Json::Str(str_of(bundle, "receipt_path"@))),
            ("shard_id"@, Json::Str(str_of(bundle, "shard_id"@))),
            ("source"@, Json::Str(str_of(bundle, "source"@))),
            ("source_revision"@, Json::Str(str_of(bundle, "source_revision"@))),
            ("checkpoint_group"@, Json::Str(str_of(bundle, "checkpoint_group"@))),
            ("evidence_count"@, Json::UInt(u64_of(bundle, "evidence_count"@))),
            ("evidence_sources"@, value_of(bundle, "evidence_sources"@)),
        ],
    )
}

/// The reconciliation of the bundle that a receipt calls for with the one
/// on disk, or why either cannot be read.
pub open spec fn reconcile_spec(
    args: BundleReconcileArgsView,
    receipt: Seq<(Seq<char>, Json)>,
    bundle: Seq<(Seq<char>, Json)>,
) -> Result<Json, Failure> {
    match or_else(
        first_read_failure(receipt, receipt_reads(), args.receipt, "distributed shard lineage receipt"@),
        first_read_failure(bundle, bundle_reads(), args.bundle, "distributed shard lineage evidence bundle"@),
    ) {
        Some(m) => Err(Failure::Parse(m)),
        None => Ok(
            object_of(
                seq![
                    ("schema_version"@, Json::Str("1"@)),
                    ("receipt_path"@, Json::Str(args.receipt)),
                    ("bundle_path"@, Json::Str(args.bundle)),
                    ("desired"@, desired_spec(args, receipt)),
                    ("current"@, current_spec(bundle)),
                    (
                        "reconciliation_status"@,
                        Json::Str(status_text(desired_spec(args, receipt), current_spec(bundle))),
                    ),
                ],
            ),
        ),
    }
}

/// Reconciles the bundle that a receipt calls for with the one on disk,
/// both given by their entries.
pub fn reconcile(
    args: &BundleReconcileArgs,
    receipt: &Vec<(String, JsonValue)>,
    bundle: &Vec<(String, JsonValue)>,
) -> (r: Result<JsonValue, CommandError>)
    ensures
        json_outcome(r) == reconcile_spec(args@, entries_view(receipt@), entries_view(bundle@)),
{
    let mut rr = Vec::new();
    rr.push(read("evidence_sources", ReadKind::ArrayStrict));
    rr.push(read("shard_id", ReadKind::Str));
    rr.push(read("source", ReadKind::Str));
    rr.push(read("source_revision", ReadKind::Str));
    rr.push(read("checkpoint_group", ReadKind::Str));
    assert(reads_view(rr@) =~= receipt_reads());
    match check_reads(receipt, &rr, args.receipt.as_str(), "distributed shard lineage receipt") {
        Err(m) => {
            return Err(CommandError::Parse(m));
        },
        Ok(_) => {},
    }
    let mut br = Vec::new();
    br.push(read("receipt_path", ReadKind::Str));
    br.push(read("shard_id", ReadKind::Str));
    br.push(read("source", ReadKind::Str));
    br.push(read("source_revision", ReadKind::Str));
    br.push(read("checkpoint_group", ReadKind::Str));
    br.push(read("evidence_count", ReadKind::U64));
    br.push(read("evidence_sources", ReadKind::Any));
    assert(reads_view(br@) =~= bundle_reads());
    match check_reads(bundle, &br, args.bundle.as_str(), "distributed shard lineage evidence bundle") {
        Err(m) => {
            return Err(CommandError::Parse(m));
        },
        Ok(_) => {},
    }
    assert(reads_view(rr@)[0].0 == "evidence_sources"@);
    assert(reads_view(rr@)[1].0 == "shard_id"@);
    assert(reads_view(rr@)[2].0 == "source"@);
    assert(reads_view(rr@)[3].0 == "source_revision"@);
    assert(reads_view(rr@)[4].0 == "checkpoint_group"@);
    assert(reads_view(br@)[0].0 == "receipt_path"@);
    assert(reads_view(br@)[1].0 == "shard_id"@);
    assert(reads_view(br@)[2].0 == "source"@);
    assert(reads_view(br@)[3].0 == "source_revision"@);
    assert(reads_view(br@)[4].0 == "checkpoint_group"@);
    assert(reads_view(br@)[5].0 == "evidence_count"@);
    assert(reads_view(br@)[6].0 == "evidence_sources"@);
    let sources = crate::fields::array_field(receipt, "evidence_sources");
    let count = sources.len() as u64;
    let mut d: Vec<(String, JsonValue)> = Vec::new();
    d.push((owned("receipt_path"), JsonValue::Str(args.receipt.clone())));
    d.push((owned("shard_id"), JsonValue::Str(str_field(receipt, "shard_id"))));
    d.push((owned("source"), JsonValue::Str(str_field(receipt, "source"))));
    d.push((owned("source_revision"), JsonValue::Str(str_field(receipt, "source_revision"))));
    d.push((owned("checkpoint_group"), JsonValue::Str(str_field(receipt, "checkpoint_group"))));
    d.push((owned("evidence_count"), JsonValue::UInt(count)));
    d.push((owned("evidence_sources"), value_field(receipt, "evidence_sources")));
    proof {
        let r = entries_view(receipt@);
        assert(entries_view(d@) =~= seq![
            ("receipt_path"@, Json::Str(args@.receipt)),
            ("shard_id"@, Json::Str(str_of(r, "shard_id"@))),
            ("source"@, Json::Str(str_of(r, "source"@))),
            ("source_revision"@, Json::Str(str_of(r, "source_revision"@))),
            ("checkpoint_group"@, Json::Str(str_of(r, "checkpoint_group"@))),
            ("evidence_count"@, Json::UInt(array_at(r, "evidence_sources"@).len() as u64)),
            ("evidence_sources"@, value_of(r, "evidence_sources"@)),
        ]);
    }
    let desired = object_from_pairs(d);
    let mut c: Vec<(String, JsonValue)> = Vec::new();
    c.push((owned("receipt_path"), JsonValue::Str(str_field(bundle, "receipt_path"))));
    c.push((owned("shard_id"), JsonValue::Str(str_field(bundle, "shard_id"))));
    c.push((owned("source"), JsonValue::Str(str_field(bundle, "source"))));
    c.push((owned("source_revision"), JsonValue::Str(str_field(bundle, "source_revision"))));
    c.push((owned("checkpoint_group"), JsonValue::Str(str_field(bundle, "checkpoint_group"))));
    c.push((owned("evidence_count"), JsonValue::UInt(u64_field(bundle, "evidence_count"))));
    c.push((owned("evidence_sources"), value_field(bundle, "evidence_sources")));
    proof {
        let b = entries_view(bundle@);
        assert(entries_view(c@) =~= seq![
            ("receipt_path"@, Json::Str(str_of(b, "receipt_path"@))),
            ("shard_id"@, Json::Str(str_of(b, "shard_id"@))),
            ("source"@, Json::Str(str_of(b, "source"@))),
            ("source_revision"@, Json::Str(str_of(b, "source_revision"@))),
            ("checkpoint_group"@, Json::Str(str_of(b, "checkpoint_group"@))),
            ("evidence_count"@, Json::UInt(u64_of(b, "evidence_count"@))),
            ("evidence_sources"@, value_of(b, "evidence_sources"@)),
        ]);
    }
    let current = object_from_pairs(c);
    let status = reconciliation_status(&desired, &current);
    let ghost dv = desired@;
    let ghost cv = current@;
    let mut out: Vec<(String, JsonValue)> = Vec::new();
    out.push((owned("schema_version"), JsonValue::Str(owned("1"))));
    out.push((owned("receipt_path"), JsonValue::Str(args.receipt.clone())));
    out.push((owned("bundle_path"), JsonValue::Str(args.bundle.clone())));
    out.push((owned("desired"), desired));
    out.push((owned("current"), current));
    out.push((owned("reconciliation_status"), JsonValue::Str(owned(status))));
    assert(entries_view(out@) =~= seq![
        ("schema_version"@, Json::Str("1"@)),
        ("receipt_path"@, Json::Str(args@.receipt)),
        ("bundle_path"@, Json::Str(args@.bundle)),
        ("desired"@, dv),
        ("current"@, cv),
        ("reconciliation_status"@, Json::Str(status_text(dv, cv))),
    ]);
    Ok(object_from_pairs(out))
}

} // verus!
