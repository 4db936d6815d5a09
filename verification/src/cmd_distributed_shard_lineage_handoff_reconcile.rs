use vstd::prelude::*;
use crate::cli::{
    empty_message, last_number, last_number_of, last_text, last_text_of, missing_arg,
    missing_message, opt_view, require_arg, require_filled, require_non_empty, rule, rules_view,
    scan, scan_args, texts_view, FlagRule, InlineForm, RuleSpec, ValueKind,
};
use crate::fields::{
    check_reads, first_read_failure, json_outcome, outcome, read, reads_view, str_field, str_of,
    u64_field, u64_of, value_field, value_of, CommandError, Failure, ReadKind,
};
use crate::fields::{or_else, push_opt_str, push_opt_text, with_opt_str, with_opt_text};
use crate::json::{entries_get, entries_view, object_from_pairs, object_of, Json, JsonValue};
use crate::text::{is_blank, owned, trimmed};
use crate::json::text_eq;

verus! {

/// The arguments of `lineage handoff reconcile`.
#[derive(Debug, PartialEq, Eq)]
pub struct HandoffReconcileArgs {
    pub bundle: String,
    pub handoff: String,
    pub out_path: String,
}

pub struct HandoffReconcileArgsView {
    pub bundle: Seq<char>,
    pub handoff: Seq<char>,
    pub out_path: Seq<char>,
}

impl View for HandoffReconcileArgs {
    type V = HandoffReconcileArgsView;

    open spec fn view(&self) -> HandoffReconcileArgsView {
        HandoffReconcileArgsView {
            bundle: self.bundle@,
            handoff: self.handoff@,
            out_path: self.out_path@,
        }
    }
}

pub open spec fn usage_text() -> Seq<char> {
    "usage: afterburner lineage handoff reconcile --bundle PATH --handoff PATH [--out PATH]"@
}

pub fn usage() -> (r: &'static str)
    ensures
        r@ == usage_text(),
{
    "usage: afterburner lineage handoff reconcile --bundle PATH --handoff PATH [--out PATH]"
}

pub open spec fn rules_spec() -> Seq<RuleSpec> {
    seq![
        RuleSpec { name: "--bundle"@, kind: ValueKind::Text, inline: InlineForm::StripAll },
        RuleSpec { name: "--handoff"@, kind: ValueKind::Text, inline: InlineForm::StripAll },
        RuleSpec { name: "--out"@, kind: ValueKind::Text, inline: InlineForm::StripAll },
    ]
}

fn rules() -> (r: Vec<FlagRule>)
    ensures
        rules_view(r@) == rules_spec(),
{
    let mut r = Vec::new();
    r.push(rule("--bundle", ValueKind::Text, InlineForm::StripAll));
    r.push(rule("--handoff", ValueKind::Text, InlineForm::StripAll));
    r.push(rule("--out", ValueKind::Text, InlineForm::StripAll));
    assert(rules_view(r@) =~= rules_spec());
    r
}

/// The arguments that the command line gives, or why it is refused.
pub open spec fn parse_args_spec(args: Seq<Seq<char>>) -> Result<HandoffReconcileArgsView, Failure> {
    match scan(rules_spec(), args, "lineage handoff reconcile"@, usage_text()) {
        Err(m) => Err(Failure::InvalidArg(m)),
        Ok(a) => {
            match last_text(a, 0) {
                None => Err(Failure::InvalidArg(missing_message("--bundle"@, usage_text()))),
                Some(v_bundle) => {
                    match last_text(a, 1) {
                        None => Err(Failure::InvalidArg(missing_message("--handoff"@, usage_text()))),
                        Some(v_handoff) => {
                            Ok(HandoffReconcileArgsView {
                                bundle: v_bundle,
                                handoff: v_handoff,
                                out_path: match last_text(a, 2) { Some(p) => p, None => "artifacts/train/distributed_shard_lineage_evidence_handoff_reconciliation.json"@ },
                            })
                        }
                    }
                }
            }
        },
    }
}

pub fn parse_args(args: &Vec<String>) -> (r: Result<HandoffReconcileArgs, CommandError>)
    ensures
        outcome(r) == parse_args_spec(texts_view(args@)),
{
    let rules = rules();
    let a = match scan_args(&rules, args, "lineage handoff reconcile", usage()) {
        Ok(a) => a,
        Err(m) => {
            return Err(CommandError::InvalidArg(m));
        },
    };
    let bundle = match require_arg(last_text_of(&a, 0), "--bundle", usage()) {
        Ok(v) => v,
        Err(m) => {
            return Err(CommandError::InvalidArg(m));
        },
    };
    let handoff = match require_arg(last_text_of(&a, 1), "--handoff", usage()) {
        Ok(v) => v,
        Err(m) => {
            return Err(CommandError::InvalidArg(m));
        },
    };
    let out_path = match last_text_of(&a, 2) {
        Some(s) => s,
        None => owned("artifacts/train/distributed_shard_lineage_evidence_handoff_reconciliation.json"),
    };
    Ok(HandoffReconcileArgs { bundle, handoff, out_path })
}

pub open spec fn bundle_reads() -> Seq<(Seq<char>, ReadKind)> {
    seq![
        ("shard_id"@, ReadKind::Str),
        ("source"@, ReadKind::Str),
        ("source_revision"@, ReadKind::Str),
        ("checkpoint_group"@, ReadKind::Str),
        ("evidence_count"@, ReadKind::U64),
    ]
}

pub open spec fn handoff_reads() -> Seq<(Seq<char>, ReadKind)> {
    seq![
        ("bundle_path"@, ReadKind::Str),
        ("shard_id"@, ReadKind::Str),
        ("source"@, ReadKind::Str),
        ("source_revision"@, ReadKind::Str),
        ("checkpoint_group"@, ReadKind::Str),
        ("evidence_count"@, ReadKind::U64),
    ]
}

/// Whether the handoff carries the bundle's shard, lineage and evidence
/// count.
pub open spec fn same_lineage(bundle: Seq<(Seq<char>, Json)>, handoff: Seq<(Seq<char>, Json)>) -> bool {
    &&& str_of(bundle, "shard_id"@) == str_of(handoff, "shard_id"@)
    &&& str_of(bundle, "source"@) == str_of(handoff, "source"@)
    &&& str_of(bundle, "source_revision"@) == str_of(handoff, "source_revision"@)
    &&& str_of(bundle, "checkpoint_group"@) == str_of(handoff, "checkpoint_group"@)
    &&& u64_of(bundle, "evidence_count"@) == u64_of(handoff, "evidence_count"@)
}

/// The reconciliation of a handoff with the bundle it hands off, or why
/// either cannot be read.
pub open spec fn reconcile_spec(
    args: HandoffReconcileArgsView,
    bundle: Seq<(Seq<char>, Json)>,
    handoff: Seq<(Seq<char>, Json)>,
) -> Result<Json, Failure> {
    match or_else(
        first_read_failure(bundle, bundle_reads(), args.bundle, "distributed shard lineage evidence bundle"@),
        first_read_failure(handoff, handoff_reads(), args.handoff, "distributed shard lineage evidence handoff"@),
    ) {
        Some(m) => Err(Failure::Parse(m)),
        None => Ok(
            object_of(
                seq![
                    ("schema_version"@, Json::Str("1"@)),
                    ("bundle_path"@, Json::Str(args.bundle)),
                    ("handoff_path"@, Json::Str(args.handoff)),
                    (
                        "desired"@,
                        object_of(
                            seq![
                                ("shard_id"@, Json::Str(str_of(bundle, "shard_id"@))),
                                ("source"@, Json::Str(str_of(bundle, "source"@))),
                                ("source_revision"@, Json::Str(str_of(bundle, "source_revision"@))),
                                ("checkpoint_group"@, Json::Str(str_of(bundle, "checkpoint_group"@))),
                                ("evidence_count"@, Json::UInt(u64_of(bundle, "evidence_count"@))),
                            ],
                        ),
                    ),
                    (
                        "current"@,
                        object_of(
                            seq![
                                ("bundle_path"@, Json::Str(str_of(handoff, "bundle_path"@))),
                                ("shard_id"@, Json::Str(str_of(handoff, "shard_id"@))),
                                ("source"@, Json::Str(str_of(handoff, "source"@))),
                                ("source_revision"@, Json::Str(str_of(handoff, "source_revision"@))),
                                ("checkpoint_group"@, Json::Str(str_of(handoff, "checkpoint_group"@))),
                                ("evidence_count"@, Json::UInt(u64_of(handoff, "evidence_count"@))),
                            ],
                        ),
                    ),
                    (
                        "reconciliation_status"@,
                        Json::Str(
                            if same_lineage(bundle, handoff) {
                                "aligned"@
                            } else {
                                "needs-update"@
                            },
                        ),
                    ),
                ],
            ),
        ),
    }
}

/// Reconciles a handoff with the bundle it hands off, both given by their
/// entries.
pub fn reconcile(
    args: &HandoffReconcileArgs,
    bundle: &Vec<(String, JsonValue)>,
    handoff: &Vec<(String, JsonValue)>,
) -> (r: Result<JsonValue, CommandError>)
    ensures
        json_outcome(r) == reconcile_spec(args@, entries_view(bundle@), entries_view(handoff@)),
{
    let mut br = Vec::new();
    br.push(read("shard_id", ReadKind::Str));
    br.push(read("source", ReadKind::Str));
    br.push(read("source_revision", ReadKind::Str));
    br.push(read("checkpoint_group", ReadKind::Str));
    br.push(read("evidence_count", ReadKind::U64));
    assert(reads_view(br@) =~= bundle_reads());
    match check_reads(bundle, &br, args.bundle.as_str(), "distributed shard lineage evidence bundle") {
        Err(m) => {
            return Err(CommandError::Parse(m));
        },
        Ok(_) => {},
    }
    let mut hr = Vec::new();
    hr.push(read("bundle_path", ReadKind::Str));
    hr.push(read("shard_id", ReadKind::Str));
    hr.push(read("source", ReadKind::Str));
    hr.push(read("source_revision", ReadKind::Str));
    hr.push(read("checkpoint_group", ReadKind::Str));
    hr.push(read("evidence_count", ReadKind::U64));
    assert(reads_view(hr@) =~= handoff_reads());
    match check_reads(handoff, &hr, args.handoff.as_str(), "distributed shard lineage evidence handoff") {
        Err(m) => {
            return Err(CommandError::Parse(m));
        },
        Ok(_) => {},
    }
    assert(reads_view(br@)[0].0 == "shard_id"@);
    assert(reads_view(br@)[1].0 == "source"@);
    assert(reads_view(br@)[2].0 == "source_revision"@);
    assert(reads_view(br@)[3].0 == "checkpoint_group"@);
    assert(reads_view(br@)[4].0 == "evidence_count"@);
    assert(reads_view(hr@)[0].0 == "bundle_path"@);
    assert(reads_view(hr@)[1].0 == "shard_id"@);
    assert(reads_view(hr@)[2].0 == "source"@);
    assert(reads_view(hr@)[3].0 == "source_revision"@);
    assert(reads_view(hr@)[4].0 == "checkpoint_group"@);
    assert(reads_view(hr@)[5].0 == "evidence_count"@);
    let shard_id = str_field(bundle, "shard_id");
    let source = str_field(bundle, "source");
    let source_revision = str_field(bundle, "source_revision");
    let checkpoint_group = str_field(bundle, "checkpoint_group");
    let evidence_count = u64_field(bundle, "evidence_count");
    let h_shard_id = str_field(handoff, "shard_id");
    let h_source = str_field(handoff, "source");
    let h_source_revision = str_field(handoff, "source_revision");
    let h_checkpoint_group = str_field(handoff, "checkpoint_group");
    let h_evidence_count = u64_field(handoff, "evidence_count");
    let aligned = text_eq(shard_id.as_str(), h_shard_id.as_str()) && text_eq(source.as_str(), h_source.as_str())
        && text_eq(source_revision.as_str(), h_source_revision.as_str()) && text_eq(
        checkpoint_group.as_str(),
        h_checkpoint_group.as_str(),
    ) && evidence_count == h_evidence_count;
    let mut d: Vec<(String, JsonValue)> = Vec::new();
    d.push((owned("shard_id"), JsonValue::Str(shard_id)));
    d.push((owned("source"), JsonValue::Str(source)));
    d.push((owned("source_revision"), JsonValue::Str(source_revision)));
    d.push((owned("checkpoint_group"), JsonValue::Str(checkpoint_group)));
    d.push((owned("evidence_count"), JsonValue::UInt(evidence_count)));
    let mut c: Vec<(String, JsonValue)> = Vec::new();
    c.push((owned("bundle_path"), JsonValue::Str(str_field(handoff, "bundle_path"))));
    c.push((owned("shard_id"), JsonValue::Str(h_shard_id)));
    c.push((owned("source"), JsonValue::Str(h_source)));
    c.push((owned("source_revision"), JsonValue::Str(h_source_revision)));
    c.push((owned("checkpoint_group"), JsonValue::Str(h_checkpoint_group)));
    c.push((owned("evidence_count"), JsonValue::UInt(h_evidence_count)));
    proof {
        let b = entries_view(bundle@);
        let h = entries_view(handoff@);
        assert(entries_view(d@) =~= seq![
            ("shard_id"@, Json::Str(str_of(b, "shard_id"@))),
            ("source"@, Json::Str(str_of(b, "source"@))),
            ("source_revision"@, Json::Str(str_of(b, "source_revision"@))),
            ("checkpoint_group"@, Json::Str(str_of(b, "checkpoint_group"@))),
            ("evidence_count"@, Json::UInt(u64_of(b, "evidence_count"@))),
        ]);
        assert(entries_view(c@) =~= seq![
            ("bundle_path"@, Json::Str(str_of(h, "bundle_path"@))),
            ("shard_id"@, Json::Str(str_of(h, "shard_id"@))),
            ("source"@, Json::Str(str_of(h, "source"@))),
            ("source_revision"@, Json::Str(str_of(h, "source_revision"@))),
            ("checkpoint_group"@, Json::Str(str_of(h, "checkpoint_group"@))),
            ("evidence_count"@, Json::UInt(u64_of(h, "evidence_count"@))),
        ]);
    }
    let desired = object_from_pairs(d);
    let current = object_from_pairs(c);
    let ghost dv = desired@;
    let ghost cv = current@;
    let status = if aligned {
        owned("aligned")
    } else {
        owned("needs-update")
    };
    let mut out: Vec<(String, JsonValue)> = Vec::new();
    out.push((owned("schema_version"), JsonValue::Str(owned("1"))));
    out.push((owned("bundle_path"), JsonValue::Str(args.bundle.clone())));
    out.push((owned("handoff_path"), JsonValue::Str(args.handoff.clone())));
    out.push((owned("desired"), desired));
    out.push((owned("current"), current));
    out.push((owned("reconciliation_status"), JsonValue::Str(status)));
    proof {
        let b = entries_view(bundle@);
        let h = entries_view(handoff@);
        assert(entries_view(out@) =~= seq![
            ("schema_version"@, Json::Str("1"@)),
            ("bundle_path"@, Json::Str(args@.bundle)),
            ("handoff_path"@, Json::Str(args@.handoff)),
            ("desired"@, dv),
            ("current"@, cv),
            ("reconciliation_status"@, Json::Str(if same_lineage(b, h) { "aligned"@ } else { "needs-update"@ })),
        ]);
    }
    Ok(object_from_pairs(out))
}

} // verus!
