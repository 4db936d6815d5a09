use vstd::prelude::*;
use crate::cli::{
    empty_message, last_number, last_number_of, last_text, last_text_of, missing_arg,
    missing_message, opt_view, require_arg, require_filled, require_non_empty, rule, rules_view,
    scan, scan_args, texts_view, FlagRule, InlineForm, RuleSpec, ValueKind,
};
use crate::fields::{
    check_reads, first_read_failure, json_outcome, outcome, read, reads_view, str_field, str_of,
    u64_field, u64_of, value_field, value_of, CommandError, Failure, ReadKind,
};
use crate::fields::{or_else, push_opt_str, with_opt_str};
use crate::json::{entries_get, entries_view, object_from_pairs, object_of, Json, JsonValue};
use crate::text::{is_blank, owned, trimmed};

verus! {

/// The arguments of `lineage handoff`.
#[derive(Debug, PartialEq, Eq)]
pub struct HandoffArgs {
    pub bundle: String,
    pub out_path: String,
}

pub struct HandoffArgsView {
    pub bundle: Seq<char>,
    pub out_path: Seq<char>,
}

impl View for HandoffArgs {
    type V = HandoffArgsView;

    open spec fn view(&self) -> HandoffArgsView {
        HandoffArgsView {
            bundle: self.bundle@,
            out_path: self.out_path@,
        }
    }
}

pub open spec fn usage_text() -> Seq<char> {
    "usage: afterburner lineage handoff --bundle PATH [--out PATH]"@
}

pub fn usage() -> (r: &'static str)
    ensures
        r@ == usage_text(),
{
    "usage: afterburner lineage handoff --bundle PATH [--out PATH]"
}

pub open spec fn rules_spec() -> Seq<RuleSpec> {
    seq![
        RuleSpec { name: "--bundle"@, kind: ValueKind::Text, inline: InlineForm::StripAll },
        RuleSpec { name: "--out"@, kind: ValueKind::Text, inline: InlineForm::StripAll },
    ]
}

fn rules() -> (r: Vec<FlagRule>)
    ensures
        rules_view(r@) == rules_spec(),
{
    let mut r = Vec::new();
    r.push(rule("--bundle", ValueKind::Text, InlineForm::StripAll));
    r.push(rule("--out", ValueKind::Text, InlineForm::StripAll));
    assert(rules_view(r@) =~= rules_spec());
    r
}

/// The arguments that the command line gives, or why it is refused.
pub open spec fn parse_args_spec(args: Seq<Seq<char>>) -> Result<HandoffArgsView, Failure> {
    match scan(rules_spec(), args, "lineage handoff"@, usage_text()) {
        Err(m) => Err(Failure::InvalidArg(m)),
        Ok(a) => {
            match last_text(a, 0) {
                None => Err(Failure::InvalidArg(missing_message("--bundle"@, usage_text()))),
                Some(v_bundle) => {
                    Ok(HandoffArgsView {
                        bundle: v_bundle,
                        out_path: match last_text(a, 1) { Some(p) => p, None => "artifacts/train/distributed_shard_lineage_evidence_handoff.json"@ },
                    })
                }
            }
        },
    }
}

pub fn parse_args(args: &Vec<String>) -> (r: Result<HandoffArgs, CommandError>)
    ensures
        outcome(r) == parse_args_spec(texts_view(args@)),
{
    let rules = rules();
    let a = match scan_args(&rules, args, "lineage handoff", usage()) {
        Ok(a) => a,
        Err(m) => {
            return Err(CommandError::InvalidArg(m));
        },
    };
    let bundle = match require_arg(last_text_of(&a, 0), "--bundle", usage()) {
        Ok(v) => v,
        Err(m) => {
            return Err(CommandError::InvalidArg(m));
        },
    };
    let out_path = match last_text_of(&a, 1) {
        Some(s) => s,
        None => owned("artifacts/train/distributed_shard_lineage_evidence_handoff.json"),
    };
    Ok(HandoffArgs { bundle, out_path })
}

/// The handoff of a lineage evidence bundle: the shard, its source, its checkpoint group and how much evidence the bundle holds.
pub open spec fn handoff_spec(args: HandoffArgsView, bundle: Seq<(Seq<char>, Json)>) -> Result<Json, Failure> {
    match first_read_failure(bundle, seq![("shard_id"@, ReadKind::Str), ("source"@, ReadKind::Str), ("source_revision"@, ReadKind::Str), ("checkpoint_group"@, ReadKind::Str), ("evidence_count"@, ReadKind::U64)], args.bundle, "distributed shard lineage evidence bundle"@) {
        Some(m) => Err(Failure::Parse(m)),
        None => Ok(object_of(seq![
                ("schema_version"@, Json::Str("1"@)),
                ("bundle_path"@, Json::Str(args.bundle)),
                ("shard_id"@, Json::Str(str_of(bundle, "shard_id"@))),
                ("source"@, Json::Str(str_of(bundle, "source"@))),
                ("source_revision"@, Json::Str(str_of(bundle, "source_revision"@))),
                ("checkpoint_group"@, Json::Str(str_of(bundle, "checkpoint_group"@))),
                ("evidence_count"@, Json::UInt(u64_of(bundle, "evidence_count"@))),
            ])),
    }
}

/// Builds the handoff from the bundle's fields.
pub fn build_handoff(args: &HandoffArgs, bundle: &Vec<(String, JsonValue)>) -> (r: Result<JsonValue, CommandError>)
    ensures
        json_outcome(r) == handoff_spec(args@, entries_view(bundle@)),
{
    let mut reads0 = Vec::new();
    reads0.push(read("shard_id", ReadKind::Str));
    reads0.push(read("source", ReadKind::Str));
    reads0.push(read("source_revision", ReadKind::Str));
    reads0.push(read("checkpoint_group", ReadKind::Str));
    reads0.push(read("evidence_count", ReadKind::U64));
    assert(reads_view(reads0@) =~= seq![("shard_id"@, ReadKind::Str), ("source"@, ReadKind::Str), ("source_revision"@, ReadKind::Str), ("checkpoint_group"@, ReadKind::Str), ("evidence_count"@, ReadKind::U64)]);
    match check_reads(bundle, &reads0, args.bundle.as_str(), "distributed shard lineage evidence bundle") {
        Err(m) => {
            return Err(CommandError::Parse(m));
        },
        Ok(_) => {},
    }
    assert(reads_view(reads0@)[0].0 == "shard_id"@);
    assert(reads_view(reads0@)[1].0 == "source"@);
    assert(reads_view(reads0@)[2].0 == "source_revision"@);
    assert(reads_view(reads0@)[3].0 == "checkpoint_group"@);
    assert(reads_view(reads0@)[4].0 == "evidence_count"@);
    let mut pairs: Vec<(String, JsonValue)> = Vec::new();
    pairs.push((owned("schema_version"), JsonValue::Str(owned("1"))));
    pairs.push((owned("bundle_path"), JsonValue::Str(args.bundle.clone())));
    pairs.push((owned("shard_id"), JsonValue::Str(str_field(bundle, "shard_id"))));
    pairs.push((owned("source"), JsonValue::Str(str_field(bundle, "source"))));
    pairs.push((owned("source_revision"), JsonValue::Str(str_field(bundle, "source_revision"))));
    pairs.push((owned("checkpoint_group"), JsonValue::Str(str_field(bundle, "checkpoint_group"))));
    pairs.push((owned("evidence_count"), JsonValue::UInt(u64_field(bundle, "evidence_count"))));
    proof {
        let args = args@;
        let bundle = entries_view(bundle@);
        assert(entries_view(pairs@) =~= seq![
                ("schema_version"@, Json::Str("1"@)),
                ("bundle_path"@, Json::Str(args.bundle)),
                ("shard_id"@, Json::Str(str_of(bundle, "shard_id"@))),
                ("source"@, Json::Str(str_of(bundle, "source"@))),
                ("source_revision"@, Json::Str(str_of(bundle, "source_revision"@))),
                ("checkpoint_group"@, Json::Str(str_of(bundle, "checkpoint_group"@))),
                ("evidence_count"@, Json::UInt(u64_of(bundle, "evidence_count"@))),
            ]);
    }
    Ok(object_from_pairs(pairs))
}


} // verus!
