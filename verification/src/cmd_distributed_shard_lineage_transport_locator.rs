use vstd::prelude::*;
use crate::cli::{
    empty_message, last_number, last_number_of, last_text, last_text_of, missing_arg,
    missing_message, opt_view, require_arg, require_filled, require_non_empty, rule, rules_view,
    scan, scan_args, texts_view, FlagRule, InlineForm, RuleSpec, ValueKind,
};
use crate::fields::{
    check_reads, first_read_failure, json_outcome, outcome, read, reads_view, str_field, str_of,
    u64_field, u64_of, value_field, value_of, CommandError, Failure, ReadKind,
};
use crate::fields::{or_else, push_opt_str, with_opt_str};
use crate::json::{entries_get, entries_view, object_from_pairs, object_of, Json, JsonValue};
use crate::text::{is_blank, owned, trimmed};

verus! {

/// The arguments of `lineage locator transport point`.
#[derive(Debug, PartialEq, Eq)]
pub struct LocatorArgs {
    pub handoff: String,
    pub out_path: String,
}

pub struct LocatorArgsView {
    pub handoff: Seq<char>,
    pub out_path: Seq<char>,
}

impl View for LocatorArgs {
    type V = LocatorArgsView;

    open spec fn view(&self) -> LocatorArgsView {
        LocatorArgsView {
            handoff: self.handoff@,
            out_path: self.out_path@,
        }
    }
}

pub open spec fn usage_text() -> Seq<char> {
    "usage: afterburner debug lineage locator transport point --handoff PATH [--out PATH]"@
}

pub fn usage() -> (r: &'static str)
    ensures
        r@ == usage_text(),
{
    "usage: afterburner debug lineage locator transport point --handoff PATH [--out PATH]"
}

pub open spec fn rules_spec() -> Seq<RuleSpec> {
    seq![
        RuleSpec { name: "--handoff"@, kind: ValueKind::Text, inline: InlineForm::StripAll },
        RuleSpec { name: "--out"@, kind: ValueKind::Text, inline: InlineForm::StripAll },
    ]
}

fn rules() -> (r: Vec<FlagRule>)
    ensures
        rules_view(r@) == rules_spec(),
{
    let mut r = Vec::new();
    r.push(rule("--handoff", ValueKind::Text, InlineForm::StripAll));
    r.push(rule("--out", ValueKind::Text, InlineForm::StripAll));
    assert(rules_view(r@) =~= rules_spec());
    r
}

/// The arguments that the command line gives, or why it is refused.
pub open spec fn parse_args_spec(args: Seq<Seq<char>>) -> Result<LocatorArgsView, Failure> {
    match scan(rules_spec(), args, "lineage locator transport point"@, usage_text()) {
        Err(m) => Err(Failure::InvalidArg(m)),
        Ok(a) => {
            match last_text(a, 0) {
                None => Err(Failure::InvalidArg(missing_message("--handoff"@, usage_text()))),
                Some(v_handoff) => {
                    Ok(LocatorArgsView {
                        handoff: v_handoff,
                        out_path: match last_text(a, 1) { Some(p) => p, None => "artifacts/train/distributed_shard_lineage_transport_locator.json"@ },
                    })
                }
            }
        },
    }
}

pub fn parse_args(args: &Vec<String>) -> (r: Result<LocatorArgs, CommandError>)
    ensures
        outcome(r) == parse_args_spec(texts_view(args@)),
{
    let rules = rules();
    let a = match scan_args(&rules, args, "lineage locator transport point", usage()) {
        Ok(a) => a,
        Err(m) => {
            return Err(CommandError::InvalidArg(m));
        },
    };
    let handoff = match require_arg(last_text_of(&a, 0), "--handoff", usage()) {
        Ok(v) => v,
        Err(m) => {
            return Err(CommandError::InvalidArg(m));
        },
    };
    let out_path = match last_text_of(&a, 1) {
        Some(s) => s,
        None => owned("artifacts/train/distributed_shard_lineage_transport_locator.json"),
    };
    Ok(LocatorArgs { handoff, out_path })
}

/// The transport locator of a lineage handoff: the shard, its source and its checkpoint group.
pub open spec fn locator_spec(args: LocatorArgsView, handoff: Seq<(Seq<char>, Json)>) -> Result<Json, Failure> {
    match first_read_failure(handoff, seq![("shard_id"@, ReadKind::Str), ("source"@, ReadKind::Str), ("source_revision"@, ReadKind::Str), ("checkpoint_group"@, ReadKind::Str)], args.handoff, "distributed shard lineage evidence handoff"@) {
        Some(m) => Err(Failure::Parse(m)),
        None => Ok(object_of(seq![
                ("schema_version"@, Json::Str("1"@)),
                ("handoff_path"@, Json::Str(args.handoff)),
                ("shard_id"@, Json::Str(str_of(handoff, "shard_id"@))),
                ("source"@, Json::Str(str_of(handoff, "source"@))),
                ("source_revision"@, Json::Str(str_of(handoff, "source_revision"@))),
                ("checkpoint_group"@, Json::Str(str_of(handoff, "checkpoint_group"@))),
            ])),
    }
}

/// Builds the locator from the handoff's fields.
pub fn build_locator(args: &LocatorArgs, handoff: &Vec<(String, JsonValue)>) -> (r: Result<JsonValue, CommandError>)
    ensures
        json_outcome(r) == locator_spec(args@, entries_view(handoff@)),
{
    let mut reads0 = Vec::new();
    reads0.push(read("shard_id", ReadKind::Str));
    reads0.push(read("source", ReadKind::Str));
    reads0.push(read("source_revision", ReadKind::Str));
    reads0.push(read("checkpoint_group", ReadKind::Str));
    assert(reads_view(reads0@) =~= seq![("shard_id"@, ReadKind::Str), ("source"@, ReadKind::Str), ("source_revision"@, ReadKind::Str), ("checkpoint_group"@, ReadKind::Str)]);
    match check_reads(handoff, &reads0, args.handoff.as_str(), "distributed shard lineage evidence handoff") {
        Err(m) => {
            return Err(CommandError::Parse(m));
        },
        Ok(_) => {},
    }
    assert(reads_view(reads0@)[0].0 == "shard_id"@);
    assert(reads_view(reads0@)[1].0 == "source"@);
    assert(reads_view(reads0@)[2].0 == "source_revision"@);
    assert(reads_view(reads0@)[3].0 == "checkpoint_group"@);
    let mut pairs: Vec<(String, JsonValue)> = Vec::new();
    pairs.push((owned("schema_version"), JsonValue::Str(owned("1"))));
    pairs.push((owned("handoff_path"), JsonValue::Str(args.handoff.clone())));
    pairs.push((owned("shard_id"), JsonValue::Str(str_field(handoff, "shard_id"))));
    pairs.push((owned("source"), JsonValue::Str(str_field(handoff, "source"))));
    pairs.push((owned("source_revision"), JsonValue::Str(str_field(handoff, "source_revision"))));
    pairs.push((owned("checkpoint_group"), JsonValue::Str(str_field(handoff, "checkpoint_group"))));
    proof {
        let args = args@;
        let handoff = entries_view(handoff@);
        assert(entries_view(pairs@) =~= seq![
                ("schema_version"@, Json::Str("1"@)),
                ("handoff_path"@, Json::Str(args.handoff)),
                ("shard_id"@, Json::Str(str_of(handoff, "shard_id"@))),
                ("source"@, Json::Str(str_of(handoff, "source"@))),
                ("source_revision"@, Json::Str(str_of(handoff, "source_revision"@))),
                ("checkpoint_group"@, Json::Str(str_of(handoff, "checkpoint_group"@))),
            ]);
    }
    Ok(object_from_pairs(pairs))
}


} // verus!
