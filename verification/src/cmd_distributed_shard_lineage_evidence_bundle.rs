use vstd::prelude::*;
use crate::cli::{
    empty_message, last_number, last_number_of, last_text, last_text_of, missing_arg,
    missing_message, opt_view, require_arg, require_filled, require_non_empty, rule, rules_view,
    scan, scan_args, texts_view, FlagRule, InlineForm, RuleSpec, ValueKind,
};
use crate::fields::{
    check_reads, first_read_failure, json_outcome, outcome, read, reads_view, str_field, str_of,
    u64_field, u64_of, value_field, value_of, CommandError, Failure, ReadKind,
};
use crate::fields::{or_else, push_opt_str, push_opt_text, with_opt_str, with_opt_text};
use crate::json::{entries_get, entries_view, object_from_pairs, object_of, Json, JsonValue};
use crate::text::{is_blank, owned, trimmed};
use crate::json::{items_view, lemma_array_view, lemma_object_view, map_get};
use crate::fields::read_failure;
use crate::fields::{array_at, array_field, field_failure};
use crate::text::{cat3, decimal, decimal_text};
use vstd::string::StringExecFns;

verus! {

/// The arguments of `lineage evidence-bundle`.
#[derive(Debug, PartialEq, Eq)]
pub struct EvidenceBundleArgs {
    pub receipt: String,
    pub out_path: String,
}

pub struct EvidenceBundleArgsView {
    pub receipt: Seq<char>,
    pub out_path: Seq<char>,
}

impl View for EvidenceBundleArgs {
    type V = EvidenceBundleArgsView;

    open spec fn view(&self) -> EvidenceBundleArgsView {
        EvidenceBundleArgsView {
            receipt: self.receipt@,
            out_path: self.out_path@,
        }
    }
}

pub open spec fn usage_text() -> Seq<char> {
    "usage: afterburner lineage evidence-bundle --receipt PATH [--out PATH]"@
}

pub fn usage() -> (r: &'static str)
    ensures
        r@ == usage_text(),
{
    "usage: afterburner lineage evidence-bundle --receipt PATH [--out PATH]"
}

pub open spec fn rules_spec() -> Seq<RuleSpec> {
    seq![
        RuleSpec { name: "--receipt"@, kind: ValueKind::Text, inline: InlineForm::StripAll },
        RuleSpec { name: "--out"@, kind: ValueKind::Text, inline: InlineForm::StripAll },
    ]
}

fn rules() -> (r: Vec<FlagRule>)
    ensures
        rules_view(r@) == rules_spec(),
{
    let mut r = Vec::new();
    r.push(rule("--receipt", ValueKind::Text, InlineForm::StripAll));
    r.push(rule("--out", ValueKind::Text, InlineForm::StripAll));
    assert(rules_view(r@) =~= rules_spec());
    r
}

/// The arguments that the command line gives, or why it is refused.
pub open spec fn parse_args_spec(args: Seq<Seq<char>>) -> Result<EvidenceBundleArgsView, Failure> {
    match scan(rules_spec(), args, "lineage evidence-bundle"@, usage_text()) {
        Err(m) => Err(Failure::InvalidArg(m)),
        Ok(a) => {
            match last_text(a, 0) {
                None => Err(Failure::InvalidArg(missing_message("--receipt"@, usage_text()))),
                Some(v_receipt) => {
                    Ok(EvidenceBundleArgsView {
                        receipt: v_receipt,
                        out_path: match last_text(a, 1) { Some(p) => p, None => "artifacts/train/distributed_shard_lineage_evidence_bundle.json"@ },
                    })
                }
            }
        },
    }
}

pub fn parse_args(args: &Vec<String>) -> (r: Result<EvidenceBundleArgs, CommandError>)
    ensures
        outcome(r) == parse_args_spec(texts_view(args@)),
{
    let rules = rules();
    let a = match scan_args(&rules, args, "lineage evidence-bundle", usage()) {
        Ok(a) => a,
        Err(m) => {
            return Err(CommandError::InvalidArg(m));
        },
    };
    let receipt = match require_arg(last_text_of(&a, 0), "--receipt", usage()) {
        Ok(v) => v,
        Err(m) => {
            return Err(CommandError::InvalidArg(m));
        },
    };
    let out_path = match last_text_of(&a, 1) {
        Some(s) => s,
        None => owned("artifacts/train/distributed_shard_lineage_evidence_bundle.json"),
    };
    Ok(EvidenceBundleArgs { receipt, out_path })
}

/// distributed shard lineage receipt `PATH` evidence_sources[I] REST
pub open spec fn entry_message(path: Seq<char>, i: nat, rest: Seq<char>) -> Seq<char> {
    "distributed shard lineage receipt `"@ + path + "` evidence_sources["@ + decimal(i) + "]"@ + rest
}

/// The message for evidence entry `i`, if it is no object or lacks the
/// artifact paths or the observation time.
pub open spec fn entry_failure(e: Json, path: Seq<char>, i: nat) -> Option<Seq<char>> {
    match e {
        Json::Object(o) => if !(entries_get(o, "metadata_path"@) matches Some(Json::Str(_))) {
            Some(entry_message(path, i, " missing string field `metadata_path`"@))
        } else if !(entries_get(o, "checkpoint_root"@) matches Some(Json::Str(_))) {
            Some(entry_message(path, i, " missing string field `checkpoint_root`"@))
        } else if !(entries_get(o, "observed_at_unix_ms"@) matches Some(v) && v.as_i64() is Some) {
            Some(entry_message(path, i, " missing integer field `observed_at_unix_ms`"@))
        } else {
            None
        },
        _ => Some(entry_message(path, i, " must be an object"@)),
    }
}

/// The message of the first evidence entry from position `i` on that
/// cannot be used, if any.
pub open spec fn entries_failure(items: Seq<Json>, path: Seq<char>, i: nat) -> Option<Seq<char>>
    decreases items.len() - i,
{
    if i >= items.len() {
        None
    } else {
        match entry_failure(items[i as int], path, i) {
            Some(m) => Some(m),
            None => entries_failure(items, path, i + 1),
        }
    }
}

/// The evidence bundle of a lineage receipt: the shard's lineage and its
/// evidence, counted; or why the receipt cannot be bundled.
pub open spec fn bundle_spec(args: EvidenceBundleArgsView, receipt: Seq<(Seq<char>, Json)>) -> Result<Json, Failure> {
    let kind = "distributed shard lineage receipt"@;
    match read_failure(receipt, "evidence_sources"@, ReadKind::Array, args.receipt, kind) {
        Some(m) => Err(Failure::Parse(m)),
        None => {
            let items = array_at(receipt, "evidence_sources"@);
            match entries_failure(items, args.receipt, 0) {
                Some(m) => Err(Failure::Parse(m)),
                None => match first_read_failure(
                    receipt,
                    seq![
                        ("shard_id"@, ReadKind::Str),
                        ("source"@, ReadKind::Str),
                        ("source_revision"@, ReadKind::Str),
                        ("checkpoint_group"@, ReadKind::Str),
                    ],
                    args.receipt,
                    kind,
                ) {
                    Some(m) => Err(Failure::Parse(m)),
                    None => Ok(
                        object_of(
                            seq![
                                ("schema_version"@, Json::Str("1"@)),
                                ("receipt_path"@, Json::Str(args.receipt)),
                                ("shard_id"@, Json::Str(str_of(receipt, "shard_id"@))),
                                ("source"@, Json::Str(str_of(receipt, "source"@))),
                                ("source_revision"@, Json::Str(str_of(receipt, "source_revision"@))),
                                ("checkpoint_group"@, Json::Str(str_of(receipt, "checkpoint_group"@))),
                                ("evidence_count"@, Json::UInt(items.len() as u64)),
                                ("evidence_sources"@, Json::Array(items)),
                            ],
                        ),
                    ),
                },
            }
        },
    }
}

fn entry_error(path: &str, i: usize, rest: &str) -> (r: String)
    ensures
        r@ == entry_message(path@, i as nat, rest@),
{
    let mut m = cat3("distributed shard lineage receipt `", path, "` evidence_sources[");
    let d = decimal_text(i as u64);
    m.append(d.as_str());
    m.append("]");
    m.append(rest);
    m
}

fn check_entry(e: &JsonValue, path: &str, i: usize) -> (r: Option<String>)
    ensures
        match r {
            Some(m) => entry_failure(e@, path@, i as nat) == Some(m@),
            None => entry_failure(e@, path@, i as nat) is None,
        },
{
    match e {
        JsonValue::Object(o) => {
            proof {
                lemma_object_view(*o);
            }
            match map_get(o, "metadata_path") {
                Some(JsonValue::Str(_)) => {},
                _ => {
                    return Some(entry_error(path, i, " missing string field `metadata_path`"));
                },
            }
            match map_get(o, "checkpoint_root") {
                Some(JsonValue::Str(_)) => {},
                _ => {
                    return Some(entry_error(path, i, " missing string field `checkpoint_root`"));
                },
            }
            match map_get(o, "observed_at_unix_ms") {
                Some(JsonValue::UInt(n)) => if *n > 9223372036854775807u64 {
                    return Some(entry_error(path, i, " missing integer field `observed_at_unix_ms`"));
                },
                Some(JsonValue::NegInt(_)) => {},
                _ => {
                    return Some(entry_error(path, i, " missing integer field `observed_at_unix_ms`"));
                },
            }
            None
        },
        _ => Some(entry_error(path, i, " must be an object")),
    }
}

/// Checks the receipt and builds its evidence bundle.
pub fn build_bundle(args: &EvidenceBundleArgs, receipt: &Vec<(String, JsonValue)>) -> (r: Result<
    JsonValue,
    CommandError,
>)
    ensures
        json_outcome(r) == bundle_spec(args@, entries_view(receipt@)),
{
    let kind = "distributed shard lineage receipt";
    if let Some(m) = field_failure(receipt, "evidence_sources", &ReadKind::Array, args.receipt.as_str(), kind) {
        proof {
            reveal_strlit("distributed shard lineage receipt");
        }
        return Err(CommandError::Parse(m));
    }
    proof {
        reveal_strlit("distributed shard lineage receipt");
    }
    let items = array_field(receipt, "evidence_sources");
    let ghost iv = items_view(items@);
    let mut i: usize = 0;
    while i < items.len()
        invariant
            iv == items_view(items@),
            iv == array_at(entries_view(receipt@), "evidence_sources"@),
            read_failure(
                entries_view(receipt@),
                "evidence_sources"@,
                ReadKind::Array,
                args.receipt@,
                "distributed shard lineage receipt"@,
            ) is None,
            i <= items.len(),
            entries_failure(iv, args.receipt@, 0) == entries_failure(iv, args.receipt@, i as nat),
        decreases items.len() - i,
    {
        assert(iv[i as int] == items[i as int]@);
        if let Some(m) = check_entry(&items[i], args.receipt.as_str(), i) {
            assert(entries_failure(iv, args.receipt@, i as nat) == Some(m@));
            return Err(CommandError::Parse(m));
        }
        i += 1;
    }
    let mut reads = Vec::new();
    reads.push(read("shard_id", ReadKind::Str));
    reads.push(read("source", ReadKind::Str));
    reads.push(read("source_revision", ReadKind::Str));
    reads.push(read("checkpoint_group", ReadKind::Str));
    assert(reads_view(reads@) =~= seq![
        ("shard_id"@, ReadKind::Str),
        ("source"@, ReadKind::Str),
        ("source_revision"@, ReadKind::Str),
        ("checkpoint_group"@, ReadKind::Str),
    ]);
    match check_reads(receipt, &reads, args.receipt.as_str(), kind) {
        Err(m) => {
            return Err(CommandError::Parse(m));
        },
        Ok(_) => {},
    }
    assert(reads_view(reads@)[0].0 == "shard_id"@);
    assert(reads_view(reads@)[1].0 == "source"@);
    assert(reads_view(reads@)[2].0 == "source_revision"@);
    assert(reads_view(reads@)[3].0 == "checkpoint_group"@);
    let count = items.len() as u64;
    proof {
        lemma_array_view(items);
    }
    let mut pairs: Vec<(String, JsonValue)> = Vec::new();
    pairs.push((owned("schema_version"), JsonValue::Str(owned("1"))));
    pairs.push((owned("receipt_path"), JsonValue::Str(args.receipt.clone())));
    pairs.push((owned("shard_id"), JsonValue::Str(str_field(receipt, "shard_id"))));
    pairs.push((owned("source"), JsonValue::Str(str_field(receipt, "source"))));
    pairs.push((owned("source_revision"), JsonValue::Str(str_field(receipt, "source_revision"))));
    pairs.push((owned("checkpoint_group"), JsonValue::Str(str_field(receipt, "checkpoint_group"))));
    pairs.push((owned("evidence_count"), JsonValue::UInt(count)));
    pairs.push((owned("evidence_sources"), JsonValue::Array(items)));
    proof {
        let r = entries_view(receipt@);
        assert(entries_view(pairs@) =~= seq![
            ("schema_version"@, Json::Str("1"@)),
            ("receipt_path"@, Json::Str(args@.receipt)),
            ("shard_id"@, Json::Str(str_of(r, "shard_id"@))),
            ("source"@, Json::Str(str_of(r, "source"@))),
            ("source_revision"@, Json::Str(str_of(r, "source_revision"@))),
            ("checkpoint_group"@, Json::Str(str_of(r, "checkpoint_group"@))),
            ("evidence_count"@, Json::UInt(iv.len() as u64)),
            ("evidence_sources"@, Json::Array(iv)),
        ]);
    }
    Ok(object_from_pairs(pairs))
}

} // verus!
