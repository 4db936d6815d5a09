use vstd::prelude::*;
use crate::cli::{
    empty_message, last_number, last_number_of, last_text, last_text_of, missing_arg,
    missing_message, opt_view, require_arg, require_filled, require_non_empty, rule, rules_view,
    scan, scan_args, texts_view, FlagRule, InlineForm, RuleSpec, ValueKind,
};
use crate::fields::{
    check_reads, first_read_failure, json_outcome, outcome, read, reads_view, str_field, str_of,
    u64_field, u64_of, value_field, value_of, CommandError, Failure, ReadKind,
};
use crate::fields::{or_else, push_opt_str, push_opt_text, with_opt_str, with_opt_text};
use crate::json::{entries_get, entries_view, object_from_pairs, object_of, Json, JsonValue};
use crate::text::{is_blank, owned, trimmed};
use vstd::string::StringExecFns;

verus! {

/// The arguments of `lineage receipt`.
#[derive(Debug, PartialEq, Eq)]
pub struct LineageReceiptArgs {
    pub metadata: String,
    pub shard_id: String,
    pub source: String,
    pub source_revision: String,
    pub checkpoint_group: String,
    pub checkpoint_root: String,
    pub checked_at_unix_ms: u64,
    pub out_path: String,
}

pub struct LineageReceiptArgsView {
    pub metadata: Seq<char>,
    pub shard_id: Seq<char>,
    pub source: Seq<char>,
    pub source_revision: Seq<char>,
    pub checkpoint_group: Seq<char>,
    pub checkpoint_root: Seq<char>,
    pub checked_at_unix_ms: u64,
    pub out_path: Seq<char>,
}

impl View for LineageReceiptArgs {
    type V = LineageReceiptArgsView;

    open spec fn view(&self) -> LineageReceiptArgsView {
        LineageReceiptArgsView {
            metadata: self.metadata@,
            shard_id: self.shard_id@,
            source: self.source@,
            source_revision: self.source_revision@,
            checkpoint_group: self.checkpoint_group@,
            checkpoint_root: self.checkpoint_root@,
            checked_at_unix_ms: self.checked_at_unix_ms,
            out_path: self.out_path@,
        }
    }
}

pub open spec fn usage_text() -> Seq<char> {
    "usage: afterburner lineage receipt --metadata PATH --shard-id ID --source NAME --source-revision REV --checkpoint-group NAME --checkpoint-root PATH --checked-at-unix-ms N [--out PATH]"@
}

pub fn usage() -> (r: &'static str)
    ensures
        r@ == usage_text(),
{
    "usage: afterburner lineage receipt --metadata PATH --shard-id ID --source NAME --source-revision REV --checkpoint-group NAME --checkpoint-root PATH --checked-at-unix-ms N [--out PATH]"
}

pub open spec fn rules_spec() -> Seq<RuleSpec> {
    seq![
        RuleSpec { name: "--metadata"@, kind: ValueKind::Text, inline: InlineForm::StripAll },
        RuleSpec { name: "--shard-id"@, kind: ValueKind::Text, inline: InlineForm::StripAll },
        RuleSpec { name: "--source"@, kind: ValueKind::Text, inline: InlineForm::StripAll },
        RuleSpec { name: "--source-revision"@, kind: ValueKind::Text, inline: InlineForm::StripAll },
        RuleSpec { name: "--checkpoint-group"@, kind: ValueKind::Text, inline: InlineForm::StripAll },
        RuleSpec { name: "--checkpoint-root"@, kind: ValueKind::Text, inline: InlineForm::StripAll },
        RuleSpec { name: "--checked-at-unix-ms"@, kind: ValueKind::Number, inline: InlineForm::StripAll },
        RuleSpec { name: "--out"@, kind: ValueKind::Text, inline: InlineForm::StripAll },
    ]
}

fn rules() -> (r: Vec<FlagRule>)
    ensures
        rules_view(r@) == rules_spec(),
{
    let mut r = Vec::new();
    r.push(rule("--metadata", ValueKind::Text, InlineForm::StripAll));
    r.push(rule("--shard-id", ValueKind::Text, InlineForm::StripAll));
    r.push(rule("--source", ValueKind::Text, InlineForm::StripAll));
    r.push(rule("--source-revision", ValueKind::Text, InlineForm::StripAll));
    r.push(rule("--checkpoint-group", ValueKind::Text, InlineForm::StripAll));
    r.push(rule("--checkpoint-root", ValueKind::Text, InlineForm::StripAll));
    r.push(rule("--checked-at-unix-ms", ValueKind::Number, InlineForm::StripAll));
    r.push(rule("--out", ValueKind::Text, InlineForm::StripAll));
    assert(rules_view(r@) =~= rules_spec());
    r
}

/// The arguments that the command line gives, or why it is refused.
pub open spec fn parse_args_spec(args: Seq<Seq<char>>) -> Result<LineageReceiptArgsView, Failure> {
    match scan(rules_spec(), args, "lineage receipt"@, usage_text()) {
        Err(m) => Err(Failure::InvalidArg(m)),
        Ok(a) => {
            match last_text(a, 0) {
                None => Err(Failure::InvalidArg(missing_message("--metadata"@, usage_text()))),
                Some(v_metadata) => {
                    match last_text(a, 1) {
                        None => Err(Failure::InvalidArg(missing_message("--shard-id"@, usage_text()))),
                        Some(v_shard_id) => if is_blank(v_shard_id) { Err(Failure::InvalidArg(empty_message("--shard-id"@, usage_text()))) } else {
                            match last_text(a, 2) {
                                None => Err(Failure::InvalidArg(missing_message("--source"@, usage_text()))),
                                Some(v_source) => if is_blank(v_source) { Err(Failure::InvalidArg(empty_message("--source"@, usage_text()))) } else {
                                    match last_text(a, 3) {
                                        None => Err(Failure::InvalidArg(missing_message("--source-revision"@, usage_text()))),
                                        Some(v_source_revision) => if is_blank(v_source_revision) { Err(Failure::InvalidArg(empty_message("--source-revision"@, usage_text()))) } else {
                                            match last_text(a, 4) {
                                                None => Err(Failure::InvalidArg(missing_message("--checkpoint-group"@, usage_text()))),
                                                Some(v_checkpoint_group) => if is_blank(v_checkpoint_group) { Err(Failure::InvalidArg(empty_message("--checkpoint-group"@, usage_text()))) } else {
                                                    match last_text(a, 5) {
                                                        None => Err(Failure::InvalidArg(missing_message("--checkpoint-root"@, usage_text()))),
                                                        Some(v_checkpoint_root) => {
                                                            match last_number(a, 6) {
                                                                None => Err(Failure::InvalidArg(missing_message("--checked-at-unix-ms"@, usage_text()))),
                                                                Some(v_checked_at_unix_ms) => {
                                                                    Ok(LineageReceiptArgsView {
                                                                        metadata: v_metadata,
                                                                        shard_id: v_shard_id,
                                                                        source: v_source,
                                                                        source_revision: v_source_revision,
                                                                        checkpoint_group: v_checkpoint_group,
                                                                        checkpoint_root: v_checkpoint_root,
                                                                        checked_at_unix_ms: v_checked_at_unix_ms,
                                                                        out_path: match last_text(a, 7) { Some(p) => p, None => "artifacts/train/distributed_shard_lineage_receipt.json"@ },
                                                                    })
                                                                }
                                                            }
                                                        }
                                                    }
                                                }
                                            }
                                        }
                                    }
                                }
                            }
                        }
                    }
                }
            }
        },
    }
}

pub fn parse_args(args: &Vec<String>) -> (r: Result<LineageReceiptArgs, CommandError>)
    ensures
        outcome(r) == parse_args_spec(texts_view(args@)),
{
    let rules = rules();
    let a = match scan_args(&rules, args, "lineage receipt", usage()) {
        Ok(a) => a,
        Err(m) => {
            return Err(CommandError::InvalidArg(m));
        },
    };
    let metadata = match require_arg(last_text_of(&a, 0), "--metadata", usage()) {
        Ok(v) => v,
        Err(m) => {
            return Err(CommandError::InvalidArg(m));
        },
    };
    let shard_id = match require_filled(last_text_of(&a, 1), "--shard-id", usage()) {
        Ok(v) => v,
        Err(m) => {
            return Err(CommandError::InvalidArg(m));
        },
    };
    let source = match require_filled(last_text_of(&a, 2), "--source", usage()) {
        Ok(v) => v,
        Err(m) => {
            return Err(CommandError::InvalidArg(m));
        },
    };
    let source_revision = match require_filled(last_text_of(&a, 3), "--source-revision", usage()) {
        Ok(v) => v,
        Err(m) => {
            return Err(CommandError::InvalidArg(m));
        },
    };
    let checkpoint_group = match require_filled(last_text_of(&a, 4), "--checkpoint-group", usage()) {
        Ok(v) => v,
        Err(m) => {
            return Err(CommandError::InvalidArg(m));
        },
    };
    let checkpoint_root = match require_arg(last_text_of(&a, 5), "--checkpoint-root", usage()) {
        Ok(v) => v,
        Err(m) => {
            return Err(CommandError::InvalidArg(m));
        },
    };
    let checked_at_unix_ms = match last_number_of(&a, 6) {
        Some(n) => n,
        None => {
            return Err(CommandError::InvalidArg(missing_arg("--checked-at-unix-ms", usage())));
        },
    };
    let out_path = match last_text_of(&a, 7) {
        Some(s) => s,
        None => owned("artifacts/train/distributed_shard_lineage_receipt.json"),
    };
    Ok(LineageReceiptArgs { metadata, shard_id, source, source_revision, checkpoint_group, checkpoint_root, checked_at_unix_ms, out_path })
}

/// The lineage receipt of a shard: where it came from, the checkpoint group it belongs to, and the metadata it was checked against.
pub open spec fn receipt_spec(args: LineageReceiptArgsView, metadata: Seq<(Seq<char>, Json)>) -> Result<Json, Failure> {
    match or_else(first_read_failure(metadata, seq![("shard_id"@, ReadKind::Str)], args.metadata, "distributed shard metadata"@), if str_of(metadata, "shard_id"@) == args.shard_id { None } else { Some("distributed shard metadata `"@ + args.metadata + "` has shard_id `"@ + str_of(metadata, "shard_id"@) + "` but expected `"@ + args.shard_id + "`"@) }) {
        Some(m) => Err(Failure::Parse(m)),
        None => Ok(object_of(seq![
                ("schema_version"@, Json::Str("1"@)),
                ("shard_id"@, Json::Str(args.shard_id)),
                ("source"@, Json::Str(args.source)),
                ("source_revision"@, Json::Str(args.source_revision)),
                ("checkpoint_group"@, Json::Str(args.checkpoint_group)),
                ("checked_at_unix_ms"@, Json::UInt(args.checked_at_unix_ms)),
                ("evidence_sources"@, Json::Array(seq![object_of(seq![("metadata_path"@, Json::Str(args.metadata)), ("checkpoint_root"@, Json::Str(args.checkpoint_root)), ("observed_at_unix_ms"@, Json::UInt(args.checked_at_unix_ms))])])),
            ])),
    }
}

/// Checks that the metadata is for the shard and builds the receipt.
pub fn build_receipt(args: &LineageReceiptArgs, metadata: &Vec<(String, JsonValue)>) -> (r: Result<JsonValue, CommandError>)
    ensures
        json_outcome(r) == receipt_spec(args@, entries_view(metadata@)),
{
    let mut reads0 = Vec::new();
    reads0.push(read("shard_id", ReadKind::Str));
    assert(reads_view(reads0@) =~= seq![("shard_id"@, ReadKind::Str)]);
    match check_reads(metadata, &reads0, args.metadata.as_str(), "distributed shard metadata") {
        Err(m) => {
            return Err(CommandError::Parse(m));
        },
        Ok(_) => {},
    }
    assert(reads_view(reads0@)[0].0 == "shard_id"@);
    if !(crate::json::text_eq(str_field(metadata, "shard_id").as_str(), args.shard_id.as_str())) {
        return Err(CommandError::Parse({ let mut m = crate::text::cat5("distributed shard metadata `", args.metadata.as_str(), "` has shard_id `", str_field(metadata, "shard_id").as_str(), "` but expected `"); m.append(args.shard_id.as_str()); m.append("`"); m }));
    }
    let mut items1: Vec<JsonValue> = Vec::new();
    let mut nested2: Vec<(String, JsonValue)> = Vec::new();
    nested2.push((owned("metadata_path"), JsonValue::Str(args.metadata.clone())));
    nested2.push((owned("checkpoint_root"), JsonValue::Str(args.checkpoint_root.clone())));
    nested2.push((owned("observed_at_unix_ms"), JsonValue::UInt(args.checked_at_unix_ms)));
    proof {
        let args = args@;
        let metadata = entries_view(metadata@);
        assert(entries_view(nested2@) =~= seq![("metadata_path"@, Json::Str(args.metadata)), ("checkpoint_root"@, Json::Str(args.checkpoint_root)), ("observed_at_unix_ms"@, Json::UInt(args.checked_at_unix_ms))]);
    }
    items1.push(object_from_pairs(nested2));
    proof {
        crate::json::lemma_array_view(items1);
    }
    proof {
        let args = args@;
        let metadata = entries_view(metadata@);
        assert(crate::json::items_view(items1@) =~= seq![object_of(seq![("metadata_path"@, Json::Str(args.metadata)), ("checkpoint_root"@, Json::Str(args.checkpoint_root)), ("observed_at_unix_ms"@, Json::UInt(args.checked_at_unix_ms))])]);
    }
    let mut pairs: Vec<(String, JsonValue)> = Vec::new();
    pairs.push((owned("schema_version"), JsonValue::Str(owned("1"))));
    pairs.push((owned("shard_id"), JsonValue::Str(args.shard_id.clone())));
    pairs.push((owned("source"), JsonValue::Str(args.source.clone())));
    pairs.push((owned("source_revision"), JsonValue::Str(args.source_revision.clone())));
    pairs.push((owned("checkpoint_group"), JsonValue::Str(args.checkpoint_group.clone())));
    pairs.push((owned("checked_at_unix_ms"), JsonValue::UInt(args.checked_at_unix_ms)));
    pairs.push((owned("evidence_sources"), JsonValue::Array(items1)));
    proof {
        let args = args@;
        let metadata = entries_view(metadata@);
        assert(entries_view(pairs@) =~= seq![
                ("schema_version"@, Json::Str("1"@)),
                ("shard_id"@, Json::Str(args.shard_id)),
                ("source"@, Json::Str(args.source)),
                ("source_revision"@, Json::Str(args.source_revision)),
                ("checkpoint_group"@, Json::Str(args.checkpoint_group)),
                ("checked_at_unix_ms"@, Json::UInt(args.checked_at_unix_ms)),
                ("evidence_sources"@, Json::Array(seq![object_of(seq![("metadata_path"@, Json::Str(args.metadata)), ("checkpoint_root"@, Json::Str(args.checkpoint_root)), ("observed_at_unix_ms"@, Json::UInt(args.checked_at_unix_ms))])])),
            ]);
    }
    Ok(object_from_pairs(pairs))
}


} // verus!
