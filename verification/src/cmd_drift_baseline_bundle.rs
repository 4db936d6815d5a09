use vstd::prelude::*;
use crate::cli::{
    empty_message, last_number, last_number_of, last_text, last_text_of, missing_arg,
    missing_message, opt_view, require_arg, require_filled, require_non_empty, rule, rules_view,
    scan, scan_args, texts_view, FlagRule, InlineForm, RuleSpec, ValueKind,
};
use crate::fields::{
    check_reads, first_read_failure, json_outcome, outcome, read, reads_view, str_field, str_of,
    u64_field, u64_of, value_field, value_of, CommandError, Failure, ReadKind,
};
use crate::fields::{or_else, push_opt_str, push_opt_text, with_opt_str, with_opt_text};
use crate::json::{entries_get, entries_view, object_from_pairs, object_of, Json, JsonValue};
use crate::text::{is_blank, owned, trimmed};
use crate::paths::{relative_to, resolve_relative_path};

verus! {

/// The arguments of `drift export-baseline-bundle`.
#[derive(Debug, PartialEq, Eq)]
pub struct BundleArgs {
    pub pointer: String,
    pub history: String,
    pub out_path: String,
}

pub struct BundleArgsView {
    pub pointer: Seq<char>,
    pub history: Seq<char>,
    pub out_path: Seq<char>,
}

impl View for BundleArgs {
    type V = BundleArgsView;

    open spec fn view(&self) -> BundleArgsView {
        BundleArgsView {
            pointer: self.pointer@,
            history: self.history@,
            out_path: self.out_path@,
        }
    }
}

pub open spec fn usage_text() -> Seq<char> {
    "usage: afterburner drift export-baseline-bundle --pointer PATH --history PATH [--out PATH]"@
}

pub fn usage() -> (r: &'static str)
    ensures
        r@ == usage_text(),
{
    "usage: afterburner drift export-baseline-bundle --pointer PATH --history PATH [--out PATH]"
}

pub open spec fn rules_spec() -> Seq<RuleSpec> {
    seq![
        RuleSpec { name: "--pointer"@, kind: ValueKind::Text, inline: InlineForm::StripAll },
        RuleSpec { name: "--history"@, kind: ValueKind::Text, inline: InlineForm::StripAll },
        RuleSpec { name: "--out"@, kind: ValueKind::Text, inline: InlineForm::StripAll },
    ]
}

fn rules() -> (r: Vec<FlagRule>)
    ensures
        rules_view(r@) == rules_spec(),
{
    let mut r = Vec::new();
    r.push(rule("--pointer", ValueKind::Text, InlineForm::StripAll));
    r.push(rule("--history", ValueKind::Text, InlineForm::StripAll));
    r.push(rule("--out", ValueKind::Text, InlineForm::StripAll));
    assert(rules_view(r@) =~= rules_spec());
    r
}

/// The arguments that the command line gives, or why it is refused.
pub open spec fn parse_args_spec(args: Seq<Seq<char>>) -> Result<BundleArgsView, Failure> {
    match scan(rules_spec(), args, "drift export-baseline-bundle"@, usage_text()) {
        Err(m) => Err(Failure::InvalidArg(m)),
        Ok(a) => {
            match last_text(a, 0) {
                None => Err(Failure::InvalidArg(missing_message("--pointer"@, usage_text()))),
                Some(v_pointer) => {
                    match last_text(a, 1) {
                        None => Err(Failure::InvalidArg(missing_message("--history"@, usage_text()))),
                        Some(v_history) => {
                            Ok(BundleArgsView {
                                pointer: v_pointer,
                                history: v_history,
                                out_path: match last_text(a, 2) { Some(p) => p, None => "artifacts/eval/infer_output_drift_baseline_bundle.json"@ },
                            })
                        }
                    }
                }
            }
        },
    }
}

pub fn parse_args(args: &Vec<String>) -> (r: Result<BundleArgs, CommandError>)
    ensures
        outcome(r) == parse_args_spec(texts_view(args@)),
{
    let rules = rules();
    let a = match scan_args(&rules, args, "drift export-baseline-bundle", usage()) {
        Ok(a) => a,
        Err(m) => {
            return Err(CommandError::InvalidArg(m));
        },
    };
    let pointer = match require_arg(last_text_of(&a, 0), "--pointer", usage()) {
        Ok(v) => v,
        Err(m) => {
            return Err(CommandError::InvalidArg(m));
        },
    };
    let history = match require_arg(last_text_of(&a, 1), "--history", usage()) {
        Ok(v) => v,
        Err(m) => {
            return Err(CommandError::InvalidArg(m));
        },
    };
    let out_path = match last_text_of(&a, 2) {
        Some(s) => s,
        None => owned("artifacts/eval/infer_output_drift_baseline_bundle.json"),
    };
    Ok(BundleArgs { pointer, history, out_path })
}

/// The baseline bundle: the pointer, the history, the approval and baseline they lead to, and how many history entries there are.
pub open spec fn bundle_spec(args: BundleArgsView, pointer: Seq<(Seq<char>, Json)>, approval_path: Seq<char>, baseline_path: Seq<char>, entry_count: u64) -> Result<Json, Failure> {
    match first_read_failure(pointer, seq![("artifact"@, ReadKind::Str), ("artifact_version"@, ReadKind::Str), ("policy_profile"@, ReadKind::Str)], args.pointer, "json object"@) {
        Some(m) => Err(Failure::Parse(m)),
        None => Ok(object_of(seq![
                ("schema_version"@, Json::Str("1"@)),
                ("pointer_path"@, Json::Str(args.pointer)),
                ("history_path"@, Json::Str(args.history)),
                ("approval_path"@, Json::Str(approval_path)),
                ("baseline_path"@, Json::Str(baseline_path)),
                ("artifact"@, Json::Str(str_of(pointer, "artifact"@))),
                ("artifact_version"@, Json::Str(str_of(pointer, "artifact_version"@))),
                ("policy_profile"@, Json::Str(str_of(pointer, "policy_profile"@))),
                ("history_entry_count"@, Json::UInt(entry_count)),
            ])),
    }
}

/// Builds the bundle from the pointer's fields and the resolved paths.
pub fn build_bundle(args: &BundleArgs, pointer: &Vec<(String, JsonValue)>, approval_path: &str, baseline_path: &str, entry_count: u64) -> (r: Result<JsonValue, CommandError>)
    ensures
        json_outcome(r) == bundle_spec(args@, entries_view(pointer@), approval_path@, baseline_path@, entry_count),
{
    let mut reads0 = Vec::new();
    reads0.push(read("artifact", ReadKind::Str));
    reads0.push(read("artifact_version", ReadKind::Str));
    reads0.push(read("policy_profile", ReadKind::Str));
    assert(reads_view(reads0@) =~= seq![("artifact"@, ReadKind::Str), ("artifact_version"@, ReadKind::Str), ("policy_profile"@, ReadKind::Str)]);
    match check_reads(pointer, &reads0, args.pointer.as_str(), "json object") {
        Err(m) => {
            return Err(CommandError::Parse(m));
        },
        Ok(_) => {},
    }
    assert(reads_view(reads0@)[0].0 == "artifact"@);
    assert(reads_view(reads0@)[1].0 == "artifact_version"@);
    assert(reads_view(reads0@)[2].0 == "policy_profile"@);
    let mut pairs: Vec<(String, JsonValue)> = Vec::new();
    pairs.push((owned("schema_version"), JsonValue::Str(owned("1"))));
    pairs.push((owned("pointer_path"), JsonValue::Str(args.pointer.clone())));
    pairs.push((owned("history_path"), JsonValue::Str(args.history.clone())));
    pairs.push((owned("approval_path"), JsonValue::Str(owned(approval_path))));
    pairs.push((owned("baseline_path"), JsonValue::Str(owned(baseline_path))));
    pairs.push((owned("artifact"), JsonValue::Str(str_field(pointer, "artifact"))));
    pairs.push((owned("artifact_version"), JsonValue::Str(str_field(pointer, "artifact_version"))));
    pairs.push((owned("policy_profile"), JsonValue::Str(str_field(pointer, "policy_profile"))));
    pairs.push((owned("history_entry_count"), JsonValue::UInt(entry_count)));
    proof {
        let args = args@;
        let pointer = entries_view(pointer@);
        let approval_path = approval_path@;
        let baseline_path = baseline_path@;
        assert(entries_view(pairs@) =~= seq![
                ("schema_version"@, Json::Str("1"@)),
                ("pointer_path"@, Json::Str(args.pointer)),
                ("history_path"@, Json::Str(args.history)),
                ("approval_path"@, Json::Str(approval_path)),
                ("baseline_path"@, Json::Str(baseline_path)),
                ("artifact"@, Json::Str(str_of(pointer, "artifact"@))),
                ("artifact_version"@, Json::Str(str_of(pointer, "artifact_version"@))),
                ("policy_profile"@, Json::Str(str_of(pointer, "policy_profile"@))),
                ("history_entry_count"@, Json::UInt(entry_count)),
            ]);
    }
    Ok(object_from_pairs(pairs))
}

/// The number of entries of the history, which must hold an `entries`
/// array.
pub fn history_entry_count(args: &BundleArgs, history: &Vec<(String, JsonValue)>) -> (r: Result<
    u64,
    CommandError,
>)
    ensures
        match entries_get(entries_view(history@), "entries"@) {
            Some(Json::Array(items)) => r matches Ok(n) && n == items.len(),
            _ => r matches Err(CommandError::Parse(m)) && m@ == "baseline history `"@
                + args@.history + "` must include an array `entries` field"@,
        },
{
    match crate::json::map_get(history, "entries") {
        Some(JsonValue::Array(items)) => {
            proof {
                crate::json::lemma_array_view(*items);
            }
            Ok(items.len() as u64)
        },
        _ => Err(
            CommandError::Parse(
                crate::text::cat3(
                    "baseline history `",
                    args.history.as_str(),
                    "` must include an array `entries` field",
                ),
            ),
        ),
    }
}

/// The path named under `key` in a JSON object, resolved against the
/// object's own path.
pub open spec fn linked_path(o: Seq<(Seq<char>, Json)>, key: Seq<char>, path: Seq<char>) -> Result<
    Seq<char>,
    Seq<char>,
> {
    match first_read_failure(o, seq![(key, ReadKind::Str)], path, "json object"@) {
        Some(m) => Err(m),
        None => Ok(relative_to(path, str_of(o, key))),
    }
}

/// Reads the path under `key` and resolves it against `path`, the path of
/// the object.
pub fn linked_location(o: &Vec<(String, JsonValue)>, key: &str, path: &str) -> (r: Result<
    String,
    CommandError,
>)
    ensures
        match linked_path(entries_view(o@), key@, path@) {
            Ok(p) => r matches Ok(x) && x@ == p,
            Err(m) => r matches Err(CommandError::Parse(x)) && x@ == m,
        },
{
    let mut reads = Vec::new();
    reads.push(read(key, ReadKind::Str));
    assert(reads_view(reads@) =~= seq![(key@, ReadKind::Str)]);
    match check_reads(o, &reads, path, "json object") {
        Err(m) => Err(CommandError::Parse(m)),
        Ok(_) => {
            assert(reads_view(reads@)[0].0 == key@);
            let named = str_field(o, key);
            Ok(resolve_relative_path(path, named.as_str()))
        },
    }
}

} // verus!
