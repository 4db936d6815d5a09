use vstd::prelude::*;
use crate::cli::{
    empty_message, last_number, last_number_of, last_text, last_text_of, missing_arg,
    missing_message, opt_view, require_arg, require_filled, require_non_empty, rule, rules_view,
    scan, scan_args, texts_view, FlagRule, InlineForm, RuleSpec, ValueKind,
};
use crate::fields::{
    check_reads, first_read_failure, json_outcome, outcome, read, reads_view, str_field, str_of,
    u64_field, u64_of, value_field, value_of, CommandError, Failure, ReadKind,
};
use crate::fields::{or_else, push_opt_str, push_opt_text, with_opt_str, with_opt_text};
use crate::json::{entries_get, entries_view, object_from_pairs, object_of, Json, JsonValue};
use crate::text::{is_blank, owned, trimmed};

verus! {

/// The arguments of `profile provenance-bundle`.
#[derive(Debug, PartialEq, Eq)]
pub struct ProvenanceBundleArgs {
    pub snapshot: String,
    pub summary: String,
    pub captured_at_unix_ms: u64,
    pub out_path: String,
}

pub struct ProvenanceBundleArgsView {
    pub snapshot: Seq<char>,
    pub summary: Seq<char>,
    pub captured_at_unix_ms: u64,
    pub out_path: Seq<char>,
}

impl View for ProvenanceBundleArgs {
    type V = ProvenanceBundleArgsView;

    open spec fn view(&self) -> ProvenanceBundleArgsView {
        ProvenanceBundleArgsView {
            snapshot: self.snapshot@,
            summary: self.summary@,
            captured_at_unix_ms: self.captured_at_unix_ms,
            out_path: self.out_path@,
        }
    }
}

pub open spec fn usage_text() -> Seq<char> {
    "usage: afterburner profile provenance-bundle --snapshot PATH --summary PATH --captured-at-unix-ms N [--out PATH]"@
}

pub fn usage() -> (r: &'static str)
    ensures
        r@ == usage_text(),
{
    "usage: afterburner profile provenance-bundle --snapshot PATH --summary PATH --captured-at-unix-ms N [--out PATH]"
}

pub open spec fn rules_spec() -> Seq<RuleSpec> {
    seq![
        RuleSpec { name: "--snapshot"@, kind: ValueKind::Text, inline: InlineForm::StripAll },
        RuleSpec { name: "--summary"@, kind: ValueKind::Text, inline: InlineForm::StripAll },
        RuleSpec { name: "--captured-at-unix-ms"@, kind: ValueKind::Number, inline: InlineForm::StripAll },
        RuleSpec { name: "--out"@, kind: ValueKind::Text, inline: InlineForm::StripAll },
    ]
}

fn rules() -> (r: Vec<FlagRule>)
    ensures
        rules_view(r@) == rules_spec(),
{
    let mut r = Vec::new();
    r.push(rule("--snapshot", ValueKind::Text, InlineForm::StripAll));
    r.push(rule("--summary", ValueKind::Text, InlineForm::StripAll));
    r.push(rule("--captured-at-unix-ms", ValueKind::Number, InlineForm::StripAll));
    r.push(rule("--out", ValueKind::Text, InlineForm::StripAll));
    assert(rules_view(r@) =~= rules_spec());
    r
}

/// The arguments that the command line gives, or why it is refused.
pub open spec fn parse_args_spec(args: Seq<Seq<char>>) -> Result<ProvenanceBundleArgsView, Failure> {
    match scan(rules_spec(), args, "profile provenance-bundle"@, usage_text()) {
        Err(m) => Err(Failure::InvalidArg(m)),
        Ok(a) => {
            match last_text(a, 0) {
                None => Err(Failure::InvalidArg(missing_message("--snapshot"@, usage_text()))),
                Some(v_snapshot) => {
                    match last_text(a, 1) {
                        None => Err(Failure::InvalidArg(missing_message("--summary"@, usage_text()))),
                        Some(v_summary) => {
                            match last_number(a, 2) {
                                None => Err(Failure::InvalidArg(missing_message("--captured-at-unix-ms"@, usage_text()))),
                                Some(v_captured_at_unix_ms) => {
                                    Ok(ProvenanceBundleArgsView {
                                        snapshot: v_snapshot,
                                        summary: v_summary,
                                        captured_at_unix_ms: v_captured_at_unix_ms,
                                        out_path: match last_text(a, 3) { Some(p) => p, None => "artifacts/profiling/profiling_provenance_evidence_bundle.json"@ },
                                    })
                                }
                            }
                        }
                    }
                }
            }
        },
    }
}

pub fn parse_args(args: &Vec<String>) -> (r: Result<ProvenanceBundleArgs, CommandError>)
    ensures
        outcome(r) == parse_args_spec(texts_view(args@)),
{
    let rules = rules();
    let a = match scan_args(&rules, args, "profile provenance-bundle", usage()) {
        Ok(a) => a,
        Err(m) => {
            return Err(CommandError::InvalidArg(m));
        },
    };
    let snapshot = match require_arg(last_text_of(&a, 0), "--snapshot", usage()) {
        Ok(v) => v,
        Err(m) => {
            return Err(CommandError::InvalidArg(m));
        },
    };
    let summary = match require_arg(last_text_of(&a, 1), "--summary", usage()) {
        Ok(v) => v,
        Err(m) => {
            return Err(CommandError::InvalidArg(m));
        },
    };
    let captured_at_unix_ms = match last_number_of(&a, 2) {
        Some(n) => n,
        None => {
            return Err(CommandError::InvalidArg(missing_arg("--captured-at-unix-ms", usage())));
        },
    };
    let out_path = match last_text_of(&a, 3) {
        Some(s) => s,
        None => owned("artifacts/profiling/profiling_provenance_evidence_bundle.json"),
    };
    Ok(ProvenanceBundleArgs { snapshot, summary, captured_at_unix_ms, out_path })
}

/// The provenance evidence bundle of a profiling run: the snapshot and the hotspot summary as its two evidence sources.
pub open spec fn bundle_spec(args: ProvenanceBundleArgsView, summary: Seq<(Seq<char>, Json)>, snapshot: Seq<(Seq<char>, Json)>) -> Result<Json, Failure> {
    match or_else(first_read_failure(summary, seq![("artifact_version"@, ReadKind::Str), ("profile_kind"@, ReadKind::Str)], args.summary, "profiling artifact"@), or_else(first_read_failure(snapshot, seq![("profiler"@, ReadKind::Str)], args.snapshot, "profiling artifact"@), first_read_failure(summary, seq![("backend"@, ReadKind::Str)], args.summary, "profiling artifact"@))) {
        Some(m) => Err(Failure::Parse(m)),
        None => Ok(object_of(seq![
                ("schema_version"@, Json::Str("1"@)),
                ("snapshot_path"@, Json::Str(args.snapshot)),
                ("summary_path"@, Json::Str(args.summary)),
                ("captured_at_unix_ms"@, Json::UInt(args.captured_at_unix_ms)),
                ("artifact_version"@, Json::Str(str_of(summary, "artifact_version"@))),
                ("profile_kind"@, Json::Str(str_of(summary, "profile_kind"@))),
                ("profiler"@, Json::Str(str_of(snapshot, "profiler"@))),
                ("backend"@, Json::Str(str_of(summary, "backend"@))),
                ("evidence_count"@, Json::UInt(2)),
                ("evidence_sources"@, Json::Array(seq![object_of(seq![("artifact_path"@, Json::Str(args.snapshot)), ("artifact_role"@, Json::Str("profiling_environment_snapshot"@)), ("observed_at_unix_ms"@, Json::UInt(args.captured_at_unix_ms))]), object_of(seq![("artifact_path"@, Json::Str(args.summary)), ("artifact_role"@, Json::Str("profiling_hotspot_summary"@)), ("observed_at_unix_ms"@, Json::UInt(args.captured_at_unix_ms))])])),
            ])),
    }
}

/// Builds the evidence bundle from the summary's and the snapshot's fields.
pub fn build_bundle(args: &ProvenanceBundleArgs, summary: &Vec<(String, JsonValue)>, snapshot: &Vec<(String, JsonValue)>) -> (r: Result<JsonValue, CommandError>)
    ensures
        json_outcome(r) == bundle_spec(args@, entries_view(summary@), entries_view(snapshot@)),
{
    let mut reads0 = Vec::new();
    reads0.push(read("artifact_version", ReadKind::Str));
    reads0.push(read("profile_kind", ReadKind::Str));
    assert(reads_view(reads0@) =~= seq![("artifact_version"@, ReadKind::Str), ("profile_kind"@, ReadKind::Str)]);
    match check_reads(summary, &reads0, args.summary.as_str(), "profiling artifact") {
        Err(m) => {
            return Err(CommandError::Parse(m));
        },
        Ok(_) => {},
    }
    assert(reads_view(reads0@)[0].0 == "artifact_version"@);
    assert(reads_view(reads0@)[1].0 == "profile_kind"@);
    let mut reads1 = Vec::new();
    reads1.push(read("profiler", ReadKind::Str));
    assert(reads_view(reads1@) =~= seq![("profiler"@, ReadKind::Str)]);
    match check_reads(snapshot, &reads1, args.snapshot.as_str(), "profiling artifact") {
        Err(m) => {
            return Err(CommandError::Parse(m));
        },
        Ok(_) => {},
    }
    assert(reads_view(reads1@)[0].0 == "profiler"@);
    let mut reads2 = Vec::new();
    reads2.push(read("backend", ReadKind::Str));
    assert(reads_view(reads2@) =~= seq![("backend"@, ReadKind::Str)]);
    match check_reads(summary, &reads2, args.summary.as_str(), "profiling artifact") {
        Err(m) => {
            return Err(CommandError::Parse(m));
        },
        Ok(_) => {},
    }
    assert(reads_view(reads2@)[0].0 == "backend"@);
    let mut items1: Vec<JsonValue> = Vec::new();
    let mut nested2: Vec<(String, JsonValue)> = Vec::new();
    nested2.push((owned("artifact_path"), JsonValue::Str(args.snapshot.clone())));
    nested2.push((owned("artifact_role"), JsonValue::Str(owned("profiling_environment_snapshot"))));
    nested2.push((owned("observed_at_unix_ms"), JsonValue::UInt(args.captured_at_unix_ms)));
    proof {
        let args = args@;
        let summary = entries_view(summary@);
        let snapshot = entries_view(snapshot@);
        assert(entries_view(nested2@) =~= seq![("artifact_path"@, Json::Str(args.snapshot)), ("artifact_role"@, Json::Str("profiling_environment_snapshot"@)), ("observed_at_unix_ms"@, Json::UInt(args.captured_at_unix_ms))]);
    }
    items1.push(object_from_pairs(nested2));
    let mut nested3: Vec<(String, JsonValue)> = Vec::new();
    nested3.push((owned("artifact_path"), JsonValue::Str(args.summary.clone())));
    nested3.push((owned("artifact_role"), JsonValue::Str(owned("profiling_hotspot_summary"))));
    nested3.push((owned("observed_at_unix_ms"), JsonValue::UInt(args.captured_at_unix_ms)));
    proof {
        let args = args@;
        let summary = entries_view(summary@);
        let snapshot = entries_view(snapshot@);
        assert(entries_view(nested3@) =~= seq![("artifact_path"@, Json::Str(args.summary)), ("artifact_role"@, Json::Str("profiling_hotspot_summary"@)), ("observed_at_unix_ms"@, Json::UInt(args.captured_at_unix_ms))]);
    }
    items1.push(object_from_pairs(nested3));
    proof {
        crate::json::lemma_array_view(items1);
    }
    proof {
        let args = args@;
        let summary = entries_view(summary@);
        let snapshot = entries_view(snapshot@);
        assert(crate::json::items_view(items1@) =~= seq![object_of(seq![("artifact_path"@, Json::Str(args.snapshot)), ("artifact_role"@, Json::Str("profiling_environment_snapshot"@)), ("observed_at_unix_ms"@, Json::UInt(args.captured_at_unix_ms))]), object_of(seq![("artifact_path"@, Json::Str(args.summary)), ("artifact_role"@, Json::Str("profiling_hotspot_summary"@)), ("observed_at_unix_ms"@, Json::UInt(args.captured_at_unix_ms))])]);
    }
    let mut pairs: Vec<(String, JsonValue)> = Vec::new();
    pairs.push((owned("schema_version"), JsonValue::Str(owned("1"))));
    pairs.push((owned("snapshot_path"), JsonValue::Str(args.snapshot.clone())));
    pairs.push((owned("summary_path"), JsonValue::Str(args.summary.clone())));
    pairs.push((owned("captured_at_unix_ms"), JsonValue::UInt(args.captured_at_unix_ms)));
    pairs.push((owned("artifact_version"), JsonValue::Str(str_field(summary, "artifact_version"))));
    pairs.push((owned("profile_kind"), JsonValue::Str(str_field(summary, "profile_kind"))));
    pairs.push((owned("profiler"), JsonValue::Str(str_field(snapshot, "profiler"))));
    pairs.push((owned("backend"), JsonValue::Str(str_field(summary, "backend"))));
    pairs.push((owned("evidence_count"), JsonValue::UInt(2)));
    pairs.push((owned("evidence_sources"), JsonValue::Array(items1)));
    proof {
        let args = args@;
        let summary = entries_view(summary@);
        let snapshot = entries_view(snapshot@);
        assert(entries_view(pairs@) =~= seq![
                ("schema_version"@, Json::Str("1"@)),
                ("snapshot_path"@, Json::Str(args.snapshot)),
                ("summary_path"@, Json::Str(args.summary)),
                ("captured_at_unix_ms"@, Json::UInt(args.captured_at_unix_ms)),
                ("artifact_version"@, Json::Str(str_of(summary, "artifact_version"@))),
                ("profile_kind"@, Json::Str(str_of(summary, "profile_kind"@))),
                ("profiler"@, Json::Str(str_of(snapshot, "profiler"@))),
                ("backend"@, Json::Str(str_of(summary, "backend"@))),
                ("evidence_count"@, Json::UInt(2)),
                ("evidence_sources"@, Json::Array(seq![object_of(seq![("artifact_path"@, Json::Str(args.snapshot)), ("artifact_role"@, Json::Str("profiling_environment_snapshot"@)), ("observed_at_unix_ms"@, Json::UInt(args.captured_at_unix_ms))]), object_of(seq![("artifact_path"@, Json::Str(args.summary)), ("artifact_role"@, Json::Str("profiling_hotspot_summary"@)), ("observed_at_unix_ms"@, Json::UInt(args.captured_at_unix_ms))])])),
            ]);
    }
    Ok(object_from_pairs(pairs))
}


} // verus!
