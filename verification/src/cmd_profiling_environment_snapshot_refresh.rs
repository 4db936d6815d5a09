use vstd::prelude::*;
use crate::cli::{
    empty_message, last_number, last_number_of, last_text, last_text_of, missing_arg,
    missing_message, opt_view, require_arg, require_filled, require_non_empty, rule, rules_view,
    scan, scan_args, texts_view, FlagRule, InlineForm, RuleSpec, ValueKind,
};
use crate::fields::{
    check_reads, first_read_failure, json_outcome, outcome, read, reads_view, str_field, str_of,
    u64_field, u64_of, value_field, value_of, CommandError, Failure, ReadKind,
};
use crate::fields::{or_else, push_opt_str, push_opt_text, with_opt_str, with_opt_text};
use crate::json::{entries_get, entries_view, object_from_pairs, object_of, Json, JsonValue};
use crate::text::{is_blank, owned, trimmed};
use crate::text::{parse_i64, parse_i64_spec};
use crate::fields::read_failure;

verus! {

/// The arguments of `profile refresh-environment-snapshot`.
#[derive(Debug, PartialEq, Eq)]
pub struct SnapshotRefreshArgs {
    pub current_snapshot: String,
    pub profiler_path: String,
    pub captured_at_unix_ms: i64,
    pub out_path: String,
    pub refresh_receipt_path: String,
}

pub struct SnapshotRefreshArgsView {
    pub current_snapshot: Seq<char>,
    pub profiler_path: Seq<char>,
    pub captured_at_unix_ms: i64,
    pub out_path: Seq<char>,
    pub refresh_receipt_path: Seq<char>,
}

impl View for SnapshotRefreshArgs {
    type V = SnapshotRefreshArgsView;

    open spec fn view(&self) -> SnapshotRefreshArgsView {
        SnapshotRefreshArgsView {
            current_snapshot: self.current_snapshot@,
            profiler_path: self.profiler_path@,
            captured_at_unix_ms: self.captured_at_unix_ms,
            out_path: self.out_path@,
            refresh_receipt_path: self.refresh_receipt_path@,
        }
    }
}

pub open spec fn usage_text() -> Seq<char> {
    "usage: afterburner profile refresh-environment-snapshot --current-snapshot PATH --profiler-path PATH --captured-at-unix-ms N [--out PATH] [--refresh-receipt PATH]"@
}

pub fn usage() -> (r: &'static str)
    ensures
        r@ == usage_text(),
{
    "usage: afterburner profile refresh-environment-snapshot --current-snapshot PATH --profiler-path PATH --captured-at-unix-ms N [--out PATH] [--refresh-receipt PATH]"
}

pub open spec fn rules_spec() -> Seq<RuleSpec> {
    seq![
        RuleSpec { name: "--current-snapshot"@, kind: ValueKind::Text, inline: InlineForm::StripAll },
        RuleSpec { name: "--profiler-path"@, kind: ValueKind::Text, inline: InlineForm::StripAll },
        RuleSpec { name: "--captured-at-unix-ms"@, kind: ValueKind::Signed, inline: InlineForm::StripAll },
        RuleSpec { name: "--out"@, kind: ValueKind::Text, inline: InlineForm::StripAll },
        RuleSpec { name: "--refresh-receipt"@, kind: ValueKind::Text, inline: InlineForm::StripAll },
    ]
}

fn rules() -> (r: Vec<FlagRule>)
    ensures
        rules_view(r@) == rules_spec(),
{
    let mut r = Vec::new();
    r.push(rule("--current-snapshot", ValueKind::Text, InlineForm::StripAll));
    r.push(rule("--profiler-path", ValueKind::Text, InlineForm::StripAll));
    r.push(rule("--captured-at-unix-ms", ValueKind::Signed, InlineForm::StripAll));
    r.push(rule("--out", ValueKind::Text, InlineForm::StripAll));
    r.push(rule("--refresh-receipt", ValueKind::Text, InlineForm::StripAll));
    assert(rules_view(r@) =~= rules_spec());
    r
}

/// The arguments that the command line gives, or why it is refused.
pub open spec fn parse_args_spec(args: Seq<Seq<char>>) -> Result<SnapshotRefreshArgsView, Failure> {
    match scan(rules_spec(), args, "profile refresh-environment-snapshot"@, usage_text()) {
        Err(m) => Err(Failure::InvalidArg(m)),
        Ok(a) => {
            match last_text(a, 0) {
                None => Err(Failure::InvalidArg(missing_message("--current-snapshot"@, usage_text()))),
                Some(v_current_snapshot) => {
                    match last_text(a, 1) {
                        None => Err(Failure::InvalidArg(missing_message("--profiler-path"@, usage_text()))),
                        Some(v_profiler_path) => if is_blank(v_profiler_path) { Err(Failure::InvalidArg(empty_message("--profiler-path"@, usage_text()))) } else {
                            match last_text(a, 2) {
                                None => Err(Failure::InvalidArg(missing_message("--captured-at-unix-ms"@, usage_text()))),
                                Some(v_captured_at_unix_ms) => {
                                    Ok(SnapshotRefreshArgsView {
                                        current_snapshot: v_current_snapshot,
                                        profiler_path: v_profiler_path,
                                        captured_at_unix_ms: parse_i64_spec(v_captured_at_unix_ms)->Some_0,
                                        out_path: match last_text(a, 3) { Some(p) => p, None => "artifacts/profiling/profiling_environment_snapshot.json"@ },
                                        refresh_receipt_path: match last_text(a, 4) { Some(p) => p, None => "artifacts/profiling/profiling_environment_snapshot_refresh.json"@ },
                                    })
                                }
                            }
                        }
                    }
                }
            }
        },
    }
}

pub fn parse_args(args: &Vec<String>) -> (r: Result<SnapshotRefreshArgs, CommandError>)
    ensures
        outcome(r) == parse_args_spec(texts_view(args@)),
{
    let rules = rules();
    let a = match scan_args(&rules, args, "profile refresh-environment-snapshot", usage()) {
        Ok(a) => a,
        Err(m) => {
            return Err(CommandError::InvalidArg(m));
        },
    };
    let current_snapshot = match require_arg(last_text_of(&a, 0), "--current-snapshot", usage()) {
        Ok(v) => v,
        Err(m) => {
            return Err(CommandError::InvalidArg(m));
        },
    };
    let profiler_path = match require_filled(last_text_of(&a, 1), "--profiler-path", usage()) {
        Ok(v) => v,
        Err(m) => {
            return Err(CommandError::InvalidArg(m));
        },
    };
    proof {
        crate::cli::lemma_scan_signed_text(rules_spec(), texts_view(args@), "profile refresh-environment-snapshot"@, usage_text(), 2);
    }
    let captured_at_unix_ms = match last_text_of(&a, 2) {
        Some(t) => match parse_i64(t.as_str()) {
            Some(n) => n,
            None => {
                return Err(CommandError::InvalidArg(String::new()));
            },
        },
        None => {
            return Err(CommandError::InvalidArg(missing_arg("--captured-at-unix-ms", usage())));
        },
    };
    let out_path = match last_text_of(&a, 3) {
        Some(s) => s,
        None => owned("artifacts/profiling/profiling_environment_snapshot.json"),
    };
    let refresh_receipt_path = match last_text_of(&a, 4) {
        Some(s) => s,
        None => owned("artifacts/profiling/profiling_environment_snapshot_refresh.json"),
    };
    Ok(SnapshotRefreshArgs { current_snapshot, profiler_path, captured_at_unix_ms, out_path, refresh_receipt_path })
}

/// A signed number as JSON: a non-negative one is an unsigned integer.
pub open spec fn int_json(n: i64) -> Json {
    if n >= 0 {
        Json::UInt(n as u64)
    } else {
        Json::NegInt(n)
    }
}

fn int_value(n: i64) -> (r: JsonValue)
    ensures
        r@ == int_json(n),
{
    if n >= 0 {
        JsonValue::UInt(n as u64)
    } else {
        JsonValue::NegInt(n)
    }
}

pub open spec fn snapshot_reads() -> Seq<(Seq<char>, ReadKind)> {
    seq![
        ("profile_kind"@, ReadKind::Str),
        ("profiler"@, ReadKind::Str),
        ("profiler_path"@, ReadKind::Str),
        ("profiler_version"@, ReadKind::Str),
    ]
}

/// Checks that the current snapshot names its profile kind, profiler,
/// profiler path and version.
pub fn check_snapshot(current: &Vec<(String, JsonValue)>, path: &str) -> (r: Result<(), String>)
    ensures
        match first_read_failure(entries_view(current@), snapshot_reads(), path@, "profiling environment snapshot"@) {
            Some(m) => r matches Err(x) && x@ == m,
            None => r is Ok,
        },
        r is Ok ==> forall|i: int|
            0 <= i < snapshot_reads().len() ==> read_failure(
                entries_view(current@),
                #[trigger] snapshot_reads()[i].0,
                snapshot_reads()[i].1,
                path@,
                "profiling environment snapshot"@,
            ) is None,
{
    let mut reads = Vec::new();
    reads.push(read("profile_kind", ReadKind::Str));
    reads.push(read("profiler", ReadKind::Str));
    reads.push(read("profiler_path", ReadKind::Str));
    reads.push(read("profiler_version", ReadKind::Str));
    assert(reads_view(reads@) =~= snapshot_reads());
    let r = check_reads(current, &reads, path, "profiling environment snapshot");
    r
}

/// The refreshed snapshot: the current one's profile kind and profiler,
/// with the new profiler path and version, on this host.
pub open spec fn snapshot_spec(
    args: SnapshotRefreshArgsView,
    current: Seq<(Seq<char>, Json)>,
    version: Seq<char>,
    host_os: Seq<char>,
    host_arch: Seq<char>,
) -> Result<Json, Failure> {
    match first_read_failure(current, snapshot_reads(), args.current_snapshot, "profiling environment snapshot"@) {
        Some(m) => Err(Failure::Parse(m)),
        None => Ok(
            object_of(
                seq![
                    ("schema_version"@, Json::Str("1"@)),
                    ("profile_kind"@, Json::Str(str_of(current, "profile_kind"@))),
                    ("profiler"@, Json::Str(str_of(current, "profiler"@))),
                    ("profiler_path"@, Json::Str(args.profiler_path)),
                    ("profiler_version"@, Json::Str(version)),
                    ("host_os"@, Json::Str(host_os)),
                    ("host_arch"@, Json::Str(host_arch)),
                ],
            ),
        ),
    }
}

/// The receipt of a refresh: which snapshot replaced which, and the
/// profiler path and version before and after.
pub open spec fn receipt_spec(args: SnapshotRefreshArgsView, current: Seq<(Seq<char>, Json)>, version: Seq<char>) -> Result<
    Json,
    Failure,
> {
    match first_read_failure(current, snapshot_reads(), args.current_snapshot, "profiling environment snapshot"@) {
        Some(m) => Err(Failure::Parse(m)),
        None => Ok(
            object_of(
                seq![
                    ("schema_version"@, Json::Str("1"@)),
                    ("previous_snapshot_path"@, Json::Str(args.current_snapshot)),
                    ("refreshed_snapshot_path"@, Json::Str(args.out_path)),
                    ("profile_kind"@, Json::Str(str_of(current, "profile_kind"@))),
                    ("profiler"@, Json::Str(str_of(current, "profiler"@))),
                    ("previous_profiler_path"@, Json::Str(str_of(current, "profiler_path"@))),
                    ("refreshed_profiler_path"@, Json::Str(args.profiler_path)),
                    ("previous_profiler_version"@, Json::Str(str_of(current, "profiler_version"@))),
                    ("refreshed_profiler_version"@, Json::Str(version)),
                    ("captured_at_unix_ms"@, int_json(args.captured_at_unix_ms)),
                ],
            ),
        ),
    }
}

/// Builds the refreshed snapshot.
pub fn build_snapshot(
    args: &SnapshotRefreshArgs,
    current: &Vec<(String, JsonValue)>,
    version: &str,
    host_os: &str,
    host_arch: &str,
) -> (r: Result<JsonValue, CommandError>)
    ensures
        json_outcome(r) == snapshot_spec(args@, entries_view(current@), version@, host_os@, host_arch@),
{
    match check_snapshot(current, args.current_snapshot.as_str()) {
        Err(m) => {
            return Err(CommandError::Parse(m));
        },
        Ok(_) => {},
    }
    proof {
        let o = entries_view(current@);
        assert(snapshot_reads()[0].0 == "profile_kind"@);
        assert(snapshot_reads()[1].0 == "profiler"@);
        assert(read_failure(o, "profile_kind"@, ReadKind::Str, args@.current_snapshot, "profiling environment snapshot"@) is None);
        assert(read_failure(o, "profiler"@, ReadKind::Str, args@.current_snapshot, "profiling environment snapshot"@) is None);
    }
    let mut pairs: Vec<(String, JsonValue)> = Vec::new();
    pairs.push((owned("schema_version"), JsonValue::Str(owned("1"))));
    pairs.push((owned("profile_kind"), JsonValue::Str(str_field(current, "profile_kind"))));
    pairs.push((owned("profiler"), JsonValue::Str(str_field(current, "profiler"))));
    pairs.push((owned("profiler_path"), JsonValue::Str(args.profiler_path.clone())));
    pairs.push((owned("profiler_version"), JsonValue::Str(owned(version))));
    pairs.push((owned("host_os"), JsonValue::Str(owned(host_os))));
    pairs.push((owned("host_arch"), JsonValue::Str(owned(host_arch))));
    proof {
        let o = entries_view(current@);
        assert(entries_view(pairs@) =~= seq![
            ("schema_version"@, Json::Str("1"@)),
            ("profile_kind"@, Json::Str(str_of(o, "profile_kind"@))),
            ("profiler"@, Json::Str(str_of(o, "profiler"@))),
            ("profiler_path"@, Json::Str(args@.profiler_path)),
            ("profiler_version"@, Json::Str(version@)),
            ("host_os"@, Json::Str(host_os@)),
            ("host_arch"@, Json::Str(host_arch@)),
        ]);
    }
    Ok(object_from_pairs(pairs))
}

/// Builds the receipt of the refresh.
pub fn build_refresh_receipt(args: &SnapshotRefreshArgs, current: &Vec<(String, JsonValue)>, version: &str) -> (r:
    Result<JsonValue, CommandError>)
    ensures
        json_outcome(r) == receipt_spec(args@, entries_view(current@), version@),
{
    match check_snapshot(current, args.current_snapshot.as_str()) {
        Err(m) => {
            return Err(CommandError::Parse(m));
        },
        Ok(_) => {},
    }
    proof {
        let o = entries_view(current@);
        let p = args@.current_snapshot;
        let k = "profiling environment snapshot"@;
        assert(snapshot_reads()[0].0 == "profile_kind"@);
        assert(snapshot_reads()[1].0 == "profiler"@);
        assert(snapshot_reads()[2].0 == "profiler_path"@);
        assert(snapshot_reads()[3].0 == "profiler_version"@);
        assert(read_failure(o, "profile_kind"@, ReadKind::Str, p, k) is None);
        assert(read_failure(o, "profiler"@, ReadKind::Str, p, k) is None);
        assert(read_failure(o, "profiler_path"@, ReadKind::Str, p, k) is None);
        assert(read_failure(o, "profiler_version"@, ReadKind::Str, p, k) is None);
    }
    let mut pairs: Vec<(String, JsonValue)> = Vec::new();
    pairs.push((owned("schema_version"), JsonValue::Str(owned("1"))));
    pairs.push((owned("previous_snapshot_path"), JsonValue::Str(args.current_snapshot.clone())));
    pairs.push((owned("refreshed_snapshot_path"), JsonValue::Str(args.out_path.clone())));
    pairs.push((owned("profile_kind"), JsonValue::Str(str_field(current, "profile_kind"))));
    pairs.push((owned("profiler"), JsonValue::Str(str_field(current, "profiler"))));
    pairs.push((owned("previous_profiler_path"), JsonValue::Str(str_field(current, "profiler_path"))));
    pairs.push((owned("refreshed_profiler_path"), JsonValue::Str(args.profiler_path.clone())));
    pairs.push((owned("previous_profiler_version"), JsonValue::Str(str_field(current, "profiler_version"))));
    pairs.push((owned("refreshed_profiler_version"), JsonValue::Str(owned(version))));
    pairs.push((owned("captured_at_unix_ms"), int_value(args.captured_at_unix_ms)));
    proof {
        let o = entries_view(current@);
        assert(entries_view(pairs@) =~= seq![
            ("schema_version"@, Json::Str("1"@)),
            ("previous_snapshot_path"@, Json::Str(args@.current_snapshot)),
            ("refreshed_snapshot_path"@, Json::Str(args@.out_path)),
            ("profile_kind"@, Json::Str(str_of(o, "profile_kind"@))),
            ("profiler"@, Json::Str(str_of(o, "profiler"@))),
            ("previous_profiler_path"@, Json::Str(str_of(o, "profiler_path"@))),
            ("refreshed_profiler_path"@, Json::Str(args@.profiler_path)),
            ("previous_profiler_version"@, Json::Str(str_of(o, "profiler_version"@))),
            ("refreshed_profiler_version"@, Json::Str(version@)),
            ("captured_at_unix_ms"@, int_json(args@.captured_at_unix_ms)),
        ]);
    }
    Ok(object_from_pairs(pairs))
}

} // verus!
