use vstd::prelude::*;
use crate::cli::{
    empty_message, last_number, last_number_of, last_text, last_text_of, missing_arg,
    missing_message, opt_view, require_arg, require_filled, require_non_empty, rule, rules_view,
    scan, scan_args, texts_view, FlagRule, InlineForm, RuleSpec, ValueKind,
};
use crate::fields::{
    check_reads, first_read_failure, json_outcome, outcome, read, reads_view, str_field, str_of,
    u64_field, u64_of, value_field, value_of, CommandError, Failure, ReadKind,
};
use crate::json::{entries_view, object_from_pairs, object_of, Json, JsonValue};
use crate::text::{is_blank, owned, trimmed};
use crate::json::chars_of;
use crate::text::{blank, cat3, push_char, trim};

verus! {

/// The arguments of `profile environment-snapshot`.
#[derive(Debug, PartialEq, Eq)]
pub struct SnapshotArgs {
    pub profile_kind: String,
    pub profiler: String,
    pub profiler_path: String,
    pub out_path: String,
}

pub struct SnapshotArgsView {
    pub profile_kind: Seq<char>,
    pub profiler: Seq<char>,
    pub profiler_path: Seq<char>,
    pub out_path: Seq<char>,
}

impl View for SnapshotArgs {
    type V = SnapshotArgsView;

    open spec fn view(&self) -> SnapshotArgsView {
        SnapshotArgsView {
            profile_kind: self.profile_kind@,
            profiler: self.profiler@,
            profiler_path: self.profiler_path@,
            out_path: self.out_path@,
        }
    }
}

pub open spec fn usage_text() -> Seq<char> {
    "usage: afterburner profile environment-snapshot --profile-kind KIND --profiler NAME --profiler-path PATH [--out PATH]"@
}

pub fn usage() -> (r: &'static str)
    ensures
        r@ == usage_text(),
{
    "usage: afterburner profile environment-snapshot --profile-kind KIND --profiler NAME --profiler-path PATH [--out PATH]"
}

pub open spec fn rules_spec() -> Seq<RuleSpec> {
    seq![
        RuleSpec { name: "--profile-kind"@, kind: ValueKind::Text, inline: InlineForm::StripAll },
        RuleSpec { name: "--profiler"@, kind: ValueKind::Text, inline: InlineForm::StripAll },
        RuleSpec { name: "--profiler-path"@, kind: ValueKind::Text, inline: InlineForm::StripAll },
        RuleSpec { name: "--out"@, kind: ValueKind::Text, inline: InlineForm::StripAll },
    ]
}

fn rules() -> (r: Vec<FlagRule>)
    ensures
        rules_view(r@) == rules_spec(),
{
    let mut r = Vec::new();
    r.push(rule("--profile-kind", ValueKind::Text, InlineForm::StripAll));
    r.push(rule("--profiler", ValueKind::Text, InlineForm::StripAll));
    r.push(rule("--profiler-path", ValueKind::Text, InlineForm::StripAll));
    r.push(rule("--out", ValueKind::Text, InlineForm::StripAll));
    assert(rules_view(r@) =~= rules_spec());
    r
}

/// The arguments that the command line gives, or why it is refused.
pub open spec fn parse_args_spec(args: Seq<Seq<char>>) -> Result<SnapshotArgsView, Failure> {
    match scan(rules_spec(), args, "profile environment-snapshot"@, usage_text()) {
        Err(m) => Err(Failure::InvalidArg(m)),
        Ok(a) => {
            match last_text(a, 0) {
                None => Err(Failure::InvalidArg(missing_message("--profile-kind"@, usage_text()))),
                Some(v_profile_kind) => if is_blank(v_profile_kind) { Err(Failure::InvalidArg(empty_message("--profile-kind"@, usage_text()))) } else {
                    match last_text(a, 1) {
                        None => Err(Failure::InvalidArg(missing_message("--profiler"@, usage_text()))),
                        Some(v_profiler) => if is_blank(v_profiler) { Err(Failure::InvalidArg(empty_message("--profiler"@, usage_text()))) } else {
                            match last_text(a, 2) {
                                None => Err(Failure::InvalidArg(missing_message("--profiler-path"@, usage_text()))),
                                Some(v_profiler_path) => if is_blank(v_profiler_path) { Err(Failure::InvalidArg(empty_message("--profiler-path"@, usage_text()))) } else {
                                    Ok(SnapshotArgsView {
                                        profile_kind: v_profile_kind,
                                        profiler: v_profiler,
                                        profiler_path: v_profiler_path,
                                        out_path: match last_text(a, 3) { Some(p) => p, None => "artifacts/profiling/profiling_environment_snapshot.json"@ },
                                    })
                                }
                            }
                        }
                    }
                }
            }
        },
    }
}

pub fn parse_args(args: &Vec<String>) -> (r: Result<SnapshotArgs, CommandError>)
    ensures
        outcome(r) == parse_args_spec(texts_view(args@)),
{
    let rules = rules();
    let a = match scan_args(&rules, args, "profile environment-snapshot", usage()) {
        Ok(a) => a,
        Err(m) => {
            return Err(CommandError::InvalidArg(m));
        },
    };
    let profile_kind = match require_filled(last_text_of(&a, 0), "--profile-kind", usage()) {
        Ok(v) => v,
        Err(m) => {
            return Err(CommandError::InvalidArg(m));
        },
    };
    let profiler = match require_filled(last_text_of(&a, 1), "--profiler", usage()) {
        Ok(v) => v,
        Err(m) => {
            return Err(CommandError::InvalidArg(m));
        },
    };
    let profiler_path = match require_filled(last_text_of(&a, 2), "--profiler-path", usage()) {
        Ok(v) => v,
        Err(m) => {
            return Err(CommandError::InvalidArg(m));
        },
    };
    let out_path = match last_text_of(&a, 3) {
        Some(s) => s,
        None => owned("artifacts/profiling/profiling_environment_snapshot.json"),
    };
    Ok(SnapshotArgs { profile_kind, profiler, profiler_path, out_path })
}

/// The first line of `s` from `start` that is not blank, trimmed; empty
/// when there is none. Lines end at `\n`; `i` is where the scan stands.
pub open spec fn first_filled_line(s: Seq<char>, start: int, i: int) -> Seq<char>
    decreases s.len() - i,
{
    if i >= s.len() {
        let line = s.subrange(start, s.len() as int);
        if is_blank(line) {
            Seq::empty()
        } else {
            trimmed(line)
        }
    } else if s[i] == '\n' {
        let line = s.subrange(start, i);
        if !is_blank(line) {
            trimmed(line)
        } else {
            first_filled_line(s, i + 1, i + 1)
        }
    } else {
        first_filled_line(s, start, i + 1)
    }
}

/// profiler `PATH` --version produced empty output
pub open spec fn empty_version_message(profiler_path: Seq<char>) -> Seq<char> {
    "profiler `"@ + profiler_path + "` --version produced empty output"@
}

fn text_of(cs: &Vec<char>, start: usize, end: usize) -> (r: String)
    requires
        start <= end <= cs.len(),
    ensures
        r@ == cs@.subrange(start as int, end as int),
{
    let mut r = String::new();
    let mut k = start;
    while k < end
        invariant
            start <= k <= end <= cs.len(),
            r@ == cs@.subrange(start as int, k as int),
        decreases end - k,
    {
        push_char(&mut r, cs[k]);
        assert(r@ =~= cs@.subrange(start as int, k + 1));
        k += 1;
    }
    r
}

/// The profiler's version from what `PROFILER --version` printed: its
/// first line that is not blank, trimmed.
pub fn profiler_version_from_output(stdout: &str, profiler_path: &str) -> (r: Result<String, String>)
    ensures
        first_filled_line(stdout@, 0, 0).len() == 0 ==> (r matches Err(m) && m@
            == empty_version_message(profiler_path@)),
        first_filled_line(stdout@, 0, 0).len() > 0 ==> (r matches Ok(v) && v@ == first_filled_line(
            stdout@,
            0,
            0,
        )),
{
    let cs = chars_of(stdout);
    let ghost s = stdout@;
    let mut start: usize = 0;
    let mut i: usize = 0;
    let mut found: Option<String> = None;
    while i < cs.len()
        invariant_except_break
            cs@ == s,
            start <= i <= cs.len(),
            found is None,
            first_filled_line(s, 0, 0) == first_filled_line(s, start as int, i as int),
        ensures
            cs@ == s,
            found matches Some(v) ==> v@ == first_filled_line(s, 0, 0) && v@.len() > 0,
            found is None ==> start <= i == cs.len() && first_filled_line(s, 0, 0)
                == first_filled_line(s, start as int, i as int),
        decreases cs.len() - i,
    {
        if cs[i] == '\n' {
            let line = text_of(&cs, start, i);
            if !blank(line.as_str()) {
                let t = trim(line.as_str());
                proof {
                    crate::text::lemma_trimmed_filled(line@);
                }
                found = Some(t);
                break;
            }
            start = i + 1;
        }
        i += 1;
    }
    match found {
        Some(v) => Ok(v),
        None => {
            let line = text_of(&cs, start, cs.len());
            if blank(line.as_str()) {
                Err(cat3("profiler `", profiler_path, "` --version produced empty output"))
            } else {
                proof {
                    crate::text::lemma_trimmed_filled(line@);
                }
                Ok(trim(line.as_str()))
            }
        },
    }
}

/// The environment snapshot of a profiling run.
pub open spec fn snapshot_spec(
    profile_kind: Seq<char>,
    profiler: Seq<char>,
    profiler_path: Seq<char>,
    version: Seq<char>,
    host_os: Seq<char>,
    host_arch: Seq<char>,
) -> Json {
    object_of(
        seq![
            ("schema_version"@, Json::Str("1"@)),
            ("profile_kind"@, Json::Str(profile_kind)),
            ("profiler"@, Json::Str(profiler)),
            ("profiler_path"@, Json::Str(profiler_path)),
            ("profiler_version"@, Json::Str(version)),
            ("host_os"@, Json::Str(host_os)),
            ("host_arch"@, Json::Str(host_arch)),
        ],
    )
}

/// Builds the environment snapshot of a profiling run.
pub fn environment_snapshot(
    profile_kind: &str,
    profiler: &str,
    profiler_path: &str,
    version: &str,
    host_os: &str,
    host_arch: &str,
) -> (r: JsonValue)
    ensures
        r@ == snapshot_spec(profile_kind@, profiler@, profiler_path@, version@, host_os@, host_arch@),
{
    let mut pairs: Vec<(String, JsonValue)> = Vec::new();
    pairs.push((owned("schema_version"), JsonValue::Str(owned("1"))));
    pairs.push((owned("profile_kind"), JsonValue::Str(owned(profile_kind))));
    pairs.push((owned("profiler"), JsonValue::Str(owned(profiler))));
    pairs.push((owned("profiler_path"), JsonValue::Str(owned(profiler_path))));
    pairs.push((owned("profiler_version"), JsonValue::Str(owned(version))));
    pairs.push((owned("host_os"), JsonValue::Str(owned(host_os))));
    pairs.push((owned("host_arch"), JsonValue::Str(owned(host_arch))));
    assert(entries_view(pairs@) =~= seq![
        ("schema_version"@, Json::Str("1"@)),
        ("profile_kind"@, Json::Str(profile_kind@)),
        ("profiler"@, Json::Str(profiler@)),
        ("profiler_path"@, Json::Str(profiler_path@)),
        ("profiler_version"@, Json::Str(version@)),
        ("host_os"@, Json::Str(host_os@)),
        ("host_arch"@, Json::Str(host_arch@)),
    ]);
    object_from_pairs(pairs)
}

} // verus!
