use vstd::prelude::*;
use crate::cli::{
    empty_message, last_number, last_number_of, last_text, last_text_of, missing_arg,
    missing_message, opt_view, require_arg, require_filled, require_non_empty, rule, rules_view,
    scan, scan_args, texts_view, FlagRule, InlineForm, RuleSpec, ValueKind,
};
use crate::fields::{
    check_reads, first_read_failure, json_outcome, outcome, read, reads_view, str_field, str_of,
    u64_field, u64_of, value_field, value_of, CommandError, Failure, ReadKind,
};
use crate::json::{entries_view, object_from_pairs, object_of, Json, JsonValue};
use crate::text::{is_blank, owned, trimmed};
use crate::cli::must_be_non_empty;
use crate::text::{backend_choice, blank, cat, cat4, normalize_backend, trim};

verus! {

/// The arguments of `profile infer`.
#[derive(Debug, PartialEq, Eq)]
pub struct ProfilingInferArgs {
    pub artifact: Option<String>,
    pub backend: Option<String>,
    pub flamegraph_out: String,
    pub summary_out: String,
    pub snapshot_out: String,
    pub profiler_path: String,
}

pub struct ProfilingInferArgsView {
    pub artifact: Option<Seq<char>>,
    pub backend: Option<Seq<char>>,
    pub flamegraph_out: Seq<char>,
    pub summary_out: Seq<char>,
    pub snapshot_out: Seq<char>,
    pub profiler_path: Seq<char>,
}

impl View for ProfilingInferArgs {
    type V = ProfilingInferArgsView;

    open spec fn view(&self) -> ProfilingInferArgsView {
        ProfilingInferArgsView {
            artifact: opt_view(self.artifact),
            backend: opt_view(self.backend),
            flamegraph_out: self.flamegraph_out@,
            summary_out: self.summary_out@,
            snapshot_out: self.snapshot_out@,
            profiler_path: self.profiler_path@,
        }
    }
}

pub open spec fn usage_text() -> Seq<char> {
    "usage: afterburner profile infer [--artifact PATH] [--backend NAME] [--flamegraph-out PATH] [--summary-out PATH] [--snapshot-out PATH] [--profiler-path PATH]"@
}

pub fn usage() -> (r: &'static str)
    ensures
        r@ == usage_text(),
{
    "usage: afterburner profile infer [--artifact PATH] [--backend NAME] [--flamegraph-out PATH] [--summary-out PATH] [--snapshot-out PATH] [--profiler-path PATH]"
}

pub open spec fn rules_spec() -> Seq<RuleSpec> {
    seq![
        RuleSpec { name: "--artifact"@, kind: ValueKind::Text, inline: InlineForm::StripAll },
        RuleSpec { name: "--backend"@, kind: ValueKind::Text, inline: InlineForm::StripAll },
        RuleSpec { name: "--flamegraph-out"@, kind: ValueKind::Text, inline: InlineForm::StripAll },
        RuleSpec { name: "--summary-out"@, kind: ValueKind::Text, inline: InlineForm::StripAll },
        RuleSpec { name: "--snapshot-out"@, kind: ValueKind::Text, inline: InlineForm::StripAll },
        RuleSpec { name: "--profiler-path"@, kind: ValueKind::Text, inline: InlineForm::StripAll },
    ]
}

fn rules() -> (r: Vec<FlagRule>)
    ensures
        rules_view(r@) == rules_spec(),
{
    let mut r = Vec::new();
    r.push(rule("--artifact", ValueKind::Text, InlineForm::StripAll));
    r.push(rule("--backend", ValueKind::Text, InlineForm::StripAll));
    r.push(rule("--flamegraph-out", ValueKind::Text, InlineForm::StripAll));
    r.push(rule("--summary-out", ValueKind::Text, InlineForm::StripAll));
    r.push(rule("--snapshot-out", ValueKind::Text, InlineForm::StripAll));
    r.push(rule("--profiler-path", ValueKind::Text, InlineForm::StripAll));
    assert(rules_view(r@) =~= rules_spec());
    r
}

/// The arguments that the command line gives, or why it is refused.
pub open spec fn parse_args_spec(args: Seq<Seq<char>>) -> Result<ProfilingInferArgsView, Failure> {
    match scan(rules_spec(), args, "profile infer"@, usage_text()) {
        Err(m) => Err(Failure::InvalidArg(m)),
        Ok(a) => {
            let profiler_raw = match last_text(a, 5) { Some(p) => p, None => "cargo-flamegraph"@ }; if is_blank(profiler_raw) { Err(Failure::InvalidArg(empty_message("--profiler-path"@, usage_text()))) } else {
            Ok(ProfilingInferArgsView {
                artifact: last_text(a, 0),
                backend: backend_choice(last_text(a, 1)),
                flamegraph_out: match last_text(a, 2) { Some(p) => p, None => "artifacts/profiling/infer_flamegraph.svg"@ },
                summary_out: match last_text(a, 3) { Some(p) => p, None => "artifacts/profiling/infer_hotspot_summary.json"@ },
                snapshot_out: match last_text(a, 4) { Some(p) => p, None => "artifacts/profiling/profiling_environment_snapshot.json"@ },
                profiler_path: trimmed(match last_text(a, 5) { Some(p) => p, None => "cargo-flamegraph"@ }),
            })
            }
        },
    }
}

pub fn parse_args(args: &Vec<String>) -> (r: Result<ProfilingInferArgs, CommandError>)
    ensures
        outcome(r) == parse_args_spec(texts_view(args@)),
{
    let rules = rules();
    let a = match scan_args(&rules, args, "profile infer", usage()) {
        Ok(a) => a,
        Err(m) => {
            return Err(CommandError::InvalidArg(m));
        },
    };
    let artifact = last_text_of(&a, 0);
    let backend = last_text_of(&a, 1);
    let flamegraph_out = match last_text_of(&a, 2) {
        Some(s) => s,
        None => owned("artifacts/profiling/infer_flamegraph.svg"),
    };
    let summary_out = match last_text_of(&a, 3) {
        Some(s) => s,
        None => owned("artifacts/profiling/infer_hotspot_summary.json"),
    };
    let snapshot_out = match last_text_of(&a, 4) {
        Some(s) => s,
        None => owned("artifacts/profiling/profiling_environment_snapshot.json"),
    };
    let profiler_path = match last_text_of(&a, 5) {
        Some(s) => s,
        None => owned("cargo-flamegraph"),
    };
    let backend = normalize_backend(backend);
    if blank(profiler_path.as_str()) {
        return Err(CommandError::InvalidArg(must_be_non_empty("--profiler-path", usage())));
    }
    let profiler_path = trim(profiler_path.as_str());
    Ok(ProfilingInferArgs { artifact, backend, flamegraph_out, summary_out, snapshot_out, profiler_path })
}

/// The command that profiles inference; on macOS it runs with the
/// environment that `xctrace` needs.
pub open spec fn profile_command_spec(flamegraph_out: Seq<char>, artifact: Seq<char>, macos: bool) -> Seq<
    char,
> {
    let command = "cargo flamegraph --dev --deterministic --bin afterburner -o "@ + flamegraph_out
        + " -- infer "@ + artifact;
    if macos {
        "env -u DEVELOPER_DIR -u SDKROOT XCTRACE=/usr/bin/xctrace "@ + command
    } else {
        command
    }
}

/// The command line that profiles inference, as it is recorded.
pub fn render_profile_command(flamegraph_out: &str, artifact: &str, macos: bool) -> (r: String)
    ensures
        r@ == profile_command_spec(flamegraph_out@, artifact@, macos),
{
    let command = cat4(
        "cargo flamegraph --dev --deterministic --bin afterburner -o ",
        flamegraph_out,
        " -- infer ",
        artifact,
    );
    if macos {
        cat("env -u DEVELOPER_DIR -u SDKROOT XCTRACE=/usr/bin/xctrace ", command.as_str())
    } else {
        command
    }
}


/// The words handed to `cargo` to profile inference of `artifact` into
/// `flamegraph_out`.
pub open spec fn flamegraph_args_spec(flamegraph_out: Seq<char>, artifact: Seq<char>) -> Seq<Seq<char>> {
    seq![
        "flamegraph"@,
        "--dev"@,
        "--deterministic"@,
        "--bin"@,
        "afterburner"@,
        "-o"@,
        flamegraph_out,
        "--"@,
        "infer"@,
        artifact,
    ]
}

/// The arguments of the `cargo` run that profiles inference.
pub fn flamegraph_args(flamegraph_out: &str, artifact: &str) -> (r: Vec<String>)
    ensures
        texts_view(r@) == flamegraph_args_spec(flamegraph_out@, artifact@),
{
    let mut r: Vec<String> = Vec::new();
    r.push(owned("flamegraph"));
    r.push(owned("--dev"));
    r.push(owned("--deterministic"));
    r.push(owned("--bin"));
    r.push(owned("afterburner"));
    r.push(owned("-o"));
    r.push(owned(flamegraph_out));
    r.push(owned("--"));
    r.push(owned("infer"));
    r.push(owned(artifact));
    assert(texts_view(r@) =~= flamegraph_args_spec(flamegraph_out@, artifact@));
    r
}

/// "cargo flamegraph infer failed: DETAIL": the detail is the trimmed error
/// output, else the trimmed standard output, else "no output".
pub open spec fn flamegraph_failure_spec(stderr: Seq<char>, stdout: Seq<char>) -> Seq<char> {
    let detail = if trimmed(stderr).len() > 0 {
        trimmed(stderr)
    } else if trimmed(stdout).len() > 0 {
        trimmed(stdout)
    } else {
        "no output"@
    };
    "cargo flamegraph infer failed: "@ + detail
}

/// The message for a profiling run that failed.
pub fn flamegraph_failure(stderr: &str, stdout: &str) -> (r: String)
    ensures
        r@ == flamegraph_failure_spec(stderr@, stdout@),
{
    let e = trim(stderr);
    let o = trim(stdout);
    let detail = if e.as_str().unicode_len() > 0 {
        e
    } else if o.as_str().unicode_len() > 0 {
        o
    } else {
        owned("no output")
    };
    cat("cargo flamegraph infer failed: ", detail.as_str())
}

} // verus!
