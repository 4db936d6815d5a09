use vstd::prelude::*;
use crate::cli::{
    empty_message, last_number, last_number_of, last_text, last_text_of, missing_arg,
    missing_message, opt_view, require_arg, require_filled, require_non_empty, rule, rules_view,
    scan, scan_args, texts_view, FlagRule, InlineForm, RuleSpec, ValueKind,
};
use crate::fields::{
    check_reads, first_read_failure, json_outcome, outcome, read, reads_view, str_field, str_of,
    u64_field, u64_of, value_field, value_of, CommandError, Failure, ReadKind,
};
use crate::fields::{or_else, push_opt_str, push_opt_text, with_opt_str, with_opt_text};
use crate::json::{entries_get, entries_view, object_from_pairs, object_of, Json, JsonValue};
use crate::text::{is_blank, owned, trimmed};
use crate::text::{decimal_text, trim, decimal};
use vstd::string::{StrSliceExecFns, StringExecFns};

verus! {

/// The arguments of `verify rollout`.
#[derive(Debug, PartialEq, Eq)]
pub struct VerifyRolloutArgs {
    pub candidate_artifact: String,
    pub eval_out: String,
    pub out_record: String,
    pub repo_root: String,
    pub seed: u64,
    pub batch_size: u64,
    pub max_batches: u64,
    pub min_accuracy: String,
}

pub struct VerifyRolloutArgsView {
    pub candidate_artifact: Seq<char>,
    pub eval_out: Seq<char>,
    pub out_record: Seq<char>,
    pub repo_root: Seq<char>,
    pub seed: u64,
    pub batch_size: u64,
    pub max_batches: u64,
    pub min_accuracy: Seq<char>,
}

impl View for VerifyRolloutArgs {
    type V = VerifyRolloutArgsView;

    open spec fn view(&self) -> VerifyRolloutArgsView {
        VerifyRolloutArgsView {
            candidate_artifact: self.candidate_artifact@,
            eval_out: self.eval_out@,
            out_record: self.out_record@,
            repo_root: self.repo_root@,
            seed: self.seed,
            batch_size: self.batch_size,
            max_batches: self.max_batches,
            min_accuracy: self.min_accuracy@,
        }
    }
}

pub open spec fn usage_text() -> Seq<char> {
    "usage: afterburner verify rollout --artifact PATH [--eval-out PATH] [--out-record PATH] [--repo-root PATH] [--seed N] [--batch-size N] [--max-batches N] [--min-accuracy F64]"@
}

pub fn usage() -> (r: &'static str)
    ensures
        r@ == usage_text(),
{
    "usage: afterburner verify rollout --artifact PATH [--eval-out PATH] [--out-record PATH] [--repo-root PATH] [--seed N] [--batch-size N] [--max-batches N] [--min-accuracy F64]"
}

pub open spec fn rules_spec() -> Seq<RuleSpec> {
    seq![
        RuleSpec { name: "--artifact"@, kind: ValueKind::Text, inline: InlineForm::StripAll },
        RuleSpec { name: "--eval-out"@, kind: ValueKind::Text, inline: InlineForm::StripAll },
        RuleSpec { name: "--out-record"@, kind: ValueKind::Text, inline: InlineForm::StripAll },
        RuleSpec { name: "--repo-root"@, kind: ValueKind::Text, inline: InlineForm::StripAll },
        RuleSpec { name: "--seed"@, kind: ValueKind::Number, inline: InlineForm::StripAll },
        RuleSpec { name: "--batch-size"@, kind: ValueKind::Number, inline: InlineForm::StripAll },
        RuleSpec { name: "--max-batches"@, kind: ValueKind::Number, inline: InlineForm::StripAll },
        RuleSpec { name: "--min-accuracy"@, kind: ValueKind::Decimal, inline: InlineForm::StripAll },
    ]
}

fn rules() -> (r: Vec<FlagRule>)
    ensures
        rules_view(r@) == rules_spec(),
{
    let mut r = Vec::new();
    r.push(rule("--artifact", ValueKind::Text, InlineForm::StripAll));
    r.push(rule("--eval-out", ValueKind::Text, InlineForm::StripAll));
    r.push(rule("--out-record", ValueKind::Text, InlineForm::StripAll));
    r.push(rule("--repo-root", ValueKind::Text, InlineForm::StripAll));
    r.push(rule("--seed", ValueKind::Number, InlineForm::StripAll));
    r.push(rule("--batch-size", ValueKind::Number, InlineForm::StripAll));
    r.push(rule("--max-batches", ValueKind::Number, InlineForm::StripAll));
    r.push(rule("--min-accuracy", ValueKind::Decimal, InlineForm::StripAll));
    assert(rules_view(r@) =~= rules_spec());
    r
}

/// The arguments that the command line gives, or why it is refused.
pub open spec fn parse_args_spec(args: Seq<Seq<char>>) -> Result<VerifyRolloutArgsView, Failure> {
    match scan(rules_spec(), args, "verify rollout"@, usage_text()) {
        Err(m) => Err(Failure::InvalidArg(m)),
        Ok(a) => {
            match last_text(a, 0) {
                None => Err(Failure::InvalidArg(missing_message("--artifact"@, usage_text()))),
                Some(v_candidate_artifact) => {
                    Ok(VerifyRolloutArgsView {
                        candidate_artifact: v_candidate_artifact,
                        eval_out: match last_text(a, 1) { Some(p) => p, None => "artifacts/eval/mnist_eval_summary.json"@ },
                        out_record: match last_text(a, 2) { Some(p) => p, None => "artifacts/deploy/rollout_verify.json"@ },
                        repo_root: match last_text(a, 3) { Some(p) => p, None => "."@ },
                        seed: match last_number(a, 4) { Some(p) => p, None => 42 },
                        batch_size: match last_number(a, 5) { Some(p) => p, None => 128 },
                        max_batches: match last_number(a, 6) { Some(p) => p, None => 8 },
                        min_accuracy: match last_text(a, 7) { Some(p) => p, None => "0.98925781"@ },
                    })
                }
            }
        },
    }
}

pub fn parse_args(args: &Vec<String>) -> (r: Result<VerifyRolloutArgs, CommandError>)
    ensures
        outcome(r) == parse_args_spec(texts_view(args@)),
{
    let rules = rules();
    let a = match scan_args(&rules, args, "verify rollout", usage()) {
        Ok(a) => a,
        Err(m) => {
            return Err(CommandError::InvalidArg(m));
        },
    };
    let candidate_artifact = match require_arg(last_text_of(&a, 0), "--artifact", usage()) {
        Ok(v) => v,
        Err(m) => {
            return Err(CommandError::InvalidArg(m));
        },
    };
    let eval_out = match last_text_of(&a, 1) {
        Some(s) => s,
        None => owned("artifacts/eval/mnist_eval_summary.json"),
    };
    let out_record = match last_text_of(&a, 2) {
        Some(s) => s,
        None => owned("artifacts/deploy/rollout_verify.json"),
    };
    let repo_root = match last_text_of(&a, 3) {
        Some(s) => s,
        None => owned("."),
    };
    let seed = match last_number_of(&a, 4) {
        Some(n) => n,
        None => 42,
    };
    let batch_size = match last_number_of(&a, 5) {
        Some(n) => n,
        None => 128,
    };
    let max_batches = match last_number_of(&a, 6) {
        Some(n) => n,
        None => 8,
    };
    let min_accuracy = match last_text_of(&a, 7) {
        Some(s) => s,
        None => owned("0.98925781"),
    };
    Ok(VerifyRolloutArgs { candidate_artifact, eval_out, out_record, repo_root, seed, batch_size, max_batches, min_accuracy })
}

/// The record of a rollout verification: the candidate artifact, what inference printed, and where the evaluation summary went.
pub open spec fn record_spec(args: VerifyRolloutArgsView, infer_output: Json) -> Json {
    object_of(seq![
            ("schema_version"@, Json::Str("1"@)),
            ("candidate_artifact"@, Json::Str(args.candidate_artifact)),
            ("infer_output"@, infer_output),
            ("eval_summary_path"@, Json::Str(args.eval_out)),
        ])
}

/// Builds the record from the arguments and the parsed output of `infer`.
pub fn build_record(args: &VerifyRolloutArgs, infer_output: &JsonValue) -> (r: JsonValue)
    ensures
        r@ == record_spec(args@, infer_output@),
{
    let mut pairs: Vec<(String, JsonValue)> = Vec::new();
    pairs.push((owned("schema_version"), JsonValue::Str(owned("1"))));
    pairs.push((owned("candidate_artifact"), JsonValue::Str(args.candidate_artifact.clone())));
    pairs.push((owned("infer_output"), crate::json::json_clone(infer_output)));
    pairs.push((owned("eval_summary_path"), JsonValue::Str(args.eval_out.clone())));
    proof {
        let args = args@;
        let infer_output = infer_output@;
        assert(entries_view(pairs@) =~= seq![
            ("schema_version"@, Json::Str("1"@)),
            ("candidate_artifact"@, Json::Str(args.candidate_artifact)),
            ("infer_output"@, infer_output),
            ("eval_summary_path"@, Json::Str(args.eval_out)),
        ]);
    }
    object_from_pairs(pairs)
}

/// The arguments of the `eval` run that checks the candidate, with the
/// accuracy floor written as `min_accuracy`.
pub open spec fn eval_command_spec(args: VerifyRolloutArgsView, min_accuracy: Seq<char>) -> Seq<Seq<char>> {
    seq![
        "eval"@,
        "--artifact"@,
        args.candidate_artifact,
        "--seed"@,
        decimal(args.seed as nat),
        "--batch-size"@,
        decimal(args.batch_size as nat),
        "--max-batches"@,
        decimal(args.max_batches as nat),
        "--min-accuracy"@,
        min_accuracy,
        "--out"@,
        args.eval_out,
    ]
}

/// The arguments to run `eval` with; `min_accuracy` is the floor as the
/// number it reads as is written.
pub fn eval_command(args: &VerifyRolloutArgs, min_accuracy: &str) -> (r: Vec<String>)
    ensures
        texts_view(r@) == eval_command_spec(args@, min_accuracy@),
{
    let mut r: Vec<String> = Vec::new();
    r.push(owned("eval"));
    r.push(owned("--artifact"));
    r.push(args.candidate_artifact.clone());
    r.push(owned("--seed"));
    r.push(decimal_text(args.seed));
    r.push(owned("--batch-size"));
    r.push(decimal_text(args.batch_size));
    r.push(owned("--max-batches"));
    r.push(decimal_text(args.max_batches));
    r.push(owned("--min-accuracy"));
    r.push(owned(min_accuracy));
    r.push(owned("--out"));
    r.push(args.eval_out.clone());
    assert(texts_view(r@) =~= eval_command_spec(args@, min_accuracy@));
    r
}

/// The words joined with one space between each two.
pub open spec fn joined(words: Seq<Seq<char>>) -> Seq<char>
    decreases words.len(),
{
    if words.len() == 0 {
        Seq::empty()
    } else if words.len() == 1 {
        words[0]
    } else {
        joined(words.drop_last()) + " "@ + words.last()
    }
}

/// "afterburner ARGS failed: DETAIL", where the detail is the trimmed
/// error output, or the trimmed standard output when that is empty.
pub open spec fn subcommand_failure_spec(args: Seq<Seq<char>>, stderr: Seq<char>, stdout: Seq<char>) -> Seq<char> {
    let detail = if trimmed(stderr).len() > 0 {
        trimmed(stderr)
    } else {
        trimmed(stdout)
    };
    "afterburner "@ + joined(args) + " failed: "@ + detail
}

/// The message for a run of the program that failed.
pub fn subcommand_failure(args: &Vec<String>, stderr: &str, stdout: &str) -> (r: String)
    ensures
        r@ == subcommand_failure_spec(texts_view(args@), stderr@, stdout@),
{
    let ghost ws = texts_view(args@);
    let mut line = String::new();
    let mut i: usize = 0;
    assert(ws.take(0) =~= Seq::<Seq<char>>::empty());
    while i < args.len()
        invariant
            ws == texts_view(args@),
            i <= args.len(),
            line@ == joined(ws.take(i as int)),
        decreases args.len() - i,
    {
        if i > 0 {
            line.append(" ");
        }
        line.append(args[i].as_str());
        proof {
            assert(ws.take(i + 1).drop_last() =~= ws.take(i as int));
            assert(ws.take(i + 1).last() == args[i as int]@);
            if i == 0 {
                assert(line@ =~= joined(ws.take(1)));
            }
        }
        i += 1;
    }
    assert(ws.take(args.len() as int) =~= ws);
    let e = trim(stderr);
    let detail = if e.as_str().unicode_len() > 0 {
        e
    } else {
        trim(stdout)
    };
    let mut m = String::from_str("afterburner ");
    m.append(line.as_str());
    m.append(" failed: ");
    m.append(detail.as_str());
    proof {
        reveal_strlit("afterburner ");
        reveal_strlit(" failed: ");
    }
    m
}

} // verus!
