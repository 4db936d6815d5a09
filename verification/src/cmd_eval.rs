use vstd::prelude::*;
use vstd::string::{StrSliceExecFns, StringExecFns};
use crate::cli::texts_view;
use crate::float_text::{float_syntax, in_unit_interval_text, is_float_text, unit_interval_text};
use crate::json::text_eq;
use crate::text::{cat, cat3, cat4, has_prefix, parse_u64, parse_u64_spec, starts_with};

verus! {

/// The arguments of `eval`. `artifact` is `None` when the default
/// inference artifact is meant, which is found on disk. `min_accuracy`
/// keeps its text, which `str::parse::<f64>` reads as a number in
/// `[0.0, 1.0]` (see `unit_interval_text`).
#[derive(Debug, PartialEq, Eq)]
pub struct EvalArgs {
    pub artifact: Option<String>,
    pub seed: u64,
    pub batch_size: usize,
    pub max_batches: usize,
    pub min_accuracy: Option<String>,
    pub out_path: String,
}

pub struct EvalArgsView {
    pub artifact: Option<Seq<char>>,
    pub seed: u64,
    pub batch_size: usize,
    pub max_batches: usize,
    pub min_accuracy: Option<Seq<char>>,
    pub out_path: Seq<char>,
}

pub open spec fn opt_seq(o: Option<String>) -> Option<Seq<char>> {
    match o {
        Some(s) => Some(s@),
        None => None,
    }
}

impl View for EvalArgs {
    type V = EvalArgsView;

    open spec fn view(&self) -> EvalArgsView {
        EvalArgsView {
            artifact: opt_seq(self.artifact),
            seed: self.seed,
            batch_size: self.batch_size,
            max_batches: self.max_batches,
            min_accuracy: opt_seq(self.min_accuracy),
            out_path: self.out_path@,
        }
    }
}

pub open spec fn usage_text() -> Seq<char> {
    "usage: afterburner eval [artifact_path] [--artifact PATH] [--seed N] [--batch-size N] [--max-batches N] [--min-accuracy F64] [--out PATH]"@
}

pub fn usage() -> (r: &'static str)
    ensures
        r@ == usage_text(),
{
    "usage: afterburner eval [artifact_path] [--artifact PATH] [--seed N] [--batch-size N] [--max-batches N] [--min-accuracy F64] [--out PATH]"
}

/// "MESSAGE\nUSAGE"
pub open spec fn with_usage(m: Seq<char>) -> Seq<char> {
    m + "\n"@ + usage_text()
}

pub open spec fn missing_value(flag: Seq<char>) -> Seq<char> {
    with_usage("missing value for "@ + flag)
}

pub open spec fn invalid_value(flag: Seq<char>, value: Seq<char>) -> Seq<char> {
    with_usage("invalid value for "@ + flag + ": "@ + value)
}

/// What `str::parse::<usize>` gives.
pub open spec fn parse_usize_spec(s: Seq<char>) -> Option<usize> {
    match parse_u64_spec(s) {
        Some(n) => if n <= usize::MAX {
            Some(n as usize)
        } else {
            None
        },
        None => None,
    }
}

/// The arguments before any flag is read: the positional artifact, if the
/// first argument is one, and the defaults.
pub open spec fn initial_eval(args: Seq<Seq<char>>) -> EvalArgsView {
    EvalArgsView {
        artifact: if args.len() > 0 && !starts_with(args[0], "--"@) {
            Some(args[0])
        } else {
            None
        },
        seed: 42,
        batch_size: 128,
        max_batches: 8,
        min_accuracy: None,
        out_path: "artifacts/eval/mnist_eval_summary.json"@,
    }
}

/// Where the flags begin: after the positional artifact, if any.
pub open spec fn first_flag(args: Seq<Seq<char>>) -> int {
    if args.len() > 0 && !starts_with(args[0], "--"@) {
        1
    } else {
        0
    }
}

/// Reads the flags from position `i` on into `acc`; each flag takes the
/// next argument as its value, and the first refusal ends the reading.
pub open spec fn eval_scan(args: Seq<Seq<char>>, i: int, acc: EvalArgsView) -> Result<EvalArgsView, Seq<char>>
    decreases args.len() - i,
{
    if i < 0 || i >= args.len() {
        Ok(acc)
    } else {
        let a = args[i];
        if a == "--artifact"@ || a == "--seed"@ || a == "--batch-size"@ || a == "--max-batches"@
            || a == "--min-accuracy"@ || a == "--out"@ {
            if i + 1 >= args.len() {
                Err(missing_value(a))
            } else {
                let v = args[i + 1];
                if a == "--artifact"@ {
                    eval_scan(args, i + 2, EvalArgsView { artifact: Some(v), ..acc })
                } else if a == "--seed"@ {
                    match parse_u64_spec(v) {
                        Some(n) => eval_scan(args, i + 2, EvalArgsView { seed: n, ..acc }),
                        None => Err(invalid_value(a, v)),
                    }
                } else if a == "--batch-size"@ {
                    match parse_usize_spec(v) {
                        Some(n) => eval_scan(args, i + 2, EvalArgsView { batch_size: n, ..acc }),
                        None => Err(invalid_value(a, v)),
                    }
                } else if a == "--max-batches"@ {
                    match parse_usize_spec(v) {
                        Some(n) => eval_scan(args, i + 2, EvalArgsView { max_batches: n, ..acc }),
                        None => Err(invalid_value(a, v)),
                    }
                } else if a == "--min-accuracy"@ {
                    if float_syntax(v) {
                        eval_scan(args, i + 2, EvalArgsView { min_accuracy: Some(v), ..acc })
                    } else {
                        Err(invalid_value(a, v))
                    }
                } else {
                    eval_scan(args, i + 2, EvalArgsView { out_path: v, ..acc })
                }
            }
        } else {
            Err(with_usage("unknown argument: "@ + a))
        }
    }
}

/// The arguments that the command line gives, or why it is refused: the
/// batch size and the number of batches must be positive, and the minimum
/// accuracy must lie in `[0.0, 1.0]`.
pub open spec fn parse_args_spec(args: Seq<Seq<char>>) -> Result<EvalArgsView, Seq<char>> {
    match eval_scan(args, first_flag(args), initial_eval(args)) {
        Err(m) => Err(m),
        Ok(v) => if v.batch_size == 0 {
            Err(with_usage("--batch-size must be > 0"@))
        } else if v.max_batches == 0 {
            Err(with_usage("--max-batches must be > 0"@))
        } else if v.min_accuracy matches Some(m) && !unit_interval_text(m) {
            Err(with_usage("--min-accuracy must be in range [0.0, 1.0]"@))
        } else {
            Ok(v)
        },
    }
}

fn usage_error(m: &str) -> (r: String)
    ensures
        r@ == with_usage(m@),
{
    cat3(m, "\n", usage())
}

fn invalid_value_error(flag: &str, value: &str) -> (r: String)
    ensures
        r@ == invalid_value(flag@, value@),
{
    let m = cat4("invalid value for ", flag, ": ", value);
    usage_error(m.as_str())
}

fn parse_usize(s: &str) -> (r: Option<usize>)
    ensures
        r == parse_usize_spec(s@),
{
    match parse_u64(s) {
        Some(n) => if n <= usize::MAX as u64 {
            Some(n as usize)
        } else {
            None
        },
        None => None,
    }
}

/// Parses the arguments of `eval` (without the program and command names).
pub fn parse_args(args: &Vec<String>) -> (r: Result<EvalArgs, String>)
    ensures
        match parse_args_spec(texts_view(args@)) {
            Ok(v) => r matches Ok(x) && x@ == v,
            Err(m) => r matches Err(x) && x@ == m,
        },
{
    let ghost xs = texts_view(args@);
    let mut artifact: Option<String> = None;
    let mut i: usize = 0;
    if args.len() > 0 && !has_prefix(args[0].as_str(), "--") {
        assert(xs[0] == args[0]@);
        artifact = Some(args[0].clone());
        i = 1;
    }
    let mut seed: u64 = 42;
    let mut batch_size: usize = 128;
    let mut max_batches: usize = 8;
    let mut min_accuracy: Option<String> = None;
    let mut out_path = String::from_str("artifacts/eval/mnist_eval_summary.json");
    proof {
        reveal_strlit("artifacts/eval/mnist_eval_summary.json");
        reveal_strlit("--");
    }
    assert(first_flag(xs) == i as int);
    assert(initial_eval(xs) == (EvalArgsView {
        artifact: opt_seq(artifact),
        seed,
        batch_size,
        max_batches,
        min_accuracy: opt_seq(min_accuracy),
        out_path: out_path@,
    }));
    while i < args.len()
        invariant
            xs == texts_view(args@),
            i <= args.len(),
            eval_scan(xs, first_flag(xs), initial_eval(xs)) == eval_scan(
                xs,
                i as int,
                EvalArgsView {
                    artifact: opt_seq(artifact),
                    seed,
                    batch_size,
                    max_batches,
                    min_accuracy: opt_seq(min_accuracy),
                    out_path: out_path@,
                },
            ),
        decreases args.len() - i,
    {
        let a = args[i].as_str();
        assert(xs[i as int] == a@);
        let known = text_eq(a, "--artifact") || text_eq(a, "--seed") || text_eq(a, "--batch-size")
            || text_eq(a, "--max-batches") || text_eq(a, "--min-accuracy") || text_eq(a, "--out");
        if !known {
            let m = cat("unknown argument: ", a);
            return Err(usage_error(m.as_str()));
        }
        if i + 1 >= args.len() {
            let m = cat("missing value for ", a);
            return Err(usage_error(m.as_str()));
        }
        let v = args[i + 1].as_str();
        assert(xs[i + 1] == v@);
        if text_eq(a, "--artifact") {
            artifact = Some(String::from_str(v));
        } else if text_eq(a, "--seed") {
            match parse_u64(v) {
                Some(n) => {
                    seed = n;
                },
                None => {
                    return Err(invalid_value_error(a, v));
                },
            }
        } else if text_eq(a, "--batch-size") {
            match parse_usize(v) {
                Some(n) => {
                    batch_size = n;
                },
                None => {
                    return Err(invalid_value_error(a, v));
                },
            }
        } else if text_eq(a, "--max-batches") {
            match parse_usize(v) {
                Some(n) => {
                    max_batches = n;
                },
                None => {
                    return Err(invalid_value_error(a, v));
                },
            }
        } else if text_eq(a, "--min-accuracy") {
            if is_float_text(v) {
                min_accuracy = Some(String::from_str(v));
            } else {
                return Err(invalid_value_error(a, v));
            }
        } else {
            out_path = String::from_str(v);
        }
        i = i + 2;
    }
    if batch_size == 0 {
        return Err(usage_error("--batch-size must be > 0"));
    }
    if max_batches == 0 {
        return Err(usage_error("--max-batches must be > 0"));
    }
    if let Some(m) = &min_accuracy {
        if !in_unit_interval_text(m.as_str()) {
            return Err(usage_error("--min-accuracy must be in range [0.0, 1.0]"));
        }
    }
    Ok(EvalArgs { artifact, seed, batch_size, max_batches, min_accuracy, out_path })
}

} // verus!
