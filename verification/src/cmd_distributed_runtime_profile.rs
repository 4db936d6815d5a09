use vstd::prelude::*;
use crate::cli::{
    empty_message, last_number, last_number_of, last_text, last_text_of, missing_arg,
    missing_message, opt_view, require_arg, require_filled, require_non_empty, rule, rules_view,
    scan, scan_args, texts_view, FlagRule, InlineForm, RuleSpec, ValueKind,
};
use crate::fields::{
    check_reads, first_read_failure, json_outcome, outcome, read, reads_view, str_field, str_of,
    u64_field, u64_of, value_field, value_of, CommandError, Failure, ReadKind,
};
use crate::fields::{or_else, push_opt_str, push_opt_text, with_opt_str, with_opt_text};
use crate::json::{entries_get, entries_view, object_from_pairs, object_of, Json, JsonValue};
use crate::text::{is_blank, owned, trimmed};
use crate::json::{lemma_object_view, map_get};
use vstd::string::StringExecFns;

verus! {

/// The arguments of `profile distributed-runtime-profile`.
#[derive(Debug, PartialEq, Eq)]
pub struct RuntimeProfileArgs {
    pub benchmark_run_path: String,
    pub out_path: String,
}

pub struct RuntimeProfileArgsView {
    pub benchmark_run_path: Seq<char>,
    pub out_path: Seq<char>,
}

impl View for RuntimeProfileArgs {
    type V = RuntimeProfileArgsView;

    open spec fn view(&self) -> RuntimeProfileArgsView {
        RuntimeProfileArgsView {
            benchmark_run_path: self.benchmark_run_path@,
            out_path: self.out_path@,
        }
    }
}

pub open spec fn usage_text() -> Seq<char> {
    "usage: afterburner profile distributed-runtime-profile --benchmark-run PATH [--out PATH]"@
}

pub fn usage() -> (r: &'static str)
    ensures
        r@ == usage_text(),
{
    "usage: afterburner profile distributed-runtime-profile --benchmark-run PATH [--out PATH]"
}

pub open spec fn rules_spec() -> Seq<RuleSpec> {
    seq![
        RuleSpec { name: "--benchmark-run"@, kind: ValueKind::Text, inline: InlineForm::Absent },
        RuleSpec { name: "--out"@, kind: ValueKind::Text, inline: InlineForm::Absent },
    ]
}

fn rules() -> (r: Vec<FlagRule>)
    ensures
        rules_view(r@) == rules_spec(),
{
    let mut r = Vec::new();
    r.push(rule("--benchmark-run", ValueKind::Text, InlineForm::Absent));
    r.push(rule("--out", ValueKind::Text, InlineForm::Absent));
    assert(rules_view(r@) =~= rules_spec());
    r
}

/// The arguments that the command line gives, or why it is refused.
pub open spec fn parse_args_spec(args: Seq<Seq<char>>) -> Result<RuntimeProfileArgsView, Failure> {
    match scan(rules_spec(), args, "profile distributed-runtime-profile"@, usage_text()) {
        Err(m) => Err(Failure::InvalidArg(m)),
        Ok(a) => {
            match last_text(a, 0) {
                None => Err(Failure::InvalidArg("missing required argument --benchmark-run\n"@ + usage_text())),
                Some(v_benchmark_run_path) => {
                    Ok(RuntimeProfileArgsView {
                        benchmark_run_path: v_benchmark_run_path,
                        out_path: match last_text(a, 1) { Some(p) => p, None => "artifacts/train/distributed_runtime_profile.json"@ },
                    })
                }
            }
        },
    }
}

pub fn parse_args(args: &Vec<String>) -> (r: Result<RuntimeProfileArgs, CommandError>)
    ensures
        outcome(r) == parse_args_spec(texts_view(args@)),
{
    let rules = rules();
    let a = match scan_args(&rules, args, "profile distributed-runtime-profile", usage()) {
        Ok(a) => a,
        Err(m) => {
            return Err(CommandError::InvalidArg(m));
        },
    };
    let benchmark_run_path = match last_text_of(&a, 0) {
        Some(v) => v,
        None => {
            let mut m = String::from_str("missing required argument --benchmark-run\n");
            m.append(usage());
            proof {
                reveal_strlit("missing required argument --benchmark-run\n");
            }
            return Err(CommandError::InvalidArg(m));
        },
    };
    let out_path = match last_text_of(&a, 1) {
        Some(s) => s,
        None => owned("artifacts/train/distributed_runtime_profile.json"),
    };
    Ok(RuntimeProfileArgs { benchmark_run_path, out_path })
}

/// What a field of a benchmark run must hold.
#[derive(Clone, Copy, PartialEq, Eq, Structural)]
pub enum Want {
    Str,
    U64,
    Object,
}

/// The message for a field of a benchmark run that is missing or holds
/// the wrong kind of value, or `None`.
pub open spec fn required_failure(o: Seq<(Seq<char>, Json)>, key: Seq<char>, want: Want) -> Option<Seq<char>> {
    match entries_get(o, key) {
        None => Some("benchmark run is missing required field `"@ + key + "`"@),
        Some(v) => match want {
            Want::Str => if v is Str {
                None
            } else {
                Some("benchmark run field `"@ + key + "` must be a string"@)
            },
            Want::U64 => if v is UInt {
                None
            } else {
                Some("benchmark run field `"@ + key + "` must be a u64"@)
            },
            Want::Object => if v is Object {
                None
            } else {
                Some("benchmark run field `"@ + key + "` must be an object"@)
            },
        },
    }
}

fn check_required(o: &Vec<(String, JsonValue)>, key: &str, want: Want) -> (r: Option<String>)
    ensures
        match r {
            Some(m) => required_failure(entries_view(o@), key@, want) == Some(m@),
            None => required_failure(entries_view(o@), key@, want) is None,
        },
{
    match map_get(o, key) {
        None => {
            let mut m = String::from_str("benchmark run is missing required field `");
            m.append(key);
            m.append("`");
            proof {
                reveal_strlit("benchmark run is missing required field `");
                reveal_strlit("`");
            }
            Some(m)
        },
        Some(v) => {
            let (ok, tail) = match (want, v) {
                (Want::Str, JsonValue::Str(_)) => (true, ""),
                (Want::Str, _) => (false, "` must be a string"),
                (Want::U64, JsonValue::UInt(_)) => (true, ""),
                (Want::U64, _) => (false, "` must be a u64"),
                (Want::Object, JsonValue::Object(_)) => (true, ""),
                (Want::Object, _) => (false, "` must be an object"),
            };
            if ok {
                None
            } else {
                let mut m = String::from_str("benchmark run field `");
                m.append(key);
                m.append(tail);
                proof {
                    reveal_strlit("benchmark run field `");
                    reveal_strlit("` must be a string");
                    reveal_strlit("` must be a u64");
                    reveal_strlit("` must be an object");
                }
                Some(m)
            }
        },
    }
}

/// The fields that a profile copies, in the order they are checked.
pub open spec fn profile_fields() -> Seq<(Seq<char>, Want)> {
    seq![
        ("schema_version"@, Want::Str),
        ("artifact_version"@, Want::Str),
        ("model_size"@, Want::Str),
        ("node_count"@, Want::U64),
        ("gpus_per_node"@, Want::U64),
        ("world_size"@, Want::U64),
        ("parallelism"@, Want::Object),
        ("metrics"@, Want::Object),
        ("runtime_settings"@, Want::Object),
        ("environment_fingerprint"@, Want::Object),
    ]
}

/// The first of `fields` that cannot be copied, if any.
pub open spec fn first_required_failure(o: Seq<(Seq<char>, Json)>, fields: Seq<(Seq<char>, Want)>) -> Option<Seq<char>>
    decreases fields.len(),
{
    if fields.len() == 0 {
        None
    } else {
        match required_failure(o, fields[0].0, fields[0].1) {
            Some(m) => Some(m),
            None => first_required_failure(o, fields.drop_first()),
        }
    }
}

/// The profile of a benchmark run that passed: its model, layout, metrics,
/// settings and environment, copied; or why the run gives none.
pub open spec fn profile_spec(run: Seq<(Seq<char>, Json)>) -> Result<Json, Seq<char>> {
    match required_failure(run, "benchmark_status"@, Want::Str) {
        Some(m) => Err(m),
        None => {
            let status = str_of(run, "benchmark_status"@);
            if status != "passed"@ {
                Err("benchmark run must have benchmark_status=`passed`, got `"@ + status + "`"@)
            } else {
                match first_required_failure(run, profile_fields()) {
                    Some(m) => Err(m),
                    None => Ok(
                        object_of(
                            Seq::new(
                                profile_fields().len(),
                                |i: int| (profile_fields()[i].0, value_of(run, profile_fields()[i].0)),
                            ),
                        ),
                    ),
                }
            }
        },
    }
}

/// "benchmark run at PATH must be a JSON object"
pub open spec fn not_object_message(path: Seq<char>) -> Seq<char> {
    "benchmark run at "@ + path + " must be a JSON object"@
}

/// Builds the profile of a benchmark run, given by its entries.
pub fn build_profile(run: &Vec<(String, JsonValue)>) -> (r: Result<JsonValue, String>)
    ensures
        match profile_spec(entries_view(run@)) {
            Ok(v) => r matches Ok(x) && x@ == v,
            Err(m) => r matches Err(x) && x@ == m,
        },
{
    let ghost o = entries_view(run@);
    if let Some(m) = check_required(run, "benchmark_status", Want::Str) {
        return Err(m);
    }
    let status = str_field(run, "benchmark_status");
    if !crate::json::text_eq(status.as_str(), "passed") {
        return Err(crate::text::cat3(
            "benchmark run must have benchmark_status=`passed`, got `",
            status.as_str(),
            "`",
        ));
    }
    let mut keys: Vec<(&str, Want)> = Vec::new();
    keys.push(("schema_version", Want::Str));
    keys.push(("artifact_version", Want::Str));
    keys.push(("model_size", Want::Str));
    keys.push(("node_count", Want::U64));
    keys.push(("gpus_per_node", Want::U64));
    keys.push(("world_size", Want::U64));
    keys.push(("parallelism", Want::Object));
    keys.push(("metrics", Want::Object));
    keys.push(("runtime_settings", Want::Object));
    keys.push(("environment_fingerprint", Want::Object));
    let ghost fs = profile_fields();
    assert(fs.len() == keys.len());
    assert forall|k: int| 0 <= k < keys.len() implies keys[k].0@ == fs[k].0 && keys[k].1 == fs[k].1 by {
        reveal_strlit("schema_version");
    }
    let mut pairs: Vec<(String, JsonValue)> = Vec::new();
    let mut i: usize = 0;
    assert(fs.skip(0) =~= fs);
    while i < keys.len()
        invariant
            o == entries_view(run@),
            required_failure(o, "benchmark_status"@, Want::Str) is None,
            str_of(o, "benchmark_status"@) == "passed"@,
            fs == profile_fields(),
            keys.len() == fs.len(),
            forall|k: int| 0 <= k < keys.len() ==> keys[k].0@ == fs[k].0 && keys[k].1 == fs[k].1,
            i <= keys.len(),
            first_required_failure(o, fs) == first_required_failure(o, fs.skip(i as int)),
            forall|k: int| 0 <= k < i ==> required_failure(o, #[trigger] fs[k].0, fs[k].1) is None,
            entries_view(pairs@) == Seq::new(i as nat, |k: int| (fs[k].0, value_of(o, fs[k].0))),
        decreases keys.len() - i,
    {
        assert(fs.skip(i as int).drop_first() =~= fs.skip(i + 1));
        let (key, want) = keys[i];
        if let Some(m) = check_required(run, key, want) {
            return Err(m);
        }
        let ghost before = entries_view(pairs@);
        let k = String::from_str(key);
        let v = value_field(run, key);
        assert(k@ == fs[i as int].0);
        assert(v@ == value_of(o, fs[i as int].0));
        pairs.push((k, v));
        assert(entries_view(pairs@) =~= before.push((fs[i as int].0, value_of(o, fs[i as int].0))));
        assert(entries_view(pairs@) =~= Seq::new((i + 1) as nat, |k: int| (fs[k].0, value_of(o, fs[k].0))));
        i += 1;
    }
    assert(fs.skip(i as int) =~= Seq::<(Seq<char>, Want)>::empty());
    Ok(object_from_pairs(pairs))
}

/// The entries of a benchmark run, or the message that the parsed
/// document is no object. (Reading and parsing the file happen before.)
pub fn load_benchmark_run(document: &JsonValue, path: &str) -> (r: Result<Vec<(String, JsonValue)>, String>)
    ensures
        match document@ {
            Json::Object(es) => r matches Ok(o) && entries_view(o@) == es,
            _ => r matches Err(m) && m@ == not_object_message(path@),
        },
{
    match crate::json::json_clone(document) {
        JsonValue::Object(es) => {
            proof {
                lemma_object_view(es);
            }
            Ok(es)
        },
        _ => Err(crate::text::cat3("benchmark run at ", path, " must be a JSON object")),
    }
}

} // verus!
