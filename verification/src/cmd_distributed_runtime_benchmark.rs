use vstd::prelude::*;
use crate::cli::{
    empty_message, last_number, last_number_of, last_text, last_text_of, missing_arg,
    missing_message, opt_view, require_arg, require_filled, require_non_empty, rule, rules_view,
    scan, scan_args, texts_view, FlagRule, InlineForm, RuleSpec, ValueKind,
};
use crate::fields::{
    check_reads, first_read_failure, json_outcome, outcome, read, reads_view, str_field, str_of,
    u64_field, u64_of, value_field, value_of, CommandError, Failure, ReadKind,
};
use crate::fields::{or_else, push_opt_str, push_opt_text, with_opt_str, with_opt_text};
use crate::json::{entries_get, entries_view, object_from_pairs, object_of, Json, JsonValue};
use crate::text::{is_blank, owned, trimmed};
use vstd::string::{StrSliceExecFns, StringExecFns};
use crate::text::{decimal, decimal_text};

verus! {

/// The arguments of `profile distributed-runtime-benchmark`.
#[derive(Debug, PartialEq, Eq)]
pub struct BenchmarkArgs {
    pub artifact_version: String,
    pub model_size: String,
    pub node_count: u64,
    pub gpus_per_node: u64,
    pub world_size: u64,
    pub dp: u64,
    pub tp: u64,
    pub pp: u64,
    pub sp_cp: u64,
    pub ep: u64,
    pub gas: u64,
    pub microbatch_size: u64,
    pub zero_stage: u64,
    pub backend: String,
    pub system: String,
    pub gpu_model: String,
    pub burn_version: String,
    pub seed: u64,
    pub measurement_window_steps: u64,
    pub benchmark_command: String,
    pub step_time_ms: String,
    pub tokens_per_sec: String,
    pub mfu: String,
    pub max_memory_bytes: u64,
    pub out_path: String,
}

pub struct BenchmarkArgsView {
    pub artifact_version: Seq<char>,
    pub model_size: Seq<char>,
    pub node_count: u64,
    pub gpus_per_node: u64,
    pub world_size: u64,
    pub dp: u64,
    pub tp: u64,
    pub pp: u64,
    pub sp_cp: u64,
    pub ep: u64,
    pub gas: u64,
    pub microbatch_size: u64,
    pub zero_stage: u64,
    pub backend: Seq<char>,
    pub system: Seq<char>,
    pub gpu_model: Seq<char>,
    pub burn_version: Seq<char>,
    pub seed: u64,
    pub measurement_window_steps: u64,
    pub benchmark_command: Seq<char>,
    pub step_time_ms: Seq<char>,
    pub tokens_per_sec: Seq<char>,
    pub mfu: Seq<char>,
    pub max_memory_bytes: u64,
    pub out_path: Seq<char>,
}

impl View for BenchmarkArgs {
    type V = BenchmarkArgsView;

    open spec fn view(&self) -> BenchmarkArgsView {
        BenchmarkArgsView {
            artifact_version: self.artifact_version@,
            model_size: self.model_size@,
            node_count: self.node_count,
            gpus_per_node: self.gpus_per_node,
            world_size: self.world_size,
            dp: self.dp,
            tp: self.tp,
            pp: self.pp,
            sp_cp: self.sp_cp,
            ep: self.ep,
            gas: self.gas,
            microbatch_size: self.microbatch_size,
            zero_stage: self.zero_stage,
            backend: self.backend@,
            system: self.system@,
            gpu_model: self.gpu_model@,
            burn_version: self.burn_version@,
            seed: self.seed,
            measurement_window_steps: self.measurement_window_steps,
            benchmark_command: self.benchmark_command@,
            step_time_ms: self.step_time_ms@,
            tokens_per_sec: self.tokens_per_sec@,
            mfu: self.mfu@,
            max_memory_bytes: self.max_memory_bytes,
            out_path: self.out_path@,
        }
    }
}

pub open spec fn usage_text() -> Seq<char> {
    "usage: afterburner profile distributed-runtime-benchmark --artifact-version V --model-size SIZE --node-count N --gpus-per-node N --world-size N --dp N --tp N --pp N --sp-cp N --ep N --gas N --microbatch-size N --zero-stage N --backend NAME --system NAME --gpu-model NAME --burn-version V --seed N --measurement-window-steps N --benchmark-command CMD --step-time-ms F64 --tokens-per-sec F64 --mfu F64 --max-memory-bytes N [--out PATH]"@
}

pub fn usage() -> (r: &'static str)
    ensures
        r@ == usage_text(),
{
    "usage: afterburner profile distributed-runtime-benchmark --artifact-version V --model-size SIZE --node-count N --gpus-per-node N --world-size N --dp N --tp N --pp N --sp-cp N --ep N --gas N --microbatch-size N --zero-stage N --backend NAME --system NAME --gpu-model NAME --burn-version V --seed N --measurement-window-steps N --benchmark-command CMD --step-time-ms F64 --tokens-per-sec F64 --mfu F64 --max-memory-bytes N [--out PATH]"
}

pub open spec fn rules_spec() -> Seq<RuleSpec> {
    seq![
        RuleSpec { name: "--artifact-version"@, kind: ValueKind::Text, inline: InlineForm::Absent },
        RuleSpec { name: "--model-size"@, kind: ValueKind::Text, inline: InlineForm::Absent },
        RuleSpec { name: "--node-count"@, kind: ValueKind::Number, inline: InlineForm::Absent },
        RuleSpec { name: "--gpus-per-node"@, kind: ValueKind::Number, inline: InlineForm::Absent },
        RuleSpec { name: "--world-size"@, kind: ValueKind::Number, inline: InlineForm::Absent },
        RuleSpec { name: "--dp"@, kind: ValueKind::Number, inline: InlineForm::Absent },
        RuleSpec { name: "--tp"@, kind: ValueKind::Number, inline: InlineForm::Absent },
        RuleSpec { name: "--pp"@, kind: ValueKind::Number, inline: InlineForm::Absent },
        RuleSpec { name: "--sp-cp"@, kind: ValueKind::Number, inline: InlineForm::Absent },
        RuleSpec { name: "--ep"@, kind: ValueKind::Number, inline: InlineForm::Absent },
        RuleSpec { name: "--gas"@, kind: ValueKind::Number, inline: InlineForm::Absent },
        RuleSpec { name: "--microbatch-size"@, kind: ValueKind::Number, inline: InlineForm::Absent },
        RuleSpec { name: "--zero-stage"@, kind: ValueKind::Number, inline: InlineForm::Absent },
        RuleSpec { name: "--backend"@, kind: ValueKind::Text, inline: InlineForm::Absent },
        RuleSpec { name: "--system"@, kind: ValueKind::Text, inline: InlineForm::Absent },
        RuleSpec { name: "--gpu-model"@, kind: ValueKind::Text, inline: InlineForm::Absent },
        RuleSpec { name: "--burn-version"@, kind: ValueKind::Text, inline: InlineForm::Absent },
        RuleSpec { name: "--seed"@, kind: ValueKind::Number, inline: InlineForm::Absent },
        RuleSpec { name: "--measurement-window-steps"@, kind: ValueKind::Number, inline: InlineForm::Absent },
        RuleSpec { name: "--benchmark-command"@, kind: ValueKind::FilledOrEmpty, inline: InlineForm::Absent },
        RuleSpec { name: "--step-time-ms"@, kind: ValueKind::Decimal, inline: InlineForm::Absent },
        RuleSpec { name: "--tokens-per-sec"@, kind: ValueKind::Decimal, inline: InlineForm::Absent },
        RuleSpec { name: "--mfu"@, kind: ValueKind::Decimal, inline: InlineForm::Absent },
        RuleSpec { name: "--max-memory-bytes"@, kind: ValueKind::Number, inline: InlineForm::Absent },
        RuleSpec { name: "--out"@, kind: ValueKind::FilledOrEmpty, inline: InlineForm::Absent },
    ]
}

fn rules() -> (r: Vec<FlagRule>)
    ensures
        rules_view(r@) == rules_spec(),
{
    let mut r = Vec::new();
    r.push(rule("--artifact-version", ValueKind::Text, InlineForm::Absent));
    r.push(rule("--model-size", ValueKind::Text, InlineForm::Absent));
    r.push(rule("--node-count", ValueKind::Number, InlineForm::Absent));
    r.push(rule("--gpus-per-node", ValueKind::Number, InlineForm::Absent));
    r.push(rule("--world-size", ValueKind::Number, InlineForm::Absent));
    r.push(rule("--dp", ValueKind::Number, InlineForm::Absent));
    r.push(rule("--tp", ValueKind::Number, InlineForm::Absent));
    r.push(rule("--pp", ValueKind::Number, InlineForm::Absent));
    r.push(rule("--sp-cp", ValueKind::Number, InlineForm::Absent));
    r.push(rule("--ep", ValueKind::Number, InlineForm::Absent));
    r.push(rule("--gas", ValueKind::Number, InlineForm::Absent));
    r.push(rule("--microbatch-size", ValueKind::Number, InlineForm::Absent));
    r.push(rule("--zero-stage", ValueKind::Number, InlineForm::Absent));
    r.push(rule("--backend", ValueKind::Text, InlineForm::Absent));
    r.push(rule("--system", ValueKind::Text, InlineForm::Absent));
    r.push(rule("--gpu-model", ValueKind::Text, InlineForm::Absent));
    r.push(rule("--burn-version", ValueKind::Text, InlineForm::Absent));
    r.push(rule("--seed", ValueKind::Number, InlineForm::Absent));
    r.push(rule("--measurement-window-steps", ValueKind::Number, InlineForm::Absent));
    r.push(rule("--benchmark-command", ValueKind::FilledOrEmpty, InlineForm::Absent));
    r.push(rule("--step-time-ms", ValueKind::Decimal, InlineForm::Absent));
    r.push(rule("--tokens-per-sec", ValueKind::Decimal, InlineForm::Absent));
    r.push(rule("--mfu", ValueKind::Decimal, InlineForm::Absent));
    r.push(rule("--max-memory-bytes", ValueKind::Number, InlineForm::Absent));
    r.push(rule("--out", ValueKind::FilledOrEmpty, InlineForm::Absent));
    assert(rules_view(r@) =~= rules_spec());
    r
}

/// The arguments that the command line gives, or why it is refused.
pub open spec fn parse_args_spec(args: Seq<Seq<char>>) -> Result<BenchmarkArgsView, Failure> {
    match scan(rules_spec(), args, "profile distributed-runtime-benchmark"@, usage_text()) {
        Err(m) => Err(Failure::InvalidArg(m)),
        Ok(a) => {
            if text_or_empty(last_text(a, 0)).len() == 0 || text_or_empty(last_text(a, 1)).len() == 0 || text_or_empty(last_text(a, 13)).len() == 0 || text_or_empty(last_text(a, 14)).len() == 0 || text_or_empty(last_text(a, 15)).len() == 0 || text_or_empty(last_text(a, 16)).len() == 0 || is_blank(text_or_empty(last_text(a, 19))) { Err(Failure::InvalidArg("missing required benchmark fields\n"@ + usage_text())) } else {
            Ok(BenchmarkArgsView {
                artifact_version: match last_text(a, 0) { Some(p) => p, None => ""@ },
                model_size: match last_text(a, 1) { Some(p) => p, None => ""@ },
                node_count: match last_number(a, 2) { Some(p) => p, None => 0 },
                gpus_per_node: match last_number(a, 3) { Some(p) => p, None => 0 },
                world_size: match last_number(a, 4) { Some(p) => p, None => 0 },
                dp: match last_number(a, 5) { Some(p) => p, None => 0 },
                tp: match last_number(a, 6) { Some(p) => p, None => 0 },
                pp: match last_number(a, 7) { Some(p) => p, None => 0 },
                sp_cp: match last_number(a, 8) { Some(p) => p, None => 0 },
                ep: match last_number(a, 9) { Some(p) => p, None => 0 },
                gas: match last_number(a, 10) { Some(p) => p, None => 0 },
                microbatch_size: match last_number(a, 11) { Some(p) => p, None => 0 },
                zero_stage: match last_number(a, 12) { Some(p) => p, None => 0 },
                backend: match last_text(a, 13) { Some(p) => p, None => ""@ },
                system: match last_text(a, 14) { Some(p) => p, None => ""@ },
                gpu_model: match last_text(a, 15) { Some(p) => p, None => ""@ },
                burn_version: match last_text(a, 16) { Some(p) => p, None => ""@ },
                seed: match last_number(a, 17) { Some(p) => p, None => 0 },
                measurement_window_steps: match last_number(a, 18) { Some(p) => p, None => 0 },
                benchmark_command: match last_text(a, 19) { Some(p) => p, None => ""@ },
                step_time_ms: match last_text(a, 20) { Some(p) => p, None => "0.0"@ },
                tokens_per_sec: match last_text(a, 21) { Some(p) => p, None => "0.0"@ },
                mfu: match last_text(a, 22) { Some(p) => p, None => "0.0"@ },
                max_memory_bytes: match last_number(a, 23) { Some(p) => p, None => 0 },
                out_path: match last_text(a, 24) { Some(p) => p, None => "artifacts/train/distributed_runtime_benchmark_run.json"@ },
            })
            }
        },
    }
}

pub fn parse_args(args: &Vec<String>) -> (r: Result<BenchmarkArgs, CommandError>)
    ensures
        outcome(r) == parse_args_spec(texts_view(args@)),
{
    let rules = rules();
    let a = match scan_args(&rules, args, "profile distributed-runtime-benchmark", usage()) {
        Ok(a) => a,
        Err(m) => {
            return Err(CommandError::InvalidArg(m));
        },
    };
    let artifact_version = match last_text_of(&a, 0) {
        Some(s) => s,
        None => owned(""),
    };
    let model_size = match last_text_of(&a, 1) {
        Some(s) => s,
        None => owned(""),
    };
    let node_count = match last_number_of(&a, 2) {
        Some(n) => n,
        None => 0,
    };
    let gpus_per_node = match last_number_of(&a, 3) {
        Some(n) => n,
        None => 0,
    };
    let world_size = match last_number_of(&a, 4) {
        Some(n) => n,
        None => 0,
    };
    let dp = match last_number_of(&a, 5) {
        Some(n) => n,
        None => 0,
    };
    let tp = match last_number_of(&a, 6) {
        Some(n) => n,
        None => 0,
    };
    let pp = match last_number_of(&a, 7) {
        Some(n) => n,
        None => 0,
    };
    let sp_cp = match last_number_of(&a, 8) {
        Some(n) => n,
        None => 0,
    };
    let ep = match last_number_of(&a, 9) {
        Some(n) => n,
        None => 0,
    };
    let gas = match last_number_of(&a, 10) {
        Some(n) => n,
        None => 0,
    };
    let microbatch_size = match last_number_of(&a, 11) {
        Some(n) => n,
        None => 0,
    };
    let zero_stage = match last_number_of(&a, 12) {
        Some(n) => n,
        None => 0,
    };
    let backend = match last_text_of(&a, 13) {
        Some(s) => s,
        None => owned(""),
    };
    let system = match last_text_of(&a, 14) {
        Some(s) => s,
        None => owned(""),
    };
    let gpu_model = match last_text_of(&a, 15) {
        Some(s) => s,
        None => owned(""),
    };
    let burn_version = match last_text_of(&a, 16) {
        Some(s) => s,
        None => owned(""),
    };
    let seed = match last_number_of(&a, 17) {
        Some(n) => n,
        None => 0,
    };
    let measurement_window_steps = match last_number_of(&a, 18) {
        Some(n) => n,
        None => 0,
    };
    let benchmark_command = match last_text_of(&a, 19) {
        Some(s) => s,
        None => owned(""),
    };
    let step_time_ms = match last_text_of(&a, 20) {
        Some(s) => s,
        None => owned("0.0"),
    };
    let tokens_per_sec = match last_text_of(&a, 21) {
        Some(s) => s,
        None => owned("0.0"),
    };
    let mfu = match last_text_of(&a, 22) {
        Some(s) => s,
        None => owned("0.0"),
    };
    let max_memory_bytes = match last_number_of(&a, 23) {
        Some(n) => n,
        None => 0,
    };
    let out_path = match last_text_of(&a, 24) {
        Some(s) => s,
        None => owned("artifacts/train/distributed_runtime_benchmark_run.json"),
    };
    proof {
        reveal_strlit("");
    }
    if artifact_version.as_str().unicode_len() == 0 || model_size.as_str().unicode_len() == 0 || backend.as_str().unicode_len() == 0 || system.as_str().unicode_len() == 0 || gpu_model.as_str().unicode_len() == 0 || burn_version.as_str().unicode_len() == 0 || crate::text::blank(benchmark_command.as_str()) {
        let mut m = String::from_str("missing required benchmark fields\n");
        m.append(usage());
        proof {
            reveal_strlit("missing required benchmark fields\n");
        }
        return Err(CommandError::InvalidArg(m));
    }
    Ok(BenchmarkArgs { artifact_version, model_size, node_count, gpus_per_node, world_size, dp, tp, pp, sp_cp, ep, gas, microbatch_size, zero_stage, backend, system, gpu_model, burn_version, seed, measurement_window_steps, benchmark_command, step_time_ms, tokens_per_sec, mfu, max_memory_bytes, out_path })
}

/// The record of a benchmark run that passed: the model and its layout, the benchmark's settings and measured metrics, and how long it ran. The three measured rates are the numbers that their flags read as.
pub open spec fn artifact_spec(args: BenchmarkArgsView, step_time_ms: Json, tokens_per_sec: Json, mfu: Json, benchmark_duration_ms: u64) -> Json {
    object_of(seq![
            ("schema_version"@, Json::Str("1"@)),
            ("artifact_version"@, Json::Str(args.artifact_version)),
            ("model_size"@, Json::Str(args.model_size)),
            ("node_count"@, Json::UInt(args.node_count)),
            ("gpus_per_node"@, Json::UInt(args.gpus_per_node)),
            ("world_size"@, Json::UInt(args.world_size)),
            ("parallelism"@, object_of(seq![("dp"@, Json::UInt(args.dp)), ("tp"@, Json::UInt(args.tp)), ("pp"@, Json::UInt(args.pp)), ("sp_cp"@, Json::UInt(args.sp_cp)), ("ep"@, Json::UInt(args.ep)), ("gas"@, Json::UInt(args.gas)), ("microbatch_size"@, Json::UInt(args.microbatch_size)), ("zero_stage"@, Json::UInt(args.zero_stage))])),
            ("benchmark_config"@, object_of(seq![("seed"@, Json::UInt(args.seed)), ("measurement_window_steps"@, Json::UInt(args.measurement_window_steps)), ("benchmark_command"@, Json::Str(args.benchmark_command))])),
            ("metrics"@, object_of(seq![("mfu"@, mfu), ("step_time_ms"@, step_time_ms), ("tokens_per_sec"@, tokens_per_sec), ("max_memory_bytes"@, Json::UInt(args.max_memory_bytes))])),
            ("runtime_settings"@, object_of(seq![("backend"@, Json::Str(args.backend)), ("weights_dtype"@, Json::Str("f32"@)), ("activation_dtype"@, Json::Str("f32"@)), ("quantization"@, Json::Str("none"@))])),
            ("environment_fingerprint"@, object_of(seq![("system"@, Json::Str(args.system)), ("gpu_model"@, Json::Str(args.gpu_model)), ("burn_version"@, Json::Str(args.burn_version))])),
            ("benchmark_duration_ms"@, Json::UInt(benchmark_duration_ms)),
            ("benchmark_status"@, Json::Str("passed"@)),
        ])
}

/// Builds the record of a benchmark run that passed.
pub fn build_artifact(args: &BenchmarkArgs, step_time_ms: &JsonValue, tokens_per_sec: &JsonValue, mfu: &JsonValue, benchmark_duration_ms: u64) -> (r: JsonValue)
    ensures
        r@ == artifact_spec(args@, step_time_ms@, tokens_per_sec@, mfu@, benchmark_duration_ms),
{
    let mut nested1: Vec<(String, JsonValue)> = Vec::new();
    nested1.push((owned("dp"), JsonValue::UInt(args.dp)));
    nested1.push((owned("tp"), JsonValue::UInt(args.tp)));
    nested1.push((owned("pp"), JsonValue::UInt(args.pp)));
    nested1.push((owned("sp_cp"), JsonValue::UInt(args.sp_cp)));
    nested1.push((owned("ep"), JsonValue::UInt(args.ep)));
    nested1.push((owned("gas"), JsonValue::UInt(args.gas)));
    nested1.push((owned("microbatch_size"), JsonValue::UInt(args.microbatch_size)));
    nested1.push((owned("zero_stage"), JsonValue::UInt(args.zero_stage)));
    proof {
        let args = args@;
        let step_time_ms = step_time_ms@;
        let tokens_per_sec = tokens_per_sec@;
        let mfu = mfu@;
        assert(entries_view(nested1@) =~= seq![("dp"@, Json::UInt(args.dp)), ("tp"@, Json::UInt(args.tp)), ("pp"@, Json::UInt(args.pp)), ("sp_cp"@, Json::UInt(args.sp_cp)), ("ep"@, Json::UInt(args.ep)), ("gas"@, Json::UInt(args.gas)), ("microbatch_size"@, Json::UInt(args.microbatch_size)), ("zero_stage"@, Json::UInt(args.zero_stage))]);
    }
    let mut nested2: Vec<(String, JsonValue)> = Vec::new();
    nested2.push((owned("seed"), JsonValue::UInt(args.seed)));
    nested2.push((owned("measurement_window_steps"), JsonValue::UInt(args.measurement_window_steps)));
    nested2.push((owned("benchmark_command"), JsonValue::Str(args.benchmark_command.clone())));
    proof {
        let args = args@;
        let step_time_ms = step_time_ms@;
        let tokens_per_sec = tokens_per_sec@;
        let mfu = mfu@;
        assert(entries_view(nested2@) =~= seq![("seed"@, Json::UInt(args.seed)), ("measurement_window_steps"@, Json::UInt(args.measurement_window_steps)), ("benchmark_command"@, Json::Str(args.benchmark_command))]);
    }
    let mut nested3: Vec<(String, JsonValue)> = Vec::new();
    nested3.push((owned("mfu"), crate::json::json_clone(mfu)));
    nested3.push((owned("step_time_ms"), crate::json::json_clone(step_time_ms)));
    nested3.push((owned("tokens_per_sec"), crate::json::json_clone(tokens_per_sec)));
    nested3.push((owned("max_memory_bytes"), JsonValue::UInt(args.max_memory_bytes)));
    proof {
        let args = args@;
        let step_time_ms = step_time_ms@;
        let tokens_per_sec = tokens_per_sec@;
        let mfu = mfu@;
        assert(entries_view(nested3@) =~= seq![("mfu"@, mfu), ("step_time_ms"@, step_time_ms), ("tokens_per_sec"@, tokens_per_sec), ("max_memory_bytes"@, Json::UInt(args.max_memory_bytes))]);
    }
    let mut nested4: Vec<(String, JsonValue)> = Vec::new();
    nested4.push((owned("backend"), JsonValue::Str(args.backend.clone())));
    nested4.push((owned("weights_dtype"), JsonValue::Str(owned("f32"))));
    nested4.push((owned("activation_dtype"), JsonValue::Str(owned("f32"))));
    nested4.push((owned("quantization"), JsonValue::Str(owned("none"))));
    proof {
        let args = args@;
        let step_time_ms = step_time_ms@;
        let tokens_per_sec = tokens_per_sec@;
        let mfu = mfu@;
        assert(entries_view(nested4@) =~= seq![("backend"@, Json::Str(args.backend)), ("weights_dtype"@, Json::Str("f32"@)), ("activation_dtype"@, Json::Str("f32"@)), ("quantization"@, Json::Str("none"@))]);
    }
    let mut nested5: Vec<(String, JsonValue)> = Vec::new();
    nested5.push((owned("system"), JsonValue::Str(args.system.clone())));
    nested5.push((owned("gpu_model"), JsonValue::Str(args.gpu_model.clone())));
    nested5.push((owned("burn_version"), JsonValue::Str(args.burn_version.clone())));
    proof {
        let args = args@;
        let step_time_ms = step_time_ms@;
        let tokens_per_sec = tokens_per_sec@;
        let mfu = mfu@;
        assert(entries_view(nested5@) =~= seq![("system"@, Json::Str(args.system)), ("gpu_model"@, Json::Str(args.gpu_model)), ("burn_version"@, Json::Str(args.burn_version))]);
    }
    let mut pairs: Vec<(String, JsonValue)> = Vec::new();
    pairs.push((owned("schema_version"), JsonValue::Str(owned("1"))));
    pairs.push((owned("artifact_version"), JsonValue::Str(args.artifact_version.clone())));
    pairs.push((owned("model_size"), JsonValue::Str(args.model_size.clone())));
    pairs.push((owned("node_count"), JsonValue::UInt(args.node_count)));
    pairs.push((owned("gpus_per_node"), JsonValue::UInt(args.gpus_per_node)));
    pairs.push((owned("world_size"), JsonValue::UInt(args.world_size)));
    pairs.push((owned("parallelism"), object_from_pairs(nested1)));
    pairs.push((owned("benchmark_config"), object_from_pairs(nested2)));
    pairs.push((owned("metrics"), object_from_pairs(nested3)));
    pairs.push((owned("runtime_settings"), object_from_pairs(nested4)));
    pairs.push((owned("environment_fingerprint"), object_from_pairs(nested5)));
    pairs.push((owned("benchmark_duration_ms"), JsonValue::UInt(benchmark_duration_ms)));
    pairs.push((owned("benchmark_status"), JsonValue::Str(owned("passed"))));
    proof {
        let args = args@;
        let step_time_ms = step_time_ms@;
        let tokens_per_sec = tokens_per_sec@;
        let mfu = mfu@;
        assert(entries_view(pairs@) =~= seq![
            ("schema_version"@, Json::Str("1"@)),
            ("artifact_version"@, Json::Str(args.artifact_version)),
            ("model_size"@, Json::Str(args.model_size)),
            ("node_count"@, Json::UInt(args.node_count)),
            ("gpus_per_node"@, Json::UInt(args.gpus_per_node)),
            ("world_size"@, Json::UInt(args.world_size)),
            ("parallelism"@, object_of(seq![("dp"@, Json::UInt(args.dp)), ("tp"@, Json::UInt(args.tp)), ("pp"@, Json::UInt(args.pp)), ("sp_cp"@, Json::UInt(args.sp_cp)), ("ep"@, Json::UInt(args.ep)), ("gas"@, Json::UInt(args.gas)), ("microbatch_size"@, Json::UInt(args.microbatch_size)), ("zero_stage"@, Json::UInt(args.zero_stage))])),
            ("benchmark_config"@, object_of(seq![("seed"@, Json::UInt(args.seed)), ("measurement_window_steps"@, Json::UInt(args.measurement_window_steps)), ("benchmark_command"@, Json::Str(args.benchmark_command))])),
            ("metrics"@, object_of(seq![("mfu"@, mfu), ("step_time_ms"@, step_time_ms), ("tokens_per_sec"@, tokens_per_sec), ("max_memory_bytes"@, Json::UInt(args.max_memory_bytes))])),
            ("runtime_settings"@, object_of(seq![("backend"@, Json::Str(args.backend)), ("weights_dtype"@, Json::Str("f32"@)), ("activation_dtype"@, Json::Str("f32"@)), ("quantization"@, Json::Str("none"@))])),
            ("environment_fingerprint"@, object_of(seq![("system"@, Json::Str(args.system)), ("gpu_model"@, Json::Str(args.gpu_model)), ("burn_version"@, Json::Str(args.burn_version))])),
            ("benchmark_duration_ms"@, Json::UInt(benchmark_duration_ms)),
            ("benchmark_status"@, Json::Str("passed"@)),
        ]);
    }
    object_from_pairs(pairs)
}

/// The text, or no text.
pub open spec fn text_or_empty(o: Option<Seq<char>>) -> Seq<char> {
    match o {
        Some(t) => t,
        None => Seq::empty(),
    }
}

/// Decimal text of a signed number; `i32::to_string`.
pub open spec fn signed_decimal(n: int) -> Seq<char> {
    if n < 0 {
        "-"@ + decimal((-n) as nat)
    } else {
        decimal(n as nat)
    }
}

/// "benchmark command failed with status CODE: STDERR", where the code is
/// `signal` when the command was ended by a signal, and the error output
/// is trimmed.
pub open spec fn failure_spec(code: Option<i32>, stderr: Seq<char>) -> Seq<char> {
    "benchmark command failed with status "@ + match code {
        Some(c) => signed_decimal(c as int),
        None => "signal"@,
    } + ": "@ + trimmed(stderr)
}

/// The message for a benchmark command that failed.
pub fn benchmark_failure(code: Option<i32>, stderr: &str) -> (r: String)
    ensures
        r@ == failure_spec(code, stderr@),
{
    let mut m = String::from_str("benchmark command failed with status ");
    match code {
        Some(c) => {
            if c < 0 {
                m.append("-");
                let magnitude: i64 = -(c as i64);
                m.append(decimal_text(magnitude as u64).as_str());
            } else {
                m.append(decimal_text(c as u64).as_str());
            }
        },
        None => {
            m.append("signal");
        },
    }
    m.append(": ");
    m.append(crate::text::trim(stderr).as_str());
    proof {
        reveal_strlit("benchmark command failed with status ");
        reveal_strlit("-");
        reveal_strlit("signal");
        reveal_strlit(": ");
    }
    m
}

} // verus!
