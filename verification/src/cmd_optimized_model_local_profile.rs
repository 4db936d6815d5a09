use vstd::prelude::*;
use vstd::string::StringExecFns;
use crate::cli::texts_view;
use crate::fields::{str_of, value_field, value_of};
use crate::float_text::{float_syntax, is_float_text};
use crate::json::{entries_get, entries_view, lemma_object_view, map_get, text_eq, Json, JsonValue};
use crate::text::{cat, cat3, parse_u64, parse_u64_spec};

verus! {

/// The arguments of `profile optimized-model-local-profile`. The three
/// measured rates keep their text, which is known to read as a
/// floating-point number.
#[derive(Debug, PartialEq, Eq)]
pub struct LocalProfileArgs {
    pub package_contract_path: String,
    pub quality_metric: String,
    pub quality_value: String,
    pub minimum_quality_value: String,
    pub observed_latency_ms_p99: String,
    pub observed_max_memory_bytes: u64,
    pub observed_package_bytes: u64,
    pub out_path: String,
}

pub struct LocalProfileArgsView {
    pub package_contract_path: Seq<char>,
    pub quality_metric: Seq<char>,
    pub quality_value: Seq<char>,
    pub minimum_quality_value: Seq<char>,
    pub observed_latency_ms_p99: Seq<char>,
    pub observed_max_memory_bytes: u64,
    pub observed_package_bytes: u64,
    pub out_path: Seq<char>,
}

impl View for LocalProfileArgs {
    type V = LocalProfileArgsView;

    open spec fn view(&self) -> LocalProfileArgsView {
        LocalProfileArgsView {
            package_contract_path: self.package_contract_path@,
            quality_metric: self.quality_metric@,
            quality_value: self.quality_value@,
            minimum_quality_value: self.minimum_quality_value@,
            observed_latency_ms_p99: self.observed_latency_ms_p99@,
            observed_max_memory_bytes: self.observed_max_memory_bytes,
            observed_package_bytes: self.observed_package_bytes,
            out_path: self.out_path@,
        }
    }
}

pub open spec fn usage_text() -> Seq<char> {
    "usage: afterburner profile optimized-model-local-profile --package-contract PATH --quality-metric NAME --quality-value F64 --minimum-quality-value F64 --observed-latency-ms-p99 F64 --observed-max-memory-bytes N --observed-package-bytes N [--out PATH]"@
}

pub fn usage() -> (r: &'static str)
    ensures
        r@ == usage_text(),
{
    "usage: afterburner profile optimized-model-local-profile --package-contract PATH --quality-metric NAME --quality-value F64 --minimum-quality-value F64 --observed-latency-ms-p99 F64 --observed-max-memory-bytes N --observed-package-bytes N [--out PATH]"
}

/// The flags, by position: what each one sets.
pub open spec fn flag_names() -> Seq<Seq<char>> {
    seq![
        "--package-contract"@,
        "--quality-metric"@,
        "--quality-value"@,
        "--minimum-quality-value"@,
        "--observed-latency-ms-p99"@,
        "--observed-max-memory-bytes"@,
        "--observed-package-bytes"@,
        "--out"@,
    ]
}

/// What the flags read so far have set; `None` for a flag not seen.
pub struct Seen {
    pub texts: Seq<Option<Seq<char>>>,
    pub memory: Option<u64>,
    pub package: Option<u64>,
}

/// "missing required argument FLAG\nUSAGE"
pub open spec fn missing_required(flag: Seq<char>) -> Seq<char> {
    "missing required argument "@ + flag + "\n"@ + usage_text()
}

/// "invalid value for FLAG\nUSAGE"
pub open spec fn invalid_value(flag: Seq<char>) -> Seq<char> {
    "invalid value for "@ + flag + "\n"@ + usage_text()
}

/// The index of the flag that `a` names, if any.
pub open spec fn flag_index(a: Seq<char>) -> Option<int> {
    if a == flag_names()[0] {
        Some(0)
    } else if a == flag_names()[1] {
        Some(1)
    } else if a == flag_names()[2] {
        Some(2)
    } else if a == flag_names()[3] {
        Some(3)
    } else if a == flag_names()[4] {
        Some(4)
    } else if a == flag_names()[5] {
        Some(5)
    } else if a == flag_names()[6] {
        Some(6)
    } else if a == flag_names()[7] {
        Some(7)
    } else {
        None
    }
}

/// Reads the flags from position `i` on; each takes the next argument as
/// its value, and the first refusal ends the reading.
pub open spec fn local_scan(args: Seq<Seq<char>>, i: int, seen: Seen) -> Result<Seen, Seq<char>>
    decreases args.len() - i,
{
    if i < 0 || i >= args.len() {
        Ok(seen)
    } else {
        match flag_index(args[i]) {
            None => Err(
                "unknown argument for profile optimized-model-local-profile: "@ + args[i] + "\n"@
                    + usage_text(),
            ),
            Some(f) => if i + 1 >= args.len() {
                Err(missing_required(args[i]))
            } else {
                let v = args[i + 1];
                if f == 5 || f == 6 {
                    match parse_u64_spec(v) {
                        None => Err(invalid_value(args[i])),
                        Some(n) => local_scan(
                            args,
                            i + 2,
                            if f == 5 {
                                Seen { memory: Some(n), ..seen }
                            } else {
                                Seen { package: Some(n), ..seen }
                            },
                        ),
                    }
                } else if (f == 2 || f == 3 || f == 4) && !float_syntax(v) {
                    Err(invalid_value(args[i]))
                } else {
                    local_scan(args, i + 2, Seen { texts: seen.texts.update(f, Some(v)), ..seen })
                }
            },
        }
    }
}

pub open spec fn nothing_seen() -> Seen {
    Seen { texts: seq![None, None, None, None, None, None, None, None], memory: None, package: None }
}

/// The arguments that the command line gives, or why it is refused: every
/// flag but `--out` is required.
pub open spec fn parse_args_spec(args: Seq<Seq<char>>) -> Result<LocalProfileArgsView, Seq<char>> {
    match local_scan(args, 0, nothing_seen()) {
        Err(m) => Err(m),
        Ok(s) => if s.texts[0] is None {
            Err(missing_required(flag_names()[0]))
        } else if s.texts[1] is None {
            Err(missing_required(flag_names()[1]))
        } else if s.texts[2] is None {
            Err(missing_required(flag_names()[2]))
        } else if s.texts[3] is None {
            Err(missing_required(flag_names()[3]))
        } else if s.texts[4] is None {
            Err(missing_required(flag_names()[4]))
        } else if s.memory is None {
            Err(missing_required(flag_names()[5]))
        } else if s.package is None {
            Err(missing_required(flag_names()[6]))
        } else {
            Ok(
                LocalProfileArgsView {
                    package_contract_path: s.texts[0]->Some_0,
                    quality_metric: s.texts[1]->Some_0,
                    quality_value: s.texts[2]->Some_0,
                    minimum_quality_value: s.texts[3]->Some_0,
                    observed_latency_ms_p99: s.texts[4]->Some_0,
                    observed_max_memory_bytes: s.memory->Some_0,
                    observed_package_bytes: s.package->Some_0,
                    out_path: match s.texts[7] {
                        Some(p) => p,
                        None => "artifacts/eval/optimized_model_local_profile.json"@,
                    },
                },
            )
        },
    }
}

pub open spec fn opt_texts(v: Seq<Option<String>>) -> Seq<Option<Seq<char>>> {
    Seq::new(
        v.len(),
        |i: int|
            match v[i] {
                Some(s) => Some(s@),
                None => None,
            },
    )
}

fn names() -> (r: Vec<&'static str>)
    ensures
        r.len() == 8,
        forall|i: int| 0 <= i < 8 ==> r[i]@ == flag_names()[i],
{
    let mut r: Vec<&'static str> = Vec::new();
    r.push("--package-contract");
    r.push("--quality-metric");
    r.push("--quality-value");
    r.push("--minimum-quality-value");
    r.push("--observed-latency-ms-p99");
    r.push("--observed-max-memory-bytes");
    r.push("--observed-package-bytes");
    r.push("--out");
    r
}

fn find_flag(names: &Vec<&'static str>, a: &str) -> (r: Option<usize>)
    requires
        names.len() == 8,
        forall|i: int| 0 <= i < 8 ==> names[i]@ == flag_names()[i],
    ensures
        match flag_index(a@) {
            Some(f) => r == Some(f as usize),
            None => r is None,
        },
{
    let mut i: usize = 0;
    while i < 8
        invariant
            names.len() == 8,
            forall|k: int| 0 <= k < 8 ==> names[k]@ == flag_names()[k],
            i <= 8,
            forall|k: int| 0 <= k < i ==> flag_names()[k] != a@,
        decreases 8 - i,
    {
        if text_eq(names[i], a) {
            return Some(i);
        }
        i += 1;
    }
    None
}

fn with_usage(m: String) -> (r: String)
    ensures
        r@ == m@ + "\n"@ + usage_text(),
{
    let mut r = m;
    r.append("\n");
    r.append(usage());
    proof {
        reveal_strlit("\n");
    }
    r
}

/// Parses the arguments of `profile optimized-model-local-profile`.
pub fn parse_args(args: &Vec<String>) -> (r: Result<LocalProfileArgs, String>)
    ensures
        match parse_args_spec(texts_view(args@)) {
            Ok(v) => r matches Ok(x) && x@ == v,
            Err(m) => r matches Err(x) && x@ == m,
        },
{
    let ghost xs = texts_view(args@);
    let names = names();
    let mut texts: Vec<Option<String>> = Vec::new();
    let mut k: usize = 0;
    while k < 8
        invariant
            k <= 8,
            texts.len() == k,
            forall|j: int| 0 <= j < k ==> texts[j] is None,
        decreases 8 - k,
    {
        texts.push(None);
        k += 1;
    }
    assert(opt_texts(texts@) =~= nothing_seen().texts);
    let mut memory: Option<u64> = None;
    let mut package: Option<u64> = None;
    let mut i: usize = 0;
    while i < args.len()
        invariant
            xs == texts_view(args@),
            names.len() == 8,
            forall|j: int| 0 <= j < 8 ==> names[j]@ == flag_names()[j],
            texts.len() == 8,
            i <= args.len(),
            local_scan(xs, 0, nothing_seen()) == local_scan(
                xs,
                i as int,
                Seen { texts: opt_texts(texts@), memory, package },
            ),
        decreases args.len() - i,
    {
        let a = args[i].as_str();
        assert(xs[i as int] == a@);
        let f = match find_flag(&names, a) {
            Some(f) => f,
            None => {
                let m = cat("unknown argument for profile optimized-model-local-profile: ", a);
                return Err(with_usage(m));
            },
        };
        if i + 1 >= args.len() {
            return Err(with_usage(cat("missing required argument ", a)));
        }
        let v = args[i + 1].as_str();
        assert(xs[i + 1] == v@);
        if f == 5 || f == 6 {
            match parse_u64(v) {
                None => {
                    return Err(with_usage(cat("invalid value for ", a)));
                },
                Some(n) => {
                    if f == 5 {
                        memory = Some(n);
                    } else {
                        package = Some(n);
                    }
                },
            }
        } else if (f == 2 || f == 3 || f == 4) && !is_float_text(v) {
            return Err(with_usage(cat("invalid value for ", a)));
        } else {
            let ghost before = opt_texts(texts@);
            texts.set(f, Some(String::from_str(v)));
            assert(opt_texts(texts@) =~= before.update(f as int, Some(v@)));
        }
        i = i + 2;
    }
    let ghost tv = opt_texts(texts@);
    assert(forall|j: int| 0 <= j < 8 ==> (#[trigger] tv[j] is None) == (texts[j] is None));
    if texts[0].is_none() {
        return Err(with_usage(cat("missing required argument ", names[0])));
    }
    if texts[1].is_none() {
        return Err(with_usage(cat("missing required argument ", names[1])));
    }
    if texts[2].is_none() {
        return Err(with_usage(cat("missing required argument ", names[2])));
    }
    if texts[3].is_none() {
        return Err(with_usage(cat("missing required argument ", names[3])));
    }
    if texts[4].is_none() {
        return Err(with_usage(cat("missing required argument ", names[4])));
    }
    let observed_max_memory_bytes = match memory {
        Some(n) => n,
        None => {
            return Err(with_usage(cat("missing required argument ", names[5])));
        },
    };
    let observed_package_bytes = match package {
        Some(n) => n,
        None => {
            return Err(with_usage(cat("missing required argument ", names[6])));
        },
    };
    let out_path = match &texts[7] {
        Some(p) => p.clone(),
        None => String::from_str("artifacts/eval/optimized_model_local_profile.json"),
    };
    proof {
        reveal_strlit("artifacts/eval/optimized_model_local_profile.json");
    }
    let package_contract_path = texts[0].clone().unwrap();
    let quality_metric = texts[1].clone().unwrap();
    let quality_value = texts[2].clone().unwrap();
    let minimum_quality_value = texts[3].clone().unwrap();
    let observed_latency_ms_p99 = texts[4].clone().unwrap();
    Ok(
        LocalProfileArgs {
            package_contract_path,
            quality_metric,
            quality_value,
            minimum_quality_value,
            observed_latency_ms_p99,
            observed_max_memory_bytes,
            observed_package_bytes,
            out_path,
        },
    )
}

/// What a field must hold.
#[derive(Clone, Copy, PartialEq, Eq, Structural)]
pub enum Want {
    Str,
    Number,
    U64,
    Array,
    Object,
}

pub open spec fn want_word(w: Want) -> Seq<char> {
    match w {
        Want::Str => "a string"@,
        Want::Number => "a number"@,
        Want::U64 => "a u64"@,
        Want::Array => "an array"@,
        Want::Object => "an object"@,
    }
}

pub open spec fn holds(v: Json, w: Want) -> bool {
    match w {
        Want::Str => v is Str,
        Want::Number => v is UInt || v is NegInt || v is Float,
        Want::U64 => v is UInt,
        Want::Array => v is Array,
        Want::Object => v is Object,
    }
}

/// The message for a field of a KIND document that is missing or holds the
/// wrong kind of value, or `None`.
pub open spec fn required_failure(o: Seq<(Seq<char>, Json)>, key: Seq<char>, want: Want, kind: Seq<char>) -> Option<
    Seq<char>,
> {
    match entries_get(o, key) {
        None => Some(kind + " is missing required field `"@ + key + "`"@),
        Some(v) => if holds(v, want) {
            None
        } else {
            Some(kind + " field `"@ + key + "` must be "@ + want_word(want))
        },
    }
}

fn check_required(o: &Vec<(String, JsonValue)>, key: &str, want: Want, kind: &str) -> (r: Option<String>)
    ensures
        match r {
            Some(m) => required_failure(entries_view(o@), key@, want, kind@) == Some(m@),
            None => required_failure(entries_view(o@), key@, want, kind@) is None,
        },
{
    match map_get(o, key) {
        None => {
            let mut m = cat(kind, " is missing required field `");
            m.append(key);
            m.append("`");
            proof {
                reveal_strlit("`");
            }
            Some(m)
        },
        Some(v) => {
            let ok = match (want, v) {
                (Want::Str, JsonValue::Str(_)) => true,
                (Want::Number, JsonValue::UInt(_)) => true,
                (Want::Number, JsonValue::NegInt(_)) => true,
                (Want::Number, JsonValue::Float(_)) => true,
                (Want::U64, JsonValue::UInt(_)) => true,
                (Want::Array, JsonValue::Array(_)) => true,
                (Want::Object, JsonValue::Object(_)) => true,
                _ => false,
            };
            if ok {
                None
            } else {
                let word = match want {
                    Want::Str => "a string",
                    Want::Number => "a number",
                    Want::U64 => "a u64",
                    Want::Array => "an array",
                    Want::Object => "an object",
                };
                let mut m = cat3(kind, " field `", key);
                m.append("` must be ");
                m.append(word);
                proof {
                    reveal_strlit("a string");
                    reveal_strlit("a number");
                    reveal_strlit("a u64");
                    reveal_strlit("an array");
                    reveal_strlit("an object");
                    reveal_strlit("` must be ");
                }
                Some(m)
            }
        },
    }
}

pub open spec fn contract_kind() -> Seq<char> {
    "optimized model package contract"@
}

pub open spec fn profile_kind() -> Seq<char> {
    "model optimization profile"@
}

pub open spec fn constraints_kind() -> Seq<char> {
    "model optimization profile output_constraints"@
}

/// Where the package contract says the optimization profile is.
pub open spec fn profile_path_spec(contract: Seq<(Seq<char>, Json)>) -> Result<Seq<char>, Seq<char>> {
    match required_failure(contract, "packaging_inputs"@, Want::Object, contract_kind()) {
        Some(m) => Err(m),
        None => {
            let inputs = entries_get(contract, "packaging_inputs"@)->Some_0->Object_0;
            match required_failure(inputs, "optimization_profile_path"@, Want::Str, contract_kind()) {
                Some(m) => Err(m),
                None => Ok(str_of(inputs, "optimization_profile_path"@)),
            }
        },
    }
}

/// Reads where the package contract says the optimization profile is.
pub fn optimization_profile_path(contract: &Vec<(String, JsonValue)>) -> (r: Result<String, String>)
    ensures
        match profile_path_spec(entries_view(contract@)) {
            Ok(p) => r matches Ok(x) && x@ == p,
            Err(m) => r matches Err(x) && x@ == m,
        },
{
    let kind = "optimized model package contract";
    if let Some(m) = check_required(contract, "packaging_inputs", Want::Object, kind) {
        return Err(m);
    }
    match map_get(contract, "packaging_inputs") {
        Some(JsonValue::Object(inputs)) => {
            proof {
                lemma_object_view(*inputs);
            }
            if let Some(m) = check_required(inputs, "optimization_profile_path", Want::Str, kind) {
                return Err(m);
            }
            match map_get(inputs, "optimization_profile_path") {
                Some(JsonValue::Str(s)) => Ok(s.clone()),
                _ => Err(String::new()),
            }
        },
        _ => Err(String::new()),
    }
}

/// What the contract and the optimization profile give the local profile:
/// the target, the budgets, and the package's description. The latency
/// budget is the JSON number that the profile holds.
#[derive(Debug, PartialEq, Eq)]
pub struct ProfileInputs {
    pub target_environment: String,
    pub latency_budget_ms_p99: JsonValue,
    pub memory_budget_bytes: u64,
    pub package_budget_bytes: u64,
    pub input_artifact_version: String,
    pub optimization_steps: JsonValue,
    pub runtime_precision_contract: JsonValue,
    pub optimized_artifact_path: String,
    pub export_format: String,
}

pub struct ProfileInputsView {
    pub target_environment: Seq<char>,
    pub latency_budget_ms_p99: Json,
    pub memory_budget_bytes: u64,
    pub package_budget_bytes: u64,
    pub input_artifact_version: Seq<char>,
    pub optimization_steps: Json,
    pub runtime_precision_contract: Json,
    pub optimized_artifact_path: Seq<char>,
    pub export_format: Seq<char>,
}

impl View for ProfileInputs {
    type V = ProfileInputsView;

    open spec fn view(&self) -> ProfileInputsView {
        ProfileInputsView {
            target_environment: self.target_environment@,
            latency_budget_ms_p99: self.latency_budget_ms_p99@,
            memory_budget_bytes: self.memory_budget_bytes,
            package_budget_bytes: self.package_budget_bytes,
            input_artifact_version: self.input_artifact_version@,
            optimization_steps: self.optimization_steps@,
            runtime_precision_contract: self.runtime_precision_contract@,
            optimized_artifact_path: self.optimized_artifact_path@,
            export_format: self.export_format@,
        }
    }
}

pub open spec fn contract_fields() -> Seq<(Seq<char>, Want)> {
    seq![
        ("input_artifact_version"@, Want::Str),
        ("optimization_steps"@, Want::Array),
        ("runtime_precision_contract"@, Want::Object),
        ("optimized_artifact_path"@, Want::Str),
        ("export_format"@, Want::Str),
    ]
}

pub open spec fn constraint_fields() -> Seq<(Seq<char>, Want)> {
    seq![
        ("max_latency_ms_p99"@, Want::Number),
        ("max_memory_bytes"@, Want::U64),
        ("max_package_bytes"@, Want::U64),
    ]
}

/// The first of `fields` of a KIND document that cannot be read, if any.
pub open spec fn first_failure(o: Seq<(Seq<char>, Json)>, fields: Seq<(Seq<char>, Want)>, kind: Seq<char>) -> Option<
    Seq<char>,
>
    decreases fields.len(),
{
    if fields.len() == 0 {
        None
    } else {
        match required_failure(o, fields[0].0, fields[0].1, kind) {
            Some(m) => Some(m),
            None => first_failure(o, fields.drop_first(), kind),
        }
    }
}

/// What the contract and the optimization profile give, or why they
/// cannot be used: both must name one target environment, and the profile
/// must state its budgets.
pub open spec fn inputs_spec(contract: Seq<(Seq<char>, Json)>, profile: Seq<(Seq<char>, Json)>) -> Result<
    ProfileInputsView,
    Seq<char>,
> {
    match required_failure(contract, "target_environment"@, Want::Str, contract_kind()) {
        Some(m) => Err(m),
        None => match required_failure(profile, "target_environment"@, Want::Str, profile_kind()) {
            Some(m) => Err(m),
            None => {
                let pt = str_of(contract, "target_environment"@);
                let ot = str_of(profile, "target_environment"@);
                if pt != ot {
                    Err(
                        "package contract target_environment `"@ + pt
                            + "` does not match optimization profile target_environment `"@ + ot
                            + "`"@,
                    )
                } else {
                    match required_failure(profile, "output_constraints"@, Want::Object, profile_kind()) {
                        Some(m) => Err(m),
                        None => {
                            let c = entries_get(profile, "output_constraints"@)->Some_0->Object_0;
                            match first_failure(c, constraint_fields(), constraints_kind()) {
                                Some(m) => Err(m),
                                None => match first_failure(contract, contract_fields(), contract_kind()) {
                                    Some(m) => Err(m),
                                    None => Ok(
                                        ProfileInputsView {
                                            target_environment: pt,
                                            latency_budget_ms_p99: value_of(c, "max_latency_ms_p99"@),
                                            memory_budget_bytes: value_of(c, "max_memory_bytes"@)->UInt_0,
                                            package_budget_bytes: value_of(c, "max_package_bytes"@)->UInt_0,
                                            input_artifact_version: str_of(contract, "input_artifact_version"@),
                                            optimization_steps: value_of(contract, "optimization_steps"@),
                                            runtime_precision_contract: value_of(
                                                contract,
                                                "runtime_precision_contract"@,
                                            ),
                                            optimized_artifact_path: str_of(contract, "optimized_artifact_path"@),
                                            export_format: str_of(contract, "export_format"@),
                                        },
                                    ),
                                },
                            }
                        },
                    }
                }
            },
        },
    }
}

fn check_all(o: &Vec<(String, JsonValue)>, keys: &Vec<(&str, Want)>, kind: &str, Ghost(fs): Ghost<
    Seq<(Seq<char>, Want)>,
>) -> (r: Option<String>)
    requires
        keys.len() == fs.len(),
        forall|k: int| 0 <= k < keys.len() ==> keys[k].0@ == fs[k].0 && keys[k].1 == fs[k].1,
    ensures
        match r {
            Some(m) => first_failure(entries_view(o@), fs, kind@) == Some(m@),
            None => first_failure(entries_view(o@), fs, kind@) is None && forall|k: int|
                0 <= k < fs.len() ==> required_failure(entries_view(o@), #[trigger] fs[k].0, fs[k].1, kind@)
                    is None,
        },
{
    let ghost ov = entries_view(o@);
    let mut i: usize = 0;
    assert(fs.skip(0) =~= fs);
    while i < keys.len()
        invariant
            ov == entries_view(o@),
            keys.len() == fs.len(),
            forall|k: int| 0 <= k < keys.len() ==> keys[k].0@ == fs[k].0 && keys[k].1 == fs[k].1,
            i <= keys.len(),
            first_failure(ov, fs, kind@) == first_failure(ov, fs.skip(i as int), kind@),
            forall|k: int| 0 <= k < i ==> required_failure(ov, #[trigger] fs[k].0, fs[k].1, kind@) is None,
        decreases keys.len() - i,
    {
        assert(fs.skip(i as int).drop_first() =~= fs.skip(i + 1));
        let (key, want) = keys[i];
        if let Some(m) = check_required(o, key, want, kind) {
            return Some(m);
        }
        i += 1;
    }
    assert(fs.skip(i as int) =~= Seq::<(Seq<char>, Want)>::empty());
    None
}

/// Reads what the contract and the optimization profile give the local
/// profile, both given by their entries.
pub fn read_profile_inputs(contract: &Vec<(String, JsonValue)>, profile: &Vec<(String, JsonValue)>) -> (r:
    Result<ProfileInputs, String>)
    ensures
        match inputs_spec(entries_view(contract@), entries_view(profile@)) {
            Ok(v) => r matches Ok(x) && x@ == v,
            Err(m) => r matches Err(x) && x@ == m,
        },
{
    let ck = "optimized model package contract";
    let pk = "model optimization profile";
    if let Some(m) = check_required(contract, "target_environment", Want::Str, ck) {
        return Err(m);
    }
    if let Some(m) = check_required(profile, "target_environment", Want::Str, pk) {
        return Err(m);
    }
    let pt = crate::fields::str_field(contract, "target_environment");
    let ot = crate::fields::str_field(profile, "target_environment");
    if !text_eq(pt.as_str(), ot.as_str()) {
        let mut m = cat3("package contract target_environment `", pt.as_str(), "` does not match optimization profile target_environment `");
        m.append(ot.as_str());
        m.append("`");
        return Err(m);
    }
    if let Some(m) = check_required(profile, "output_constraints", Want::Object, pk) {
        return Err(m);
    }
    let c = match map_get(profile, "output_constraints") {
        Some(JsonValue::Object(c)) => c,
        _ => {
            return Err(String::new());
        },
    };
    proof {
        lemma_object_view(*c);
    }
    let mut cks: Vec<(&str, Want)> = Vec::new();
    cks.push(("max_latency_ms_p99", Want::Number));
    cks.push(("max_memory_bytes", Want::U64));
    cks.push(("max_package_bytes", Want::U64));
    if let Some(m) = check_all(c, &cks, "model optimization profile output_constraints", Ghost(constraint_fields())) {
        return Err(m);
    }
    let mut fks: Vec<(&str, Want)> = Vec::new();
    fks.push(("input_artifact_version", Want::Str));
    fks.push(("optimization_steps", Want::Array));
    fks.push(("runtime_precision_contract", Want::Object));
    fks.push(("optimized_artifact_path", Want::Str));
    fks.push(("export_format", Want::Str));
    if let Some(m) = check_all(contract, &fks, ck, Ghost(contract_fields())) {
        return Err(m);
    }
    assert(constraint_fields()[0].0 == "max_latency_ms_p99"@);
    assert(constraint_fields()[1].0 == "max_memory_bytes"@);
    assert(constraint_fields()[2].0 == "max_package_bytes"@);
    assert(contract_fields()[0].0 == "input_artifact_version"@);
    assert(contract_fields()[1].0 == "optimization_steps"@);
    assert(contract_fields()[2].0 == "runtime_precision_contract"@);
    assert(contract_fields()[3].0 == "optimized_artifact_path"@);
    assert(contract_fields()[4].0 == "export_format"@);
    let memory_budget_bytes = match map_get(c, "max_memory_bytes") {
        Some(JsonValue::UInt(n)) => *n,
        _ => 0,
    };
    let package_budget_bytes = match map_get(c, "max_package_bytes") {
        Some(JsonValue::UInt(n)) => *n,
        _ => 0,
    };
    Ok(
        ProfileInputs {
            target_environment: pt,
            latency_budget_ms_p99: value_field(c, "max_latency_ms_p99"),
            memory_budget_bytes,
            package_budget_bytes,
            input_artifact_version: crate::fields::str_field(contract, "input_artifact_version"),
            optimization_steps: value_field(contract, "optimization_steps"),
            runtime_precision_contract: value_field(contract, "runtime_precision_contract"),
            optimized_artifact_path: crate::fields::str_field(contract, "optimized_artifact_path"),
            export_format: crate::fields::str_field(contract, "export_format"),
        },
    )
}

} // verus!
