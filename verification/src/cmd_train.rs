use vstd::prelude::*;
use vstd::string::{StrSliceExecFns, StringExecFns};
use crate::cli::{empty_message, missing_arg, missing_message, must_be_non_empty, texts_view, unknown_message};
use crate::float_text::{float_syntax, is_float_text};
use crate::json::text_eq;
use crate::text::{
    blank, cat, cat4, decimal, decimal_text, has_prefix, is_blank, owned, parse_u64,
    parse_u64_spec, push_char, starts_with, strip_all, strip_prefixes, trim, trimmed,
};

verus! {

/// What is trained.
#[derive(Debug, Clone, Copy, PartialEq, Eq, Structural)]
pub enum TrainTask {
    Mnist,
    Text,
}

/// The arguments of `train`. The two validation limits keep their text,
/// which is known to read as a floating-point number.
#[derive(Debug, PartialEq, Eq)]
pub struct TrainArgs {
    pub task: TrainTask,
    pub batch_size: Option<u64>,
    pub num_workers: Option<u64>,
    pub num_epochs: Option<u64>,
    pub world_size: Option<u64>,
    pub device_group: Option<String>,
    pub participant_devices: Option<Vec<String>>,
    pub checkpoint_group: Option<String>,
    pub max_train_items: Option<u64>,
    pub max_valid_items: Option<u64>,
    pub dataset_manifest: Option<String>,
    pub tokenizer_profile: Option<String>,
    pub token_cache: Option<String>,
    pub resume_epoch: Option<u64>,
    pub max_validation_loss: Option<String>,
    pub max_validation_perplexity: Option<String>,
}

pub struct TrainArgsView {
    pub task: TrainTask,
    pub batch_size: Option<u64>,
    pub num_workers: Option<u64>,
    pub num_epochs: Option<u64>,
    pub world_size: Option<u64>,
    pub device_group: Option<Seq<char>>,
    pub participant_devices: Option<Seq<Seq<char>>>,
    pub checkpoint_group: Option<Seq<char>>,
    pub max_train_items: Option<u64>,
    pub max_valid_items: Option<u64>,
    pub dataset_manifest: Option<Seq<char>>,
    pub tokenizer_profile: Option<Seq<char>>,
    pub token_cache: Option<Seq<char>>,
    pub resume_epoch: Option<u64>,
    pub max_validation_loss: Option<Seq<char>>,
    pub max_validation_perplexity: Option<Seq<char>>,
}

pub open spec fn opt_text(o: Option<String>) -> Option<Seq<char>> {
    match o {
        Some(s) => Some(s@),
        None => None,
    }
}

pub open spec fn opt_texts(o: Option<Vec<String>>) -> Option<Seq<Seq<char>>> {
    match o {
        Some(v) => Some(texts_view(v@)),
        None => None,
    }
}

impl View for TrainArgs {
    type V = TrainArgsView;

    open spec fn view(&self) -> TrainArgsView {
        TrainArgsView {
            task: self.task,
            batch_size: self.batch_size,
            num_workers: self.num_workers,
            num_epochs: self.num_epochs,
            world_size: self.world_size,
            device_group: opt_text(self.device_group),
            participant_devices: opt_texts(self.participant_devices),
            checkpoint_group: opt_text(self.checkpoint_group),
            max_train_items: self.max_train_items,
            max_valid_items: self.max_valid_items,
            dataset_manifest: opt_text(self.dataset_manifest),
            tokenizer_profile: opt_text(self.tokenizer_profile),
            token_cache: opt_text(self.token_cache),
            resume_epoch: self.resume_epoch,
            max_validation_loss: opt_text(self.max_validation_loss),
            max_validation_perplexity: opt_text(self.max_validation_perplexity),
        }
    }
}

pub open spec fn usage_text() -> Seq<char> {
    "usage: afterburner train [--task mnist|text] [--batch-size N] [--num-workers N] [--num-epochs N] [--world-size N --device-group NAME --participant-devices REF[,REF...]] [--checkpoint-group NAME] [--max-train-items N] [--max-valid-items N] [--dataset-manifest PATH --tokenizer-profile PATH --token-cache PATH [--resume-epoch N] [--max-validation-loss F64] [--max-validation-perplexity F64]]"@
}

pub fn usage() -> (r: &'static str)
    ensures
        r@ == usage_text(),
{
    "usage: afterburner train [--task mnist|text] [--batch-size N] [--num-workers N] [--num-epochs N] [--world-size N --device-group NAME --participant-devices REF[,REF...]] [--checkpoint-group NAME] [--max-train-items N] [--max-valid-items N] [--dataset-manifest PATH --tokenizer-profile PATH --token-cache PATH [--resume-epoch N] [--max-validation-loss F64] [--max-validation-perplexity F64]]"
}

/// The arguments before any flag is read.
pub open spec fn initial_args() -> TrainArgsView {
    TrainArgsView {
        task: TrainTask::Mnist,
        batch_size: None,
        num_workers: None,
        num_epochs: None,
        world_size: None,
        device_group: None,
        participant_devices: None,
        checkpoint_group: None,
        max_train_items: None,
        max_valid_items: None,
        dataset_manifest: None,
        tokenizer_profile: None,
        token_cache: None,
        resume_epoch: None,
        max_validation_loss: None,
        max_validation_perplexity: None,
    }
}

/// The flag that an argument names exactly, by its number.
pub open spec fn exact_flag(a: Seq<char>) -> Option<int> {
    if a == "--task"@ {
        Some(0)
    } else if a == "--batch-size"@ {
        Some(1)
    } else if a == "--num-workers"@ {
        Some(2)
    } else if a == "--num-epochs"@ {
        Some(3)
    } else if a == "--world-size"@ {
        Some(4)
    } else if a == "--device-group"@ {
        Some(5)
    } else if a == "--participant-devices"@ {
        Some(6)
    } else if a == "--checkpoint-group"@ {
        Some(7)
    } else if a == "--max-train-items"@ {
        Some(8)
    } else if a == "--max-valid-items"@ {
        Some(9)
    } else if a == "--dataset-manifest"@ {
        Some(10)
    } else if a == "--tokenizer-profile"@ {
        Some(11)
    } else if a == "--token-cache"@ {
        Some(12)
    } else if a == "--resume-epoch"@ {
        Some(13)
    } else if a == "--max-validation-loss"@ {
        Some(14)
    } else if a == "--max-validation-perplexity"@ {
        Some(15)
    } else {
        None
    }
}

/// The flags that also take the `--flag=value` form, in the order in
/// which they are tried.
pub open spec fn inline_order() -> Seq<int> {
    seq![0, 1, 2, 3, 4, 5, 6, 7, 8, 9, 14, 15]
}

/// The first flag, from place `k` of `inline_order` on, whose
/// `--flag=value` form an argument takes, with the value.
pub open spec fn inline_from(a: Seq<char>, k: int) -> Option<(int, Seq<char>)>
    decreases 12 - k,
{
    if k < 0 || k >= 12 {
        None
    } else {
        let f = inline_order()[k];
        let p = flag_name(f) + "="@;
        if starts_with(a, p) {
            Some((f, strip_all(a, p)))
        } else {
            inline_from(a, k + 1)
        }
    }
}

/// The flag whose `--flag=value` form an argument takes, with the value.
pub open spec fn inline_flag(a: Seq<char>) -> Option<(int, Seq<char>)> {
    inline_from(a, 0)
}

/// The name of a flag by its number.
pub open spec fn flag_name(f: int) -> Seq<char> {
    if f == 0 {
        "--task"@
    } else if f == 1 {
        "--batch-size"@
    } else if f == 2 {
        "--num-workers"@
    } else if f == 3 {
        "--num-epochs"@
    } else if f == 4 {
        "--world-size"@
    } else if f == 5 {
        "--device-group"@
    } else if f == 6 {
        "--participant-devices"@
    } else if f == 7 {
        "--checkpoint-group"@
    } else if f == 8 {
        "--max-train-items"@
    } else if f == 9 {
        "--max-valid-items"@
    } else if f == 10 {
        "--dataset-manifest"@
    } else if f == 11 {
        "--tokenizer-profile"@
    } else if f == 12 {
        "--token-cache"@
    } else if f == 13 {
        "--resume-epoch"@
    } else if f == 14 {
        "--max-validation-loss"@
    } else {
        "--max-validation-perplexity"@
    }
}

/// invalid value for FLAG: VALUE
pub open spec fn bad_value_message(flag: Seq<char>, v: Seq<char>) -> Seq<char> {
    "invalid value for "@ + flag + ": "@ + v + "\n"@ + usage_text()
}

/// The pieces of a text between commas, as `str::split(',')` gives them.
pub open spec fn comma_pieces(s: Seq<char>) -> Seq<Seq<char>>
    decreases s.len(),
{
    if s.len() == 0 {
        seq![Seq::empty()]
    } else {
        let init = comma_pieces(s.drop_last());
        if s.last() == ',' {
            init.push(Seq::empty())
        } else {
            init.update(init.len() - 1, init.last().push(s.last()))
        }
    }
}

proof fn lemma_comma_pieces_nonempty(s: Seq<char>)
    ensures
        comma_pieces(s).len() > 0,
    decreases s.len(),
{
    if s.len() > 0 {
        lemma_comma_pieces_nonempty(s.drop_last());
    }
}

/// The device refs of a comma-separated list, trimmed; refused when the
/// list is blank or one of its entries is.
pub open spec fn device_refs(v: Seq<char>, flag: Seq<char>) -> Result<Seq<Seq<char>>, Seq<char>> {
    let pieces = comma_pieces(v);
    if is_blank(v) {
        Err(flag + " must contain at least one device ref\n"@ + usage_text())
    } else if exists|i: int| 0 <= i < pieces.len() && is_blank(#[trigger] pieces[i]) {
        Err(flag + " entries must be non-empty comma-separated device refs\n"@ + usage_text())
    } else {
        Ok(Seq::new(pieces.len(), |i: int| trimmed(pieces[i])))
    }
}

/// The task that a name stands for.
pub open spec fn task_named(v: Seq<char>) -> Option<TrainTask> {
    if v == "mnist"@ {
        Some(TrainTask::Mnist)
    } else if v == "text"@ {
        Some(TrainTask::Text)
    } else {
        None
    }
}

/// The arguments after flag `f` takes value `v`, or why the value is refused.
pub open spec fn apply_flag(f: int, v: Seq<char>, st: TrainArgsView) -> Result<TrainArgsView, Seq<char>> {
    if f == 0 {
        match task_named(v) {
            Some(t) => Ok(TrainArgsView { task: t, ..st }),
            None => Err(
                "invalid value for --task: "@ + v + " (expected `mnist` or `text`)\n"@
                    + usage_text(),
            ),
        }
    } else if f == 5 || f == 7 {
        if is_blank(v) {
            Err(empty_message(flag_name(f), usage_text()))
        } else if f == 5 {
            Ok(TrainArgsView { device_group: Some(trimmed(v)), ..st })
        } else {
            Ok(TrainArgsView { checkpoint_group: Some(trimmed(v)), ..st })
        }
    } else if f == 6 {
        match device_refs(v, flag_name(f)) {
            Ok(refs) => Ok(TrainArgsView { participant_devices: Some(refs), ..st }),
            Err(m) => Err(m),
        }
    } else if f == 10 {
        Ok(TrainArgsView { dataset_manifest: Some(v), ..st })
    } else if f == 11 {
        Ok(TrainArgsView { tokenizer_profile: Some(v), ..st })
    } else if f == 12 {
        Ok(TrainArgsView { token_cache: Some(v), ..st })
    } else if f == 14 || f == 15 {
        if !float_syntax(v) {
            Err(bad_value_message(flag_name(f), v))
        } else if f == 14 {
            Ok(TrainArgsView { max_validation_loss: Some(v), ..st })
        } else {
            Ok(TrainArgsView { max_validation_perplexity: Some(v), ..st })
        }
    } else {
        match parse_u64_spec(v) {
            None => Err(bad_value_message(flag_name(f), v)),
            Some(n) => Ok(
                if f == 1 {
                    TrainArgsView { batch_size: Some(n), ..st }
                } else if f == 2 {
                    TrainArgsView { num_workers: Some(n), ..st }
                } else if f == 3 {
                    TrainArgsView { num_epochs: Some(n), ..st }
                } else if f == 4 {
                    TrainArgsView { world_size: Some(n), ..st }
                } else if f == 8 {
                    TrainArgsView { max_train_items: Some(n), ..st }
                } else if f == 9 {
                    TrainArgsView { max_valid_items: Some(n), ..st }
                } else {
                    TrainArgsView { resume_epoch: Some(n), ..st }
                },
            ),
        }
    }
}

/// The flags read from argument `i` on, or the message of the first
/// refusal.
pub open spec fn scan_train(args: Seq<Seq<char>>, i: int, st: TrainArgsView) -> Result<
    TrainArgsView,
    Seq<char>,
>
    decreases args.len() - i,
{
    if i < 0 || i >= args.len() {
        Ok(st)
    } else {
        let a = args[i];
        match exact_flag(a) {
            Some(f) => if i + 1 >= args.len() {
                Err(missing_message(flag_name(f), usage_text()))
            } else {
                match apply_flag(f, args[i + 1], st) {
                    Err(m) => Err(m),
                    Ok(next) => scan_train(args, i + 2, next),
                }
            },
            None => match inline_flag(a) {
                Some((f, v)) => match apply_flag(f, v, st) {
                    Err(m) => Err(m),
                    Ok(next) => scan_train(args, i + 1, next),
                },
                None => Err(unknown_message("train"@, a, usage_text())),
            },
        }
    }
}

pub open spec fn zero(o: Option<u64>) -> bool {
    o == Some(0u64)
}

pub open spec fn rule_message(m: Seq<char>) -> Seq<char> {
    m + "\n"@ + usage_text()
}

/// The first rule that the flags together break, if any.
pub open spec fn train_rules(st: TrainArgsView) -> Option<Seq<char>> {
    if zero(st.batch_size) {
        Some(rule_message("--batch-size must be > 0"@))
    } else if zero(st.num_epochs) {
        Some(rule_message("--num-epochs must be > 0"@))
    } else if zero(st.world_size) || st.world_size == Some(1u64) {
        Some(rule_message("--world-size must be > 1 for the explicit DP runtime path"@))
    } else if zero(st.max_train_items) {
        Some(rule_message("--max-train-items must be > 0"@))
    } else if zero(st.max_valid_items) {
        Some(rule_message("--max-valid-items must be > 0"@))
    } else if zero(st.resume_epoch) {
        Some(rule_message("--resume-epoch must be > 0"@))
    } else if st.task == TrainTask::Mnist && st.resume_epoch is Some && st.checkpoint_group is None {
        Some(rule_message("--resume-epoch requires --checkpoint-group"@))
    } else if st.world_size is Some && st.device_group is None {
        Some(rule_message("--world-size requires --device-group"@))
    } else if st.world_size is Some && st.participant_devices is None {
        Some(rule_message("--world-size requires --participant-devices"@))
    } else if st.device_group is Some && st.world_size is None {
        Some(rule_message("--device-group requires --world-size"@))
    } else if st.participant_devices is Some && st.world_size is None {
        Some(rule_message("--participant-devices requires --world-size"@))
    } else if st.world_size is Some && st.participant_devices is Some
        && st.participant_devices->Some_0.len() != st.world_size->Some_0 {
        let w = decimal(st.world_size->Some_0 as nat);
        Some(
            rule_message(
                "--participant-devices must contain exactly "@ + w + " entries for --world-size "@
                    + w,
            ),
        )
    } else if st.task == TrainTask::Text && (st.dataset_manifest is None || st.tokenizer_profile is None
        || st.token_cache is None) {
        Some(
            rule_message(
                "--task text requires --dataset-manifest, --tokenizer-profile, and --token-cache"@,
            ),
        )
    } else if st.task == TrainTask::Text && st.world_size is Some {
        Some(rule_message("--task text does not support the explicit DP runtime path yet"@))
    } else {
        None
    }
}

/// The arguments of `train`, or why they are refused.
pub open spec fn parse_args_spec(args: Seq<Seq<char>>) -> Result<TrainArgsView, Seq<char>> {
    match scan_train(args, 0, initial_args()) {
        Err(m) => Err(m),
        Ok(st) => match train_rules(st) {
            Some(m) => Err(m),
            None => Ok(st),
        },
    }
}

/// Accepted arguments keep every rule of `train`: counts that are given
/// are positive, an explicit world size is at least 2 and comes with a
/// device group and exactly that many participant devices (and neither of
/// those comes without it), an MNIST resume names a checkpoint group, and
/// the text task has its three inputs and no explicit world size.
pub proof fn law_train_rules(args: Seq<Seq<char>>)
    ensures
        parse_args_spec(args) matches Ok(v) ==> {
            &&& (v.batch_size matches Some(n) ==> n > 0)
            &&& (v.num_epochs matches Some(n) ==> n > 0)
            &&& (v.max_train_items matches Some(n) ==> n > 0)
            &&& (v.max_valid_items matches Some(n) ==> n > 0)
            &&& (v.resume_epoch matches Some(n) ==> n > 0)
            &&& (v.world_size matches Some(w) ==> w >= 2 && v.device_group is Some
                && v.participant_devices is Some && v.participant_devices->Some_0.len() == w)
            &&& (v.world_size is None ==> v.device_group is None && v.participant_devices is None)
            &&& (v.task == TrainTask::Mnist && v.resume_epoch is Some ==> v.checkpoint_group is Some)
            &&& (v.task == TrainTask::Text ==> v.world_size is None && v.dataset_manifest is Some
                && v.tokenizer_profile is Some && v.token_cache is Some)
        },
{
}

fn exact_flag_of(a: &str) -> (r: Option<usize>)
    ensures
        match r {
            Some(f) => exact_flag(a@) == Some(f as int),
            None => exact_flag(a@) is None,
        },
{
    if text_eq(a, "--task") {
        Some(0)
    } else if text_eq(a, "--batch-size") {
        Some(1)
    } else if text_eq(a, "--num-workers") {
        Some(2)
    } else if text_eq(a, "--num-epochs") {
        Some(3)
    } else if text_eq(a, "--world-size") {
        Some(4)
    } else if text_eq(a, "--device-group") {
        Some(5)
    } else if text_eq(a, "--participant-devices") {
        Some(6)
    } else if text_eq(a, "--checkpoint-group") {
        Some(7)
    } else if text_eq(a, "--max-train-items") {
        Some(8)
    } else if text_eq(a, "--max-valid-items") {
        Some(9)
    } else if text_eq(a, "--dataset-manifest") {
        Some(10)
    } else if text_eq(a, "--tokenizer-profile") {
        Some(11)
    } else if text_eq(a, "--token-cache") {
        Some(12)
    } else if text_eq(a, "--resume-epoch") {
        Some(13)
    } else if text_eq(a, "--max-validation-loss") {
        Some(14)
    } else if text_eq(a, "--max-validation-perplexity") {
        Some(15)
    } else {
        None
    }
}

fn inline_prefix(f: usize) -> (r: &'static str)
    ensures
        r@ == flag_name(f as int) + "="@,
{
    proof {
        reveal_strlit("=");
        reveal_strlit("--task");
        reveal_strlit("--task=");
        reveal_strlit("--batch-size");
        reveal_strlit("--batch-size=");
        reveal_strlit("--num-workers");
        reveal_strlit("--num-workers=");
        reveal_strlit("--num-epochs");
        reveal_strlit("--num-epochs=");
        reveal_strlit("--world-size");
        reveal_strlit("--world-size=");
        reveal_strlit("--device-group");
        reveal_strlit("--device-group=");
        reveal_strlit("--participant-devices");
        reveal_strlit("--participant-devices=");
        reveal_strlit("--checkpoint-group");
        reveal_strlit("--checkpoint-group=");
        reveal_strlit("--max-train-items");
        reveal_strlit("--max-train-items=");
        reveal_strlit("--max-valid-items");
        reveal_strlit("--max-valid-items=");
        reveal_strlit("--dataset-manifest");
        reveal_strlit("--dataset-manifest=");
        reveal_strlit("--tokenizer-profile");
        reveal_strlit("--tokenizer-profile=");
        reveal_strlit("--token-cache");
        reveal_strlit("--token-cache=");
        reveal_strlit("--resume-epoch");
        reveal_strlit("--resume-epoch=");
        reveal_strlit("--max-validation-loss");
        reveal_strlit("--max-validation-loss=");
        reveal_strlit("--max-validation-perplexity");
        reveal_strlit("--max-validation-perplexity=");
    }
    let r = match f {
        0 => "--task=",
        1 => "--batch-size=",
        2 => "--num-workers=",
        3 => "--num-epochs=",
        4 => "--world-size=",
        5 => "--device-group=",
        6 => "--participant-devices=",
        7 => "--checkpoint-group=",
        8 => "--max-train-items=",
        9 => "--max-valid-items=",
        10 => "--dataset-manifest=",
        11 => "--tokenizer-profile=",
        12 => "--token-cache=",
        13 => "--resume-epoch=",
        14 => "--max-validation-loss=",
        _ => "--max-validation-perplexity=",
    };
    assert(r@ =~= flag_name(f as int) + "="@);
    r
}

fn flag_text(f: usize) -> (r: &'static str)
    ensures
        r@ == flag_name(f as int),
{
    match f {
        0 => "--task",
        1 => "--batch-size",
        2 => "--num-workers",
        3 => "--num-epochs",
        4 => "--world-size",
        5 => "--device-group",
        6 => "--participant-devices",
        7 => "--checkpoint-group",
        8 => "--max-train-items",
        9 => "--max-valid-items",
        10 => "--dataset-manifest",
        11 => "--tokenizer-profile",
        12 => "--token-cache",
        13 => "--resume-epoch",
        14 => "--max-validation-loss",
        _ => "--max-validation-perplexity",
    }
}

fn inline_flag_of(a: &str) -> (r: Option<(usize, String)>)
    ensures
        match inline_flag(a@) {
            Some((f, v)) => r matches Some((g, w)) && g == f && w@ == v,
            None => r is None,
        },
        r matches Some((g, _)) ==> g < 16,
{
    let order: [usize; 12] = [0, 1, 2, 3, 4, 5, 6, 7, 8, 9, 14, 15];
    let mut k: usize = 0;
    while k < 12
        invariant
            0 <= k <= 12,
            order@ == seq![0usize, 1, 2, 3, 4, 5, 6, 7, 8, 9, 14, 15],
            inline_from(a@, 0) == inline_from(a@, k as int),
        decreases 12 - k,
    {
        let f = order[k];
        assert(f as int == inline_order()[k as int]);
        let p = inline_prefix(f);
        if has_prefix(a, p) {
            let v = strip_prefixes(a, p);
            return Some((f, v));
        }
        k += 1;
    }
    None
}

fn parse_task(v: &str) -> (r: Option<TrainTask>)
    ensures
        r == task_named(v@),
{
    if text_eq(v, "mnist") {
        Some(TrainTask::Mnist)
    } else if text_eq(v, "text") {
        Some(TrainTask::Text)
    } else {
        None
    }
}

fn bad_value(flag: &str, v: &str) -> (r: String)
    ensures
        r@ == bad_value_message(flag@, v@),
{
    let mut m = cat4("invalid value for ", flag, ": ", v);
    m.append("\n");
    m.append(usage());
    m
}

/// Splits a comma-separated list of device refs and trims each.
pub fn parse_device_ref_list(value: &str, flag: &str) -> (r: Result<Vec<String>, String>)
    ensures
        match device_refs(value@, flag@) {
            Ok(refs) => r matches Ok(v) && texts_view(v@) == refs,
            Err(m) => r matches Err(x) && x@ == m,
        },
{
    if blank(value) {
        let mut m = cat(flag, " must contain at least one device ref\n");
        m.append(usage());
        return Err(m);
    }
    let cs = crate::json::chars_of(value);
    let mut pieces: Vec<String> = Vec::new();
    let mut current = String::new();
    let mut i: usize = 0;
    assert(cs@.take(0) =~= Seq::<char>::empty());
    while i < cs.len()
        invariant
            cs@ == value@,
            i <= cs.len(),
            texts_view(pieces@).push(current@) == comma_pieces(cs@.take(i as int)),
        decreases cs.len() - i,
    {
        let ghost before = cs@.take(i as int);
        assert(cs@.take(i + 1).drop_last() =~= before);
        proof {
            lemma_comma_pieces_nonempty(before);
        }
        if cs[i] == ',' {
            let ghost pv = texts_view(pieces@);
            let done = current;
            pieces.push(done);
            current = String::new();
            assert(texts_view(pieces@) =~= pv.push(done@));
            assert(texts_view(pieces@).push(current@) =~= comma_pieces(before).push(Seq::empty()));
        } else {
            let ghost old_current = current@;
            push_char(&mut current, cs[i]);
            assert(texts_view(pieces@).push(current@) =~= comma_pieces(before).update(
                comma_pieces(before).len() - 1,
                comma_pieces(before).last().push(cs@[i as int]),
            ));
        }
        i += 1;
    }
    assert(cs@.take(cs.len() as int) =~= cs@);
    pieces.push(current);
    let ghost all = comma_pieces(value@);
    assert(texts_view(pieces@) == all);
    let mut refs: Vec<String> = Vec::new();
    let mut k: usize = 0;
    while k < pieces.len()
        invariant
            all == texts_view(pieces@),
            all == comma_pieces(value@),
            !is_blank(value@),
            k <= pieces.len(),
            forall|j: int| 0 <= j < k ==> !is_blank(#[trigger] all[j]),
            texts_view(refs@) == Seq::new(k as nat, |j: int| trimmed(all[j])),
        decreases pieces.len() - k,
    {
        assert(all[k as int] == pieces[k as int]@);
        if blank(pieces[k].as_str()) {
            let mut m = cat(flag, " entries must be non-empty comma-separated device refs\n");
            m.append(usage());
            return Err(m);
        }
        let t = trim(pieces[k].as_str());
        let ghost before = texts_view(refs@);
        let ghost tv = t@;
        refs.push(t);
        assert(texts_view(refs@) =~= before.push(tv));
        assert(texts_view(refs@) =~= Seq::new((k + 1) as nat, |j: int| trimmed(all[j])));
        k += 1;
    }
    Ok(refs)
}

fn set_number(f: usize, n: u64, st: &mut TrainArgs)
    requires
        f == 1 || f == 2 || f == 3 || f == 4 || f == 8 || f == 9 || f == 13,
    ensures
        final(st)@ == (if f == 1 {
            TrainArgsView { batch_size: Some(n), ..old(st)@ }
        } else if f == 2 {
            TrainArgsView { num_workers: Some(n), ..old(st)@ }
        } else if f == 3 {
            TrainArgsView { num_epochs: Some(n), ..old(st)@ }
        } else if f == 4 {
            TrainArgsView { world_size: Some(n), ..old(st)@ }
        } else if f == 8 {
            TrainArgsView { max_train_items: Some(n), ..old(st)@ }
        } else if f == 9 {
            TrainArgsView { max_valid_items: Some(n), ..old(st)@ }
        } else {
            TrainArgsView { resume_epoch: Some(n), ..old(st)@ }
        }),
{
    if f == 1 {
        st.batch_size = Some(n);
    } else if f == 2 {
        st.num_workers = Some(n);
    } else if f == 3 {
        st.num_epochs = Some(n);
    } else if f == 4 {
        st.world_size = Some(n);
    } else if f == 8 {
        st.max_train_items = Some(n);
    } else if f == 9 {
        st.max_valid_items = Some(n);
    } else {
        st.resume_epoch = Some(n);
    }
}

fn apply(f: usize, v: String, st: &mut TrainArgs) -> (r: Result<(), String>)
    requires
        f < 16,
    ensures
        match apply_flag(f as int, v@, old(st)@) {
            Ok(next) => r is Ok && final(st)@ == next,
            Err(m) => r matches Err(x) && x@ == m,
        },
{
    if f == 0 {
        match parse_task(v.as_str()) {
            Some(t) => {
                st.task = t;
                Ok(())
            },
            None => {
                let mut m = cat("invalid value for --task: ", v.as_str());
                m.append(" (expected `mnist` or `text`)\n");
                m.append(usage());
                Err(m)
            },
        }
    } else if f == 5 || f == 7 {
        if blank(v.as_str()) {
            return Err(must_be_non_empty(flag_text(f), usage()));
        }
        let t = trim(v.as_str());
        if f == 5 {
            st.device_group = Some(t);
        } else {
            st.checkpoint_group = Some(t);
        }
        Ok(())
    } else if f == 6 {
        match parse_device_ref_list(v.as_str(), flag_text(f)) {
            Ok(refs) => {
                st.participant_devices = Some(refs);
                Ok(())
            },
            Err(m) => Err(m),
        }
    } else if f == 10 {
        st.dataset_manifest = Some(v);
        Ok(())
    } else if f == 11 {
        st.tokenizer_profile = Some(v);
        Ok(())
    } else if f == 12 {
        st.token_cache = Some(v);
        Ok(())
    } else if f == 14 || f == 15 {
        if !is_float_text(v.as_str()) {
            return Err(bad_value(flag_text(f), v.as_str()));
        }
        if f == 14 {
            st.max_validation_loss = Some(v);
        } else {
            st.max_validation_perplexity = Some(v);
        }
        Ok(())
    } else {
        match parse_u64(v.as_str()) {
            None => Err(bad_value(flag_text(f), v.as_str())),
            Some(n) => {
                set_number(f, n, st);
                Ok(())
            },
        }
    }
}

fn rule_error(m: &str) -> (r: String)
    ensures
        r@ == rule_message(m@),
{
    let mut r = cat(m, "\n");
    r.append(usage());
    r
}

fn check_rules(st: &TrainArgs) -> (r: Option<String>)
    ensures
        match train_rules(st@) {
            Some(m) => r matches Some(x) && x@ == m,
            None => r is None,
        },
{
    if st.batch_size == Some(0u64) {
        return Some(rule_error("--batch-size must be > 0"));
    }
    if st.num_epochs == Some(0u64) {
        return Some(rule_error("--num-epochs must be > 0"));
    }
    if st.world_size == Some(0u64) || st.world_size == Some(1u64) {
        return Some(rule_error("--world-size must be > 1 for the explicit DP runtime path"));
    }
    if st.max_train_items == Some(0u64) {
        return Some(rule_error("--max-train-items must be > 0"));
    }
    if st.max_valid_items == Some(0u64) {
        return Some(rule_error("--max-valid-items must be > 0"));
    }
    if st.resume_epoch == Some(0u64) {
        return Some(rule_error("--resume-epoch must be > 0"));
    }
    if st.task == TrainTask::Mnist && st.resume_epoch.is_some() && st.checkpoint_group.is_none() {
        return Some(rule_error("--resume-epoch requires --checkpoint-group"));
    }
    if st.world_size.is_some() && st.device_group.is_none() {
        return Some(rule_error("--world-size requires --device-group"));
    }
    if st.world_size.is_some() && st.participant_devices.is_none() {
        return Some(rule_error("--world-size requires --participant-devices"));
    }
    if st.device_group.is_some() && st.world_size.is_none() {
        return Some(rule_error("--device-group requires --world-size"));
    }
    if st.participant_devices.is_some() && st.world_size.is_none() {
        return Some(rule_error("--participant-devices requires --world-size"));
    }
    match (&st.world_size, &st.participant_devices) {
        (Some(w), Some(p)) => {
            if p.len() as u64 != *w {
                let wt = decimal_text(*w);
                let mut m = cat4(
                    "--participant-devices must contain exactly ",
                    wt.as_str(),
                    " entries for --world-size ",
                    wt.as_str(),
                );
                m.append("\n");
                m.append(usage());
                return Some(m);
            }
        },
        _ => {},
    }
    if st.task == TrainTask::Text && (st.dataset_manifest.is_none() || st.tokenizer_profile.is_none()
        || st.token_cache.is_none()) {
        return Some(
            rule_error(
                "--task text requires --dataset-manifest, --tokenizer-profile, and --token-cache",
            ),
        );
    }
    if st.task == TrainTask::Text && st.world_size.is_some() {
        return Some(rule_error("--task text does not support the explicit DP runtime path yet"));
    }
    None
}

/// Reads the arguments of `train` and checks the rules they must keep
/// together.
pub fn parse_args(args: &Vec<String>) -> (r: Result<TrainArgs, String>)
    ensures
        match parse_args_spec(texts_view(args@)) {
            Ok(v) => r matches Ok(x) && x@ == v,
            Err(m) => r matches Err(x) && x@ == m,
        },
{
    let ghost av = texts_view(args@);
    let mut st = TrainArgs {
        task: TrainTask::Mnist,
        batch_size: None,
        num_workers: None,
        num_epochs: None,
        world_size: None,
        device_group: None,
        participant_devices: None,
        checkpoint_group: None,
        max_train_items: None,
        max_valid_items: None,
        dataset_manifest: None,
        tokenizer_profile: None,
        token_cache: None,
        resume_epoch: None,
        max_validation_loss: None,
        max_validation_perplexity: None,
    };
    let mut i: usize = 0;
    while i < args.len()
        invariant
            av == texts_view(args@),
            i <= args.len(),
            scan_train(av, 0, initial_args()) == scan_train(av, i as int, st@),
        decreases args.len() - i,
    {
        let a = args[i].as_str();
        assert(av[i as int] == a@);
        match exact_flag_of(a) {
            Some(f) => {
                if i + 1 >= args.len() {
                    return Err(missing_arg(flag_text(f), usage()));
                }
                assert(av[i + 1] == args[i + 1]@);
                match apply(f, args[i + 1].clone(), &mut st) {
                    Err(m) => {
                        return Err(m);
                    },
                    Ok(_) => {},
                }
                i += 2;
            },
            None => match inline_flag_of(a) {
                Some((f, v)) => {
                    match apply(f, v, &mut st) {
                        Err(m) => {
                            return Err(m);
                        },
                        Ok(_) => {},
                    }
                    i += 1;
                },
                None => {
                    return Err(crate::cli::message_unknown("train", a, usage()));
                },
            },
        }
    }
    match check_rules(&st) {
        Some(m) => Err(m),
        None => Ok(st),
    }
}


/// The backend that training runs on.
#[derive(Debug, Clone, Copy, PartialEq, Eq)]
pub enum TrainBackend {
    Cpu,
    Metal,
    Wgpu,
}

/// The backend that the `BACKEND` setting names, in any case: `cpu` and
/// `metal` by name; any other name, and no setting, give `wgpu`.
pub open spec fn train_backend_spec(setting: Option<Seq<char>>) -> TrainBackend {
    match setting {
        None => TrainBackend::Wgpu,
        Some(s) => if crate::text::ascii_lower(s) == "cpu"@ {
            TrainBackend::Cpu
        } else if crate::text::ascii_lower(s) == "metal"@ {
            TrainBackend::Metal
        } else {
            TrainBackend::Wgpu
        },
    }
}

/// The backend that the `BACKEND` setting names.
pub fn train_backend(setting: Option<String>) -> (r: TrainBackend)
    ensures
        r == train_backend_spec(crate::text::opt_text(setting)),
{
    match setting {
        None => TrainBackend::Wgpu,
        Some(s) => {
            let lower = crate::text::to_ascii_lower(s.as_str());
            if text_eq(lower.as_str(), "cpu") {
                TrainBackend::Cpu
            } else if text_eq(lower.as_str(), "metal") {
                TrainBackend::Metal
            } else {
                TrainBackend::Wgpu
            }
        },
    }
}

/// Whether `p` occurs in `s`.
pub open spec fn contains_text(s: Seq<char>, p: Seq<char>) -> bool {
    exists|i: int| 0 <= i && i + p.len() <= s.len() && #[trigger] s.subrange(i, i + p.len()) == p
}

/// The text of the panic that a missing GPU adapter raises.
pub open spec fn missing_adapter_text() -> Seq<char> {
    "No possible adapter available for backend"@
}

/// Whether a panic message says that no GPU adapter is available, after
/// which training falls back to the CPU.
pub fn is_missing_adapter_message(message: &str) -> (r: bool)
    ensures
        r == contains_text(message@, missing_adapter_text()),
{
    let s = crate::json::chars_of(message);
    let p = crate::json::chars_of("No possible adapter available for backend");
    if p.len() > s.len() {
        return false;
    }
    let mut i: usize = 0;
    while i <= s.len() - p.len()
        invariant
            s@ == message@,
            p@ == missing_adapter_text(),
            p.len() <= s.len(),
            i <= s.len() - p.len() + 1,
            forall|j: int| 0 <= j < i ==> #[trigger] s@.subrange(j, j + p.len()) != p@,
        decreases s.len() - i,
    {
        let mut k: usize = 0;
        while k < p.len() && s[i + k] == p[k]
            invariant
                i + p.len() <= s.len(),
                k <= p.len(),
                forall|t: int| 0 <= t < k ==> s@[i + t] == p@[t],
            decreases p.len() - k,
        {
            k += 1;
        }
        if k == p.len() {
            assert(s@.subrange(i as int, i + p.len()) =~= p@);
            return true;
        }
        assert(s@.subrange(i as int, i + p.len())[k as int] != p@[k as int]);
        i += 1;
    }
    assert forall|j: int| 0 <= j && j + p@.len() <= s@.len() implies #[trigger] s@.subrange(j, j + p@.len()) != p@ by {
        assert(j < i);
    }
    false
}

} // verus!
