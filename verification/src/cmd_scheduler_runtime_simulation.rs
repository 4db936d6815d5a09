use vstd::prelude::*;
use crate::cli::{
    empty_message, last_number, last_number_of, last_text, last_text_of, missing_arg,
    missing_message, opt_view, require_arg, require_filled, require_non_empty, rule, rules_view,
    scan, scan_args, texts_view, FlagRule, InlineForm, RuleSpec, ValueKind,
};
use crate::fields::{
    check_reads, first_read_failure, json_outcome, outcome, read, reads_view, str_field, str_of,
    u64_field, u64_of, value_field, value_of, CommandError, Failure, ReadKind,
};
use crate::fields::{or_else, push_opt_str, with_opt_str};
use crate::json::{entries_get, entries_view, object_from_pairs, object_of, Json, JsonValue};
use crate::text::{is_blank, owned, trimmed};
use crate::fields::{
    array_at, array_field, check_items, field_failure, items_failure, object_at, object_field,
    read_failure, strings_field, strings_of,
};
use crate::json::{items_view, lemma_array_view, text_eq};
use crate::text::{cat, cat3, cat4, decimal, decimal_text};

verus! {

/// The arguments of `debug simulate-scheduler-runtime`.
#[derive(Debug, PartialEq, Eq)]
pub struct SimulationArgs {
    pub scenario: String,
    pub out_path: String,
}

pub struct SimulationArgsView {
    pub scenario: Seq<char>,
    pub out_path: Seq<char>,
}

impl View for SimulationArgs {
    type V = SimulationArgsView;

    open spec fn view(&self) -> SimulationArgsView {
        SimulationArgsView {
            scenario: self.scenario@,
            out_path: self.out_path@,
        }
    }
}

pub open spec fn usage_text() -> Seq<char> {
    "usage: afterburner debug simulate-scheduler-runtime --scenario PATH [--out PATH]"@
}

pub fn usage() -> (r: &'static str)
    ensures
        r@ == usage_text(),
{
    "usage: afterburner debug simulate-scheduler-runtime --scenario PATH [--out PATH]"
}

pub open spec fn rules_spec() -> Seq<RuleSpec> {
    seq![
        RuleSpec { name: "--scenario"@, kind: ValueKind::Text, inline: InlineForm::StripAll },
        RuleSpec { name: "--out"@, kind: ValueKind::Text, inline: InlineForm::StripAll },
    ]
}

fn rules() -> (r: Vec<FlagRule>)
    ensures
        rules_view(r@) == rules_spec(),
{
    let mut r = Vec::new();
    r.push(rule("--scenario", ValueKind::Text, InlineForm::StripAll));
    r.push(rule("--out", ValueKind::Text, InlineForm::StripAll));
    assert(rules_view(r@) =~= rules_spec());
    r
}

/// The arguments that the command line gives, or why it is refused.
pub open spec fn parse_args_spec(args: Seq<Seq<char>>) -> Result<SimulationArgsView, Failure> {
    match scan(rules_spec(), args, "debug simulate-scheduler-runtime"@, usage_text()) {
        Err(m) => Err(Failure::InvalidArg(m)),
        Ok(a) => {
            match last_text(a, 0) {
                None => Err(Failure::InvalidArg(missing_message("--scenario"@, usage_text()))),
                Some(v_scenario) => {
                    Ok(SimulationArgsView {
                        scenario: v_scenario,
                        out_path: match last_text(a, 1) { Some(p) => p, None => "artifacts/simulation/scheduler_runtime_simulation_report.json"@ },
                    })
                }
            }
        },
    }
}

pub fn parse_args(args: &Vec<String>) -> (r: Result<SimulationArgs, CommandError>)
    ensures
        outcome(r) == parse_args_spec(texts_view(args@)),
{
    let rules = rules();
    let a = match scan_args(&rules, args, "debug simulate-scheduler-runtime", usage()) {
        Ok(a) => a,
        Err(m) => {
            return Err(CommandError::InvalidArg(m));
        },
    };
    let scenario = match require_arg(last_text_of(&a, 0), "--scenario", usage()) {
        Ok(v) => v,
        Err(m) => {
            return Err(CommandError::InvalidArg(m));
        },
    };
    let out_path = match last_text_of(&a, 1) {
        Some(s) => s,
        None => owned("artifacts/simulation/scheduler_runtime_simulation_report.json"),
    };
    Ok(SimulationArgs { scenario, out_path })
}

/// Node and GPU counts of the simulated inventory.
#[derive(Debug, PartialEq, Eq)]
pub struct Inventory {
    pub node_count: u64,
    pub gpus_per_node: u64,
}

/// The lease that the scheduler granted.
#[derive(Debug, PartialEq, Eq)]
pub struct Lease {
    pub job_id: String,
    pub lease_id: String,
    pub node_ids: Vec<String>,
    pub gpu_ids: Vec<String>,
    pub checkpoint_mode: String,
}

pub struct LeaseView {
    pub job_id: Seq<char>,
    pub lease_id: Seq<char>,
    pub node_ids: Seq<Seq<char>>,
    pub gpu_ids: Seq<Seq<char>>,
    pub checkpoint_mode: Seq<char>,
}

impl View for Lease {
    type V = LeaseView;

    open spec fn view(&self) -> LeaseView {
        LeaseView {
            job_id: self.job_id@,
            lease_id: self.lease_id@,
            node_ids: texts_view(self.node_ids@),
            gpu_ids: texts_view(self.gpu_ids@),
            checkpoint_mode: self.checkpoint_mode@,
        }
    }
}

/// Degrees of parallelism of the training layout.
#[derive(Debug, PartialEq, Eq)]
pub struct LayoutParallelism {
    pub dp: u64,
    pub tp: u64,
    pub pp: u64,
    pub sp_cp: u64,
    pub ep: u64,
    pub gas: u64,
    pub microbatch_size: u64,
    pub zero_stage: u64,
}

#[derive(Debug, PartialEq, Eq)]
pub struct Layout {
    pub world_size: u64,
    pub parallelism: LayoutParallelism,
}

/// A message between the scheduler and the runtime.
#[derive(Debug, PartialEq, Eq)]
pub struct LifecycleMessage {
    pub direction: String,
    pub kind: String,
    pub job_id: String,
    pub lease_id: String,
}

pub struct MessageView {
    pub direction: Seq<char>,
    pub kind: Seq<char>,
    pub job_id: Seq<char>,
    pub lease_id: Seq<char>,
}

impl View for LifecycleMessage {
    type V = MessageView;

    open spec fn view(&self) -> MessageView {
        MessageView {
            direction: self.direction@,
            kind: self.kind@,
            job_id: self.job_id@,
            lease_id: self.lease_id@,
        }
    }
}

/// Which message kinds a checkpoint and its restart are recognised by.
#[derive(Debug, PartialEq, Eq)]
pub struct CheckpointRestart {
    pub checkpoint_group: String,
    pub restart_after_kind: String,
    pub expected_resume_kind: String,
}

pub struct CheckpointView {
    pub checkpoint_group: Seq<char>,
    pub restart_after_kind: Seq<char>,
    pub expected_resume_kind: Seq<char>,
}

impl View for CheckpointRestart {
    type V = CheckpointView;

    open spec fn view(&self) -> CheckpointView {
        CheckpointView {
            checkpoint_group: self.checkpoint_group@,
            restart_after_kind: self.restart_after_kind@,
            expected_resume_kind: self.expected_resume_kind@,
        }
    }
}

/// An artifact that should be emitted after a message of a given kind.
#[derive(Debug, PartialEq, Eq)]
pub struct ArtifactPlanItem {
    pub kind: String,
    pub event: String,
    pub path: String,
    pub after_kind: String,
}

pub struct PlanItemView {
    pub kind: Seq<char>,
    pub event: Seq<char>,
    pub path: Seq<char>,
    pub after_kind: Seq<char>,
}

impl View for ArtifactPlanItem {
    type V = PlanItemView;

    open spec fn view(&self) -> PlanItemView {
        PlanItemView {
            kind: self.kind@,
            event: self.event@,
            path: self.path@,
            after_kind: self.after_kind@,
        }
    }
}

/// A scheduler/runtime scenario to simulate.
#[derive(Debug, PartialEq, Eq)]
pub struct SimulationScenario {
    pub schema_version: String,
    pub scenario_name: String,
    pub inventory: Inventory,
    pub lease: Lease,
    pub layout: Layout,
    pub lifecycle_messages: Vec<LifecycleMessage>,
    pub checkpoint_restart: CheckpointRestart,
    pub artifact_plan: Vec<ArtifactPlanItem>,
}

pub struct ScenarioView {
    pub schema_version: Seq<char>,
    pub scenario_name: Seq<char>,
    pub inventory: Inventory,
    pub lease: LeaseView,
    pub layout: Layout,
    pub messages: Seq<MessageView>,
    pub checkpoint_restart: CheckpointView,
    pub artifact_plan: Seq<PlanItemView>,
}

impl View for SimulationScenario {
    type V = ScenarioView;

    open spec fn view(&self) -> ScenarioView {
        ScenarioView {
            schema_version: self.schema_version@,
            scenario_name: self.scenario_name@,
            inventory: Inventory {
                node_count: self.inventory.node_count,
                gpus_per_node: self.inventory.gpus_per_node,
            },
            lease: self.lease@,
            layout: Layout {
                world_size: self.layout.world_size,
                parallelism: LayoutParallelism {
                    dp: self.layout.parallelism.dp,
                    tp: self.layout.parallelism.tp,
                    pp: self.layout.parallelism.pp,
                    sp_cp: self.layout.parallelism.sp_cp,
                    ep: self.layout.parallelism.ep,
                    gas: self.layout.parallelism.gas,
                    microbatch_size: self.layout.parallelism.microbatch_size,
                    zero_stage: self.layout.parallelism.zero_stage,
                },
            },
            messages: Seq::new(
                self.lifecycle_messages.len() as nat,
                |i: int| self.lifecycle_messages[i]@,
            ),
            checkpoint_restart: self.checkpoint_restart@,
            artifact_plan: Seq::new(self.artifact_plan.len() as nat, |i: int| self.artifact_plan[i]@),
        }
    }
}

pub open spec fn inventory_reads() -> Seq<(Seq<char>, ReadKind)> {
    seq![("node_count"@, ReadKind::U64), ("gpus_per_node"@, ReadKind::U64)]
}

pub open spec fn lease_reads() -> Seq<(Seq<char>, ReadKind)> {
    seq![
        ("job_id"@, ReadKind::Str),
        ("lease_id"@, ReadKind::Str),
        ("node_ids"@, ReadKind::Strings),
        ("gpu_ids"@, ReadKind::Strings),
        ("checkpoint_mode"@, ReadKind::Str),
    ]
}

pub open spec fn layout_reads() -> Seq<(Seq<char>, ReadKind)> {
    seq![("world_size"@, ReadKind::U64), ("parallelism"@, ReadKind::Object)]
}

pub open spec fn parallelism_reads() -> Seq<(Seq<char>, ReadKind)> {
    seq![
        ("dp"@, ReadKind::U64),
        ("tp"@, ReadKind::U64),
        ("pp"@, ReadKind::U64),
        ("sp_cp"@, ReadKind::U64),
        ("ep"@, ReadKind::U64),
        ("gas"@, ReadKind::U64),
        ("microbatch_size"@, ReadKind::U64),
        ("zero_stage"@, ReadKind::U64),
    ]
}

pub open spec fn message_reads() -> Seq<(Seq<char>, ReadKind)> {
    seq![
        ("direction"@, ReadKind::Str),
        ("kind"@, ReadKind::Str),
        ("job_id"@, ReadKind::Str),
        ("lease_id"@, ReadKind::Str),
    ]
}

pub open spec fn checkpoint_reads() -> Seq<(Seq<char>, ReadKind)> {
    seq![
        ("checkpoint_group"@, ReadKind::Str),
        ("restart_after_kind"@, ReadKind::Str),
        ("expected_resume_kind"@, ReadKind::Str),
    ]
}

pub open spec fn plan_item_reads() -> Seq<(Seq<char>, ReadKind)> {
    seq![
        ("kind"@, ReadKind::Str),
        ("event"@, ReadKind::Str),
        ("path"@, ReadKind::Str),
        ("after_kind"@, ReadKind::Str),
    ]
}

/// simulation scenario `PATH` followed by what is wrong
pub open spec fn scenario_message(path: Seq<char>, rest: Seq<char>) -> Seq<char> {
    "simulation scenario `"@ + path + rest
}

/// The message of the first field of the scenario that cannot be read,
/// in the order in which the scenario is read, if any.
pub open spec fn scenario_failure(o: Seq<(Seq<char>, Json)>, path: Seq<char>) -> Option<Seq<char>> {
    let top = "simulation scenario"@;
    or_else(
        first_read_failure(
            o,
            seq![
                ("schema_version"@, ReadKind::Str),
                ("scenario_name"@, ReadKind::Str),
                ("inventory"@, ReadKind::Object),
            ],
            path,
            top,
        ),
        or_else(
            first_read_failure(object_at(o, "inventory"@), inventory_reads(), path, "simulation inventory"@),
            or_else(
                read_failure(o, "lease"@, ReadKind::Object, path, top),
                or_else(
                    first_read_failure(object_at(o, "lease"@), lease_reads(), path, "simulation lease"@),
                    or_else(
                        read_failure(o, "layout"@, ReadKind::Object, path, top),
                        or_else(
                            first_read_failure(object_at(o, "layout"@), layout_reads(), path, "simulation layout"@),
                            or_else(
                                first_read_failure(
                                    object_at(object_at(o, "layout"@), "parallelism"@),
                                    parallelism_reads(),
                                    path,
                                    "simulation parallelism"@,
                                ),
                                or_else(
                                    read_failure(o, "lifecycle_messages"@, ReadKind::Array, path, top),
                                    or_else(
                                        items_failure(
                                            array_at(o, "lifecycle_messages"@),
                                            message_reads(),
                                            path,
                                            "simulation lifecycle message"@,
                                            scenario_message(path, "` lifecycle_messages must contain only objects"@),
                                        ),
                                        or_else(
                                            read_failure(o, "checkpoint_restart"@, ReadKind::Object, path, top),
                                            or_else(
                                                first_read_failure(
                                                    object_at(o, "checkpoint_restart"@),
                                                    checkpoint_reads(),
                                                    path,
                                                    "simulation checkpoint_restart"@,
                                                ),
                                                or_else(
                                                    read_failure(o, "artifact_plan"@, ReadKind::Array, path, top),
                                                    items_failure(
                                                        array_at(o, "artifact_plan"@),
                                                        plan_item_reads(),
                                                        path,
                                                        "simulation artifact_plan item"@,
                                                        scenario_message(path, "` artifact_plan must contain only objects"@),
                                                    ),
                                                ),
                                            ),
                                        ),
                                    ),
                                ),
                            ),
                        ),
                    ),
                ),
            ),
        ),
    )
}

pub open spec fn message_of(m: Seq<(Seq<char>, Json)>) -> MessageView {
    MessageView {
        direction: str_of(m, "direction"@),
        kind: str_of(m, "kind"@),
        job_id: str_of(m, "job_id"@),
        lease_id: str_of(m, "lease_id"@),
    }
}

pub open spec fn plan_item_of(m: Seq<(Seq<char>, Json)>) -> PlanItemView {
    PlanItemView {
        kind: str_of(m, "kind"@),
        event: str_of(m, "event"@),
        path: str_of(m, "path"@),
        after_kind: str_of(m, "after_kind"@),
    }
}

/// The scenario that a readable object describes.
pub open spec fn scenario_of(o: Seq<(Seq<char>, Json)>) -> ScenarioView {
    let inv = object_at(o, "inventory"@);
    let lease = object_at(o, "lease"@);
    let layout = object_at(o, "layout"@);
    let par = object_at(layout, "parallelism"@);
    let cr = object_at(o, "checkpoint_restart"@);
    let msgs = array_at(o, "lifecycle_messages"@);
    let plan = array_at(o, "artifact_plan"@);
    ScenarioView {
        schema_version: str_of(o, "schema_version"@),
        scenario_name: str_of(o, "scenario_name"@),
        inventory: Inventory {
            node_count: u64_of(inv, "node_count"@),
            gpus_per_node: u64_of(inv, "gpus_per_node"@),
        },
        lease: LeaseView {
            job_id: str_of(lease, "job_id"@),
            lease_id: str_of(lease, "lease_id"@),
            node_ids: strings_of(array_at(lease, "node_ids"@)),
            gpu_ids: strings_of(array_at(lease, "gpu_ids"@)),
            checkpoint_mode: str_of(lease, "checkpoint_mode"@),
        },
        layout: Layout {
            world_size: u64_of(layout, "world_size"@),
            parallelism: LayoutParallelism {
                dp: u64_of(par, "dp"@),
                tp: u64_of(par, "tp"@),
                pp: u64_of(par, "pp"@),
                sp_cp: u64_of(par, "sp_cp"@),
                ep: u64_of(par, "ep"@),
                gas: u64_of(par, "gas"@),
                microbatch_size: u64_of(par, "microbatch_size"@),
                zero_stage: u64_of(par, "zero_stage"@),
            },
        },
        messages: Seq::new(msgs.len(), |i: int| message_of(msgs[i]->Object_0)),
        checkpoint_restart: CheckpointView {
            checkpoint_group: str_of(cr, "checkpoint_group"@),
            restart_after_kind: str_of(cr, "restart_after_kind"@),
            expected_resume_kind: str_of(cr, "expected_resume_kind"@),
        },
        artifact_plan: Seq::new(plan.len(), |i: int| plan_item_of(plan[i]->Object_0)),
    }
}

proof fn lemma_reads_ok(o: Seq<(Seq<char>, Json)>, rs: Seq<(Seq<char>, ReadKind)>, path: Seq<char>, kind: Seq<char>, i: int)
    requires
        first_read_failure(o, rs, path, kind) is None,
        0 <= i < rs.len(),
    ensures
        read_failure(o, rs[i].0, rs[i].1, path, kind) is None,
    decreases i,
{
    if i > 0 {
        lemma_reads_ok(o, rs.drop_first(), path, kind, i - 1);
    }
}

fn message_from(m: &Vec<(String, JsonValue)>) -> (r: LifecycleMessage)
    requires
        entries_get(entries_view(m@), "direction"@) matches Some(Json::Str(_)),
        entries_get(entries_view(m@), "kind"@) matches Some(Json::Str(_)),
        entries_get(entries_view(m@), "job_id"@) matches Some(Json::Str(_)),
        entries_get(entries_view(m@), "lease_id"@) matches Some(Json::Str(_)),
    ensures
        r@ == message_of(entries_view(m@)),
{
    LifecycleMessage {
        direction: str_field(m, "direction"),
        kind: str_field(m, "kind"),
        job_id: str_field(m, "job_id"),
        lease_id: str_field(m, "lease_id"),
    }
}

fn plan_item_from(m: &Vec<(String, JsonValue)>) -> (r: ArtifactPlanItem)
    requires
        entries_get(entries_view(m@), "kind"@) matches Some(Json::Str(_)),
        entries_get(entries_view(m@), "event"@) matches Some(Json::Str(_)),
        entries_get(entries_view(m@), "path"@) matches Some(Json::Str(_)),
        entries_get(entries_view(m@), "after_kind"@) matches Some(Json::Str(_)),
    ensures
        r@ == plan_item_of(entries_view(m@)),
{
    ArtifactPlanItem {
        kind: str_field(m, "kind"),
        event: str_field(m, "event"),
        path: str_field(m, "path"),
        after_kind: str_field(m, "after_kind"),
    }
}

fn fail<T>(m: String) -> (r: Result<T, CommandError>)
    ensures
        r matches Err(CommandError::Parse(x)) && x@ == m@,
{
    Err(CommandError::Parse(m))
}

/// Reads the scenario from its object: the first field that cannot be
/// read, in the order the scenario is read, fails with its message.
pub fn simulation_scenario_from_object(object: &Vec<(String, JsonValue)>, path: &str) -> (r: Result<
    SimulationScenario,
    CommandError,
>)
    ensures
        match scenario_failure(entries_view(object@), path@) {
            Some(m) => r matches Err(CommandError::Parse(x)) && x@ == m,
            None => r matches Ok(s) && s@ == scenario_of(entries_view(object@)),
        },
{
    let ghost o = entries_view(object@);
    let top = "simulation scenario";
    let mut reads1 = Vec::new();
    reads1.push(read("schema_version", ReadKind::Str));
    reads1.push(read("scenario_name", ReadKind::Str));
    reads1.push(read("inventory", ReadKind::Object));
    assert(reads_view(reads1@) =~= seq![
        ("schema_version"@, ReadKind::Str),
        ("scenario_name"@, ReadKind::Str),
        ("inventory"@, ReadKind::Object),
    ]);
    if let Err(m) = check_reads(object, &reads1, path, top) {
        return fail(m);
    }
    assert(reads_view(reads1@)[0].0 == "schema_version"@);
    assert(reads_view(reads1@)[1].0 == "scenario_name"@);
    assert(reads_view(reads1@)[2].0 == "inventory"@);
    let inventory_obj = object_field(object, "inventory");
    let mut inv_reads = Vec::new();
    inv_reads.push(read("node_count", ReadKind::U64));
    inv_reads.push(read("gpus_per_node", ReadKind::U64));
    assert(reads_view(inv_reads@) =~= inventory_reads());
    if let Err(m) = check_reads(&inventory_obj, &inv_reads, path, "simulation inventory") {
        return fail(m);
    }
    assert(reads_view(inv_reads@)[0].0 == "node_count"@);
    assert(reads_view(inv_reads@)[1].0 == "gpus_per_node"@);
    let inventory = Inventory {
        node_count: u64_field(&inventory_obj, "node_count"),
        gpus_per_node: u64_field(&inventory_obj, "gpus_per_node"),
    };
    if let Some(m) = field_failure(object, "lease", &ReadKind::Object, path, top) {
        return fail(m);
    }
    let lease_obj = object_field(object, "lease");
    let mut lease_reads_v = Vec::new();
    lease_reads_v.push(read("job_id", ReadKind::Str));
    lease_reads_v.push(read("lease_id", ReadKind::Str));
    lease_reads_v.push(read("node_ids", ReadKind::Strings));
    lease_reads_v.push(read("gpu_ids", ReadKind::Strings));
    lease_reads_v.push(read("checkpoint_mode", ReadKind::Str));
    assert(reads_view(lease_reads_v@) =~= lease_reads());
    if let Err(m) = check_reads(&lease_obj, &lease_reads_v, path, "simulation lease") {
        return fail(m);
    }
    assert(reads_view(lease_reads_v@)[0].0 == "job_id"@);
    assert(reads_view(lease_reads_v@)[1].0 == "lease_id"@);
    assert(reads_view(lease_reads_v@)[2].0 == "node_ids"@);
    assert(reads_view(lease_reads_v@)[3].0 == "gpu_ids"@);
    assert(reads_view(lease_reads_v@)[4].0 == "checkpoint_mode"@);
    let lease = Lease {
        job_id: str_field(&lease_obj, "job_id"),
        lease_id: str_field(&lease_obj, "lease_id"),
        node_ids: strings_field(&lease_obj, "node_ids"),
        gpu_ids: strings_field(&lease_obj, "gpu_ids"),
        checkpoint_mode: str_field(&lease_obj, "checkpoint_mode"),
    };
    assert(lease@.node_ids =~= strings_of(array_at(entries_view(lease_obj@), "node_ids"@)));
    assert(lease@.gpu_ids =~= strings_of(array_at(entries_view(lease_obj@), "gpu_ids"@)));
    if let Some(m) = field_failure(object, "layout", &ReadKind::Object, path, top) {
        return fail(m);
    }
    let layout_obj = object_field(object, "layout");
    let mut layout_reads_v = Vec::new();
    layout_reads_v.push(read("world_size", ReadKind::U64));
    layout_reads_v.push(read("parallelism", ReadKind::Object));
    assert(reads_view(layout_reads_v@) =~= layout_reads());
    if let Err(m) = check_reads(&layout_obj, &layout_reads_v, path, "simulation layout") {
        return fail(m);
    }
    assert(reads_view(layout_reads_v@)[0].0 == "world_size"@);
    assert(reads_view(layout_reads_v@)[1].0 == "parallelism"@);
    let par_obj = object_field(&layout_obj, "parallelism");
    let mut par_reads = Vec::new();
    par_reads.push(read("dp", ReadKind::U64));
    par_reads.push(read("tp", ReadKind::U64));
    par_reads.push(read("pp", ReadKind::U64));
    par_reads.push(read("sp_cp", ReadKind::U64));
    par_reads.push(read("ep", ReadKind::U64));
    par_reads.push(read("gas", ReadKind::U64));
    par_reads.push(read("microbatch_size", ReadKind::U64));
    par_reads.push(read("zero_stage", ReadKind::U64));
    assert(reads_view(par_reads@) =~= parallelism_reads());
    if let Err(m) = check_reads(&par_obj, &par_reads, path, "simulation parallelism") {
        return fail(m);
    }
    proof {
        let pv = reads_view(par_reads@);
        assert(pv[0].0 == "dp"@);
        assert(pv[1].0 == "tp"@);
        assert(pv[2].0 == "pp"@);
        assert(pv[3].0 == "sp_cp"@);
        assert(pv[4].0 == "ep"@);
        assert(pv[5].0 == "gas"@);
        assert(pv[6].0 == "microbatch_size"@);
        assert(pv[7].0 == "zero_stage"@);
    }
    let layout = Layout {
        world_size: u64_field(&layout_obj, "world_size"),
        parallelism: LayoutParallelism {
            dp: u64_field(&par_obj, "dp"),
            tp: u64_field(&par_obj, "tp"),
            pp: u64_field(&par_obj, "pp"),
            sp_cp: u64_field(&par_obj, "sp_cp"),
            ep: u64_field(&par_obj, "ep"),
            gas: u64_field(&par_obj, "gas"),
            microbatch_size: u64_field(&par_obj, "microbatch_size"),
            zero_stage: u64_field(&par_obj, "zero_stage"),
        },
    };
    if let Some(m) = field_failure(object, "lifecycle_messages", &ReadKind::Array, path, top) {
        return fail(m);
    }
    let msg_items = array_field(object, "lifecycle_messages");
    let mut msg_reads = Vec::new();
    msg_reads.push(read("direction", ReadKind::Str));
    msg_reads.push(read("kind", ReadKind::Str));
    msg_reads.push(read("job_id", ReadKind::Str));
    msg_reads.push(read("lease_id", ReadKind::Str));
    assert(reads_view(msg_reads@) =~= message_reads());
    let not_obj_msgs = crate::text::cat3("simulation scenario `", path, "` lifecycle_messages must contain only objects");
    if let Err(m) = check_items(&msg_items, &msg_reads, path, "simulation lifecycle message", not_obj_msgs.as_str()) {
        return fail(m);
    }
    let ghost mi = crate::json::items_view(msg_items@);
    let mut lifecycle_messages: Vec<LifecycleMessage> = Vec::new();
    let mut i: usize = 0;
    while i < msg_items.len()
        invariant
            mi == crate::json::items_view(msg_items@),
            reads_view(msg_reads@) == message_reads(),
            i <= msg_items.len(),
            lifecycle_messages.len() == i,
            forall|j: int| 0 <= j < msg_items.len() ==> (#[trigger] msg_items[j])@ is Object && first_read_failure(
                msg_items[j]@->Object_0, reads_view(msg_reads@), path@, "simulation lifecycle message"@) is None,
            forall|j: int| 0 <= j < i ==> (#[trigger] lifecycle_messages[j])@ == message_of(mi[j]->Object_0),
        decreases msg_items.len() - i,
    {
        match &msg_items[i] {
            JsonValue::Object(es) => {
                proof {
                    crate::json::lemma_object_view(*es);
                    let ev = entries_view(es@);
                    let rs = message_reads();
                    lemma_reads_ok(ev, rs, path@, "simulation lifecycle message"@, 0);
                    lemma_reads_ok(ev, rs, path@, "simulation lifecycle message"@, 1);
                    lemma_reads_ok(ev, rs, path@, "simulation lifecycle message"@, 2);
                    lemma_reads_ok(ev, rs, path@, "simulation lifecycle message"@, 3);
                }
                lifecycle_messages.push(message_from(es));
            },
            _ => {
                proof {
                    assert(false);
                }
            },
        }
        i += 1;
    }
    if let Some(m) = field_failure(object, "checkpoint_restart", &ReadKind::Object, path, top) {
        return fail(m);
    }
    let cr_obj = object_field(object, "checkpoint_restart");
    let mut cr_reads = Vec::new();
    cr_reads.push(read("checkpoint_group", ReadKind::Str));
    cr_reads.push(read("restart_after_kind", ReadKind::Str));
    cr_reads.push(read("expected_resume_kind", ReadKind::Str));
    assert(reads_view(cr_reads@) =~= checkpoint_reads());
    if let Err(m) = check_reads(&cr_obj, &cr_reads, path, "simulation checkpoint_restart") {
        return fail(m);
    }
    assert(reads_view(cr_reads@)[0].0 == "checkpoint_group"@);
    assert(reads_view(cr_reads@)[1].0 == "restart_after_kind"@);
    assert(reads_view(cr_reads@)[2].0 == "expected_resume_kind"@);
    let checkpoint_restart = CheckpointRestart {
        checkpoint_group: str_field(&cr_obj, "checkpoint_group"),
        restart_after_kind: str_field(&cr_obj, "restart_after_kind"),
        expected_resume_kind: str_field(&cr_obj, "expected_resume_kind"),
    };
    if let Some(m) = field_failure(object, "artifact_plan", &ReadKind::Array, path, top) {
        return fail(m);
    }
    let plan_items = array_field(object, "artifact_plan");
    let mut plan_reads = Vec::new();
    plan_reads.push(read("kind", ReadKind::Str));
    plan_reads.push(read("event", ReadKind::Str));
    plan_reads.push(read("path", ReadKind::Str));
    plan_reads.push(read("after_kind", ReadKind::Str));
    assert(reads_view(plan_reads@) =~= plan_item_reads());
    let not_obj_plan = crate::text::cat3("simulation scenario `", path, "` artifact_plan must contain only objects");
    if let Err(m) = check_items(&plan_items, &plan_reads, path, "simulation artifact_plan item", not_obj_plan.as_str()) {
        return fail(m);
    }
    let ghost pi = crate::json::items_view(plan_items@);
    let mut artifact_plan: Vec<ArtifactPlanItem> = Vec::new();
    let mut k: usize = 0;
    while k < plan_items.len()
        invariant
            pi == crate::json::items_view(plan_items@),
            reads_view(plan_reads@) == plan_item_reads(),
            k <= plan_items.len(),
            artifact_plan.len() == k,
            forall|j: int| 0 <= j < plan_items.len() ==> (#[trigger] plan_items[j])@ is Object && first_read_failure(
                plan_items[j]@->Object_0, reads_view(plan_reads@), path@, "simulation artifact_plan item"@) is None,
            forall|j: int| 0 <= j < k ==> (#[trigger] artifact_plan[j])@ == plan_item_of(pi[j]->Object_0),
        decreases plan_items.len() - k,
    {
        match &plan_items[k] {
            JsonValue::Object(es) => {
                proof {
                    crate::json::lemma_object_view(*es);
                    let ev = entries_view(es@);
                    let rs = plan_item_reads();
                    lemma_reads_ok(ev, rs, path@, "simulation artifact_plan item"@, 0);
                    lemma_reads_ok(ev, rs, path@, "simulation artifact_plan item"@, 1);
                    lemma_reads_ok(ev, rs, path@, "simulation artifact_plan item"@, 2);
                    lemma_reads_ok(ev, rs, path@, "simulation artifact_plan item"@, 3);
                }
                artifact_plan.push(plan_item_from(es));
            },
            _ => {
                proof {
                    assert(false);
                }
            },
        }
        k += 1;
    }
    let s = SimulationScenario {
        schema_version: str_field(object, "schema_version"),
        scenario_name: str_field(object, "scenario_name"),
        inventory,
        lease,
        layout,
        lifecycle_messages,
        checkpoint_restart,
        artifact_plan,
    };
    assert(s@.messages =~= scenario_of(o).messages);
    assert(s@.artifact_plan =~= scenario_of(o).artifact_plan);
    Ok(s)
}

/// scheduler/runtime simulation scenario `PATH` followed by what is wrong
pub open spec fn validation_message(path: Seq<char>, rest: Seq<char>) -> Seq<char> {
    "scheduler/runtime simulation scenario `"@ + path + rest
}

/// Why a scenario that was read cannot be simulated, if it cannot.
pub open spec fn validation_failure(s: ScenarioView, path: Seq<char>) -> Option<Seq<char>> {
    if s.schema_version != "1"@ {
        Some(validation_message(path, "` must use schema_version `1`"@))
    } else if s.messages.len() == 0 {
        Some(validation_message(path, "` must contain at least one lifecycle message"@))
    } else if exists|i: int|
        0 <= i < s.messages.len() && ((#[trigger] s.messages[i]).job_id != s.lease.job_id
            || s.messages[i].lease_id != s.lease.lease_id) {
        Some(validation_message(path, "` lifecycle messages must match lease job_id and lease_id"@))
    } else {
        None
    }
}

/// Checks that the scenario can be simulated: schema `1`, at least one
/// lifecycle message, and every message for the lease's job and lease.
pub fn validate_scenario(scenario: &SimulationScenario, path: &str) -> (r: Result<(), CommandError>)
    ensures
        match validation_failure(scenario@, path@) {
            Some(m) => r matches Err(CommandError::Parse(x)) && x@ == m,
            None => r is Ok,
        },
{
    if !text_eq(scenario.schema_version.as_str(), "1") {
        return Err(
            CommandError::Parse(
                cat3(
                    "scheduler/runtime simulation scenario `",
                    path,
                    "` must use schema_version `1`",
                ),
            ),
        );
    }
    if scenario.lifecycle_messages.len() == 0 {
        return Err(
            CommandError::Parse(
                cat3(
                    "scheduler/runtime simulation scenario `",
                    path,
                    "` must contain at least one lifecycle message",
                ),
            ),
        );
    }
    let ghost s = scenario@;
    let mut i: usize = 0;
    while i < scenario.lifecycle_messages.len()
        invariant
            s == scenario@,
            s.schema_version == "1"@,
            s.messages.len() > 0,
            i <= scenario.lifecycle_messages.len(),
            forall|j: int|
                0 <= j < i ==> (#[trigger] s.messages[j]).job_id == s.lease.job_id
                    && s.messages[j].lease_id == s.lease.lease_id,
        decreases scenario.lifecycle_messages.len() - i,
    {
        let m = &scenario.lifecycle_messages[i];
        assert(s.messages[i as int] == m@);
        if !text_eq(m.job_id.as_str(), scenario.lease.job_id.as_str()) || !text_eq(
            m.lease_id.as_str(),
            scenario.lease.lease_id.as_str(),
        ) {
            assert(s.messages[i as int].job_id != s.lease.job_id || s.messages[i as int].lease_id
                != s.lease.lease_id);
            assert(validation_failure(s, path@) == Some(
                validation_message(path@, "` lifecycle messages must match lease job_id and lease_id"@),
            ));
            return Err(
                CommandError::Parse(
                    cat3(
                        "scheduler/runtime simulation scenario `",
                        path,
                        "` lifecycle messages must match lease job_id and lease_id",
                    ),
                ),
            );
        }
        i += 1;
    }
    Ok(())
}

/// Whether a message of this direction and kind belongs to the protocol.
pub open spec fn accepted_spec(direction: Seq<char>, kind: Seq<char>) -> bool {
    ||| direction == "scheduler_to_runtime"@ && (kind == "START"@ || kind == "STOP"@ || kind
        == "KILL"@)
    ||| direction == "runtime_to_scheduler"@ && (kind == "READY"@ || kind == "CHECKPOINTED"@
        || kind == "FAILED"@ || kind == "HEARTBEAT"@)
}

pub open spec fn message_entry(i: int, m: MessageView) -> Json {
    object_of(
        seq![
            ("step_index"@, Json::UInt(i as u64)),
            ("direction"@, Json::Str(m.direction)),
            ("kind"@, Json::Str(m.kind)),
            ("accepted"@, Json::Bool(accepted_spec(m.direction, m.kind))),
        ],
    )
}

/// The lifecycle report: each message with its step and whether it is
/// accepted, and the kind of the last message (`UNKNOWN` when none).
pub open spec fn lifecycle_spec(msgs: Seq<MessageView>) -> Json {
    object_of(
        seq![
            ("messages"@, Json::Array(Seq::new(msgs.len(), |i: int| message_entry(i, msgs[i])))),
            ("final_kind"@, Json::Str(
                if msgs.len() == 0 {
                    "UNKNOWN"@
                } else {
                    msgs.last().kind
                },
            )),
        ],
    )
}

fn is_accepted(direction: &str, kind: &str) -> (r: bool)
    ensures
        r == accepted_spec(direction@, kind@),
{
    proof {
        reveal_strlit("scheduler_to_runtime");
        reveal_strlit("runtime_to_scheduler");
        assert("scheduler_to_runtime"@[0] != "runtime_to_scheduler"@[0]);
    }
    if text_eq(direction, "scheduler_to_runtime") {
        text_eq(kind, "START") || text_eq(kind, "STOP") || text_eq(kind, "KILL")
    } else if text_eq(direction, "runtime_to_scheduler") {
        text_eq(kind, "READY") || text_eq(kind, "CHECKPOINTED") || text_eq(kind, "FAILED")
            || text_eq(kind, "HEARTBEAT")
    } else {
        false
    }
}

pub open spec fn messages_view(v: Seq<LifecycleMessage>) -> Seq<MessageView> {
    Seq::new(v.len(), |i: int| v[i]@)
}

/// Reports each lifecycle message with its step and whether the protocol
/// accepts it, and the kind of the last message.
pub fn lifecycle_report(scenario: &SimulationScenario) -> (r: JsonValue)
    ensures
        r@ == lifecycle_spec(scenario@.messages),
{
    let msgs = &scenario.lifecycle_messages;
    let ghost mv = scenario@.messages;
    let mut entries: Vec<JsonValue> = Vec::new();
    let mut i: usize = 0;
    while i < msgs.len()
        invariant
            mv == scenario@.messages,
            mv.len() == msgs.len(),
            forall|j: int| 0 <= j < msgs.len() ==> mv[j] == (#[trigger] msgs[j])@,
            i <= msgs.len(),
            entries.len() == i,
            forall|j: int| 0 <= j < i ==> (#[trigger] entries[j])@ == message_entry(j, mv[j]),
        decreases msgs.len() - i,
    {
        let m = &msgs[i];
        let mut pairs: Vec<(String, JsonValue)> = Vec::new();
        pairs.push((owned("step_index"), JsonValue::UInt(i as u64)));
        pairs.push((owned("direction"), JsonValue::Str(m.direction.clone())));
        pairs.push((owned("kind"), JsonValue::Str(m.kind.clone())));
        pairs.push(
            (owned("accepted"), JsonValue::Bool(is_accepted(m.direction.as_str(), m.kind.as_str()))),
        );
        assert(entries_view(pairs@) =~= seq![
            ("step_index"@, Json::UInt(i as u64)),
            ("direction"@, Json::Str(mv[i as int].direction)),
            ("kind"@, Json::Str(mv[i as int].kind)),
            ("accepted"@, Json::Bool(accepted_spec(mv[i as int].direction, mv[i as int].kind))),
        ]);
        entries.push(object_from_pairs(pairs));
        i += 1;
    }
    let final_kind = if msgs.len() == 0 {
        owned("UNKNOWN")
    } else {
        msgs[msgs.len() - 1].kind.clone()
    };
    let mut pairs: Vec<(String, JsonValue)> = Vec::new();
    let ghost ev = items_view(entries@);
    pairs.push((owned("messages"), JsonValue::Array(entries)));
    pairs.push((owned("final_kind"), JsonValue::Str(final_kind)));
    proof {
        lemma_array_view(entries);
        assert(ev =~= Seq::new(mv.len(), |i: int| message_entry(i, mv[i])));
    }
    assert(entries_view(pairs@) =~= seq![
        ("messages"@, Json::Array(Seq::new(mv.len(), |i: int| message_entry(i, mv[i])))),
        ("final_kind"@, Json::Str(
            if mv.len() == 0 {
                "UNKNOWN"@
            } else {
                mv.last().kind
            },
        )),
    ]);
    object_from_pairs(pairs)
}

/// The lease state that a message of `kind` moves the lease to from `cur`.
pub open spec fn next_state(cur: Seq<char>, kind: Seq<char>) -> Seq<char> {
    if kind == "START"@ {
        "leased"@
    } else if kind == "READY"@ || kind == "HEARTBEAT"@ {
        "running"@
    } else if kind == "CHECKPOINTED"@ {
        "checkpointed"@
    } else if kind == "FAILED"@ {
        "failed"@
    } else if kind == "STOP"@ || kind == "KILL"@ {
        "stopped"@
    } else {
        cur
    }
}

/// The lease state after the first `n` messages; a lease starts `pending`.
pub open spec fn state_after(msgs: Seq<MessageView>, n: nat) -> Seq<char>
    decreases n,
{
    if n == 0 {
        "pending"@
    } else {
        next_state(state_after(msgs, (n - 1) as nat), msgs[n - 1].kind)
    }
}

pub open spec fn transition_entry(msgs: Seq<MessageView>, i: int) -> Json {
    object_of(
        seq![
            ("step_index"@, Json::UInt(i as u64)),
            ("trigger_kind"@, Json::Str(msgs[i].kind)),
            ("from_state"@, Json::Str(state_after(msgs, i as nat))),
            ("to_state"@, Json::Str(state_after(msgs, (i + 1) as nat))),
        ],
    )
}

/// One transition per message, from the state before it to the state
/// after it.
pub open spec fn transitions_spec(msgs: Seq<MessageView>) -> Json {
    Json::Array(Seq::new(msgs.len(), |i: int| transition_entry(msgs, i)))
}

fn next_lease_state(cur: &str, kind: &str) -> (r: String)
    ensures
        r@ == next_state(cur@, kind@),
{
    if text_eq(kind, "START") {
        owned("leased")
    } else if text_eq(kind, "READY") || text_eq(kind, "HEARTBEAT") {
        owned("running")
    } else if text_eq(kind, "CHECKPOINTED") {
        owned("checkpointed")
    } else if text_eq(kind, "FAILED") {
        owned("failed")
    } else if text_eq(kind, "STOP") || text_eq(kind, "KILL") {
        owned("stopped")
    } else {
        owned(cur)
    }
}

/// Walks the lease through the lifecycle messages and reports each
/// transition.
pub fn lease_transitions(scenario: &SimulationScenario) -> (r: JsonValue)
    ensures
        r@ == transitions_spec(scenario@.messages),
{
    let msgs = &scenario.lifecycle_messages;
    let ghost mv = scenario@.messages;
    let mut current = owned("pending");
    let mut entries: Vec<JsonValue> = Vec::new();
    let mut i: usize = 0;
    while i < msgs.len()
        invariant
            mv == scenario@.messages,
            mv.len() == msgs.len(),
            forall|j: int| 0 <= j < msgs.len() ==> mv[j] == (#[trigger] msgs[j])@,
            i <= msgs.len(),
            current@ == state_after(mv, i as nat),
            entries.len() == i,
            forall|j: int| 0 <= j < i ==> (#[trigger] entries[j])@ == transition_entry(mv, j),
        decreases msgs.len() - i,
    {
        let m = &msgs[i];
        let next = next_lease_state(current.as_str(), m.kind.as_str());
        let mut pairs: Vec<(String, JsonValue)> = Vec::new();
        pairs.push((owned("step_index"), JsonValue::UInt(i as u64)));
        pairs.push((owned("trigger_kind"), JsonValue::Str(m.kind.clone())));
        pairs.push((owned("from_state"), JsonValue::Str(current)));
        pairs.push((owned("to_state"), JsonValue::Str(next.clone())));
        assert(entries_view(pairs@) =~= seq![
            ("step_index"@, Json::UInt(i as u64)),
            ("trigger_kind"@, Json::Str(mv[i as int].kind)),
            ("from_state"@, Json::Str(state_after(mv, i as nat))),
            ("to_state"@, Json::Str(state_after(mv, (i + 1) as nat))),
        ]);
        entries.push(object_from_pairs(pairs));
        current = next;
        i += 1;
    }
    proof {
        lemma_array_view(entries);
        assert(items_view(entries@) =~= Seq::new(mv.len(), |i: int| transition_entry(mv, i)));
    }
    JsonValue::Array(entries)
}

/// Each transition starts where the one before it ended, and the first
/// starts from `pending`.
pub proof fn lemma_transitions_chain(msgs: Seq<MessageView>, i: int)
    requires
        0 <= i < msgs.len(),
    ensures
        transition_entry(msgs, i) == object_of(
            seq![
                ("step_index"@, Json::UInt(i as u64)),
                ("trigger_kind"@, Json::Str(msgs[i].kind)),
                ("from_state"@, Json::Str(state_after(msgs, i as nat))),
                ("to_state"@, Json::Str(next_state(state_after(msgs, i as nat), msgs[i].kind))),
            ],
        ),
        i == 0 ==> state_after(msgs, i as nat) == "pending"@,
        i + 1 < msgs.len() ==> state_after(msgs, (i + 1) as nat) == next_state(
            state_after(msgs, i as nat),
            msgs[i].kind,
        ),
{
}

proof fn lemma_transition_fields(msgs: Seq<MessageView>, i: int)
    requires
        0 <= i < msgs.len(),
    ensures
        transition_entry(msgs, i).field("trigger_kind"@) == Some(Json::Str(msgs[i].kind)),
        transition_entry(msgs, i).field("from_state"@) == Some(Json::Str(state_after(msgs, i as nat))),
        transition_entry(msgs, i).field("to_state"@) == Some(
            Json::Str(state_after(msgs, (i + 1) as nat)),
        ),
{
    let pairs = seq![
        ("step_index"@, Json::UInt(i as u64)),
        ("trigger_kind"@, Json::Str(msgs[i].kind)),
        ("from_state"@, Json::Str(state_after(msgs, i as nat))),
        ("to_state"@, Json::Str(state_after(msgs, (i + 1) as nat))),
    ];
    crate::json::lemma_object_of_field(pairs, "trigger_kind"@);
    crate::json::lemma_object_of_field(pairs, "from_state"@);
    crate::json::lemma_object_of_field(pairs, "to_state"@);
    reveal_strlit("step_index");
    reveal_strlit("trigger_kind");
    reveal_strlit("from_state");
    reveal_strlit("to_state");
    assert("to_state"@ != "from_state"@) by {
        assert("to_state"@[0] != "from_state"@[0]);
    }
    assert("to_state"@ != "trigger_kind"@) by {
        assert("to_state"@.len() != "trigger_kind"@.len());
    }
    assert("from_state"@ != "trigger_kind"@) by {
        assert("from_state"@[0] != "trigger_kind"@[0]);
    }
    let p1 = pairs.drop_last();
    let p2 = p1.drop_last();
    assert(pairs.last().0 == "to_state"@);
    assert(p1.last().0 == "from_state"@);
    assert(p2.last().0 == "trigger_kind"@);
    assert(crate::json::last_pair_value(pairs, "from_state"@) == crate::json::last_pair_value(p1, "from_state"@));
    assert(crate::json::last_pair_value(p1, "from_state"@) == Some(Json::Str(state_after(msgs, i as nat))));
    assert(crate::json::last_pair_value(pairs, "trigger_kind"@) == crate::json::last_pair_value(p1, "trigger_kind"@));
    assert(crate::json::last_pair_value(p1, "trigger_kind"@) == crate::json::last_pair_value(p2, "trigger_kind"@));
    assert(crate::json::last_pair_value(p2, "trigger_kind"@) == Some(Json::Str(msgs[i].kind)));
}

/// The lease report has one transition per message, in order. Each starts
/// where the one before it ended (the first from `pending`) and ends where
/// its message leads: `STOP` and `KILL` stop the lease whatever its state,
/// `START` leases it, `READY` and `HEARTBEAT` run it, `CHECKPOINTED` and
/// `FAILED` put it in those states, and any other message leaves it as it
/// was.
pub proof fn law_lease_transitions(msgs: Seq<MessageView>, i: int)
    requires
        0 <= i < msgs.len(),
    ensures
        transitions_spec(msgs)->Array_0.len() == msgs.len(),
        transitions_spec(msgs)->Array_0[i].field("trigger_kind"@) == Some(Json::Str(msgs[i].kind)),
        i == 0 ==> transitions_spec(msgs)->Array_0[i].field("from_state"@) == Some(
            Json::Str("pending"@),
        ),
        i > 0 ==> transitions_spec(msgs)->Array_0[i].field("from_state"@)
            == transitions_spec(msgs)->Array_0[i - 1].field("to_state"@),
        msgs[i].kind == "STOP"@ || msgs[i].kind == "KILL"@ ==> transitions_spec(msgs)->Array_0[i].field(
            "to_state"@,
        ) == Some(Json::Str("stopped"@)),
        msgs[i].kind == "START"@ ==> transitions_spec(msgs)->Array_0[i].field("to_state"@) == Some(
            Json::Str("leased"@),
        ),
        msgs[i].kind == "READY"@ || msgs[i].kind == "HEARTBEAT"@ ==> transitions_spec(
            msgs,
        )->Array_0[i].field("to_state"@) == Some(Json::Str("running"@)),
        msgs[i].kind == "CHECKPOINTED"@ ==> transitions_spec(msgs)->Array_0[i].field("to_state"@)
            == Some(Json::Str("checkpointed"@)),
        msgs[i].kind == "FAILED"@ ==> transitions_spec(msgs)->Array_0[i].field("to_state"@) == Some(
            Json::Str("failed"@),
        ),
        !(msgs[i].kind == "STOP"@ || msgs[i].kind == "KILL"@ || msgs[i].kind == "START"@
            || msgs[i].kind == "READY"@ || msgs[i].kind == "HEARTBEAT"@ || msgs[i].kind
            == "CHECKPOINTED"@ || msgs[i].kind == "FAILED"@) ==> transitions_spec(msgs)->Array_0[i].field(
            "to_state"@,
        ) == transitions_spec(msgs)->Array_0[i].field("from_state"@),
{
    lemma_transition_fields(msgs, i);
    if i > 0 {
        lemma_transition_fields(msgs, i - 1);
    }
    let k = msgs[i].kind;
    assert(state_after(msgs, (i + 1) as nat) == next_state(state_after(msgs, i as nat), k));
    reveal_strlit("START");
    reveal_strlit("READY");
    reveal_strlit("HEARTBEAT");
    reveal_strlit("CHECKPOINTED");
    reveal_strlit("FAILED");
    reveal_strlit("STOP");
    reveal_strlit("KILL");
    assert("STOP"@ != "START"@) by {
        assert("STOP"@.len() != "START"@.len());
    }
    assert("KILL"@ != "START"@) by {
        assert("KILL"@.len() != "START"@.len());
    }
    assert("STOP"@ != "READY"@) by {
        assert("STOP"@.len() != "READY"@.len());
    }
    assert("KILL"@ != "READY"@) by {
        assert("KILL"@.len() != "READY"@.len());
    }
    assert("READY"@ != "START"@) by {
        assert("READY"@[0] != "START"@[0]);
    }
    assert("HEARTBEAT"@ != "START"@) by {
        assert("HEARTBEAT"@.len() != "START"@.len());
    }
    assert("CHECKPOINTED"@ != "START"@) by {
        assert("CHECKPOINTED"@.len() != "START"@.len());
    }
    assert("FAILED"@ != "START"@) by {
        assert("FAILED"@.len() != "START"@.len());
    }
    assert("CHECKPOINTED"@ != "READY"@) by {
        assert("CHECKPOINTED"@.len() != "READY"@.len());
    }
    assert("CHECKPOINTED"@ != "HEARTBEAT"@) by {
        assert("CHECKPOINTED"@.len() != "HEARTBEAT"@.len());
    }
    assert("FAILED"@ != "READY"@) by {
        assert("FAILED"@.len() != "READY"@.len());
    }
    assert("FAILED"@ != "HEARTBEAT"@) by {
        assert("FAILED"@.len() != "HEARTBEAT"@.len());
    }
    assert("FAILED"@ != "CHECKPOINTED"@) by {
        assert("FAILED"@.len() != "CHECKPOINTED"@.len());
    }
    assert("STOP"@ != "HEARTBEAT"@) by {
        assert("STOP"@.len() != "HEARTBEAT"@.len());
    }
    assert("KILL"@ != "HEARTBEAT"@) by {
        assert("KILL"@.len() != "HEARTBEAT"@.len());
    }
    assert("STOP"@ != "CHECKPOINTED"@) by {
        assert("STOP"@.len() != "CHECKPOINTED"@.len());
    }
    assert("KILL"@ != "CHECKPOINTED"@) by {
        assert("KILL"@.len() != "CHECKPOINTED"@.len());
    }
    assert("STOP"@ != "FAILED"@) by {
        assert("STOP"@.len() != "FAILED"@.len());
    }
    assert("KILL"@ != "FAILED"@) by {
        assert("KILL"@.len() != "FAILED"@.len());
    }
}

/// A check of a report, with its name, verdict and detail.
pub open spec fn check_spec(name: Seq<char>, passed: bool, detail: Seq<char>) -> Json {
    object_of(
        seq![
            ("name"@, Json::Str(name)),
            ("passed"@, Json::Bool(passed)),
            ("detail"@, Json::Str(detail)),
        ],
    )
}

fn check_entry(name: &str, passed: bool, detail: String) -> (r: JsonValue)
    ensures
        r@ == check_spec(name@, passed, detail@),
{
    let mut pairs: Vec<(String, JsonValue)> = Vec::new();
    pairs.push((owned("name"), JsonValue::Str(owned(name))));
    pairs.push((owned("passed"), JsonValue::Bool(passed)));
    pairs.push((owned("detail"), JsonValue::Str(detail)));
    assert(entries_view(pairs@) =~= seq![
        ("name"@, Json::Str(name@)),
        ("passed"@, Json::Bool(passed)),
        ("detail"@, Json::Str(detail@)),
    ]);
    object_from_pairs(pairs)
}

/// Whether the GPU total and the parallelism product of the layout can be
/// computed in 64 bits, each partial product included.
pub open spec fn products_fit(s: ScenarioView) -> bool {
    let p = s.layout.parallelism;
    &&& s.inventory.node_count * s.inventory.gpus_per_node <= u64::MAX
    &&& p.dp * p.tp <= u64::MAX
    &&& p.dp * p.tp * p.pp <= u64::MAX
    &&& p.dp * p.tp * p.pp * p.sp_cp <= u64::MAX
    &&& p.dp * p.tp * p.pp * p.sp_cp * p.ep <= u64::MAX
}

/// Whether the layout's products fit in 64 bits.
pub fn layout_products_fit(scenario: &SimulationScenario) -> (r: bool)
    ensures
        r == products_fit(scenario@),
{
    let p = &scenario.layout.parallelism;
    let a = scenario.inventory.node_count.checked_mul(scenario.inventory.gpus_per_node);
    let b = p.dp.checked_mul(p.tp);
    match (a, b) {
        (Some(_), Some(b)) => match b.checked_mul(p.pp) {
            Some(c) => match c.checked_mul(p.sp_cp) {
                Some(d) => d.checked_mul(p.ep).is_some(),
                None => false,
            },
            None => false,
        },
        _ => false,
    }
}

pub open spec fn total_gpus(s: ScenarioView) -> nat {
    (s.inventory.node_count * s.inventory.gpus_per_node) as nat
}

pub open spec fn parallelism_product(s: ScenarioView) -> nat {
    let p = s.layout.parallelism;
    (p.dp * p.tp * p.pp * p.sp_cp * p.ep) as nat
}

/// The four layout checks, in order, as name, verdict and detail.
pub open spec fn layout_checks(s: ScenarioView) -> Seq<(Seq<char>, bool, Seq<char>)> {
    let ws = s.layout.world_size;
    let gpus = s.lease.gpu_ids.len();
    let nodes = s.lease.node_ids.len();
    seq![
        ("available_gpus_cover_world_size"@, total_gpus(s) >= ws, "available_gpus="@ + decimal(
            total_gpus(s),
        ) + " world_size="@ + decimal(ws as nat)),
        ("world_size_matches_parallelism_product"@, ws == parallelism_product(s), "world_size="@
            + decimal(ws as nat) + " parallelism_product="@ + decimal(parallelism_product(s))),
        ("lease_gpu_count_covers_world_size"@, gpus >= ws, "lease_gpu_count="@ + decimal(gpus)
            + " world_size="@ + decimal(ws as nat)),
        ("lease_node_count_covers_inventory"@, nodes > 0 && nodes <= s.inventory.node_count,
        "lease_node_count="@ + decimal(nodes) + " inventory_node_count="@ + decimal(
            s.inventory.node_count as nat,
        )),
    ]
}

/// A layout is feasible when every one of its checks passes.
pub open spec fn layout_feasible(s: ScenarioView) -> bool {
    forall|i: int| 0 <= i < layout_checks(s).len() ==> (#[trigger] layout_checks(s)[i]).1
}

pub open spec fn parallelism_json(p: LayoutParallelism) -> Json {
    object_of(
        seq![
            ("dp"@, Json::UInt(p.dp)),
            ("tp"@, Json::UInt(p.tp)),
            ("pp"@, Json::UInt(p.pp)),
            ("sp_cp"@, Json::UInt(p.sp_cp)),
            ("ep"@, Json::UInt(p.ep)),
            ("gas"@, Json::UInt(p.gas)),
            ("microbatch_size"@, Json::UInt(p.microbatch_size)),
            ("zero_stage"@, Json::UInt(p.zero_stage)),
        ],
    )
}

/// The layout report: the inventory, the layout, the checks and whether
/// all of them pass.
pub open spec fn layout_spec(s: ScenarioView) -> Json {
    let cs = layout_checks(s);
    object_of(
        seq![
            ("schema_version"@, Json::Str("1"@)),
            ("node_count"@, Json::UInt(s.inventory.node_count)),
            ("gpus_per_node"@, Json::UInt(s.inventory.gpus_per_node)),
            ("world_size"@, Json::UInt(s.layout.world_size)),
            ("parallelism"@, parallelism_json(s.layout.parallelism)),
            ("feasible"@, Json::Bool(layout_feasible(s))),
            ("checks"@, Json::Array(Seq::new(cs.len(), |i: int| check_spec(cs[i].0, cs[i].1, cs[i].2)))),
        ],
    )
}

/// A layout is feasible exactly when the inventory's GPUs cover the world
/// size, the world size is the product of the degrees of parallelism, the
/// lease holds at least as many GPUs as the world size, and it holds at
/// least one node and no more than the inventory has.
pub proof fn lemma_layout_feasible(s: ScenarioView)
    ensures
        layout_feasible(s) <==> {
            &&& total_gpus(s) >= s.layout.world_size
            &&& s.layout.world_size == parallelism_product(s)
            &&& s.lease.gpu_ids.len() >= s.layout.world_size
            &&& s.lease.node_ids.len() > 0
            &&& s.lease.node_ids.len() <= s.inventory.node_count
        },
{
    let cs = layout_checks(s);
    if layout_feasible(s) {
        assert(cs[0].1);
        assert(cs[1].1);
        assert(cs[2].1);
        assert(cs[3].1);
    }
}

/// Checks that the inventory and the lease can hold the layout.
pub fn layout_feasibility(scenario: &SimulationScenario) -> (r: JsonValue)
    requires
        products_fit(scenario@),
    ensures
        r@ == layout_spec(scenario@),
{
    let ghost s = scenario@;
    let inv = &scenario.inventory;
    let p = &scenario.layout.parallelism;
    let ws = scenario.layout.world_size;
    let total = inv.node_count * inv.gpus_per_node;
    let d1 = p.dp * p.tp;
    let d2 = d1 * p.pp;
    let d3 = d2 * p.sp_cp;
    let product = d3 * p.ep;
    let gpus = scenario.lease.gpu_ids.len();
    let nodes = scenario.lease.node_ids.len();
    let ghost cs = layout_checks(s);
    let c0 = check_entry(
        "available_gpus_cover_world_size",
        total >= ws,
        cat4("available_gpus=", decimal_text(total).as_str(), " world_size=", decimal_text(ws).as_str()),
    );
    let c1 = check_entry(
        "world_size_matches_parallelism_product",
        ws == product,
        cat4(
            "world_size=",
            decimal_text(ws).as_str(),
            " parallelism_product=",
            decimal_text(product).as_str(),
        ),
    );
    let c2 = check_entry(
        "lease_gpu_count_covers_world_size",
        gpus as u64 >= ws,
        cat4("lease_gpu_count=", decimal_text(gpus as u64).as_str(), " world_size=", decimal_text(ws).as_str()),
    );
    let c3 = check_entry(
        "lease_node_count_covers_inventory",
        nodes > 0 && nodes as u64 <= inv.node_count,
        cat4(
            "lease_node_count=",
            decimal_text(nodes as u64).as_str(),
            " inventory_node_count=",
            decimal_text(inv.node_count).as_str(),
        ),
    );
    let feasible = total >= ws && ws == product && gpus as u64 >= ws && nodes > 0 && nodes as u64
        <= inv.node_count;
    proof {
        lemma_layout_feasible(s);
    }
    let mut checks: Vec<JsonValue> = Vec::new();
    checks.push(c0);
    checks.push(c1);
    checks.push(c2);
    checks.push(c3);
    proof {
        lemma_array_view(checks);
        assert(items_view(checks@) =~= Seq::new(
            cs.len(),
            |i: int| check_spec(cs[i].0, cs[i].1, cs[i].2),
        ));
    }
    let mut par: Vec<(String, JsonValue)> = Vec::new();
    par.push((owned("dp"), JsonValue::UInt(p.dp)));
    par.push((owned("tp"), JsonValue::UInt(p.tp)));
    par.push((owned("pp"), JsonValue::UInt(p.pp)));
    par.push((owned("sp_cp"), JsonValue::UInt(p.sp_cp)));
    par.push((owned("ep"), JsonValue::UInt(p.ep)));
    par.push((owned("gas"), JsonValue::UInt(p.gas)));
    par.push((owned("microbatch_size"), JsonValue::UInt(p.microbatch_size)));
    par.push((owned("zero_stage"), JsonValue::UInt(p.zero_stage)));
    assert(entries_view(par@) =~= seq![
        ("dp"@, Json::UInt(p.dp)),
        ("tp"@, Json::UInt(p.tp)),
        ("pp"@, Json::UInt(p.pp)),
        ("sp_cp"@, Json::UInt(p.sp_cp)),
        ("ep"@, Json::UInt(p.ep)),
        ("gas"@, Json::UInt(p.gas)),
        ("microbatch_size"@, Json::UInt(p.microbatch_size)),
        ("zero_stage"@, Json::UInt(p.zero_stage)),
    ]);
    let ghost checks_json = Json::Array(items_view(checks@));
    let mut pairs: Vec<(String, JsonValue)> = Vec::new();
    pairs.push((owned("schema_version"), JsonValue::Str(owned("1"))));
    pairs.push((owned("node_count"), JsonValue::UInt(inv.node_count)));
    pairs.push((owned("gpus_per_node"), JsonValue::UInt(inv.gpus_per_node)));
    pairs.push((owned("world_size"), JsonValue::UInt(ws)));
    pairs.push((owned("parallelism"), object_from_pairs(par)));
    pairs.push((owned("feasible"), JsonValue::Bool(feasible)));
    pairs.push((owned("checks"), JsonValue::Array(checks)));
    assert(entries_view(pairs@) =~= seq![
        ("schema_version"@, Json::Str("1"@)),
        ("node_count"@, Json::UInt(s.inventory.node_count)),
        ("gpus_per_node"@, Json::UInt(s.inventory.gpus_per_node)),
        ("world_size"@, Json::UInt(s.layout.world_size)),
        ("parallelism"@, parallelism_json(s.layout.parallelism)),
        ("feasible"@, Json::Bool(layout_feasible(s))),
        ("checks"@, Json::Array(Seq::new(cs.len(), |i: int| check_spec(cs[i].0, cs[i].1, cs[i].2)))),
    ]);
    object_from_pairs(pairs)
}

/// The first step at or after `from` whose message has kind `kind`.
pub open spec fn find_kind(msgs: Seq<MessageView>, kind: Seq<char>, from: int) -> Option<int>
    decreases msgs.len() - from,
{
    if from < 0 || from >= msgs.len() {
        None
    } else if msgs[from].kind == kind {
        Some(from)
    } else {
        find_kind(msgs, kind, from + 1)
    }
}

/// A step found by `find_kind` has the kind asked for, lies at or after
/// `from`, and no step between `from` and it has that kind.
pub proof fn lemma_find_kind(msgs: Seq<MessageView>, kind: Seq<char>, from: int)
    requires
        0 <= from,
    ensures
        match find_kind(msgs, kind, from) {
            Some(i) => from <= i < msgs.len() && msgs[i].kind == kind && forall|j: int|
                from <= j < i ==> (#[trigger] msgs[j]).kind != kind,
            None => forall|j: int| from <= j < msgs.len() ==> (#[trigger] msgs[j]).kind != kind,
        },
    decreases msgs.len() - from,
{
    if from < msgs.len() && msgs[from].kind != kind {
        lemma_find_kind(msgs, kind, from + 1);
    }
}

fn find_kind_from(msgs: &Vec<LifecycleMessage>, kind: &str, from: usize) -> (r: Option<usize>)
    requires
        from <= msgs.len(),
    ensures
        match r {
            Some(i) => find_kind(messages_view(msgs@), kind@, from as int) == Some(i as int),
            None => find_kind(messages_view(msgs@), kind@, from as int) is None,
        },
{
    let ghost mv = messages_view(msgs@);
    let mut i = from;
    while i < msgs.len()
        invariant
            mv == messages_view(msgs@),
            from <= i <= msgs.len(),
            find_kind(mv, kind@, from as int) == find_kind(mv, kind@, i as int),
        decreases msgs.len() - i,
    {
        if text_eq(msgs[i].kind.as_str(), kind) {
            return Some(i);
        }
        i += 1;
    }
    None
}

pub open spec fn restart_index(s: ScenarioView) -> Option<int> {
    match find_kind(s.messages, s.checkpoint_restart.restart_after_kind, 0) {
        Some(i) => find_kind(s.messages, "START"@, i + 1),
        None => None,
    }
}

pub open spec fn resume_index(s: ScenarioView) -> Option<int> {
    match restart_index(s) {
        Some(i) => find_kind(s.messages, s.checkpoint_restart.expected_resume_kind, i + 1),
        None => None,
    }
}

/// The checkpoint/restart report: whether the checkpoint kind was seen,
/// whether the lease permits a restart (`cooperative` checkpoints), whether
/// a `START` followed the checkpoint and whether the expected resume kind
/// followed that restart.
pub open spec fn checkpoint_spec(s: ScenarioView) -> Json {
    let cr = s.checkpoint_restart;
    let observed = find_kind(s.messages, cr.restart_after_kind, 0) is Some;
    let permitted = s.lease.checkpoint_mode == "cooperative"@;
    let restarted = restart_index(s) is Some;
    let resumed = resume_index(s) is Some;
    object_of(
        seq![
            ("checkpoint_group"@, Json::Str(cr.checkpoint_group)),
            ("checkpointed_observed"@, Json::Bool(observed)),
            ("restart_permitted"@, Json::Bool(permitted)),
            ("restart_observed"@, Json::Bool(restarted)),
            ("expected_resume_kind"@, Json::Str(cr.expected_resume_kind)),
            ("expected_resume_observed"@, Json::Bool(resumed)),
            ("checks"@, Json::Array(
                seq![
                    check_spec(
                        "checkpointed_observed"@,
                        observed,
                        "restart_after_kind="@ + cr.restart_after_kind,
                    ),
                    check_spec(
                        "restart_permitted"@,
                        permitted,
                        "checkpoint_mode="@ + s.lease.checkpoint_mode,
                    ),
                    check_spec("restart_observed"@, restarted, "observed a START after checkpoint"@),
                    check_spec(
                        "expected_resume_observed"@,
                        resumed,
                        "expected_resume_kind="@ + cr.expected_resume_kind,
                    ),
                ],
            )),
        ],
    )
}

/// Looks for the checkpoint, a restart after it and the expected resume
/// after the restart.
pub fn checkpoint_restart_report(scenario: &SimulationScenario) -> (r: JsonValue)
    ensures
        r@ == checkpoint_spec(scenario@),
{
    let ghost s = scenario@;
    let msgs = &scenario.lifecycle_messages;
    let cr = &scenario.checkpoint_restart;
    assert(messages_view(msgs@) =~= s.messages);
    let cp = find_kind_from(msgs, cr.restart_after_kind.as_str(), 0);
    let restart = match cp {
        Some(i) => if i < msgs.len() {
            find_kind_from(msgs, "START", i + 1)
        } else {
            None
        },
        None => None,
    };
    proof {
        if let Some(i) = cp {
            lemma_find_kind(s.messages, cr.restart_after_kind@, 0);
        }
    }
    let resume = match restart {
        Some(i) => if i < msgs.len() {
            find_kind_from(msgs, cr.expected_resume_kind.as_str(), i + 1)
        } else {
            None
        },
        None => None,
    };
    proof {
        if let Some(i) = restart {
            lemma_find_kind(s.messages, "START"@, find_kind(s.messages, cr.restart_after_kind@, 0)->Some_0 + 1);
        }
    }
    let observed = cp.is_some();
    let permitted = text_eq(scenario.lease.checkpoint_mode.as_str(), "cooperative");
    let restarted = restart.is_some();
    let resumed = resume.is_some();
    let mut checks: Vec<JsonValue> = Vec::new();
    checks.push(
        check_entry(
            "checkpointed_observed",
            observed,
            cat("restart_after_kind=", cr.restart_after_kind.as_str()),
        ),
    );
    checks.push(
        check_entry(
            "restart_permitted",
            permitted,
            cat("checkpoint_mode=", scenario.lease.checkpoint_mode.as_str()),
        ),
    );
    checks.push(
        check_entry("restart_observed", restarted, owned("observed a START after checkpoint")),
    );
    checks.push(
        check_entry(
            "expected_resume_observed",
            resumed,
            cat("expected_resume_kind=", cr.expected_resume_kind.as_str()),
        ),
    );
    proof {
        lemma_array_view(checks);
    }
    let ghost checks_view = items_view(checks@);
    let mut pairs: Vec<(String, JsonValue)> = Vec::new();
    pairs.push((owned("checkpoint_group"), JsonValue::Str(cr.checkpoint_group.clone())));
    pairs.push((owned("checkpointed_observed"), JsonValue::Bool(observed)));
    pairs.push((owned("restart_permitted"), JsonValue::Bool(permitted)));
    pairs.push((owned("restart_observed"), JsonValue::Bool(restarted)));
    pairs.push((owned("expected_resume_kind"), JsonValue::Str(cr.expected_resume_kind.clone())));
    pairs.push((owned("expected_resume_observed"), JsonValue::Bool(resumed)));
    pairs.push((owned("checks"), JsonValue::Array(checks)));
    assert(checks_view =~= seq![
        check_spec("checkpointed_observed"@, observed, "restart_after_kind="@ + cr.restart_after_kind@),
        check_spec("restart_permitted"@, permitted, "checkpoint_mode="@ + s.lease.checkpoint_mode),
        check_spec("restart_observed"@, restarted, "observed a START after checkpoint"@),
        check_spec("expected_resume_observed"@, resumed, "expected_resume_kind="@ + cr.expected_resume_kind@),
    ]);
    assert(entries_view(pairs@) =~= seq![
        ("checkpoint_group"@, Json::Str(cr.checkpoint_group@)),
        ("checkpointed_observed"@, Json::Bool(observed)),
        ("restart_permitted"@, Json::Bool(permitted)),
        ("restart_observed"@, Json::Bool(restarted)),
        ("expected_resume_kind"@, Json::Str(cr.expected_resume_kind@)),
        ("expected_resume_observed"@, Json::Bool(resumed)),
        ("checks"@, Json::Array(checks_view)),
    ]);
    object_from_pairs(pairs)
}

/// The step after which a planned artifact is emitted: the first message
/// of its `after_kind`.
pub open spec fn emission_step(s: ScenarioView, item: PlanItemView) -> Option<int> {
    find_kind(s.messages, item.after_kind, 0)
}

pub open spec fn plan_entry(s: ScenarioView, item: PlanItemView) -> Json {
    object_of(
        seq![
            ("kind"@, Json::Str(item.kind)),
            ("event"@, Json::Str(item.event)),
            ("path"@, Json::Str(item.path)),
            ("after_kind"@, Json::Str(item.after_kind)),
            ("emitted"@, Json::Bool(emission_step(s, item) is Some)),
            ("emitted_after_step"@, match emission_step(s, item) {
                Some(i) => Json::UInt(i as u64),
                None => Json::Null,
            }),
        ],
    )
}

/// Every planned artifact is emitted.
pub open spec fn all_emitted(s: ScenarioView) -> bool {
    forall|i: int|
        0 <= i < s.artifact_plan.len() ==> (#[trigger] emission_step(s, s.artifact_plan[i])) is Some
}

/// The artifact report: each planned artifact, whether and after which
/// step it is emitted, and whether all are.
pub open spec fn emission_spec(s: ScenarioView) -> Json {
    object_of(
        seq![
            ("expected"@, Json::Array(
                Seq::new(s.artifact_plan.len(), |i: int| plan_entry(s, s.artifact_plan[i])),
            )),
            ("all_expected_emitted"@, Json::Bool(all_emitted(s))),
        ],
    )
}

/// Finds, for each planned artifact, the step after which it is emitted.
pub fn artifact_emission_report(scenario: &SimulationScenario) -> (r: JsonValue)
    ensures
        r@ == emission_spec(scenario@),
{
    let ghost s = scenario@;
    let msgs = &scenario.lifecycle_messages;
    let plan = &scenario.artifact_plan;
    assert(messages_view(msgs@) =~= s.messages);
    let mut entries: Vec<JsonValue> = Vec::new();
    let mut all = true;
    let mut i: usize = 0;
    while i < plan.len()
        invariant
            s == scenario@,
            messages_view(msgs@) == s.messages,
            s.artifact_plan.len() == plan.len(),
            forall|j: int| 0 <= j < plan.len() ==> s.artifact_plan[j] == (#[trigger] plan[j])@,
            i <= plan.len(),
            entries.len() == i,
            forall|j: int| 0 <= j < i ==> (#[trigger] entries[j])@ == plan_entry(s, s.artifact_plan[j]),
            all == forall|j: int|
                0 <= j < i ==> (#[trigger] emission_step(s, s.artifact_plan[j])) is Some,
        decreases plan.len() - i,
    {
        let item = &plan[i];
        let ghost iv = s.artifact_plan[i as int];
        assert(iv == item@);
        let step = find_kind_from(msgs, item.after_kind.as_str(), 0);
        let mut pairs: Vec<(String, JsonValue)> = Vec::new();
        pairs.push((owned("kind"), JsonValue::Str(item.kind.clone())));
        pairs.push((owned("event"), JsonValue::Str(item.event.clone())));
        pairs.push((owned("path"), JsonValue::Str(item.path.clone())));
        pairs.push((owned("after_kind"), JsonValue::Str(item.after_kind.clone())));
        pairs.push((owned("emitted"), JsonValue::Bool(step.is_some())));
        let at = match step {
            Some(k) => JsonValue::UInt(k as u64),
            None => JsonValue::Null,
        };
        pairs.push((owned("emitted_after_step"), at));
        assert(entries_view(pairs@) =~= seq![
            ("kind"@, Json::Str(iv.kind)),
            ("event"@, Json::Str(iv.event)),
            ("path"@, Json::Str(iv.path)),
            ("after_kind"@, Json::Str(iv.after_kind)),
            ("emitted"@, Json::Bool(emission_step(s, iv) is Some)),
            ("emitted_after_step"@, match emission_step(s, iv) {
                Some(i) => Json::UInt(i as u64),
                None => Json::Null,
            }),
        ]);
        entries.push(object_from_pairs(pairs));
        all = all && step.is_some();
        i += 1;
    }
    proof {
        lemma_array_view(entries);
        assert(items_view(entries@) =~= Seq::new(
            s.artifact_plan.len(),
            |i: int| plan_entry(s, s.artifact_plan[i]),
        ));
    }
    let mut pairs: Vec<(String, JsonValue)> = Vec::new();
    let ghost ev = items_view(entries@);
    pairs.push((owned("expected"), JsonValue::Array(entries)));
    pairs.push((owned("all_expected_emitted"), JsonValue::Bool(all)));
    assert(entries_view(pairs@) =~= seq![
        ("expected"@, Json::Array(ev)),
        ("all_expected_emitted"@, Json::Bool(all_emitted(s))),
    ]);
    object_from_pairs(pairs)
}

/// The scenario in a parsed document: it must be an object whose fields
/// can be read.
pub fn load_scenario(document: &JsonValue, path: &str) -> (r: Result<SimulationScenario, CommandError>)
    ensures
        match document@ {
            Json::Object(o) => match scenario_failure(o, path@) {
                Some(m) => r matches Err(CommandError::Parse(x)) && x@ == m,
                None => r matches Ok(s) && s@ == scenario_of(o),
            },
            _ => r matches Err(CommandError::Parse(x)) && x@ == validation_message(
                path@,
                "` must be an object"@,
            ),
        },
{
    match document {
        JsonValue::Object(entries) => {
            proof {
                crate::json::lemma_object_view(*entries);
            }
            simulation_scenario_from_object(entries, path)
        },
        _ => Err(
            CommandError::Parse(
                cat3("scheduler/runtime simulation scenario `", path, "` must be an object"),
            ),
        ),
    }
}

/// The simulation report of a scenario.
pub open spec fn report_spec(args: SimulationArgsView, s: ScenarioView) -> Json {
    object_of(
        seq![
            ("schema_version"@, Json::Str("1"@)),
            ("scenario_name"@, Json::Str(s.scenario_name)),
            ("scenario_path"@, Json::Str(args.scenario)),
            ("tick_count"@, Json::UInt(s.messages.len() as u64)),
            ("scheduler_lifecycle"@, lifecycle_spec(s.messages)),
            ("lease_transitions"@, transitions_spec(s.messages)),
            ("layout_feasibility"@, layout_spec(s)),
            ("checkpoint_restart"@, checkpoint_spec(s)),
            ("artifact_emission"@, emission_spec(s)),
        ],
    )
}

/// Simulates the scenario and builds its report.
pub fn simulation_report(args: &SimulationArgs, scenario: &SimulationScenario) -> (r: JsonValue)
    requires
        products_fit(scenario@),
    ensures
        r@ == report_spec(args@, scenario@),
{
    let ghost s = scenario@;
    let lifecycle = lifecycle_report(scenario);
    let transitions = lease_transitions(scenario);
    let layout = layout_feasibility(scenario);
    let checkpoint = checkpoint_restart_report(scenario);
    let emission = artifact_emission_report(scenario);
    let mut pairs: Vec<(String, JsonValue)> = Vec::new();
    pairs.push((owned("schema_version"), JsonValue::Str(owned("1"))));
    pairs.push((owned("scenario_name"), JsonValue::Str(scenario.scenario_name.clone())));
    pairs.push((owned("scenario_path"), JsonValue::Str(args.scenario.clone())));
    pairs.push(
        (owned("tick_count"), JsonValue::UInt(scenario.lifecycle_messages.len() as u64)),
    );
    pairs.push((owned("scheduler_lifecycle"), lifecycle));
    pairs.push((owned("lease_transitions"), transitions));
    pairs.push((owned("layout_feasibility"), layout));
    pairs.push((owned("checkpoint_restart"), checkpoint));
    pairs.push((owned("artifact_emission"), emission));
    assert(entries_view(pairs@) =~= seq![
        ("schema_version"@, Json::Str("1"@)),
        ("scenario_name"@, Json::Str(s.scenario_name)),
        ("scenario_path"@, Json::Str(args@.scenario)),
        ("tick_count"@, Json::UInt(s.messages.len() as u64)),
        ("scheduler_lifecycle"@, lifecycle_spec(s.messages)),
        ("lease_transitions"@, transitions_spec(s.messages)),
        ("layout_feasibility"@, layout_spec(s)),
        ("checkpoint_restart"@, checkpoint_spec(s)),
        ("artifact_emission"@, emission_spec(s)),
    ]);
    object_from_pairs(pairs)
}

} // verus!
