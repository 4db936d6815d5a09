use vstd::prelude::*;
use crate::cli::{
    empty_message, last_number, last_number_of, last_text, last_text_of, missing_arg,
    missing_message, opt_view, require_arg, require_filled, require_non_empty, rule, rules_view,
    scan, scan_args, texts_view, FlagRule, InlineForm, RuleSpec, ValueKind,
};
use crate::fields::{
    check_reads, first_read_failure, json_outcome, outcome, read, reads_view, str_field, str_of,
    u64_field, u64_of, value_field, value_of, CommandError, Failure, ReadKind,
};
use crate::fields::{or_else, push_opt_str, with_opt_str};
use crate::json::{entries_get, entries_view, object_from_pairs, object_of, Json, JsonValue};
use crate::text::{is_blank, owned, trimmed};
use crate::json::{items_view, lemma_array_view, lemma_object_view, map_get, text_eq};
use crate::text::{blank, cat, cat3, cat4};
use vstd::string::StringExecFns;

verus! {

/// The arguments of `deploy single-node-scheduler`.
#[derive(Debug, PartialEq, Eq)]
pub struct SchedulerArgs {
    pub job_path: String,
    pub inventory_path: String,
    pub out_lease: String,
    pub out_unit: String,
}

pub struct SchedulerArgsView {
    pub job_path: Seq<char>,
    pub inventory_path: Seq<char>,
    pub out_lease: Seq<char>,
    pub out_unit: Seq<char>,
}

impl View for SchedulerArgs {
    type V = SchedulerArgsView;

    open spec fn view(&self) -> SchedulerArgsView {
        SchedulerArgsView {
            job_path: self.job_path@,
            inventory_path: self.inventory_path@,
            out_lease: self.out_lease@,
            out_unit: self.out_unit@,
        }
    }
}

pub open spec fn usage_text() -> Seq<char> {
    "usage: afterburner deploy single-node-scheduler --job PATH --inventory PATH [--out-lease PATH] [--out-unit PATH]"@
}

pub fn usage() -> (r: &'static str)
    ensures
        r@ == usage_text(),
{
    "usage: afterburner deploy single-node-scheduler --job PATH --inventory PATH [--out-lease PATH] [--out-unit PATH]"
}

pub open spec fn rules_spec() -> Seq<RuleSpec> {
    seq![
        RuleSpec { name: "--job"@, kind: ValueKind::Text, inline: InlineForm::StripAll },
        RuleSpec { name: "--inventory"@, kind: ValueKind::Text, inline: InlineForm::StripAll },
        RuleSpec { name: "--out-lease"@, kind: ValueKind::Text, inline: InlineForm::StripAll },
        RuleSpec { name: "--out-unit"@, kind: ValueKind::Text, inline: InlineForm::StripAll },
    ]
}

fn rules() -> (r: Vec<FlagRule>)
    ensures
        rules_view(r@) == rules_spec(),
{
    let mut r = Vec::new();
    r.push(rule("--job", ValueKind::Text, InlineForm::StripAll));
    r.push(rule("--inventory", ValueKind::Text, InlineForm::StripAll));
    r.push(rule("--out-lease", ValueKind::Text, InlineForm::StripAll));
    r.push(rule("--out-unit", ValueKind::Text, InlineForm::StripAll));
    assert(rules_view(r@) =~= rules_spec());
    r
}

/// The arguments that the command line gives, or why it is refused.
pub open spec fn parse_args_spec(args: Seq<Seq<char>>) -> Result<SchedulerArgsView, Failure> {
    match scan(rules_spec(), args, "deploy single-node-scheduler"@, usage_text()) {
        Err(m) => Err(Failure::InvalidArg(m)),
        Ok(a) => {
            match last_text(a, 0) {
                None => Err(Failure::InvalidArg(missing_message("--job"@, usage_text()))),
                Some(v_job_path) => {
                    match last_text(a, 1) {
                        None => Err(Failure::InvalidArg(missing_message("--inventory"@, usage_text()))),
                        Some(v_inventory_path) => {
                            Ok(SchedulerArgsView {
                                job_path: v_job_path,
                                inventory_path: v_inventory_path,
                                out_lease: match last_text(a, 2) { Some(p) => p, None => "artifacts/deploy/gpu_scheduler_lease.json"@ },
                                out_unit: match last_text(a, 3) { Some(p) => p, None => "artifacts/deploy/afterburner-job.service"@ },
                            })
                        }
                    }
                }
            }
        },
    }
}

pub fn parse_args(args: &Vec<String>) -> (r: Result<SchedulerArgs, CommandError>)
    ensures
        outcome(r) == parse_args_spec(texts_view(args@)),
{
    let rules = rules();
    let a = match scan_args(&rules, args, "deploy single-node-scheduler", usage()) {
        Ok(a) => a,
        Err(m) => {
            return Err(CommandError::InvalidArg(m));
        },
    };
    let job_path = match require_arg(last_text_of(&a, 0), "--job", usage()) {
        Ok(v) => v,
        Err(m) => {
            return Err(CommandError::InvalidArg(m));
        },
    };
    let inventory_path = match require_arg(last_text_of(&a, 1), "--inventory", usage()) {
        Ok(v) => v,
        Err(m) => {
            return Err(CommandError::InvalidArg(m));
        },
    };
    let out_lease = match last_text_of(&a, 2) {
        Some(s) => s,
        None => owned("artifacts/deploy/gpu_scheduler_lease.json"),
    };
    let out_unit = match last_text_of(&a, 3) {
        Some(s) => s,
        None => owned("artifacts/deploy/afterburner-job.service"),
    };
    Ok(SchedulerArgs { job_path, inventory_path, out_lease, out_unit })
}

/// A request to run one job on this node.
#[derive(Debug, PartialEq, Eq)]
pub struct JobRequest {
    pub job_id: String,
    pub priority: u64,
    pub gpu_count: u64,
    pub checkpoint_mode: String,
    pub working_directory: String,
    pub exec_start: String,
}

pub struct JobView {
    pub job_id: Seq<char>,
    pub priority: u64,
    pub gpu_count: u64,
    pub checkpoint_mode: Seq<char>,
    pub working_directory: Seq<char>,
    pub exec_start: Seq<char>,
}

impl View for JobRequest {
    type V = JobView;

    open spec fn view(&self) -> JobView {
        JobView {
            job_id: self.job_id@,
            priority: self.priority,
            gpu_count: self.gpu_count,
            checkpoint_mode: self.checkpoint_mode@,
            working_directory: self.working_directory@,
            exec_start: self.exec_start@,
        }
    }
}

/// A GPU of the node and its state.
#[derive(Debug, PartialEq, Eq)]
pub struct GpuEntry {
    pub gpu_id: String,
    pub state: String,
}

pub struct GpuView {
    pub gpu_id: Seq<char>,
    pub state: Seq<char>,
}

impl View for GpuEntry {
    type V = GpuView;

    open spec fn view(&self) -> GpuView {
        GpuView { gpu_id: self.gpu_id@, state: self.state@ }
    }
}

/// The node and its GPUs.
#[derive(Debug, PartialEq, Eq)]
pub struct Inventory {
    pub node_id: String,
    pub gpus: Vec<GpuEntry>,
}

pub struct InventoryView {
    pub node_id: Seq<char>,
    pub gpus: Seq<GpuView>,
}

pub open spec fn gpus_view(v: Seq<GpuEntry>) -> Seq<GpuView> {
    Seq::new(v.len(), |i: int| v[i]@)
}

impl View for Inventory {
    type V = InventoryView;

    open spec fn view(&self) -> InventoryView {
        InventoryView { node_id: self.node_id@, gpus: gpus_view(self.gpus@) }
    }
}

/// The non-blank string under `key`, or the message that there is none.
pub open spec fn filled_field(o: Seq<(Seq<char>, Json)>, key: Seq<char>, path: Seq<char>) -> Result<
    Seq<char>,
    Seq<char>,
> {
    match entries_get(o, key) {
        Some(Json::Str(s)) => if is_blank(s) {
            Err(path + " must define non-empty string field `"@ + key + "`"@)
        } else {
            Ok(s)
        },
        _ => Err(path + " must define non-empty string field `"@ + key + "`"@),
    }
}

/// The integer under `key`, or the message that there is none.
pub open spec fn count_field(o: Seq<(Seq<char>, Json)>, key: Seq<char>, path: Seq<char>) -> Result<
    u64,
    Seq<char>,
> {
    match entries_get(o, key) {
        Some(Json::UInt(n)) => Ok(n),
        _ => Err(path + " must define non-negative integer field `"@ + key + "`"@),
    }
}

/// Why `schema_version` is not `1`, if it is not.
pub open spec fn schema_failure(o: Seq<(Seq<char>, Json)>, path: Seq<char>) -> Option<Seq<char>> {
    match filled_field(o, "schema_version"@, path) {
        Err(m) => Some(m),
        Ok(v) => if v == "1"@ {
            None
        } else {
            Some(path + " field `schema_version` must be `1`, got `"@ + v + "`"@)
        },
    }
}

/// The job request that a parsed document holds, or why it is refused.
pub open spec fn job_spec(doc: Json, path: Seq<char>) -> Result<JobView, Seq<char>> {
    match doc {
        Json::Object(o) => match schema_failure(o, path) {
            Some(m) => Err(m),
            None => match (
                filled_field(o, "job_id"@, path),
                count_field(o, "priority"@, path),
                count_field(o, "gpu_count"@, path),
                filled_field(o, "checkpoint_mode"@, path),
            ) {
                (Err(m), _, _, _) => Err(m),
                (Ok(_), Err(m), _, _) => Err(m),
                (Ok(_), Ok(_), Err(m), _) => Err(m),
                (Ok(_), Ok(_), Ok(_), Err(m)) => Err(m),
                (Ok(id), Ok(priority), Ok(gpus), Ok(mode)) => if mode != "cooperative"@ && mode
                    != "none"@ {
                    Err(path + " field `checkpoint_mode` must be `cooperative` or `none`"@)
                } else {
                    match (
                        filled_field(o, "working_directory"@, path),
                        filled_field(o, "exec_start"@, path),
                    ) {
                        (Err(m), _) => Err(m),
                        (Ok(_), Err(m)) => Err(m),
                        (Ok(wd), Ok(exec)) => Ok(
                            JobView {
                                job_id: id,
                                priority,
                                gpu_count: gpus,
                                checkpoint_mode: mode,
                                working_directory: wd,
                                exec_start: exec,
                            },
                        ),
                    }
                },
            },
        },
        _ => Err("job request must be an object"@),
    }
}

fn read_filled(o: &Vec<(String, JsonValue)>, key: &str, path: &str) -> (r: Result<String, String>)
    ensures
        match filled_field(entries_view(o@), key@, path@) {
            Ok(s) => r matches Ok(x) && x@ == s,
            Err(m) => r matches Err(x) && x@ == m,
        },
{
    match map_get(o, key) {
        Some(JsonValue::Str(s)) => if blank(s.as_str()) {
            Err(cat4(path, " must define non-empty string field `", key, "`"))
        } else {
            Ok(s.clone())
        },
        _ => Err(cat4(path, " must define non-empty string field `", key, "`")),
    }
}

fn read_count(o: &Vec<(String, JsonValue)>, key: &str, path: &str) -> (r: Result<u64, String>)
    ensures
        match count_field(entries_view(o@), key@, path@) {
            Ok(n) => r matches Ok(x) && x == n,
            Err(m) => r matches Err(x) && x@ == m,
        },
{
    match map_get(o, key) {
        Some(JsonValue::UInt(n)) => Ok(*n),
        _ => Err(cat4(path, " must define non-negative integer field `", key, "`")),
    }
}

fn check_schema(o: &Vec<(String, JsonValue)>, path: &str) -> (r: Result<(), String>)
    ensures
        match schema_failure(entries_view(o@), path@) {
            None => r is Ok,
            Some(m) => r matches Err(x) && x@ == m,
        },
{
    let v = read_filled(o, "schema_version", path)?;
    if text_eq(v.as_str(), "1") {
        Ok(())
    } else {
        Err(cat4(path, " field `schema_version` must be `1`, got `", v.as_str(), "`"))
    }
}

fn parse_error<T>(m: String) -> (r: Result<T, CommandError>)
    ensures
        r matches Err(CommandError::Parse(x)) && x@ == m@,
{
    Err(CommandError::Parse(m))
}

/// Reads the job request from its parsed document.
pub fn load_job(document: &JsonValue, path: &str) -> (r: Result<JobRequest, CommandError>)
    ensures
        match job_spec(document@, path@) {
            Ok(j) => r matches Ok(x) && x@ == j,
            Err(m) => r matches Err(CommandError::Parse(x)) && x@ == m,
        },
{
    let o = match document {
        JsonValue::Object(o) => o,
        _ => {
            return parse_error(owned("job request must be an object"));
        },
    };
    proof {
        lemma_object_view(*o);
    }
    if let Err(m) = check_schema(o, path) {
        return parse_error(m);
    }
    let job_id = match read_filled(o, "job_id", path) {
        Ok(v) => v,
        Err(m) => {
            return parse_error(m);
        },
    };
    let priority = match read_count(o, "priority", path) {
        Ok(v) => v,
        Err(m) => {
            return parse_error(m);
        },
    };
    let gpu_count = match read_count(o, "gpu_count", path) {
        Ok(v) => v,
        Err(m) => {
            return parse_error(m);
        },
    };
    let checkpoint_mode = match read_filled(o, "checkpoint_mode", path) {
        Ok(v) => v,
        Err(m) => {
            return parse_error(m);
        },
    };
    if !text_eq(checkpoint_mode.as_str(), "cooperative") && !text_eq(
        checkpoint_mode.as_str(),
        "none",
    ) {
        return parse_error(
            cat(path, " field `checkpoint_mode` must be `cooperative` or `none`"),
        );
    }
    let working_directory = match read_filled(o, "working_directory", path) {
        Ok(v) => v,
        Err(m) => {
            return parse_error(m);
        },
    };
    let exec_start = match read_filled(o, "exec_start", path) {
        Ok(v) => v,
        Err(m) => {
            return parse_error(m);
        },
    };
    Ok(JobRequest { job_id, priority, gpu_count, checkpoint_mode, working_directory, exec_start })
}

/// The GPU entries in order, or the message of the first one that cannot
/// be read.
pub open spec fn gpus_spec(items: Seq<Json>, path: Seq<char>) -> Result<Seq<GpuView>, Seq<char>>
    decreases items.len(),
{
    if items.len() == 0 {
        Ok(Seq::empty())
    } else {
        match items[0] {
            Json::Object(e) => match (filled_field(e, "gpu_id"@, path), filled_field(e, "state"@, path)) {
                (Err(m), _) => Err(m),
                (Ok(_), Err(m)) => Err(m),
                (Ok(id), Ok(state)) => match gpus_spec(items.drop_first(), path) {
                    Err(m) => Err(m),
                    Ok(rest) => Ok(seq![GpuView { gpu_id: id, state }] + rest),
                },
            },
            _ => Err(path + " gpu entries must be objects"@),
        }
    }
}

/// The inventory that a parsed document holds, or why it is refused.
pub open spec fn inventory_spec(doc: Json, path: Seq<char>) -> Result<InventoryView, Seq<char>> {
    match doc {
        Json::Object(o) => match schema_failure(o, path) {
            Some(m) => Err(m),
            None => match filled_field(o, "node_id"@, path) {
                Err(m) => Err(m),
                Ok(node) => match entries_get(o, "gpus"@) {
                    Some(Json::Array(items)) => match gpus_spec(items, path) {
                        Err(m) => Err(m),
                        Ok(gpus) => Ok(InventoryView { node_id: node, gpus }),
                    },
                    _ => Err(path + " must define array field `gpus`"@),
                },
            },
        },
        _ => Err("gpu inventory must be an object"@),
    }
}

pub open spec fn prepend_gpus(acc: Seq<GpuView>, r: Result<Seq<GpuView>, Seq<char>>) -> Result<
    Seq<GpuView>,
    Seq<char>,
> {
    match r {
        Ok(rest) => Ok(acc + rest),
        Err(m) => Err(m),
    }
}

/// Reads the GPU inventory from its parsed document.
pub fn load_inventory(document: &JsonValue, path: &str) -> (r: Result<Inventory, CommandError>)
    ensures
        match inventory_spec(document@, path@) {
            Ok(v) => r matches Ok(x) && x@ == v,
            Err(m) => r matches Err(CommandError::Parse(x)) && x@ == m,
        },
{
    let o = match document {
        JsonValue::Object(o) => o,
        _ => {
            return parse_error(owned("gpu inventory must be an object"));
        },
    };
    proof {
        lemma_object_view(*o);
    }
    if let Err(m) = check_schema(o, path) {
        return parse_error(m);
    }
    let node_id = match read_filled(o, "node_id", path) {
        Ok(v) => v,
        Err(m) => {
            return parse_error(m);
        },
    };
    let items = match map_get(o, "gpus") {
        Some(JsonValue::Array(items)) => items,
        _ => {
            return parse_error(cat(path, " must define array field `gpus`"));
        },
    };
    proof {
        lemma_array_view(*items);
    }
    let ghost iv = items_view(items@);
    let ghost whole = gpus_spec(iv, path@);
    let mut gpus: Vec<GpuEntry> = Vec::new();
    let mut i: usize = 0;
    assert(iv.skip(0) =~= iv);
    assert(gpus_view(gpus@) =~= Seq::<GpuView>::empty());
    while i < items.len()
        invariant
            iv == items_view(items@),
            whole == gpus_spec(iv, path@),
            match inventory_spec(document@, path@) {
                Ok(v) => whole matches Ok(g) && v == InventoryView { node_id: node_id@, gpus: g },
                Err(m) => whole == Err::<Seq<GpuView>, Seq<char>>(m),
            },
            i <= items.len(),
            whole == prepend_gpus(gpus_view(gpus@), gpus_spec(iv.skip(i as int), path@)),
        decreases items.len() - i,
    {
        let ghost rest = iv.skip(i as int);
        assert(rest.drop_first() =~= iv.skip(i + 1));
        assert(rest[0] == items[i as int]@);
        let e = match &items[i] {
            JsonValue::Object(e) => e,
            _ => {
                return parse_error(cat(path, " gpu entries must be objects"));
            },
        };
        proof {
            lemma_object_view(*e);
        }
        let gpu_id = match read_filled(e, "gpu_id", path) {
            Ok(v) => v,
            Err(m) => {
                return parse_error(m);
            },
        };
        let state = match read_filled(e, "state", path) {
            Ok(v) => v,
            Err(m) => {
                return parse_error(m);
            },
        };
        let ghost before = gpus_view(gpus@);
        let ghost here = seq![GpuView { gpu_id: gpu_id@, state: state@ }];
        gpus.push(GpuEntry { gpu_id, state });
        proof {
            assert(gpus_view(gpus@) =~= before + here);
            match gpus_spec(iv.skip(i + 1), path@) {
                Ok(tail) => {
                    assert(before + (here + tail) =~= (before + here) + tail);
                },
                Err(_) => {},
            }
        }
        i += 1;
    }
    assert(iv.skip(i as int) =~= Seq::<Json>::empty());
    assert(gpus_view(gpus@) + Seq::<GpuView>::empty() =~= gpus_view(gpus@));
    Ok(Inventory { node_id, gpus })
}

/// The first free GPU of the inventory.
pub open spec fn first_free(gpus: Seq<GpuView>, from: int) -> Option<int>
    decreases gpus.len() - from,
{
    if from < 0 || from >= gpus.len() {
        None
    } else if gpus[from].state == "free"@ {
        Some(from)
    } else {
        first_free(gpus, from + 1)
    }
}

/// The systemd unit that runs the job on the leased GPU.
pub open spec fn unit_text(job: JobView, lease_id: Seq<char>, gpu_id: Seq<char>) -> Seq<char> {
    "[Unit]\nDescription=Afterburner job "@ + job.job_id
        + "\nAfter=network.target\n\n[Service]\nType=simple\nWorkingDirectory="@
        + job.working_directory + "\nEnvironment=AFTERBURNER_JOB_ID="@ + job.job_id
        + "\nEnvironment=AFTERBURNER_LEASE_ID="@ + lease_id + "\nEnvironment=AFTERBURNER_GPU_IDS="@
        + gpu_id + "\nExecStart="@ + job.exec_start
        + "\nKillSignal=SIGTERM\nTimeoutStopSec=30\n\n[Install]\nWantedBy=default.target\n"@
}

/// The lease of the GPU for the job.
pub open spec fn lease_json(job: JobView, node_id: Seq<char>, gpu_id: Seq<char>) -> Json {
    object_of(
        seq![
            ("schema_version"@, Json::Str("1"@)),
            ("job_id"@, Json::Str(job.job_id)),
            ("lease_id"@, Json::Str("lease-"@ + job.job_id)),
            ("node_id"@, Json::Str(node_id)),
            ("gpu_ids"@, Json::Array(seq![Json::Str(gpu_id)])),
            ("priority"@, Json::UInt(job.priority)),
            ("checkpoint_mode"@, Json::Str(job.checkpoint_mode)),
            ("service_unit"@, Json::Str("afterburner-"@ + job.job_id + ".service"@)),
        ],
    )
}

/// The lease and the unit for a job, or why it cannot be scheduled: only
/// single-GPU jobs are supported, and the first free GPU is leased.
pub open spec fn schedule_spec(job: JobView, inv: InventoryView) -> Result<(Json, Seq<char>), Seq<char>> {
    if job.gpu_count != 1 {
        Err("single-node scheduler currently supports gpu_count = 1 only"@)
    } else {
        match first_free(inv.gpus, 0) {
            None => Err("no free gpu available"@),
            Some(i) => Ok(
                (
                    lease_json(job, inv.node_id, inv.gpus[i].gpu_id),
                    unit_text(job, "lease-"@ + job.job_id, inv.gpus[i].gpu_id),
                ),
            ),
        }
    }
}

proof fn lemma_first_free(gpus: Seq<GpuView>, from: int)
    requires
        0 <= from <= gpus.len(),
    ensures
        match first_free(gpus, from) {
            Some(k) => from <= k < gpus.len() && gpus[k].state == "free"@ && forall|j: int|
                from <= j < k ==> gpus[j].state != "free"@,
            None => forall|j: int| from <= j < gpus.len() ==> gpus[j].state != "free"@,
        },
    decreases gpus.len() - from,
{
    if from < gpus.len() && gpus[from].state != "free"@ {
        lemma_first_free(gpus, from + 1);
    }
}

/// A single-GPU job is scheduled exactly when some GPU of the inventory is
/// in the state `free` (its state is that text exactly); it then gets the
/// first such GPU: that GPU's id is leased and named in the unit, and every
/// GPU before it is not free. A GPU in any other state is never leased, and
/// a job for more or fewer GPUs is refused.
pub proof fn law_schedule_first_free(job: JobView, inv: InventoryView)
    ensures
        schedule_spec(job, inv) is Ok <==> job.gpu_count == 1 && exists|k: int|
            0 <= k < inv.gpus.len() && #[trigger] inv.gpus[k].state == "free"@,
        schedule_spec(job, inv) matches Ok((lease, unit)) ==> exists|k: int|
            0 <= k < inv.gpus.len() && #[trigger] inv.gpus[k].state == "free"@ && (forall|j: int|
                0 <= j < k ==> inv.gpus[j].state != "free"@) && lease == lease_json(
                job,
                inv.node_id,
                inv.gpus[k].gpu_id,
            ) && unit == unit_text(job, "lease-"@ + job.job_id, inv.gpus[k].gpu_id),
{
    lemma_first_free(inv.gpus, 0);
    match first_free(inv.gpus, 0) {
        Some(k) => {
            assert(inv.gpus[k].state == "free"@);
        },
        None => {},
    }
}

/// Leases the first free GPU to a single-GPU job and writes the unit that
/// runs it.
pub fn schedule(job: &JobRequest, inventory: &Inventory) -> (r: Result<(JsonValue, String), CommandError>)
    ensures
        match schedule_spec(job@, inventory@) {
            Ok((lease, unit)) => r matches Ok((l, u)) && l@ == lease && u@ == unit,
            Err(m) => r matches Err(CommandError::Parse(x)) && x@ == m,
        },
{
    if job.gpu_count != 1 {
        return parse_error(owned("single-node scheduler currently supports gpu_count = 1 only"));
    }
    let ghost gv = inventory@.gpus;
    let mut i: usize = 0;
    while i < inventory.gpus.len()
        invariant
            gv == inventory@.gpus,
            i <= inventory.gpus.len(),
            first_free(gv, 0) == first_free(gv, i as int),
        ensures
            i <= inventory.gpus.len(),
            first_free(gv, 0) == first_free(gv, i as int),
            i < inventory.gpus.len() ==> gv[i as int].state == "free"@,
        decreases inventory.gpus.len() - i,
    {
        assert(gv[i as int] == inventory.gpus[i as int]@);
        if text_eq(inventory.gpus[i].state.as_str(), "free") {
            break;
        }
        i += 1;
    }
    if i == inventory.gpus.len() {
        return parse_error(owned("no free gpu available"));
    }
    let gpu_id = &inventory.gpus[i].gpu_id;
    assert(gv[i as int].gpu_id == gpu_id@);
    let lease_id = cat("lease-", job.job_id.as_str());
    let mut gpu_ids: Vec<JsonValue> = Vec::new();
    gpu_ids.push(JsonValue::Str(gpu_id.clone()));
    proof {
        lemma_array_view(gpu_ids);
        assert(items_view(gpu_ids@) =~= seq![Json::Str(gpu_id@)]);
    }
    let mut pairs: Vec<(String, JsonValue)> = Vec::new();
    pairs.push((owned("schema_version"), JsonValue::Str(owned("1"))));
    pairs.push((owned("job_id"), JsonValue::Str(job.job_id.clone())));
    pairs.push((owned("lease_id"), JsonValue::Str(lease_id.clone())));
    pairs.push((owned("node_id"), JsonValue::Str(inventory.node_id.clone())));
    pairs.push((owned("gpu_ids"), JsonValue::Array(gpu_ids)));
    pairs.push((owned("priority"), JsonValue::UInt(job.priority)));
    pairs.push((owned("checkpoint_mode"), JsonValue::Str(job.checkpoint_mode.clone())));
    pairs.push(
        (owned("service_unit"), JsonValue::Str(cat3("afterburner-", job.job_id.as_str(), ".service"))),
    );
    let ghost j = job@;
    assert(entries_view(pairs@) =~= seq![
        ("schema_version"@, Json::Str("1"@)),
        ("job_id"@, Json::Str(j.job_id)),
        ("lease_id"@, Json::Str("lease-"@ + j.job_id)),
        ("node_id"@, Json::Str(inventory@.node_id)),
        ("gpu_ids"@, Json::Array(seq![Json::Str(gpu_id@)])),
        ("priority"@, Json::UInt(j.priority)),
        ("checkpoint_mode"@, Json::Str(j.checkpoint_mode)),
        ("service_unit"@, Json::Str("afterburner-"@ + j.job_id + ".service"@)),
    ]);
    let lease = object_from_pairs(pairs);
    let mut unit = String::from_str("[Unit]\nDescription=Afterburner job ");
    unit.append(job.job_id.as_str());
    unit.append("\nAfter=network.target\n\n[Service]\nType=simple\nWorkingDirectory=");
    unit.append(job.working_directory.as_str());
    unit.append("\nEnvironment=AFTERBURNER_JOB_ID=");
    unit.append(job.job_id.as_str());
    unit.append("\nEnvironment=AFTERBURNER_LEASE_ID=");
    unit.append(lease_id.as_str());
    unit.append("\nEnvironment=AFTERBURNER_GPU_IDS=");
    unit.append(gpu_id.as_str());
    unit.append("\nExecStart=");
    unit.append(job.exec_start.as_str());
    unit.append("\nKillSignal=SIGTERM\nTimeoutStopSec=30\n\n[Install]\nWantedBy=default.target\n");
    Ok((lease, unit))
}

} // verus!
