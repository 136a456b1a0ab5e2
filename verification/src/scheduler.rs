//! The economic scheduler: node registry, job state store and the
//! minimum-cost placement decision.
//!
//! `Schedule` evaluates every registered node against a job's resource and
//! SLA requirements, prices each feasible candidate with the cost engine and
//! picks the cheapest one; exact ties go to the earliest-registered node, so
//! the decision is deterministic for a given registration order.
//!
//! The scheduler mutates its stores through `&mut self`, which serializes
//! every decision against the state it reads; a caller that needs shared
//! access wraps the scheduler in its own mutual exclusion.

use crate::cost::CostCalculator;
use crate::cost::MILLI;
use crate::cost::TotalCost;
use crate::optimizer::Optimizer;
use vstd::arithmetic::div_mod::lemma_div_multiples_vanish;
use vstd::pervasive::VecAdditionalExecFns;
use vstd::prelude::*;

verus! {

/// Job category submitted by users.
#[derive(Clone, Copy, Debug, PartialEq, Eq, Structural)]
pub enum JobType {
    Training,
    Inference,
    DataProcessing,
}

/// Resources a job asks for, all non-negative integers.
///
/// `disk_gb` is accepted but deliberately not checked against node capacity
/// (a known gap, preserved so that the behaviour is explicit).
#[derive(Clone, Copy, Debug, PartialEq, Eq, Structural)]
pub struct ResourceRequirements {
    pub cpu_cores: u32,
    pub memory_gb: u32,
    pub gpu_count: u32,
    pub disk_gb: u32,
}

/// SLA constraints a placement must satisfy. The budget is in
/// micro-dollars; `deadline` is carried but currently unused by placement.
#[derive(Clone, Copy, Debug, PartialEq, Eq)]
pub struct SlaConstraints {
    pub max_latency_ms: u64,
    pub max_budget_micro_usd: Option<u64>,
    pub deadline: Option<i64>,
}

/// Job specification submitted by users; immutable once submitted.
#[derive(Clone, Debug)]
pub struct JobSpec {
    pub id: String,
    pub job_type: JobType,
    pub resources: ResourceRequirements,
    pub sla: SlaConstraints,
}

/// A worker node's declared capacity, location and hourly price in
/// micro-dollars.
#[derive(Clone, Debug)]
pub struct NodeInfo {
    pub id: String,
    pub available_cpu: u32,
    pub available_memory_gb: u32,
    pub available_gpu: u32,
    pub location: String,
    pub cost_per_hour_micro_usd: u64,
}

/// Placement decision for a job; produced once per successful `schedule`
/// call.
#[derive(Clone, Debug, PartialEq)]
pub struct Placement {
    pub job_id: String,
    pub node_id: String,
    pub estimated_cost: TotalCost,
    pub estimated_latency_ms: u64,
}

/// Job lifecycle states. `Pending` moves to `Scheduled` or `Failed` under
/// this scheduler's control; `Running` and `Completed` are driven by the
/// execution engine. `Completed` and `Failed` are terminal.
#[derive(Clone, Copy, Debug, PartialEq, Eq, Structural)]
pub enum JobStatus {
    Pending,
    Scheduled,
    Running,
    Completed,
    Failed,
}

/// Per-job record: one per submitted job, retained for the process
/// lifetime.
#[derive(Clone, Debug, PartialEq)]
pub struct JobState {
    pub job_id: String,
    pub status: JobStatus,
    pub assigned_node: Option<String>,
    pub estimated_cost: Option<TotalCost>,
}

/// Why a `schedule` call returned no placement.
#[derive(Clone, Copy, Debug, PartialEq, Eq, Structural)]
pub enum ScheduleError {
    /// The registry was empty at scheduling time.
    NoNodesAvailable,
    /// Every node failed resource fit, the latency SLA or the budget SLA.
    NoFeasiblePlacement,
}

/// Mathematical image of a [`NodeInfo`].
pub ghost struct NodeView {
    pub id: Seq<char>,
    pub available_cpu: u32,
    pub available_memory_gb: u32,
    pub available_gpu: u32,
    pub location: Seq<char>,
    pub cost_per_hour_micro_usd: u64,
}

impl View for NodeInfo {
    type V = NodeView;

    open spec fn view(&self) -> NodeView {
        NodeView {
            id: self.id@,
            available_cpu: self.available_cpu,
            available_memory_gb: self.available_memory_gb,
            available_gpu: self.available_gpu,
            location: self.location@,
            cost_per_hour_micro_usd: self.cost_per_hour_micro_usd,
        }
    }
}

/// Mathematical image of a [`JobSpec`].
pub ghost struct JobSpecView {
    pub id: Seq<char>,
    pub job_type: JobType,
    pub resources: ResourceRequirements,
    pub sla: SlaConstraints,
}

impl View for JobSpec {
    type V = JobSpecView;

    open spec fn view(&self) -> JobSpecView {
        JobSpecView {
            id: self.id@,
            job_type: self.job_type,
            resources: self.resources,
            sla: self.sla,
        }
    }
}

/// View of an optional owned string.
pub open spec fn opt_string_view(o: Option<String>) -> Option<Seq<char>> {
    match o {
        Some(s) => Some(s@),
        None => None,
    }
}

/// Mathematical image of a [`JobState`].
pub ghost struct JobStateView {
    pub job_id: Seq<char>,
    pub status: JobStatus,
    pub assigned_node: Option<Seq<char>>,
    pub estimated_cost: Option<TotalCost>,
}

impl View for JobState {
    type V = JobStateView;

    open spec fn view(&self) -> JobStateView {
        JobStateView {
            job_id: self.job_id@,
            status: self.status,
            assigned_node: opt_string_view(self.assigned_node),
            estimated_cost: self.estimated_cost,
        }
    }
}

/// Mathematical image of a [`Placement`].
pub ghost struct PlacementView {
    pub job_id: Seq<char>,
    pub node_id: Seq<char>,
    pub estimated_cost: TotalCost,
    pub estimated_latency_ms: u64,
}

impl View for Placement {
    type V = PlacementView;

    open spec fn view(&self) -> PlacementView {
        PlacementView {
            job_id: self.job_id@,
            node_id: self.node_id@,
            estimated_cost: self.estimated_cost,
            estimated_latency_ms: self.estimated_latency_ms,
        }
    }
}

/// Views of a node table, in registration order.
pub open spec fn nodes_view(nodes: Seq<NodeInfo>) -> Seq<NodeView> {
    nodes.map_values(|n: NodeInfo| n@)
}

/// Views of a job table, in submission order.
pub open spec fn jobs_view(jobs: Seq<JobState>) -> Seq<JobStateView> {
    jobs.map_values(|j: JobState| j@)
}

/// The scheduler state: registered nodes and job records, each in
/// first-seen order.
pub ghost struct SchedulerView {
    pub nodes: Seq<NodeView>,
    pub jobs: Seq<JobStateView>,
}

/// No two registered nodes share an id.
pub open spec fn node_ids_unique(nodes: Seq<NodeView>) -> bool {
    forall|i: int, j: int| 0 <= i < j < nodes.len() ==> nodes[i].id != nodes[j].id
}

/// No two job records share an id.
pub open spec fn job_ids_unique(jobs: Seq<JobStateView>) -> bool {
    forall|i: int, j: int| 0 <= i < j < jobs.len() ==> jobs[i].job_id != jobs[j].job_id
}

/// Every recorded cost estimate is a well-formed breakdown.
pub open spec fn job_costs_wf(jobs: Seq<JobStateView>) -> bool {
    forall|i: int|
        0 <= i < jobs.len() ==> (#[trigger] jobs[i].estimated_cost matches Some(c) ==> c.wf())
}

/// Some registered node carries `id`.
pub open spec fn has_node(nodes: Seq<NodeView>, id: Seq<char>) -> bool {
    exists|i: int| 0 <= i < nodes.len() && nodes[i].id == id
}

/// Some job record carries `id`.
pub open spec fn has_job(jobs: Seq<JobStateView>, id: Seq<char>) -> bool {
    exists|i: int| 0 <= i < jobs.len() && jobs[i].job_id == id
}

/// How `register_node` changes the node table: the node is written over the
/// entry with its id, or appended when the id is new.
pub open spec fn node_registered(
    old_nodes: Seq<NodeView>,
    new_nodes: Seq<NodeView>,
    node: NodeView,
) -> bool {
    if has_node(old_nodes, node.id) {
        &&& new_nodes.len() == old_nodes.len()
        &&& forall|i: int|
            0 <= i < old_nodes.len() ==> new_nodes[i] == (if old_nodes[i].id == node.id {
                node
            } else {
                old_nodes[i]
            })
    } else {
        new_nodes == old_nodes.push(node)
    }
}

/// Latency estimate for a node, in milliseconds: a 50 ms base, plus 50 ms
/// of pressure when fewer than 2 CPUs are free and 30 ms when less than
/// 2 GB of memory is free. A static function of node state alone.
pub open spec fn spec_estimate_latency(node: NodeView) -> int {
    50 + (if node.available_cpu < 2 {
        50int
    } else {
        0int
    }) + (if node.available_memory_gb < 2 {
        30int
    } else {
        0int
    })
}

/// Cost in micro-dollars of placing a job on `node`: one hour at full
/// utilization with free intra-cluster transfer and no idle time, so
/// exactly the node's hourly price.
pub open spec fn spec_placement_cost(node: NodeView) -> int {
    node.cost_per_hour_micro_usd as int
}

/// The node covers the job's CPU, memory and GPU demands. Disk is
/// deliberately not part of the filter (known gap, kept explicit).
pub open spec fn spec_resource_fit(required: ResourceRequirements, node: NodeView) -> bool {
    &&& node.available_cpu >= required.cpu_cores
    &&& node.available_memory_gb >= required.memory_gb
    &&& node.available_gpu >= required.gpu_count
}

/// The placement cost does not exceed the optional budget ceiling.
pub open spec fn spec_within_budget(sla: SlaConstraints, node: NodeView) -> bool {
    match sla.max_budget_micro_usd {
        Some(b) => spec_placement_cost(node) <= b,
        None => true,
    }
}

/// A node survives every filter for the job: resource fit, the latency
/// ceiling and the budget ceiling.
pub open spec fn feasible(job: JobSpecView, node: NodeView) -> bool {
    &&& spec_resource_fit(job.resources, node)
    &&& spec_estimate_latency(node) <= job.sla.max_latency_ms
    &&& spec_within_budget(job.sla, node)
}

/// `k` is the index `schedule` must pick: feasible, of minimum cost among
/// the feasible nodes, and first in registration order among those of that
/// minimum cost. At most one index satisfies this.
pub open spec fn is_best_placement(nodes: Seq<NodeView>, job: JobSpecView, k: int) -> bool {
    &&& 0 <= k < nodes.len()
    &&& feasible(job, nodes[k])
    &&& forall|i: int|
        0 <= i < nodes.len() && feasible(job, #[trigger] nodes[i]) ==> spec_placement_cost(
            nodes[k],
        ) <= spec_placement_cost(nodes[i])
    &&& forall|i: int|
        0 <= i < k && feasible(job, #[trigger] nodes[i]) ==> spec_placement_cost(nodes[k])
            < spec_placement_cost(nodes[i])
}

/// The placement `schedule` owes for `job` on `node`: the node's identity,
/// its priced cost breakdown and its latency estimate.
pub open spec fn placement_of(p: PlacementView, job: JobSpecView, node: NodeView) -> bool {
    &&& p.job_id == job.id
    &&& p.node_id == node.id
    &&& p.estimated_cost.compute_micro_usd == spec_placement_cost(node)
    &&& p.estimated_cost.data_transfer_micro_usd == 0
    &&& p.estimated_cost.idle_opportunity_micro_usd == 0
    &&& p.estimated_cost.total_micro_usd == spec_placement_cost(node)
    &&& p.estimated_latency_ms == spec_estimate_latency(node)
}

/// The record a fresh submission starts from.
pub open spec fn fresh_job_record(id: Seq<char>) -> JobStateView {
    JobStateView {
        job_id: id,
        status: JobStatus::Pending,
        assigned_node: None,
        estimated_cost: None,
    }
}

/// How one `schedule` call leaves the job's record: `Scheduled` with the
/// chosen node and cost on success, `Failed` with the prior assignment
/// fields kept on failure.
pub open spec fn record_after_outcome(
    rec: JobStateView,
    outcome: Result<PlacementView, ScheduleError>,
) -> JobStateView {
    match outcome {
        Ok(p) => JobStateView {
            job_id: rec.job_id,
            status: JobStatus::Scheduled,
            assigned_node: Some(p.node_id),
            estimated_cost: Some(p.estimated_cost),
        },
        Err(_) => JobStateView {
            job_id: rec.job_id,
            status: JobStatus::Failed,
            assigned_node: rec.assigned_node,
            estimated_cost: rec.estimated_cost,
        },
    }
}

/// How `schedule` changes the job table: a fresh id is appended as a new
/// record and finalized; a replayed id keeps its record, which is
/// re-finalized in place (submissions are not silently reset). Every other
/// record is untouched.
pub open spec fn jobs_after_outcome(
    old_jobs: Seq<JobStateView>,
    new_jobs: Seq<JobStateView>,
    id: Seq<char>,
    outcome: Result<PlacementView, ScheduleError>,
) -> bool {
    if has_job(old_jobs, id) {
        &&& new_jobs.len() == old_jobs.len()
        &&& forall|i: int|
            0 <= i < old_jobs.len() ==> new_jobs[i] == (if old_jobs[i].job_id == id {
                record_after_outcome(old_jobs[i], outcome)
            } else {
                old_jobs[i]
            })
    } else {
        new_jobs == old_jobs.push(record_after_outcome(fresh_job_record(id), outcome))
    }
}

/// How `update_job_state` changes the job table: the record carrying `id`
/// takes the new status, and the new assignment when one is given; every
/// other record, and a table without the id, is untouched.
pub open spec fn job_transitioned(
    old_jobs: Seq<JobStateView>,
    new_jobs: Seq<JobStateView>,
    id: Seq<char>,
    status: JobStatus,
    assigned_node: Option<Seq<char>>,
) -> bool {
    &&& new_jobs.len() == old_jobs.len()
    &&& forall|i: int|
        0 <= i < old_jobs.len() ==> new_jobs[i] == (if old_jobs[i].job_id == id {
            JobStateView {
                job_id: old_jobs[i].job_id,
                status: status,
                assigned_node: match assigned_node {
                    Some(n) => Some(n),
                    None => old_jobs[i].assigned_node,
                },
                estimated_cost: old_jobs[i].estimated_cost,
            }
        } else {
            old_jobs[i]
        })
}

/// How `set_estimated_cost` changes the job table: the record carrying
/// `id` takes the cost estimate; every other record is untouched.
pub open spec fn job_cost_recorded(
    old_jobs: Seq<JobStateView>,
    new_jobs: Seq<JobStateView>,
    id: Seq<char>,
    cost: TotalCost,
) -> bool {
    &&& new_jobs.len() == old_jobs.len()
    &&& forall|i: int|
        0 <= i < old_jobs.len() ==> new_jobs[i] == (if old_jobs[i].job_id == id {
            JobStateView {
                job_id: old_jobs[i].job_id,
                status: old_jobs[i].status,
                assigned_node: old_jobs[i].assigned_node,
                estimated_cost: Some(cost),
            }
        } else {
            old_jobs[i]
        })
}

/// What a status read returns: the record carrying `id`, or nothing when
/// no record does. The read is a pure function of the job table, so with
/// unique ids the result is fully determined.
pub open spec fn status_read(
    jobs: Seq<JobStateView>,
    id: Seq<char>,
    r: Option<JobStateView>,
) -> bool {
    match r {
        Some(js) => exists|i: int| 0 <= i < jobs.len() && #[trigger] jobs[i].job_id == id && js == jobs[i],
        None => !has_job(jobs, id),
    }
}

/// The ghost image of a `schedule` result.
pub open spec fn schedule_result_view(r: Result<Placement, ScheduleError>) -> Result<
    PlacementView,
    ScheduleError,
> {
    match r {
        Ok(p) => Ok(p@),
        Err(e) => Err(e),
    }
}

/// A status read is idempotent: with unique job ids, any two results that
/// a read of one job table may return for the same id are equal. Since a
/// read leaves the table untouched, calling `get_job_state` twice in a row
/// returns identical values.
pub proof fn lemma_status_read_idempotent(
    jobs: Seq<JobStateView>,
    id: Seq<char>,
    r1: Option<JobStateView>,
    r2: Option<JobStateView>,
)
    requires
        job_ids_unique(jobs),
        status_read(jobs, id, r1),
        status_read(jobs, id, r2),
    ensures
        r1 == r2,
{
    match (r1, r2) {
        (Some(a), Some(b)) => {
            let i = choose|i: int|
                0 <= i < jobs.len() && #[trigger] jobs[i].job_id == id && a == jobs[i];
            let j = choose|j: int|
                0 <= j < jobs.len() && #[trigger] jobs[j].job_id == id && b == jobs[j];
            if i != j {
                assert(jobs[i].job_id == jobs[j].job_id);
                assert(false);
            }
        },
        (Some(a), None) => {
            let i = choose|i: int|
                0 <= i < jobs.len() && #[trigger] jobs[i].job_id == id && a == jobs[i];
            assert(has_job(jobs, id));
        },
        (None, Some(b)) => {
            let j = choose|j: int|
                0 <= j < jobs.len() && #[trigger] jobs[j].job_id == id && b == jobs[j];
            assert(has_job(jobs, id));
        },
        (None, None) => {},
    }
}

/// The winner of a scheduling decision is unique: at most one index
/// satisfies `is_best_placement` for a given node table and job, so
/// repeated runs over the same registration order always name the same
/// node.
pub proof fn lemma_best_placement_unique(nodes: Seq<NodeView>, job: JobSpecView, k1: int, k2: int)
    requires
        is_best_placement(nodes, job, k1),
        is_best_placement(nodes, job, k2),
    ensures
        k1 == k2,
{
    if k1 < k2 {
        assert(spec_placement_cost(nodes[k2]) <= spec_placement_cost(nodes[k1]));
        assert(spec_placement_cost(nodes[k1]) < spec_placement_cost(nodes[k2]));
    }
    if k2 < k1 {
        assert(spec_placement_cost(nodes[k1]) <= spec_placement_cost(nodes[k2]));
        assert(spec_placement_cost(nodes[k2]) < spec_placement_cost(nodes[k1]));
    }
}

/// On an exact cost tie between feasible nodes, the earlier-registered one
/// wins: any feasible node with the winner's cost stands after the winner
/// in registration order.
pub proof fn lemma_tie_break_prefers_earlier(
    nodes: Seq<NodeView>,
    job: JobSpecView,
    k: int,
    j: int,
)
    requires
        is_best_placement(nodes, job, k),
        0 <= j < nodes.len(),
        feasible(job, nodes[j]),
        spec_placement_cost(nodes[j]) == spec_placement_cost(nodes[k]),
        j != k,
    ensures
        k < j,
{
    if j < k {
        assert(spec_placement_cost(nodes[k]) < spec_placement_cost(nodes[j]));
    }
}

/// Composes the record creation and the `Failed` transition of one
/// unsuccessful `schedule` call into its overall effect on the job table.
proof fn lemma_jobs_after_failure(
    jobs0: Seq<JobStateView>,
    jobs1: Seq<JobStateView>,
    jobs2: Seq<JobStateView>,
    id: Seq<char>,
    e: ScheduleError,
)
    requires
        jobs1 == (if has_job(jobs0, id) {
            jobs0
        } else {
            jobs0.push(fresh_job_record(id))
        }),
        job_transitioned(jobs1, jobs2, id, JobStatus::Failed, None::<Seq<char>>),
    ensures
        jobs_after_outcome(jobs0, jobs2, id, Err(e)),
{
    if has_job(jobs0, id) {
        assert forall|i: int| 0 <= i < jobs0.len() implies jobs2[i] == (if jobs0[i].job_id == id {
            record_after_outcome(jobs0[i], Err(e))
        } else {
            jobs0[i]
        }) by {
            assert(jobs1[i] == jobs0[i]);
        }
    } else {
        let fresh = fresh_job_record(id);
        let last = jobs0.len() as int;
        assert(jobs1[last] == fresh);
        assert(jobs2 =~= jobs0.push(record_after_outcome(fresh, Err(e)))) by {
            assert forall|i: int| 0 <= i < jobs1.len() implies jobs2[i] == jobs0.push(
                record_after_outcome(fresh, Err(e)),
            )[i] by {
                if i < last {
                    assert(jobs1[i] == jobs0[i]);
                    assert(jobs0[i].job_id != id);
                }
            }
        }
    }
}

/// Composes the record creation, the `Scheduled` transition and the cost
/// write of one successful `schedule` call into its overall effect on the
/// job table.
proof fn lemma_jobs_after_success(
    jobs0: Seq<JobStateView>,
    jobs1: Seq<JobStateView>,
    jobs2: Seq<JobStateView>,
    jobs3: Seq<JobStateView>,
    id: Seq<char>,
    p: PlacementView,
)
    requires
        jobs1 == (if has_job(jobs0, id) {
            jobs0
        } else {
            jobs0.push(fresh_job_record(id))
        }),
        job_transitioned(jobs1, jobs2, id, JobStatus::Scheduled, Some(p.node_id)),
        job_cost_recorded(jobs2, jobs3, id, p.estimated_cost),
    ensures
        jobs_after_outcome(jobs0, jobs3, id, Ok(p)),
{
    if has_job(jobs0, id) {
        assert forall|i: int| 0 <= i < jobs0.len() implies jobs3[i] == (if jobs0[i].job_id == id {
            record_after_outcome(jobs0[i], Ok(p))
        } else {
            jobs0[i]
        }) by {
            assert(jobs1[i] == jobs0[i]);
            if jobs0[i].job_id == id {
                assert(jobs2[i].job_id == id);
            } else {
                assert(jobs2[i] == jobs0[i]);
            }
        }
    } else {
        let fresh = fresh_job_record(id);
        let last = jobs0.len() as int;
        assert(jobs1[last] == fresh);
        assert(jobs3 =~= jobs0.push(record_after_outcome(fresh, Ok(p)))) by {
            assert forall|i: int| 0 <= i < jobs1.len() implies jobs3[i] == jobs0.push(
                record_after_outcome(fresh, Ok(p)),
            )[i] by {
                if i < last {
                    assert(jobs1[i] == jobs0[i]);
                    assert(jobs0[i].job_id != id);
                    assert(jobs2[i] == jobs0[i]);
                } else {
                    assert(jobs2[i].job_id == id);
                }
            }
        }
    }
}

/// The economic scheduler facade: composes the cost engine, the node
/// registry and the job state store behind one entry point.
pub struct EconomicScheduler {
    cost_calculator: CostCalculator,
    optimizer: Optimizer,
    nodes: Vec<NodeInfo>,
    jobs: Vec<JobState>,
}

impl View for EconomicScheduler {
    type V = SchedulerView;

    closed spec fn view(&self) -> SchedulerView {
        SchedulerView { nodes: nodes_view(self.nodes@), jobs: jobs_view(self.jobs@) }
    }
}

/// Returns the index of the node carrying `id`, if any.
fn find_node_index(nodes: &Vec<NodeInfo>, id: &String) -> (r: Option<usize>)
    ensures
        match r {
            Some(i) => i < nodes@.len() && nodes@[i as int].id@ == id@,
            None => forall|j: int| 0 <= j < nodes@.len() ==> nodes@[j].id@ != id@,
        },
{
    let mut i: usize = 0;
    while i < nodes.len()
        invariant
            i <= nodes@.len(),
            forall|j: int| 0 <= j < i ==> nodes@[j].id@ != id@,
        decreases nodes@.len() - i,
    {
        if nodes[i].id == *id {
            return Some(i);
        }
        i = i + 1;
    }
    None
}

/// Returns the index of the job record carrying `id`, if any.
fn find_job_index(jobs: &Vec<JobState>, id: &String) -> (r: Option<usize>)
    ensures
        match r {
            Some(i) => i < jobs@.len() && jobs@[i as int].job_id@ == id@,
            None => forall|j: int| 0 <= j < jobs@.len() ==> jobs@[j].job_id@ != id@,
        },
{
    let mut i: usize = 0;
    while i < jobs.len()
        invariant
            i <= jobs@.len(),
            forall|j: int| 0 <= j < i ==> jobs@[j].job_id@ != id@,
        decreases jobs@.len() - i,
    {
        if jobs[i].job_id == *id {
            return Some(i);
        }
        i = i + 1;
    }
    None
}

/// Copies a node record field by field.
fn clone_node_info(node: &NodeInfo) -> (r: NodeInfo)
    ensures
        r@ == node@,
{
    NodeInfo {
        id: node.id.clone(),
        available_cpu: node.available_cpu,
        available_memory_gb: node.available_memory_gb,
        available_gpu: node.available_gpu,
        location: node.location.clone(),
        cost_per_hour_micro_usd: node.cost_per_hour_micro_usd,
    }
}

/// Copies an optional owned string.
fn clone_opt_string(o: &Option<String>) -> (r: Option<String>)
    ensures
        opt_string_view(r) == opt_string_view(*o),
{
    match o {
        Some(s) => Some(s.clone()),
        None => None,
    }
}

/// Copies a job record field by field.
fn clone_job_state(job: &JobState) -> (r: JobState)
    ensures
        r@ == job@,
{
    JobState {
        job_id: job.job_id.clone(),
        status: job.status,
        assigned_node: clone_opt_string(&job.assigned_node),
        estimated_cost: job.estimated_cost,
    }
}

impl EconomicScheduler {
    /// Both stores keep their keys unique and every stored cost estimate is
    /// a well-formed breakdown.
    pub open spec fn wf(self) -> bool {
        &&& node_ids_unique(self@.nodes)
        &&& job_ids_unique(self@.jobs)
        &&& job_costs_wf(self@.jobs)
    }

    /// Creates a scheduler with no nodes and no job records.
    pub fn new() -> (s: Self)
        ensures
            s.wf(),
            s@.nodes == Seq::<NodeView>::empty(),
            s@.jobs == Seq::<JobStateView>::empty(),
    {
        let s = EconomicScheduler {
            cost_calculator: CostCalculator::new(),
            optimizer: Optimizer::new(),
            nodes: Vec::new(),
            jobs: Vec::new(),
        };
        proof {
            assert(s@.nodes =~= Seq::<NodeView>::empty());
            assert(s@.jobs =~= Seq::<JobStateView>::empty());
        }
        s
    }

    /// Registers a node: inserts it, or overwrites (does not merge) the
    /// entry with the same id. Field ranges are not validated, and the
    /// change is visible to every later decision.
    pub fn register_node(&mut self, node: NodeInfo)
        requires
            old(self).wf(),
        ensures
            final(self).wf(),
            final(self)@.jobs == old(self)@.jobs,
            node_registered(old(self)@.nodes, final(self)@.nodes, node@),
    {
        match find_node_index(&self.nodes, &node.id) {
            Some(i) => {
                proof {
                    assert(old(self)@.nodes[i as int].id == node@.id);
                    assert(has_node(old(self)@.nodes, node@.id));
                }
                self.nodes.set(i, node);
                proof {
                    let old_nodes = old(self)@.nodes;
                    let new_nodes = self@.nodes;
                    assert forall|j: int| 0 <= j < old_nodes.len() implies new_nodes[j] == (
                    if old_nodes[j].id == node@.id {
                        node@
                    } else {
                        old_nodes[j]
                    }) by {
                        if j != i && old_nodes[j].id == node@.id {
                            assert(old_nodes[i as int].id == old_nodes[j].id);
                        }
                    }
                    assert forall|p: int, q: int|
                        0 <= p < q < new_nodes.len() implies new_nodes[p].id
                        != new_nodes[q].id by {
                        assert(new_nodes[p].id == old_nodes[p].id);
                        assert(new_nodes[q].id == old_nodes[q].id);
                    }
                }
            },
            None => {
                proof {
                    assert(!has_node(old(self)@.nodes, node@.id));
                }
                self.nodes.push(node);
                proof {
                    assert(self@.nodes =~= old(self)@.nodes.push(node@));
                }
            },
        }
    }

    /// Schedules a job onto the node that minimizes the total cost of
    /// ownership while satisfying the job's resource and SLA constraints.
    ///
    /// The job's record is created as `Pending` (a replayed id keeps its
    /// record), every registered node is evaluated in registration order,
    /// and among the survivors of the filters the strictly cheapest wins;
    /// an exact cost tie goes to the earliest-registered node, so the
    /// decision is reproducible. On success the record ends `Scheduled`
    /// with the chosen node and cost; on failure it ends `Failed`, with
    /// `NoNodesAvailable` for an empty registry and `NoFeasiblePlacement`
    /// when every node fails a filter.
    ///
    /// A successful placement does not decrement the chosen node's
    /// registered capacity, so repeated scheduling can over-subscribe a
    /// node; capacity bookkeeping is a known, deliberate gap.
    #[verifier::loop_isolation(false)]
    pub fn schedule(&mut self, job: JobSpec) -> (r: Result<Placement, ScheduleError>)
        requires
            old(self).wf(),
        ensures
            final(self).wf(),
            final(self)@.nodes == old(self)@.nodes,
            (r matches Err(e) && e == ScheduleError::NoNodesAvailable) <==> old(
                self,
            )@.nodes.len() == 0,
            (r matches Err(e) && e == ScheduleError::NoFeasiblePlacement) <==> (old(
                self,
            )@.nodes.len() > 0 && (forall|i: int|
                0 <= i < old(self)@.nodes.len() ==> !feasible(
                    job@,
                    #[trigger] old(self)@.nodes[i],
                ))),
            r matches Ok(p) ==> exists|k: int|
                #[trigger] is_best_placement(old(self)@.nodes, job@, k) && placement_of(
                    p@,
                    job@,
                    old(self)@.nodes[k],
                ),
            (exists|i: int|
                0 <= i < old(self)@.nodes.len() && feasible(job@, #[trigger] old(self)@.nodes[i]))
                ==> r is Ok,
            jobs_after_outcome(
                old(self)@.jobs,
                final(self)@.jobs,
                job@.id,
                schedule_result_view(r),
            ),
    {
        let ghost jobs0 = old(self)@.jobs;

        // Create the initial Pending record.
        self.create_job_record(&job.id);
        let ghost jobs1 = self@.jobs;

        if self.nodes.len() == 0 {
            self.update_job_state(job.id.clone(), JobStatus::Failed, None);
            proof {
                lemma_jobs_after_failure(
                    jobs0,
                    jobs1,
                    self@.jobs,
                    job@.id,
                    ScheduleError::NoNodesAvailable,
                );
            }
            return Err(ScheduleError::NoNodesAvailable);
        }

        // Evaluate each node against the job; the placement evaluation
        // reads only this scheduler's state, which `&mut self` holds stable
        // for the whole decision.
        let n = self.nodes.len();
        let mut have_best: bool = false;
        let mut best_idx: usize = 0;
        let mut best_cost: TotalCost = TotalCost::new(0, 0, 0);
        let mut best_lat: u64 = 0;
        let mut i: usize = 0;
        while i < n
            invariant
                i <= n,
                !have_best ==> forall|j: int|
                    0 <= j < i ==> !feasible(job@, #[trigger] self@.nodes[j]),
                have_best ==> {
                    &&& best_idx < i
                    &&& feasible(job@, self@.nodes[best_idx as int])
                    &&& best_cost.compute_micro_usd == spec_placement_cost(
                        self@.nodes[best_idx as int],
                    )
                    &&& best_cost.data_transfer_micro_usd == 0
                    &&& best_cost.idle_opportunity_micro_usd == 0
                    &&& best_cost.total_micro_usd == spec_placement_cost(
                        self@.nodes[best_idx as int],
                    )
                    &&& best_lat == spec_estimate_latency(self@.nodes[best_idx as int])
                    &&& forall|j: int|
                        0 <= j < i && feasible(job@, #[trigger] self@.nodes[j])
                            ==> best_cost.total_micro_usd <= spec_placement_cost(self@.nodes[j])
                    &&& forall|j: int|
                        0 <= j < best_idx && feasible(job@, #[trigger] self@.nodes[j])
                            ==> best_cost.total_micro_usd < spec_placement_cost(self@.nodes[j])
                },
            decreases n - i,
        {
            let fits = self.check_resource_fit(&job.resources, &self.nodes[i]);
            if fits {
                let lat = self.estimate_latency(&self.nodes[i]);
                let price = self.nodes[i].cost_per_hour_micro_usd;
                proof {
                    lemma_div_multiples_vanish(price as int, 1_000_000);
                }
                // Formula constants: one hour at full utilization,
                // intra-cluster transfer is free, no idle time.
                let cost = self.cost_calculator.total_cost(price, MILLI, MILLI, 0, 0, 0, 0);
                if lat <= job.sla.max_latency_ms {
                    let within_budget = match job.sla.max_budget_micro_usd {
                        Some(b) => cost.total_micro_usd <= b,
                        None => true,
                    };
                    if within_budget {
                        if !have_best || cost.total_micro_usd < best_cost.total_micro_usd {
                            have_best = true;
                            best_idx = i;
                            best_cost = cost;
                            best_lat = lat;
                        }
                    }
                }
            }
            i = i + 1;
        }

        if have_best {
            let node_id = self.nodes[best_idx].id.clone();
            self.update_job_state(job.id.clone(), JobStatus::Scheduled, Some(node_id.clone()));
            let ghost jobs2 = self@.jobs;
            self.set_estimated_cost(&job.id, best_cost);
            let placement = Placement {
                job_id: job.id,
                node_id: node_id,
                estimated_cost: best_cost,
                estimated_latency_ms: best_lat,
            };
            proof {
                assert(is_best_placement(old(self)@.nodes, job@, best_idx as int));
                lemma_jobs_after_success(jobs0, jobs1, jobs2, self@.jobs, job@.id, placement@);
            }
            Ok(placement)
        } else {
            self.update_job_state(job.id.clone(), JobStatus::Failed, None);
            proof {
                lemma_jobs_after_failure(
                    jobs0,
                    jobs1,
                    self@.jobs,
                    job@.id,
                    ScheduleError::NoFeasiblePlacement,
                );
            }
            Err(ScheduleError::NoFeasiblePlacement)
        }
    }

    /// Number of registered nodes.
    pub fn node_count(&self) -> (n: usize)
        ensures
            n == self@.nodes.len(),
    {
        self.nodes.len()
    }

    /// A point-in-time copy of the node table, in registration order, for
    /// status reporting and planning.
    pub fn cluster_status(&self) -> (r: Vec<NodeInfo>)
        ensures
            nodes_view(r@) == self@.nodes,
    {
        let mut out: Vec<NodeInfo> = Vec::new();
        let mut i: usize = 0;
        while i < self.nodes.len()
            invariant
                i <= self.nodes@.len(),
                out@.len() == i,
                forall|j: int| 0 <= j < i ==> out@[j]@ == self.nodes@[j]@,
            decreases self.nodes@.len() - i,
        {
            out.push(clone_node_info(&self.nodes[i]));
            i = i + 1;
        }
        proof {
            assert(nodes_view(out@) =~= self@.nodes);
        }
        out
    }

    /// Looks up the state of a job by id; `None` when the id was never
    /// submitted. Reading has no side effect, so repeated reads of an
    /// unchanged scheduler return identical values.
    pub fn get_job_state(&self, job_id: &str) -> (r: Option<JobState>)
        ensures
            status_read(
                self@.jobs,
                job_id@,
                match r {
                    Some(js) => Some(js@),
                    None => None,
                },
            ),
    {
        let key: String = job_id.to_owned();
        match find_job_index(&self.jobs, &key) {
            Some(i) => {
                let rec = clone_job_state(&self.jobs[i]);
                proof {
                    assert(self@.jobs[i as int].job_id == job_id@ && rec@ == self@.jobs[i as int]);
                }
                Some(rec)
            },
            None => None,
        }
    }

    /// Moves the record carrying `job_id` to `status` and, when a node is
    /// given, records the assignment. A no-op when the id is unknown:
    /// never an error, a defensive choice against orderings between
    /// creation and transition.
    pub fn update_job_state(&mut self, job_id: String, status: JobStatus, assigned_node: Option<
        String,
    >)
        requires
            old(self).wf(),
        ensures
            final(self).wf(),
            final(self)@.nodes == old(self)@.nodes,
            job_transitioned(
                old(self)@.jobs,
                final(self)@.jobs,
                job_id@,
                status,
                opt_string_view(assigned_node),
            ),
    {
        match find_job_index(&self.jobs, &job_id) {
            Some(i) => {
                let new_assigned: Option<String> = match assigned_node {
                    Some(n) => Some(n),
                    None => clone_opt_string(&self.jobs[i].assigned_node),
                };
                let rec = JobState {
                    job_id: self.jobs[i].job_id.clone(),
                    status: status,
                    assigned_node: new_assigned,
                    estimated_cost: self.jobs[i].estimated_cost,
                };
                self.jobs.set(i, rec);
                proof {
                    let old_jobs = old(self)@.jobs;
                    let new_jobs = self@.jobs;
                    assert forall|j: int| 0 <= j < old_jobs.len() implies new_jobs[j] == (
                    if old_jobs[j].job_id == job_id@ {
                        JobStateView {
                            job_id: old_jobs[j].job_id,
                            status: status,
                            assigned_node: match opt_string_view(assigned_node) {
                                Some(n) => Some(n),
                                None => old_jobs[j].assigned_node,
                            },
                            estimated_cost: old_jobs[j].estimated_cost,
                        }
                    } else {
                        old_jobs[j]
                    }) by {
                        if j != i && old_jobs[j].job_id == job_id@ {
                            assert(old_jobs[i as int].job_id == old_jobs[j].job_id);
                        }
                    }
                    assert forall|p: int, q: int|
                        0 <= p < q < new_jobs.len() implies new_jobs[p].job_id
                        != new_jobs[q].job_id by {
                        assert(new_jobs[p].job_id == old_jobs[p].job_id);
                        assert(new_jobs[q].job_id == old_jobs[q].job_id);
                    }
                }
            },
            None => {},
        }
    }

    /// Creates the `Pending` record for a submission. A replayed id keeps
    /// its existing record untouched (documented no-op), so replaying a
    /// submission cannot silently reset its state.
    fn create_job_record(&mut self, job_id: &String)
        requires
            old(self).wf(),
        ensures
            final(self).wf(),
            final(self)@.nodes == old(self)@.nodes,
            final(self)@.jobs == (if has_job(old(self)@.jobs, job_id@) {
                old(self)@.jobs
            } else {
                old(self)@.jobs.push(fresh_job_record(job_id@))
            }),
            has_job(final(self)@.jobs, job_id@),
    {
        match find_job_index(&self.jobs, job_id) {
            Some(i) => {
                proof {
                    assert(old(self)@.jobs[i as int].job_id == job_id@);
                    assert(has_job(old(self)@.jobs, job_id@));
                }
            },
            None => {
                self.jobs.push(
                    JobState {
                        job_id: job_id.clone(),
                        status: JobStatus::Pending,
                        assigned_node: None,
                        estimated_cost: None,
                    },
                );
                proof {
                    assert(self@.jobs =~= old(self)@.jobs.push(fresh_job_record(job_id@)));
                    let last = self@.jobs.len() - 1;
                    assert(self@.jobs[last].job_id == job_id@);
                }
            },
        }
    }

    /// Stores the cost estimate on the record carrying `job_id`; a no-op
    /// when the id is unknown.
    fn set_estimated_cost(&mut self, job_id: &String, cost: TotalCost)
        requires
            old(self).wf(),
            cost.wf(),
        ensures
            final(self).wf(),
            final(self)@.nodes == old(self)@.nodes,
            job_cost_recorded(old(self)@.jobs, final(self)@.jobs, job_id@, cost),
    {
        match find_job_index(&self.jobs, job_id) {
            Some(i) => {
                let rec = JobState {
                    job_id: self.jobs[i].job_id.clone(),
                    status: self.jobs[i].status,
                    assigned_node: clone_opt_string(&self.jobs[i].assigned_node),
                    estimated_cost: Some(cost),
                };
                self.jobs.set(i, rec);
                proof {
                    let old_jobs = old(self)@.jobs;
                    let new_jobs = self@.jobs;
                    assert forall|j: int| 0 <= j < old_jobs.len() implies new_jobs[j] == (
                    if old_jobs[j].job_id == job_id@ {
                        JobStateView {
                            job_id: old_jobs[j].job_id,
                            status: old_jobs[j].status,
                            assigned_node: old_jobs[j].assigned_node,
                            estimated_cost: Some(cost),
                        }
                    } else {
                        old_jobs[j]
                    }) by {
                        if j != i && old_jobs[j].job_id == job_id@ {
                            assert(old_jobs[i as int].job_id == old_jobs[j].job_id);
                        }
                    }
                    assert forall|p: int, q: int|
                        0 <= p < q < new_jobs.len() implies new_jobs[p].job_id
                        != new_jobs[q].job_id by {
                        assert(new_jobs[p].job_id == old_jobs[p].job_id);
                        assert(new_jobs[q].job_id == old_jobs[q].job_id);
                    }
                }
            },
            None => {},
        }
    }

    /// The node must cover the job's CPU, memory and GPU demands; disk is
    /// accepted as an input but intentionally not checked.
    fn check_resource_fit(&self, required: &ResourceRequirements, node: &NodeInfo) -> (r: bool)
        ensures
            r == spec_resource_fit(*required, node@),
    {
        node.available_cpu >= required.cpu_cores && node.available_memory_gb >= required.memory_gb
            && node.available_gpu >= required.gpu_count
    }

    /// Estimates job latency from node state: a base latency plus resource
    /// pressure, with no historical load averaging.
    fn estimate_latency(&self, node: &NodeInfo) -> (r: u64)
        ensures
            r == spec_estimate_latency(node@),
    {
        let base_latency: u64 = 50;
        let cpu_pressure: u64 = if node.available_cpu < 2 {
            50
        } else {
            0
        };
        let mem_pressure: u64 = if node.available_memory_gb < 2 {
            30
        } else {
            0
        };
        base_latency + cpu_pressure + mem_pressure
    }

    /// Acknowledges a worker's resource telemetry without applying it: the
    /// registry is updated only by `register_node`. The no-op is documented
    /// behaviour, not an oversight.
    pub fn report_resources(
        &self,
        node_id: &str,
        available_cpu: u32,
        available_memory_gb: u32,
        available_disk_gb: u32,
        available_gpu: u32,
    ) -> (ack: bool)
        ensures
            ack,
    {
        let _ = node_id;
        let _ = available_cpu;
        let _ = available_memory_gb;
        let _ = available_disk_gb;
        let _ = available_gpu;
        true
    }
}

impl Default for EconomicScheduler {
    fn default() -> (r: Self)
        ensures
            r.wf(),
            r@.nodes == Seq::<NodeView>::empty(),
            r@.jobs == Seq::<JobStateView>::empty(),
    {
        Self::new()
    }
}

/// The wire encoding of a job type, as decoded from a submission request.
pub open spec fn spec_job_type_from_code(code: u32) -> JobType {
    if code == 1 {
        JobType::Training
    } else if code == 2 {
        JobType::Inference
    } else if code == 3 {
        JobType::DataProcessing
    } else {
        JobType::Inference
    }
}

/// Decodes the wire encoding of a job type; an unrecognized code falls
/// back to `Inference`.
pub fn job_type_from_code(code: u32) -> (t: JobType)
    ensures
        t == spec_job_type_from_code(code),
{
    if code == 1 {
        JobType::Training
    } else if code == 2 {
        JobType::Inference
    } else if code == 3 {
        JobType::DataProcessing
    } else {
        JobType::Inference
    }
}

} // verus!
