use tgp_scheduler::scheduler::job_type_from_code;
use tgp_scheduler::EconomicScheduler;
use tgp_scheduler::JobSpec;
use tgp_scheduler::JobStatus;
use tgp_scheduler::JobType;
use tgp_scheduler::NodeInfo;
use tgp_scheduler::Placement;
use tgp_scheduler::ResourceRequirements;
use tgp_scheduler::ScheduleError;
use tgp_scheduler::SlaConstraints;

fn node(id: &str, cpu: u32, mem: u32, gpu: u32, location: &str, cost_micro_usd: u64) -> NodeInfo {
    NodeInfo {
        id: id.to_string(),
        available_cpu: cpu,
        available_memory_gb: mem,
        available_gpu: gpu,
        location: location.to_string(),
        cost_per_hour_micro_usd: cost_micro_usd,
    }
}

fn job(
    id: &str,
    job_type: JobType,
    cpu: u32,
    mem: u32,
    gpu: u32,
    disk: u32,
    max_latency_ms: u64,
    max_budget_micro_usd: Option<u64>,
) -> JobSpec {
    JobSpec {
        id: id.to_string(),
        job_type,
        resources: ResourceRequirements {
            cpu_cores: cpu,
            memory_gb: mem,
            gpu_count: gpu,
            disk_gb: disk,
        },
        sla: SlaConstraints {
            max_latency_ms,
            max_budget_micro_usd,
            deadline: None,
        },
    }
}

#[test]
fn test_scheduler_creation() {
    let scheduler = EconomicScheduler::new();
    assert_eq!(scheduler.node_count(), 0);
}

#[test]
fn test_node_registration() {
    let mut scheduler = EconomicScheduler::new();
    let n = node("test-node-1", 8, 32, 1, "vps-1", 500_000);

    scheduler.register_node(n.clone());
    assert_eq!(scheduler.node_count(), 1);
}

#[test]
fn test_schedule_selects_cheapest_node() {
    let mut scheduler = EconomicScheduler::new();

    // Two nodes with different costs
    scheduler.register_node(node("cheap-node", 4, 8, 0, "vps-1", 250_000)); // cheaper
    scheduler.register_node(node("expensive-node", 8, 16, 1, "vps-2", 1_000_000));

    let j = job("test-job-1", JobType::Inference, 2, 4, 0, 10, 1000, None);

    let placement = scheduler.schedule(j).unwrap();

    // Should select the cheaper node
    assert_eq!(placement.node_id, "cheap-node");
    assert!(placement.estimated_cost.total_micro_usd < 1_000_000);
    // one hour at full utilization: exactly the hourly price
    assert_eq!(placement.estimated_cost.total_micro_usd, 250_000);
}

#[test]
fn test_schedule_respects_sla_budget() {
    let mut scheduler = EconomicScheduler::new();

    scheduler.register_node(node("cheap-node", 2, 4, 0, "vps-1", 100_000));
    scheduler.register_node(node("expensive-node", 8, 16, 1, "vps-2", 10_000_000)); // very expensive

    let j = job(
        "budget-constrained-job",
        JobType::Training,
        2,
        4,
        0,
        10,
        5000,
        Some(500_000), // budget constraint
    );

    let placement = scheduler.schedule(j).unwrap();

    // Should select the cheap node due to the budget constraint
    assert_eq!(placement.node_id, "cheap-node");
    assert!(placement.estimated_cost.total_micro_usd <= 500_000);
}

#[test]
fn test_schedule_fails_insufficient_resources() {
    let mut scheduler = EconomicScheduler::new();

    scheduler.register_node(node("small-node", 1, 1, 0, "vps-1", 100_000));

    let j = job(
        "large-job",
        JobType::Training,
        8,  // too many cores
        32, // too much memory
        0,
        100,
        5000,
        None,
    );

    let result = scheduler.schedule(j);

    // Should fail: no suitable node
    assert!(result.is_err());
    assert_eq!(result.unwrap_err(), ScheduleError::NoFeasiblePlacement);
}

#[test]
fn test_schedule_no_nodes_available() {
    let mut scheduler = EconomicScheduler::new(); // no nodes registered

    let j = job("orphan-job", JobType::Inference, 1, 1, 0, 10, 1000, None);

    let result = scheduler.schedule(j);

    // Should fail: no nodes in the cluster
    assert!(result.is_err());
    assert_eq!(result.unwrap_err(), ScheduleError::NoNodesAvailable);
}

#[test]
fn test_failed_schedule_leaves_job_failed() {
    let mut scheduler = EconomicScheduler::new();

    let j = job("doomed-job", JobType::Inference, 1, 1, 0, 10, 1000, None);
    let result = scheduler.schedule(j);
    assert_eq!(result.unwrap_err(), ScheduleError::NoNodesAvailable);

    // the Pending record was created and ended Failed
    let state = scheduler.get_job_state("doomed-job").unwrap();
    assert_eq!(state.job_id, "doomed-job");
    assert_eq!(state.status, JobStatus::Failed);
    assert_eq!(state.assigned_node, None);
    assert_eq!(state.estimated_cost, None);
}

#[test]
fn test_successful_schedule_records_job_state() {
    let mut scheduler = EconomicScheduler::new();
    scheduler.register_node(node("worker", 4, 8, 0, "vps-1", 300_000));

    let j = job("recorded-job", JobType::DataProcessing, 2, 2, 0, 10, 1000, None);
    let placement = scheduler.schedule(j).unwrap();

    let state = scheduler.get_job_state("recorded-job").unwrap();
    assert_eq!(state.status, JobStatus::Scheduled);
    assert_eq!(state.assigned_node.as_deref(), Some("worker"));
    assert_eq!(state.estimated_cost, Some(placement.estimated_cost));
}

#[test]
fn test_get_job_status_is_idempotent() {
    let mut scheduler = EconomicScheduler::new();
    scheduler.register_node(node("worker", 4, 8, 0, "vps-1", 300_000));

    let j = job("read-twice-job", JobType::Inference, 1, 1, 0, 10, 1000, None);
    scheduler.schedule(j).unwrap();

    // two reads after a successful schedule return identical values
    let first = scheduler.get_job_state("read-twice-job");
    let second = scheduler.get_job_state("read-twice-job");
    assert_eq!(first, second);
    assert!(first.is_some());
}

#[test]
fn test_get_job_state_unknown_id() {
    let scheduler = EconomicScheduler::new();
    assert!(scheduler.get_job_state("never-submitted").is_none());
}

#[test]
fn test_deterministic_tie_break() {
    // two nodes with identical cost and feasibility must always yield the
    // same winner across repeated runs with the same registration order
    let mut winners: Vec<String> = Vec::new();
    for run in 0..10 {
        let mut scheduler = EconomicScheduler::new();
        scheduler.register_node(node("twin-a", 4, 8, 0, "vps-1", 400_000));
        scheduler.register_node(node("twin-b", 4, 8, 0, "vps-2", 400_000));

        let j = job(
            &format!("tie-job-{}", run),
            JobType::Inference,
            2,
            4,
            0,
            10,
            1000,
            None,
        );
        let placement = scheduler.schedule(j).unwrap();
        winners.push(placement.node_id);
    }
    for w in &winners {
        // the tie goes to the earliest-registered node, every time
        assert_eq!(w, "twin-a");
    }
}

#[test]
fn test_budget_excludes_every_node() {
    let mut scheduler = EconomicScheduler::new();
    scheduler.register_node(node("pricey", 8, 16, 1, "vps-1", 2_000_000));

    // feasible on resources and latency, but over budget
    let j = job("frugal-job", JobType::Inference, 1, 1, 0, 10, 1000, Some(500_000));
    let result = scheduler.schedule(j);
    assert_eq!(result.unwrap_err(), ScheduleError::NoFeasiblePlacement);
}

#[test]
fn test_latency_sla_excludes_pressured_node() {
    let mut scheduler = EconomicScheduler::new();
    // 1 CPU and 1 GB free: latency estimate 50 + 50 + 30 = 130 ms
    scheduler.register_node(node("pressured", 1, 1, 0, "vps-1", 100_000));

    let strict = job("strict-job", JobType::Inference, 1, 1, 0, 10, 100, None);
    assert_eq!(
        scheduler.schedule(strict).unwrap_err(),
        ScheduleError::NoFeasiblePlacement
    );

    let tolerant = job("tolerant-job", JobType::Inference, 1, 1, 0, 10, 130, None);
    let placement = scheduler.schedule(tolerant).unwrap();
    assert_eq!(placement.node_id, "pressured");
    assert_eq!(placement.estimated_latency_ms, 130);
}

#[test]
fn test_reregistration_overwrites_node() {
    let mut scheduler = EconomicScheduler::new();
    scheduler.register_node(node("worker", 1, 1, 0, "vps-1", 100_000));
    // re-registration with the same id overwrites, not merges
    scheduler.register_node(node("worker", 8, 16, 1, "vps-1", 700_000));
    assert_eq!(scheduler.node_count(), 1);

    let j = job("after-update-job", JobType::Inference, 4, 8, 1, 10, 1000, None);
    let placement = scheduler.schedule(j).unwrap();
    assert_eq!(placement.node_id, "worker");
    assert_eq!(placement.estimated_cost.total_micro_usd, 700_000);
}

#[test]
fn test_replayed_submission_is_not_reset() {
    let mut scheduler = EconomicScheduler::new();

    // first submission fails on an empty cluster
    let first = job("replayed-job", JobType::Inference, 1, 1, 0, 10, 1000, None);
    assert!(scheduler.schedule(first).is_err());
    assert_eq!(
        scheduler.get_job_state("replayed-job").unwrap().status,
        JobStatus::Failed
    );

    // the same id resubmitted after a node appears reuses the record
    scheduler.register_node(node("worker", 4, 8, 0, "vps-1", 200_000));
    let second = job("replayed-job", JobType::Inference, 1, 1, 0, 10, 1000, None);
    let placement = scheduler.schedule(second).unwrap();
    assert_eq!(placement.node_id, "worker");

    let state = scheduler.get_job_state("replayed-job").unwrap();
    assert_eq!(state.status, JobStatus::Scheduled);
    assert_eq!(state.assigned_node.as_deref(), Some("worker"));
}

#[test]
fn test_update_job_state_unknown_id_is_noop() {
    let mut scheduler = EconomicScheduler::new();
    scheduler.update_job_state("ghost-job".to_string(), JobStatus::Running, None);
    assert!(scheduler.get_job_state("ghost-job").is_none());
}

#[test]
fn test_update_job_state_transitions() {
    let mut scheduler = EconomicScheduler::new();
    scheduler.register_node(node("worker", 4, 8, 0, "vps-1", 200_000));
    let j = job("running-job", JobType::Training, 1, 1, 0, 10, 1000, None);
    scheduler.schedule(j).unwrap();

    // the execution engine drives Scheduled -> Running -> Completed
    scheduler.update_job_state("running-job".to_string(), JobStatus::Running, None);
    let state = scheduler.get_job_state("running-job").unwrap();
    assert_eq!(state.status, JobStatus::Running);
    // the assignment survives a transition without a node
    assert_eq!(state.assigned_node.as_deref(), Some("worker"));

    scheduler.update_job_state("running-job".to_string(), JobStatus::Completed, None);
    let state = scheduler.get_job_state("running-job").unwrap();
    assert_eq!(state.status, JobStatus::Completed);
}

#[test]
fn test_cluster_status_lists_nodes() {
    let mut scheduler = EconomicScheduler::new();
    scheduler.register_node(node("alpha", 2, 4, 0, "vps-1", 100_000));
    scheduler.register_node(node("beta", 4, 8, 1, "vps-2", 200_000));

    let nodes = scheduler.cluster_status();
    assert_eq!(nodes.len(), 2);
    assert_eq!(nodes[0].id, "alpha");
    assert_eq!(nodes[0].location, "vps-1");
    assert_eq!(nodes[1].id, "beta");
    assert_eq!(nodes[1].cost_per_hour_micro_usd, 200_000);
}

#[test]
fn test_report_resources_is_acknowledged_noop() {
    let mut scheduler = EconomicScheduler::new();
    scheduler.register_node(node("worker", 2, 4, 0, "vps-1", 100_000));

    let ack = scheduler.report_resources("worker", 16, 64, 500, 4);
    assert!(ack);

    // telemetry is acknowledged but not applied to the registry
    let nodes = scheduler.cluster_status();
    assert_eq!(nodes[0].available_cpu, 2);
    assert_eq!(nodes[0].available_memory_gb, 4);
}

#[test]
fn test_job_type_from_code_mapping() {
    assert_eq!(job_type_from_code(1), JobType::Training);
    assert_eq!(job_type_from_code(2), JobType::Inference);
    assert_eq!(job_type_from_code(3), JobType::DataProcessing);
    // unrecognized codes fall back to Inference
    assert_eq!(job_type_from_code(0), JobType::Inference);
    assert_eq!(job_type_from_code(42), JobType::Inference);
}

#[test]
fn test_capacity_not_decremented_after_placement() {
    // known gap, asserted on purpose: a successful placement does not
    // deduct the assigned resources, so a node can be over-subscribed
    let mut scheduler = EconomicScheduler::new();
    scheduler.register_node(node("only-node", 4, 8, 0, "vps-1", 100_000));

    let first = job("full-load-1", JobType::Training, 4, 8, 0, 10, 1000, None);
    let second = job("full-load-2", JobType::Training, 4, 8, 0, 10, 1000, None);
    assert_eq!(scheduler.schedule(first).unwrap().node_id, "only-node");
    assert_eq!(scheduler.schedule(second).unwrap().node_id, "only-node");
}

#[test]
fn test_disk_request_is_not_checked() {
    // known gap, asserted on purpose: disk_gb is accepted but not part of
    // the feasibility filter
    let mut scheduler = EconomicScheduler::new();
    scheduler.register_node(node("diskless", 4, 8, 0, "vps-1", 100_000));

    let j = job("disk-hungry-job", JobType::DataProcessing, 1, 1, 0, 1_000_000, 1000, None);
    assert!(scheduler.schedule(j).is_ok());
}

#[test]
fn test_placement_fields() {
    let mut scheduler = EconomicScheduler::new();
    scheduler.register_node(node("solo", 4, 8, 0, "vps-1", 150_000));

    let j = job("field-job", JobType::Inference, 2, 2, 0, 10, 1000, None);
    let placement: Placement = scheduler.schedule(j).unwrap();
    assert_eq!(placement.job_id, "field-job");
    assert_eq!(placement.node_id, "solo");
    assert_eq!(placement.estimated_cost.compute_micro_usd, 150_000);
    assert_eq!(placement.estimated_cost.data_transfer_micro_usd, 0);
    assert_eq!(placement.estimated_cost.idle_opportunity_micro_usd, 0);
    assert_eq!(placement.estimated_cost.total_micro_usd, 150_000);
    assert_eq!(placement.estimated_latency_ms, 50);
}
