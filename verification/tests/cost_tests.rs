use tgp_scheduler::CostCalculator;
use tgp_scheduler::TotalCost;

#[test]
fn test_compute_cost_calculation() {
    let calculator = CostCalculator::new();

    // $0.50/hour for 2 hours at 80% utilization
    let cost = calculator.compute_cost(500_000, 2_000, 800);
    assert_eq!(cost, 800_000); // $0.80
}

#[test]
fn test_data_transfer_cost() {
    let calculator = CostCalculator::new();

    // 100GB at $0.09/GB
    let cost = calculator.data_transfer_cost(100_000, 90_000);
    assert_eq!(cost, 9_000_000); // $9.00
}

#[test]
fn test_total_cost() {
    let calculator = CostCalculator::new();

    let total = calculator.total_cost(
        500_000, // $0.50/hour instance
        2_000,   // 2 hours duration
        1_000,   // 100% utilization
        10_000,  // 10GB data transfer
        90_000,  // $0.09/GB transfer cost
        0,       // 0 idle hours
        0,       // $0 opportunity cost
    );

    assert_eq!(total.compute_micro_usd, 1_000_000);
    assert_eq!(total.data_transfer_micro_usd, 900_000); // exact: no FP error
    assert_eq!(total.idle_opportunity_micro_usd, 0);
    assert_eq!(total.total_micro_usd, 1_900_000);
}

#[test]
fn test_total_cost_additivity() {
    // the total always equals the exact sum of the three components
    let cases: [(u64, u64, u64); 6] = [
        (0, 0, 0),
        (1, 2, 3),
        (250_000, 0, 0),
        (123_456, 789_012, 345_678),
        (u64::MAX / 3, u64::MAX / 3, u64::MAX / 3),
        (999_999_999, 1, 0),
    ];
    for (compute, data, idle) in cases {
        let t = TotalCost::new(compute, data, idle);
        assert_eq!(t.total_micro_usd, compute + data + idle);
        assert_eq!(t.compute_micro_usd, compute);
        assert_eq!(t.data_transfer_micro_usd, data);
        assert_eq!(t.idle_opportunity_micro_usd, idle);
    }
}

#[test]
fn test_total_cost_breakdown_additivity() {
    // additivity also holds for a breakdown assembled by the calculator
    let calculator = CostCalculator::new();
    let t = calculator.total_cost(750_000, 3_000, 900, 2_500, 90_000, 1_500, 40_000);
    assert_eq!(
        t.total_micro_usd,
        t.compute_micro_usd + t.data_transfer_micro_usd + t.idle_opportunity_micro_usd
    );
    // and each component is the exact scaled product
    assert_eq!(t.compute_micro_usd, 2_025_000); // 0.75 * 3 * 0.9
    assert_eq!(t.data_transfer_micro_usd, 225_000); // 2.5 * 0.09
    assert_eq!(t.idle_opportunity_micro_usd, 60_000); // 1.5 * 0.04
    assert_eq!(t.total_micro_usd, 2_310_000);
}

#[test]
fn test_idle_opportunity_cost() {
    let calculator = CostCalculator::new();

    // 4 idle hours at $0.20/hour of opportunity cost
    let cost = calculator.idle_opportunity_cost(4_000, 200_000);
    assert_eq!(cost, 800_000);
}

#[test]
fn test_compute_cost_truncates_sub_micro_remainder() {
    let calculator = CostCalculator::new();

    // 1 micro-dollar/hour for 1 milli-hour at 0.1% utilization rounds
    // down to zero
    let cost = calculator.compute_cost(1, 1, 1);
    assert_eq!(cost, 0);
}

#[test]
fn test_compute_cost_largest_price() {
    let calculator = CostCalculator::new();

    // the full u64 price range is accepted at the scheduler's constants
    let cost = calculator.compute_cost(u64::MAX, 1_000, 1_000);
    assert_eq!(cost, u64::MAX);
}
