use tgp_scheduler::Optimizer;

#[test]
fn test_optimizer_creation() {
    let optimizer = Optimizer::new();
    let result = optimizer.find_optimal_placement();
    assert_eq!(result.score, 0);
}
