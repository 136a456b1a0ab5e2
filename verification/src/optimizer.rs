//! Placement optimization strategies.
//!
//! The greedy minimum-cost selection lives in the scheduler; this component
//! reserves room for richer optimization algorithms (multi-job batching,
//! constraint programming) that are explicitly deferred for now.

use vstd::prelude::*;

verus! {

/// Optimizer for finding optimal job placements.
pub struct Optimizer {
}

/// Result of an optimization run. The score is a fixed-point quality
/// measure in millionths; the placeholder optimizer always reports zero.
#[derive(Clone, Copy, Debug, PartialEq, Eq, Structural)]
pub struct OptimizationResult {
    pub score: u64,
}

impl Optimizer {
    pub fn new() -> (r: Self) {
        Self {  }
    }

    /// Find an optimal placement.
    ///
    /// Deferred: the scheduler's greedy per-job selection is the only
    /// strategy implemented, so this reports a neutral result.
    pub fn find_optimal_placement(&self) -> (r: OptimizationResult)
        ensures
            r.score == 0,
    {
        OptimizationResult { score: 0 }
    }
}

impl Default for Optimizer {
    fn default() -> (r: Self)
        ensures
            r == (Optimizer {  }),
    {
        Self::new()
    }
}

} // verus!
