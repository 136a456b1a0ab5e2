//! Cost calculation engine.
//!
//! Computes the total cost of ownership of a placement as
//! `C_total = C_comp + C_data + C_idle`.
//!
//! Every monetary amount is a whole number of micro-dollars (one millionth
//! of a dollar). Durations are given in milli-hours, data sizes in milli-GB
//! and the utilization factor in per-mille, so that every product below is
//! exact integer arithmetic.

use vstd::arithmetic::div_mod::lemma_div_is_ordered;
use vstd::arithmetic::div_mod::lemma_div_multiples_vanish;
use vstd::arithmetic::mul::lemma_mul_upper_bound;
use vstd::prelude::*;

verus! {

/// Thousandths in one whole unit: milli-hours per hour, milli-GB per GB and
/// per-mille of full utilization.
pub const MILLI: u64 = 1000;

/// Compute cost in micro-dollars:
/// `price_per_hour * duration_hours * utilization`, with the duration in
/// milli-hours and the utilization in per-mille.
pub open spec fn spec_compute_cost(
    price_per_hour: int,
    duration_milli_hours: int,
    utilization_per_mille: int,
) -> int {
    (price_per_hour * duration_milli_hours * utilization_per_mille) / 1_000_000
}

/// Data-transfer cost in micro-dollars: `data_size_gb * price_per_gb`, with
/// the size in milli-GB.
pub open spec fn spec_data_transfer_cost(data_size_milli_gb: int, price_per_gb: int) -> int {
    (data_size_milli_gb * price_per_gb) / 1000
}

/// Idle opportunity cost in micro-dollars:
/// `idle_hours * opportunity_cost_per_hour`, with the idle time in
/// milli-hours.
pub open spec fn spec_idle_cost(idle_milli_hours: int, opportunity_cost_per_hour: int) -> int {
    (idle_milli_hours * opportunity_cost_per_hour) / 1000
}

/// Total cost breakdown for a job, in micro-dollars.
///
/// The breakdown is kept alongside the total so that callers can explain the
/// decomposition of a decision; `total_micro_usd` always equals the sum of
/// the three components.
#[derive(Clone, Copy, Debug, PartialEq, Eq, Structural)]
pub struct TotalCost {
    /// Compute cost (instance pricing).
    pub compute_micro_usd: u64,
    /// Data transfer cost (egress/ingress).
    pub data_transfer_micro_usd: u64,
    /// Idle resource opportunity cost.
    pub idle_opportunity_micro_usd: u64,
    /// Total cost.
    pub total_micro_usd: u64,
}

impl TotalCost {
    /// The total is exactly the sum of the three components.
    pub open spec fn wf(self) -> bool {
        self.total_micro_usd == self.compute_micro_usd + self.data_transfer_micro_usd
            + self.idle_opportunity_micro_usd
    }

    pub fn new(compute: u64, data_transfer: u64, idle: u64) -> (r: TotalCost)
        requires
            compute + data_transfer + idle <= u64::MAX,
        ensures
            r.compute_micro_usd == compute,
            r.data_transfer_micro_usd == data_transfer,
            r.idle_opportunity_micro_usd == idle,
            r.total_micro_usd == compute + data_transfer + idle,
            r.wf(),
    {
        TotalCost {
            compute_micro_usd: compute,
            data_transfer_micro_usd: data_transfer,
            idle_opportunity_micro_usd: idle,
            total_micro_usd: compute + data_transfer + idle,
        }
    }
}

/// Pure, side-effect-free cost calculator.
#[derive(Clone, Debug)]
pub struct CostCalculator {
}

/// Multiplies three `u64` factors exactly and divides by `divisor`,
/// truncating; the quotient is proved to fit in a `u64`.
fn scaled_product(a: u64, b: u64, c: u64, divisor: u64) -> (r: u64)
    requires
        0 < divisor,
        a * b * c <= u64::MAX * divisor,
    ensures
        r == (a * b * c) / (divisor as int),
{
    proof {
        lemma_mul_upper_bound(a as int, u64::MAX as int, b as int, u64::MAX as int);
        lemma_mul_upper_bound(u64::MAX as int, u64::MAX as int, divisor as int, u64::MAX as int);
    }
    let product: u128 = (a as u128) * (b as u128) * (c as u128);
    let quotient: u128 = product / (divisor as u128);
    proof {
        lemma_div_is_ordered(product as int, u64::MAX * divisor, divisor as int);
        lemma_div_multiples_vanish(u64::MAX as int, divisor as int);
    }
    quotient as u64
}

impl CostCalculator {
    pub fn new() -> (r: Self) {
        Self {  }
    }

    /// Compute cost `C_comp`: hourly price, scaled by the duration in
    /// milli-hours and the utilization factor in per-mille.
    ///
    /// Inputs are not validated: callers are trusted, and any combination
    /// whose product stays in range is accepted.
    pub fn compute_cost(
        &self,
        instance_price_per_hour: u64,
        duration_milli_hours: u64,
        utilization_per_mille: u64,
    ) -> (r: u64)
        requires
            instance_price_per_hour * duration_milli_hours * utilization_per_mille <= u64::MAX
                * 1_000_000,
        ensures
            r == spec_compute_cost(
                instance_price_per_hour as int,
                duration_milli_hours as int,
                utilization_per_mille as int,
            ),
    {
        scaled_product(
            instance_price_per_hour,
            duration_milli_hours,
            utilization_per_mille,
            MILLI * MILLI,
        )
    }

    /// Data transfer cost `C_data`: size in milli-GB times the price per GB.
    pub fn data_transfer_cost(&self, data_size_milli_gb: u64, transfer_price_per_gb: u64) -> (r:
        u64)
        requires
            data_size_milli_gb * transfer_price_per_gb <= u64::MAX * 1000,
        ensures
            r == spec_data_transfer_cost(data_size_milli_gb as int, transfer_price_per_gb as int),
    {
        scaled_product(data_size_milli_gb, transfer_price_per_gb, 1, MILLI)
    }

    /// Idle opportunity cost `C_idle`: the cost of resources sitting idle,
    /// with the idle time in milli-hours.
    pub fn idle_opportunity_cost(
        &self,
        idle_capacity_milli_hours: u64,
        opportunity_cost_per_hour: u64,
    ) -> (r: u64)
        requires
            idle_capacity_milli_hours * opportunity_cost_per_hour <= u64::MAX * 1000,
        ensures
            r == spec_idle_cost(idle_capacity_milli_hours as int, opportunity_cost_per_hour as int),
    {
        scaled_product(idle_capacity_milli_hours, opportunity_cost_per_hour, 1, MILLI)
    }

    /// Total cost `C_total = C_comp + C_data + C_idle`, returned as a
    /// structured breakdown rather than a scalar.
    pub fn total_cost(
        &self,
        instance_price_per_hour: u64,
        duration_milli_hours: u64,
        utilization_per_mille: u64,
        data_size_milli_gb: u64,
        transfer_price_per_gb: u64,
        idle_capacity_milli_hours: u64,
        opportunity_cost_per_hour: u64,
    ) -> (r: TotalCost)
        requires
            instance_price_per_hour * duration_milli_hours * utilization_per_mille <= u64::MAX
                * 1_000_000,
            data_size_milli_gb * transfer_price_per_gb <= u64::MAX * 1000,
            idle_capacity_milli_hours * opportunity_cost_per_hour <= u64::MAX * 1000,
            spec_compute_cost(
                instance_price_per_hour as int,
                duration_milli_hours as int,
                utilization_per_mille as int,
            ) + spec_data_transfer_cost(data_size_milli_gb as int, transfer_price_per_gb as int)
                + spec_idle_cost(idle_capacity_milli_hours as int, opportunity_cost_per_hour as int)
                <= u64::MAX,
        ensures
            r.compute_micro_usd == spec_compute_cost(
                instance_price_per_hour as int,
                duration_milli_hours as int,
                utilization_per_mille as int,
            ),
            r.data_transfer_micro_usd == spec_data_transfer_cost(
                data_size_milli_gb as int,
                transfer_price_per_gb as int,
            ),
            r.idle_opportunity_micro_usd == spec_idle_cost(
                idle_capacity_milli_hours as int,
                opportunity_cost_per_hour as int,
            ),
            r.total_micro_usd == r.compute_micro_usd + r.data_transfer_micro_usd
                + r.idle_opportunity_micro_usd,
            r.wf(),
    {
        let compute = self.compute_cost(
            instance_price_per_hour,
            duration_milli_hours,
            utilization_per_mille,
        );
        let data_transfer = self.data_transfer_cost(data_size_milli_gb, transfer_price_per_gb);
        let idle = self.idle_opportunity_cost(
            idle_capacity_milli_hours,
            opportunity_cost_per_hour,
        );
        TotalCost::new(compute, data_transfer, idle)
    }
}

impl Default for CostCalculator {
    fn default() -> (r: Self)
        ensures
            r == (CostCalculator {  }),
    {
        Self::new()
    }
}

} // verus!
