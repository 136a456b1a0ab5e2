//! Economic job scheduler for a pool of heterogeneous worker nodes.
//!
//! The crate places computational jobs onto worker nodes so that the total
//! cost of ownership is minimized while hard constraints (resource fit,
//! latency ceiling, optional budget ceiling) are honored. It is built from
//! three parts:
//!
//! - [`cost`]: a pure cost model computing compute, data-transfer, idle and
//!   total cost for a candidate placement;
//! - [`optimizer`]: a placeholder for future placement optimization
//!   strategies;
//! - [`scheduler`]: the node registry, the job state store and the
//!   minimum-cost placement algorithm, composed behind the
//!   [`scheduler::EconomicScheduler`] facade.
//!
//! All monetary amounts are fixed-point integers in micro-dollars, so cost
//! arithmetic is exact; callers that present dollars convert at the edge.

pub mod cost;
pub mod optimizer;
pub mod scheduler;

pub use cost::CostCalculator;
pub use cost::TotalCost;
pub use optimizer::OptimizationResult;
pub use optimizer::Optimizer;
pub use scheduler::EconomicScheduler;
pub use scheduler::JobSpec;
pub use scheduler::JobState;
pub use scheduler::JobStatus;
pub use scheduler::JobType;
pub use scheduler::NodeInfo;
pub use scheduler::Placement;
pub use scheduler::ResourceRequirements;
pub use scheduler::ScheduleError;
pub use scheduler::SlaConstraints;
