//! Verified core of a nested-machine execution and cost-accounting design:
//! a RISC-V-style interpreter (the inner machine) is configured, loaded and
//! driven to completion by a guest that commits the run's exit code and cycle
//! count as a positional public record, while a host-side orchestrator selects
//! an execution mode and a chunked estimator accounts the cost of the outer
//! environment's own execution.

pub mod estimator;
pub mod fixture;
pub mod guest;
pub mod hashing;
pub mod hexcodec;
pub mod machine;
pub mod orchestrator;
pub mod outputs;
