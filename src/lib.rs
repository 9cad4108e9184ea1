//! A fault-injecting storage shim for stress-testing an embedded
//! transactional key-value engine, and the workload driver that exercises it.
pub mod backend;
pub mod driver;
mod entropy;
pub mod rate;
