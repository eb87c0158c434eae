//! Coordination engine of a small cluster experiment runner: the
//! coordinator's registry of hosts and invocations, and the decision logic of
//! the per-host agent that reconciles its local run against the coordinator.

pub mod ids;
pub mod host;
pub mod text;
pub mod descriptor;
pub mod invocation;
pub mod instance;
pub mod response;
pub mod connector;
pub mod agent;
