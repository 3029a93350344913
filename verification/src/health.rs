//! The health check of the visualizer service.

use vstd::prelude::*;

verus! {

/// The serving status a health check reports.
#[derive(Debug, Clone, Copy, PartialEq, Eq, Structural)]
pub enum ServingStatus {
    Alive,
}

/// The health check service; it holds nothing.
#[derive(Debug)]
pub struct HealthCheckService {}

impl Default for HealthCheckService {
    fn default() -> (r: HealthCheckService) {
        HealthCheckService {  }
    }
}

impl HealthCheckService {
    /// Answers a health check: a running service is alive.
    pub fn check(&self) -> (r: ServingStatus)
        ensures
            r == ServingStatus::Alive,
    {
        ServingStatus::Alive
    }
}

} // verus!
