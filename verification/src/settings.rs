//! Settings of the tracing exporter.

use vstd::prelude::*;

verus! {

/// Where traces are sent, and whether they are.
#[derive(Debug, Clone, PartialEq, Eq)]
pub struct JaegerSettings {
    pub enabled: bool,
    pub agent_endpoint: String,
}

impl Default for JaegerSettings {
    /// Tracing is on and goes to the local agent on its usual port.
    fn default() -> (r: JaegerSettings)
        ensures
            r.enabled,
            r.agent_endpoint@ == "localhost:6831"@,
    {
        JaegerSettings { enabled: true, agent_endpoint: String::from_str("localhost:6831") }
    }
}

} // verus!
