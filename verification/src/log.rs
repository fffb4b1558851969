//! Names the agents log under.

use vstd::prelude::*;

verus! {

/// The agent a log line belongs to.
#[derive(Debug, Clone, Copy, PartialEq, Eq, Structural)]
pub enum Names {
    AisAggregator,
    AisSystemdMonitor,
    AisGithubMonitor,
    AisApacheMonitor,
    AisInternal,
}

/// The log name of an agent.
pub open spec fn log_name_spec(n: Names) -> Seq<char> {
    match n {
        Names::AisAggregator => "AisAggregator"@,
        Names::AisSystemdMonitor => "AisSystemdMonitor"@,
        Names::AisGithubMonitor => "AisGithubMonitor"@,
        Names::AisApacheMonitor => "AisApacheMonitor"@,
        Names::AisInternal => "AisInternal"@,
    }
}

impl Names {
    /// The name an agent's log lines file under.
    pub fn label(&self) -> (r: &'static str)
        ensures
            r@ == log_name_spec(*self),
    {
        match self {
            Names::AisAggregator => "AisAggregator",
            Names::AisSystemdMonitor => "AisSystemdMonitor",
            Names::AisGithubMonitor => "AisGithubMonitor",
            Names::AisApacheMonitor => "AisApacheMonitor",
            Names::AisInternal => "AisInternal",
        }
    }
}

} // verus!
