//! The question for the topology.

use vstd::prelude::*;

verus! {

/// A policy for pairing the vantage points.
#[derive(Debug, Clone, Copy, PartialEq, Eq, Structural)]
pub enum TopologyMode {
    /// Every vantage point is paired with every other.
    AllToAll,
    /// The pairs are listed one by one.
    CustomPairs,
}

impl TopologyMode {
    /// The policies that are offered, all-to-all first.
    pub fn all() -> (offered: &'static [TopologyMode])
        ensures
            offered@ == seq![TopologyMode::AllToAll, TopologyMode::CustomPairs],
    {
        let offered: &'static [TopologyMode] = &[TopologyMode::AllToAll, TopologyMode::CustomPairs];
        assert(offered@ =~= seq![TopologyMode::AllToAll, TopologyMode::CustomPairs]);
        offered
    }

    /// The name of the policy as a configuration records it.
    pub fn as_str(&self) -> (name: &'static str)
        ensures
            name@ == match *self {
                TopologyMode::AllToAll => "All-to-all"@,
                TopologyMode::CustomPairs => "Custom pairs"@,
            },
    {
        match self {
            TopologyMode::AllToAll => "All-to-all",
            TopologyMode::CustomPairs => "Custom pairs",
        }
    }

    /// The name under which the policy is offered.
    pub fn label(&self) -> (name: &'static str)
        ensures
            name@ == match *self {
                TopologyMode::AllToAll => "all-to-all"@,
                TopologyMode::CustomPairs => "custom pairs"@,
            },
    {
        match self {
            TopologyMode::AllToAll => "all-to-all",
            TopologyMode::CustomPairs => "custom pairs",
        }
    }
}

} // verus!
