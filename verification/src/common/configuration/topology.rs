use vstd::prelude::*;

verus! {

/// How the vantage points are paired: the name of the policy and, for a
/// policy that lists its pairs, the pairs.
#[derive(Debug)]
pub struct Topology {
    pub mode: String,
    pub pairs: Vec<TopologicalPair>,
}

impl Topology {
    pub fn new(mode: String, pairs: Vec<TopologicalPair>) -> (r: Self)
        ensures
            r.mode == mode,
            r.pairs == pairs,
    {
        Topology { mode, pairs }
    }
}

/// One directed pair of vantage points, by identifier.
#[derive(Debug)]
pub struct TopologicalPair {
    pub from: String,
    pub to: String,
}

impl TopologicalPair {
    pub fn new(from: String, to: String) -> (r: Self)
        ensures
            r.from == from,
            r.to == to,
    {
        TopologicalPair { from, to }
    }
}

} // verus!
