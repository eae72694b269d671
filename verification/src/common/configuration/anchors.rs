use vstd::prelude::*;

verus! {

/// The anchors to measure between, by identifier.
#[derive(Debug)]
pub struct Anchors {
    pub anchors: Vec<u32>,
}

impl Anchors {
    pub fn new(anchors: Vec<u32>) -> (r: Self)
        ensures
            r.anchors == anchors,
    {
        Self { anchors }
    }
}

} // verus!
