use vstd::prelude::*;

verus! {

/// The probes to measure between, by identifier.
#[derive(Debug)]
pub struct Probes {
    pub probes: Vec<u32>,
}

impl Probes {
    pub fn new(probes: Vec<u32>) -> (r: Self)
        ensures
            r.probes == probes,
    {
        Probes { probes }
    }
}

} // verus!
