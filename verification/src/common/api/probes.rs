use vstd::prelude::*;

verus! {

/// The selection of the probes that run a measurement: the list of their
/// identifiers, separated by commas, and how many are asked for.
#[derive(Debug)]
pub struct Probes {
    pub probe_type: String,
    pub value: String,
    pub requested: usize,
}

} // verus!
