use crate::common::api::definitions::Definition;
use crate::common::api::probes::Probes;
use vstd::prelude::*;

verus! {

/// One measurement specification of the flat request model, with the
/// account that it is billed to.
#[derive(Debug)]
pub struct Config {
    pub start_time: Option<u64>,
    pub end_time: Option<u64>,
    pub is_oneoff: bool,
    pub billed_to: String,
    pub definitions: Vec<Definition>,
    pub probes: Vec<Probes>,
}

} // verus!
