use vstd::prelude::*;

verus! {

/// The identifiers of the measurements that the platform created.
#[derive(Debug)]
pub struct MeasurementIds {
    pub ids: Vec<String>,
}

impl MeasurementIds {
    pub fn new(ids: Vec<String>) -> (r: Self)
        ensures
            r.ids == ids,
    {
        MeasurementIds { ids }
    }
}

} // verus!
