use crate::text::{comma_joined, join_with_commas};
use vstd::prelude::*;
use vstd::string::*;

verus! {

/// The selection of the probes that run a measurement.
///
/// `value` lists the probes' identifiers, separated by commas, and
/// `requested` says how many of them are asked for. The count is carried on
/// its own and is not derived from the list.
#[derive(Debug)]
pub struct Probes {
    pub probe_type: String,
    pub value: String,
    pub requested: usize,
}

/// The mathematical content of a [`Probes`].
pub struct ProbesView {
    pub probe_type: Seq<char>,
    pub value: Seq<char>,
    pub requested: usize,
}

impl View for Probes {
    type V = ProbesView;

    open spec fn view(&self) -> ProbesView {
        ProbesView { probe_type: self.probe_type@, value: self.value@, requested: self.requested }
    }
}

/// The selection that asks for exactly the listed sources.
pub open spec fn selection_of(sources: Seq<Seq<char>>) -> ProbesView {
    ProbesView {
        probe_type: "probes"@,
        value: comma_joined(sources),
        requested: sources.len() as usize,
    }
}

impl Probes {
    /// The selection that asks for exactly the listed sources.
    pub fn from_sources(sources: &Vec<String>) -> (r: Self)
        ensures
            r@ == selection_of(sources.deep_view()),
    {
        Probes {
            probe_type: String::from_str("probes"),
            value: join_with_commas(sources),
            requested: sources.len(),
        }
    }
}

} // verus!
