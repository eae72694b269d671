use crate::executor::domain::definition::{Definition, DefinitionView};
use crate::executor::domain::probes::{Probes, ProbesView};
use vstd::prelude::*;

verus! {

/// One measurement specification as it is submitted to the platform.
///
/// The times are seconds since the Unix epoch. A specification without a
/// stop time describes a one-off measurement; see [`Config::is_consistent`].
#[derive(Debug)]
pub struct Config {
    pub start_time: Option<u64>,
    pub stop_time: Option<u64>,
    pub is_oneoff: bool,
    pub definitions: Vec<Definition>,
    pub probes: Vec<Probes>,
}

/// The mathematical content of a [`Config`].
pub struct ConfigView {
    pub start_time: Option<u64>,
    pub stop_time: Option<u64>,
    pub is_oneoff: bool,
    pub definitions: Seq<DefinitionView>,
    pub probes: Seq<ProbesView>,
}

impl View for Config {
    type V = ConfigView;

    open spec fn view(&self) -> ConfigView {
        ConfigView {
            start_time: self.start_time,
            stop_time: self.stop_time,
            is_oneoff: self.is_oneoff,
            definitions: self.definitions@.map_values(|d: Definition| d@),
            probes: self.probes@.map_values(|p: Probes| p@),
        }
    }
}

impl ConfigView {
    /// The one-off flag says what the stop time shows: the measurement is
    /// one-off exactly when it has no stop time.
    pub open spec fn is_consistent(self) -> bool {
        self.is_oneoff <==> self.stop_time is None
    }
}

impl Config {
    /// The one-off flag says what the stop time shows.
    pub open spec fn is_consistent(&self) -> bool {
        self@.is_consistent()
    }

    /// The specification of the given window, definitions and probe
    /// selections. The one-off flag is derived from the stop time.
    pub fn new(
        start_time: Option<u64>,
        stop_time: Option<u64>,
        definitions: Vec<Definition>,
        probes: Vec<Probes>,
    ) -> (config: Self)
        ensures
            config.start_time == start_time,
            config.stop_time == stop_time,
            config.is_oneoff <==> stop_time is None,
            config.definitions == definitions,
            config.probes == probes,
            config.is_consistent(),
    {
        Config { start_time, stop_time, is_oneoff: stop_time.is_none(), definitions, probes }
    }
}

} // verus!
