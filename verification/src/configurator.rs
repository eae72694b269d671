//! Composing a measurement intent from a user's answers: what may be
//! offered, which answers are accepted, and what to ask next.

pub mod prompt;

use crate::configurator::prompt::general::MeasurementType;
use crate::configurator::prompt::topology::TopologyMode;
use vstd::prelude::*;

verus! {

/// Which identifiers a configuration takes its vantage points from.
#[derive(Debug, Clone, Copy, PartialEq, Eq, Structural)]
pub enum IdentifierSource {
    /// Probes of any kind.
    Probes,
    /// Anchors only.
    Anchors,
}

/// Whether HTTP is among the chosen measurement types.
pub open spec fn includes_http(measurement_types: Seq<MeasurementType>) -> bool {
    exists|i: int|
        0 <= i < measurement_types.len() && #[trigger] measurement_types[i]
            == MeasurementType::Http
}

/// Decides which identifiers to ask for.
///
/// Under the all-to-all topology the vantage points are anchors where an
/// HTTP measurement is among the chosen types, and probes otherwise. A
/// topology given pair by pair is not supported, so nothing is to be asked.
pub fn apply_appropriete_ids_for(topology: TopologyMode, measurement_types: &[MeasurementType]) -> (source:
    Option<IdentifierSource>)
    ensures
        source == match topology {
            TopologyMode::AllToAll => Some(
                if includes_http(measurement_types@) {
                    IdentifierSource::Anchors
                } else {
                    IdentifierSource::Probes
                },
            ),
            TopologyMode::CustomPairs => None,
        },
{
    let mut use_anchor = false;
    let mut i: usize = 0;
    while i < measurement_types.len()
        invariant
            0 <= i <= measurement_types.len(),
            use_anchor == includes_http(measurement_types@.take(i as int)),
        decreases measurement_types.len() - i,
    {
        let ghost before = measurement_types@.take(i as int);
        let ghost after = measurement_types@.take(i + 1);
        proof {
            assert(after.drop_last() =~= before);
            if includes_http(before) {
                let k = choose|k: int|
                    0 <= k < before.len() && #[trigger] before[k] == MeasurementType::Http;
                assert(after[k] == MeasurementType::Http);
            }
            if includes_http(after) && measurement_types[i as int] != MeasurementType::Http {
                let k = choose|k: int|
                    0 <= k < after.len() && #[trigger] after[k] == MeasurementType::Http;
                assert(before[k] == MeasurementType::Http);
            }
        }
        match measurement_types[i] {
            MeasurementType::Http => {
                assert(after[i as int] == MeasurementType::Http);
                use_anchor = true;
            },
            _ => {},
        }
        i = i + 1;
    }
    assert(measurement_types@.take(i as int) =~= measurement_types@);
    match topology {
        TopologyMode::AllToAll => Some(
            if use_anchor {
                IdentifierSource::Anchors
            } else {
                IdentifierSource::Probes
            },
        ),
        TopologyMode::CustomPairs => None,
    }
}

} // verus!
