//! A probe as the platform describes it together with its connection
//! status.

use vstd::prelude::*;

verus! {

/// A probe of the platform.
#[derive(Debug)]
pub struct Probe {
    pub probe_id: u32,
    pub address_v4: String,
    pub country_code: String,
    pub is_anchor: bool,
    pub status: ProbeStatus,
}

/// The connection status of a probe. The status with identifier 1 is
/// "connected".
#[derive(Debug)]
pub struct ProbeStatus {
    pub id: u32,
}

/// The identifier of the status "connected".
pub const CONNECTED: u32 = 1;

/// Why a described probe cannot be used.
#[derive(Debug, Clone, Copy, PartialEq, Eq, Structural)]
pub enum ProbeError {
    /// The probe with this identifier is not connected.
    Offline(u32),
}

impl Probe {
    /// Gives the description of a probe the identifier that it was asked
    /// about, and accepts it exactly when the probe is connected.
    pub fn identified(self, probe_id: u32) -> (outcome: Result<Probe, ProbeError>)
        ensures
            outcome == if self.status.id == CONNECTED {
                Ok::<Probe, ProbeError>(Probe { probe_id, ..self })
            } else {
                Err::<Probe, ProbeError>(ProbeError::Offline(probe_id))
            },
    {
        let probe = Probe { probe_id, ..self };
        if probe.status.id != CONNECTED {
            return Err(ProbeError::Offline(probe_id));
        }
        Ok(probe)
    }
}

} // verus!
