//! From intent and vantage points to measurement specifications: the
//! pairings of a topology, the templates of the requested measurement types,
//! and their assembly.

pub mod builder;
pub mod connections;
pub mod templates;

use vstd::prelude::*;

verus! {

/// Why no measurement specifications could be built.
#[derive(Debug, Clone, Copy, PartialEq, Eq, Structural)]
pub enum TransformError {
    /// The configuration asks for no measurement type at all.
    NoMeasurementTypesConfigured,
    /// Fewer than two vantage points were given, so no pairing exists.
    InsufficientVantagePoints,
    /// An HTTP measurement is asked for and some vantage point is no anchor.
    NonAnchorProbeForHttp,
    /// The topology is to be given pair by pair, which is not supported.
    NotImplemented,
    /// The topology names no known policy.
    InvalidTopologyMode,
    /// An HTTP measurement targets a vantage point without a domain name.
    MissingTargetFqdn,
}

impl TransformError {
    /// A sentence that describes the failure.
    pub fn message(&self) -> (text: &'static str)
        ensures
            text@ == match *self {
                TransformError::NoMeasurementTypesConfigured =>
                    "No definition templates provided in configuration."@,
                TransformError::InsufficientVantagePoints =>
                    "Not enough probes to create a connection."@,
                TransformError::NonAnchorProbeForHttp =>
                    "One or multiple probes are not an Anchor (required for HTTP measurements)"@,
                TransformError::NotImplemented => "Not implemented yet"@,
                TransformError::InvalidTopologyMode =>
                    "Invalid topology mode. Cannot build connections."@,
                TransformError::MissingTargetFqdn =>
                    "HTTP templates imply the existance of a fqdn to be set"@,
            },
    {
        match self {
            TransformError::NoMeasurementTypesConfigured => {
                "No definition templates provided in configuration."
            },
            TransformError::InsufficientVantagePoints => {
                "Not enough probes to create a connection."
            },
            TransformError::NonAnchorProbeForHttp => {
                "One or multiple probes are not an Anchor (required for HTTP measurements)"
            },
            TransformError::NotImplemented => "Not implemented yet",
            TransformError::InvalidTopologyMode => {
                "Invalid topology mode. Cannot build connections."
            },
            TransformError::MissingTargetFqdn => {
                "HTTP templates imply the existance of a fqdn to be set"
            },
        }
    }
}

} // verus!
