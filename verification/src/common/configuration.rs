//! The measurement intent: which probe types to run, when, and between which
//! vantage points.

pub mod anchors;
pub mod configuration;
pub mod http;
pub mod ping;
pub mod probes;
pub mod topology;
pub mod traceroute;
