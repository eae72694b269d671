//! What the platform tells about vantage points and created measurements.

pub mod create_measurement;
pub mod fetch_probe_information;
