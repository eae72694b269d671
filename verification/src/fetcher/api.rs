//! The result records of the platform and their flattened rows.

pub mod fetch_measurement_data;
pub mod results;
pub mod rtt;
