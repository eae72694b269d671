//! What the planning and the normalising side share: the measurement intent
//! as it is configured, the flat request model, and the list of measurement
//! identifiers handed from one to the other.

pub mod api;
pub mod configuration;
pub mod measurement_ids;
