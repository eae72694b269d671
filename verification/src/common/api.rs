//! The flat request model: one definition shape for every measurement type.

pub mod config;
pub mod definitions;
pub mod probes;
