//! The request model of the platform.

pub mod config;
pub mod definition;
pub mod probes;
