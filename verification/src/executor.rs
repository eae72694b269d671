//! Planning: from a measurement intent and the resolved vantage points to
//! the specifications that are submitted to the platform.

pub mod api;
pub mod domain;
pub mod io;
pub mod probe;
pub mod transform;
