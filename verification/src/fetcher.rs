//! Normalising the result records that the platform returns.

pub mod api;
pub mod io;
