//! Planning and normalising network measurements for the RIPE Atlas platform.
//!
//! The crate turns a measurement intent (which probe types to run, when, and
//! between which vantage points) into submission-ready specifications, and
//! flattens the result records the platform hands back into tabular rows.
//!
//! Every function states its behaviour in a contract, and Verus checks the
//! body against it. Two private functions call other crates and are trusted
//! instead: the one that draws a random identifier and the one that reads a
//! point in time from text. Their doc comments say what is taken on trust.
//!
//! Points in time are whole seconds since the Unix epoch, and durations are
//! whole nanoseconds, so that every comparison and every sum is exact.

pub mod common;
pub mod configurator;
pub mod executor;
pub mod fetcher;
pub mod text;
