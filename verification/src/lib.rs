//! Verified core of a scripted browser-journey test driver.
//!
//! The library models the orchestration logic of the run: the immutable
//! configuration, the derivation of a load-time metric from a performance
//! sample set, the classification of asynchronous protocol events into
//! leveled log emissions, and the fixed journeys as ordered step lists with
//! a pure step-outcome interpreter. The browser itself, the filesystem and
//! the log sink are external collaborators driven by the surrounding binary.

pub mod classifier;
pub mod config;
pub mod errors;
pub mod journey;
pub mod metrics;
pub mod numfmt;
pub mod session;
