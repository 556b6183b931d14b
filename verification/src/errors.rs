//! Error taxonomy of a run.
//!
//! Every variant is fatal to the scenario that raises it; the load-time
//! threshold breach is deliberately not an error (it is a logged observation,
//! see the journey interpreter).

use vstd::prelude::*;

verus! {

/// The ways a run can fail.
#[derive(Clone, Copy, Debug, PartialEq, Eq, Structural)]
pub enum JourneyError {
    /// Browser launch, tab acquisition or domain enabling failed.
    LaunchError,
    /// A navigation or a navigation wait failed.
    NavigationError,
    /// An element wait exceeded the configured timeout.
    ElementNotFound,
    /// A required performance sample was absent from the snapshot.
    MetricUnavailable,
    /// A screenshot artifact could not be written.
    ScreenshotWriteError,
}

} // verus!
