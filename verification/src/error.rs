//! The failures an agent can report.

use vstd::prelude::*;

verus! {

/// Why an operation of the agent, or of the profiler behind it, did not succeed.
#[derive(Clone, Copy, PartialEq, Eq, Structural, Debug)]
pub enum PyroscopeError {
    /// The profiler could not be initialized or started.
    CaptureInit,
    /// The profiler could not hand out a report.
    CaptureSnapshot,
    /// A report could not be encoded or delivered.
    Ingest,
    /// The agent is running, so it cannot be started.
    AlreadyRunning,
    /// The agent is not running, so there is nothing to stop.
    NotRunning,
}

} // verus!
