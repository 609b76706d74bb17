//! The capture side of the agent: a profiler that can be initialized, started,
//! stopped and asked for what it has sampled so far.

use crate::error::PyroscopeError;
use vstd::prelude::*;

verus! {

/// Where a capture backend stands in its life.
#[derive(Clone, Copy, PartialEq, Eq, Structural, Debug)]
pub enum State {
    /// Nothing has been set up yet.
    Uninitialized,
    /// Set up, not sampling.
    Ready,
    /// Sampling.
    Running,
}

impl Default for State {
    fn default() -> (state: Self)
        ensures
            state == State::Uninitialized,
    {
        State::Uninitialized
    }
}

/// A sampling profiler as the agent sees it.
///
/// The agent owns its backend for as long as it runs. Nothing is promised of
/// an implementation: every result is taken as it comes.
pub trait Backend: Send + core::fmt::Debug {
    /// The state the backend is in.
    fn get_state(&self) -> State;

    /// Prepares the backend to sample `sample_rate` times a second.
    fn initialize(&mut self, sample_rate: i32) -> Result<(), PyroscopeError>;

    /// Begins sampling.
    fn start(&mut self) -> Result<(), PyroscopeError>;

    /// Ends sampling.
    fn stop(&mut self) -> Result<(), PyroscopeError>;

    /// Hands out, encoded, what was sampled since the last report.
    fn report(&mut self) -> Result<Vec<u8>, PyroscopeError>;
}

} // verus!
