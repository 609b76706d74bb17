//! A continuous-profiling agent without the I/O: the lifecycle of the agent,
//! the schedule of its uploads, and the request that carries each profile to
//! the server. Timers, tasks and the network stay with the caller, who performs
//! the actions this library decides on and reports back what happened.
//!
//! - [`pyroscope`]: the agent and its builder.
//! - [`scheduler`]: the phases of the background task and the steps between them.
//! - [`ingest`]: the upload window and the request of one upload.
//! - [`tags`]: tags and the series name they make with the application name.
//! - [`backends`]: what the agent asks of a profiler.
//! - [`text`]: the order, joining and numbers that the above are written with.

pub mod backends;
pub mod error;
pub mod ingest;
pub mod pyroscope;
pub mod scheduler;
pub mod tags;
pub mod text;

pub use crate::backends::{Backend, State};
pub use crate::error::PyroscopeError;
pub use crate::pyroscope::{PyroscopeAgent, PyroscopeAgentBuilder};
