//! Per-channel supervision of long-running external media processes.
//!
//! The library holds the decision logic of the orchestration subsystem: the
//! process registries with their exactly-once-running invariants, the
//! executable locator, the resolution of RTMP targets from ingest
//! configuration text, and the lifecycle rules for starting, stopping and
//! polling the supervised processes. The surrounding program performs the
//! actual process spawning, piping and signalling, and feeds the outcomes
//! back into these functions as plain values.

pub mod decimal;
pub mod error;
pub mod laws;
pub mod lifecycle;
pub mod livestream;
pub mod locate;
pub mod registry;
pub mod target;
pub mod ytbot;

pub use error::OrchestratorError;
pub use registry::Registry;
pub use target::{extract_rtmp_stream_details, RtmpTarget};
