//! The failure taxonomy of the orchestration subsystem.

use vstd::prelude::*;

verus! {

/// Every way a start, stop or status operation can fail. All of these are
/// recovered at the lifecycle boundary and reported to the caller; none
/// aborts the supervising program.
#[derive(Clone, Copy, Debug, PartialEq, Eq, Structural)]
pub enum OrchestratorError {
    /// No candidate path for a required external tool exists on disk.
    ExecutableNotFound,
    /// The ingest configuration text holds no usable port and stream key.
    NoValidTarget,
    /// A start was requested for a channel that already has a running entry.
    AlreadyRunning,
    /// A stop was requested for a channel with no running entry.
    NotRunning,
    /// The operating system refused to spawn a child process.
    SpawnFailed,
    /// A spawned process did not yield the piped stdio handle it was
    /// configured with.
    PipeAcquisitionFailed,
    /// The byte relay between the producer and the consumer failed mid-flight.
    RelayFailed,
    /// A stopped process was still not reaped when the bounded wait elapsed.
    /// The termination signal has already been sent and is not retried.
    KillTimeout,
    /// The external channel store could not resolve the channel.
    ChannelLookupFailed,
    /// The stream kind was started without the required source url.
    SourceUrlMissing,
    /// The supplied source url could not be parsed.
    SourceUrlInvalid,
    /// Sending the termination signal, or waiting for the exit, failed for a
    /// reason other than the bounded wait elapsing.
    TerminationFailed,
}

/// The description of each failure condition: one fixed text per variant,
/// so every failure report names the specific condition.
pub open spec fn spec_describe(e: OrchestratorError) -> Seq<char> {
    match e {
        OrchestratorError::ExecutableNotFound => "executable not found"@,
        OrchestratorError::NoValidTarget => "no valid target in ingest configuration"@,
        OrchestratorError::AlreadyRunning => "already running"@,
        OrchestratorError::NotRunning => "not running"@,
        OrchestratorError::SpawnFailed => "failed to spawn process"@,
        OrchestratorError::PipeAcquisitionFailed => "failed to acquire process pipe"@,
        OrchestratorError::RelayFailed => "relay between processes failed"@,
        OrchestratorError::KillTimeout => "timeout while waiting for process exit"@,
        OrchestratorError::ChannelLookupFailed => "channel lookup failed"@,
        OrchestratorError::SourceUrlMissing => "source url missing"@,
        OrchestratorError::SourceUrlInvalid => "source url invalid"@,
        OrchestratorError::TerminationFailed => "failed to terminate process"@,
    }
}

impl OrchestratorError {
    /// The description of the condition, as [`spec_describe`] fixes it. The
    /// surrounding program prefixes it with the channel's display name when
    /// reporting.
    pub fn describe(&self) -> (r: &'static str)
        ensures
            r@ == spec_describe(*self),
    {
        match self {
            OrchestratorError::ExecutableNotFound => "executable not found",
            OrchestratorError::NoValidTarget => "no valid target in ingest configuration",
            OrchestratorError::AlreadyRunning => "already running",
            OrchestratorError::NotRunning => "not running",
            OrchestratorError::SpawnFailed => "failed to spawn process",
            OrchestratorError::PipeAcquisitionFailed => "failed to acquire process pipe",
            OrchestratorError::RelayFailed => "relay between processes failed",
            OrchestratorError::KillTimeout => "timeout while waiting for process exit",
            OrchestratorError::ChannelLookupFailed => "channel lookup failed",
            OrchestratorError::SourceUrlMissing => "source url missing",
            OrchestratorError::SourceUrlInvalid => "source url invalid",
            OrchestratorError::TerminationFailed => "failed to terminate process",
        }
    }
}

} // verus!
