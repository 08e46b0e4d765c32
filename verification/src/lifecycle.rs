//! Shared lifecycle rules: the bounded stop wait and the mapping from a
//! termination attempt's outcome to the reported result.

use vstd::prelude::*;

use crate::error::OrchestratorError;

verus! {

/// How long a stop waits for a signalled process to exit before reporting
/// `KillTimeout`, in seconds.
pub const STOP_TIMEOUT_SECS: u64 = 5;

/// The views of a spawned process's argument list, one character sequence
/// per argument.
pub open spec fn arg_views(args: Seq<String>) -> Seq<Seq<char>> {
    args.map_values(|s: String| s@)
}

/// What became of one terminated process: it exited within the bounded
/// wait; the signal or the wait itself failed; or the bounded wait elapsed
/// with the process still not reaped.
#[derive(Clone, Copy, Debug, PartialEq, Eq, Structural)]
pub enum KillOutcome {
    /// The process was reaped within the bounded wait.
    Exited,
    /// Sending the signal, or waiting for the exit, failed outright.
    Failed,
    /// The bounded wait elapsed; the signal was sent and is not retried.
    TimedOut,
}

/// The reported result of terminating one process.
pub open spec fn spec_stop_outcome(o: KillOutcome) -> Result<(), OrchestratorError> {
    match o {
        KillOutcome::Exited => Ok(()),
        KillOutcome::Failed => Err(OrchestratorError::TerminationFailed),
        KillOutcome::TimedOut => Err(OrchestratorError::KillTimeout),
    }
}

/// The reported result of terminating a producer/consumer pair: both must
/// exit for the stop to be reported clean, and an elapsed bounded wait on
/// either leg is reported as `KillTimeout`. In every case the registry
/// entry is already gone: a termination error never restores it.
pub open spec fn spec_pair_stop_outcome(producer: KillOutcome, consumer: KillOutcome) -> Result<
    (),
    OrchestratorError,
> {
    if producer is Exited && consumer is Exited {
        Ok(())
    } else if producer is TimedOut || consumer is TimedOut {
        Err(OrchestratorError::KillTimeout)
    } else {
        Err(OrchestratorError::TerminationFailed)
    }
}

/// Maps the outcome of terminating a single supervised process to the
/// result the caller is given.
pub fn stop_outcome(o: KillOutcome) -> (r: Result<(), OrchestratorError>)
    ensures
        r == spec_stop_outcome(o),
{
    match o {
        KillOutcome::Exited => Ok(()),
        KillOutcome::Failed => Err(OrchestratorError::TerminationFailed),
        KillOutcome::TimedOut => Err(OrchestratorError::KillTimeout),
    }
}

/// Maps the outcomes of terminating both legs of a pipeline pair to the
/// result the caller is given. Each leg is terminated independently;
/// failure on one never suppresses the attempt on the other, so both
/// outcomes arrive here.
pub fn pair_stop_outcome(producer: KillOutcome, consumer: KillOutcome) -> (r: Result<
    (),
    OrchestratorError,
>)
    ensures
        r == spec_pair_stop_outcome(producer, consumer),
{
    match (producer, consumer) {
        (KillOutcome::Exited, KillOutcome::Exited) => Ok(()),
        (KillOutcome::TimedOut, _) => Err(OrchestratorError::KillTimeout),
        (_, KillOutcome::TimedOut) => Err(OrchestratorError::KillTimeout),
        _ => Err(OrchestratorError::TerminationFailed),
    }
}

} // verus!
