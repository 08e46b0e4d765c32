use ffplayout_api::lifecycle::{pair_stop_outcome, stop_outcome, KillOutcome, STOP_TIMEOUT_SECS};
use ffplayout_api::livestream::{
    dead_pair_survivors, pair_poll_member, relay_teardown, stream_start_finish, PipelinePair,
    StreamStartEvent,
};
use ffplayout_api::ytbot::{bot_start_finish, status_response, BotStartEvent, ServiceStatus};
use ffplayout_api::{OrchestratorError, Registry};

#[test]
fn test_start_twice_yields_already_running() {
    let mut reg: Registry<u64> = Registry::new();
    assert_eq!(reg.start_check(1), Ok(()));
    let (r, kill) = bot_start_finish(&mut reg, 1, BotStartEvent::Piped { proc: 5 });
    assert_eq!(r, Ok(()));
    assert_eq!(kill, None);
    // The second start is refused and exactly one entry exists.
    assert_eq!(reg.start_check(1), Err(OrchestratorError::AlreadyRunning));
    assert_eq!(reg.len(), 1);
}

#[test]
fn test_stop_without_entry_yields_not_running() {
    let mut reg: Registry<u64> = Registry::new();
    assert_eq!(reg.take_for_stop(1), Err(OrchestratorError::NotRunning));
    assert_eq!(reg.len(), 0);

    let (r, _) = bot_start_finish(&mut reg, 2, BotStartEvent::Piped { proc: 9 });
    assert_eq!(r, Ok(()));
    // Stopping a different channel leaves the registry unchanged.
    assert_eq!(reg.take_for_stop(1), Err(OrchestratorError::NotRunning));
    assert_eq!(reg.len(), 1);
    assert!(reg.contains(2));
}

#[test]
fn test_status_removes_dead_entry_and_start_succeeds() {
    let mut reg: Registry<u64> = Registry::new();
    let (r, _) = bot_start_finish(&mut reg, 1, BotStartEvent::Piped { proc: 5 });
    assert_eq!(r, Ok(()));

    let taken = reg.status_begin(1);
    assert_eq!(taken, Some(5));
    // The process exited externally: the poll reports inactive and the
    // stale entry stays removed.
    reg.status_settle(1, 5, false);
    assert_eq!(status_response(false).status, ServiceStatus::Inactive);
    assert!(!reg.contains(1));

    // A fresh start is accepted immediately.
    assert_eq!(reg.start_check(1), Ok(()));
    let (r2, _) = bot_start_finish(&mut reg, 1, BotStartEvent::Piped { proc: 6 });
    assert_eq!(r2, Ok(()));
    assert!(reg.contains(1));
}

#[test]
fn test_status_restores_live_entry() {
    let mut reg: Registry<u64> = Registry::new();
    let (r, _) = bot_start_finish(&mut reg, 1, BotStartEvent::Piped { proc: 5 });
    assert_eq!(r, Ok(()));

    let taken = reg.status_begin(1);
    assert_eq!(taken, Some(5));
    reg.status_settle(1, 5, true);
    assert_eq!(status_response(true).status, ServiceStatus::Active);
    assert!(reg.contains(1));
    assert_eq!(reg.start_check(1), Err(OrchestratorError::AlreadyRunning));
}

#[test]
fn test_status_on_absent_channel() {
    let mut reg: Registry<u64> = Registry::new();
    assert_eq!(reg.status_begin(1), None);
    assert_eq!(status_response(false).status, ServiceStatus::Inactive);
}

#[test]
fn test_stop_timeout_leaves_channel_stopped() {
    let mut reg: Registry<u64> = Registry::new();
    let (r, _) = bot_start_finish(&mut reg, 1, BotStartEvent::Piped { proc: 5 });
    assert_eq!(r, Ok(()));

    // The entry is removed before the termination is attempted.
    assert_eq!(reg.take_for_stop(1), Ok(5));
    assert!(!reg.contains(1));

    // The process ignored its signal past the bound: the stop reports
    // KillTimeout, but the channel stays stopped and a start is accepted.
    assert_eq!(
        stop_outcome(KillOutcome::TimedOut),
        Err(OrchestratorError::KillTimeout)
    );
    assert_eq!(reg.start_check(1), Ok(()));
}

#[test]
fn test_stop_timeout_bound() {
    assert_eq!(STOP_TIMEOUT_SECS, 5);
}

#[test]
fn test_stop_outcomes() {
    assert_eq!(stop_outcome(KillOutcome::Exited), Ok(()));
    assert_eq!(
        stop_outcome(KillOutcome::Failed),
        Err(OrchestratorError::TerminationFailed)
    );
    assert_eq!(
        stop_outcome(KillOutcome::TimedOut),
        Err(OrchestratorError::KillTimeout)
    );
}

#[test]
fn test_pair_stop_outcomes() {
    assert_eq!(pair_stop_outcome(KillOutcome::Exited, KillOutcome::Exited), Ok(()));
    assert_eq!(
        pair_stop_outcome(KillOutcome::TimedOut, KillOutcome::Exited),
        Err(OrchestratorError::KillTimeout)
    );
    assert_eq!(
        pair_stop_outcome(KillOutcome::Exited, KillOutcome::TimedOut),
        Err(OrchestratorError::KillTimeout)
    );
    assert_eq!(
        pair_stop_outcome(KillOutcome::Failed, KillOutcome::TimedOut),
        Err(OrchestratorError::KillTimeout)
    );
    assert_eq!(
        pair_stop_outcome(KillOutcome::Exited, KillOutcome::Failed),
        Err(OrchestratorError::TerminationFailed)
    );
    assert_eq!(
        pair_stop_outcome(KillOutcome::Failed, KillOutcome::Failed),
        Err(OrchestratorError::TerminationFailed)
    );
}

#[test]
fn test_relay_teardown_names_both_legs() {
    let pair = PipelinePair { producer: 9, consumer: 11 };
    assert_eq!(relay_teardown(&pair), vec![9, 11]);
}

#[test]
fn test_pair_poll_member_and_dead_pair_survivors() {
    let pair = PipelinePair { producer: 9, consumer: 11 };
    // The consumer's liveness decides the pair's status; once it is found
    // dead, the producer is what remains to terminate.
    assert_eq!(pair_poll_member(&pair), 11);
    assert_eq!(dead_pair_survivors(&pair), vec![9]);
}

#[test]
fn test_relay_failure_unit_no_longer_running() {
    let mut reg: Registry<PipelinePair> = Registry::new();
    let (r, kills) = stream_start_finish(
        &mut reg,
        1,
        StreamStartEvent::Wired { producer: 9, consumer: 11 },
    );
    assert_eq!(r, Ok(()));
    assert!(kills.is_empty());
    assert!(reg.contains(1));

    // The consumer was killed externally mid-copy: the relay task tears
    // down both legs, and the next poll finds the pair dead.
    let pair = reg.status_begin(1).unwrap();
    assert_eq!(relay_teardown(&pair), vec![9, 11]);
    reg.status_settle(1, pair, false);
    assert_eq!(
        ffplayout_api::livestream::status_response(false).status,
        ffplayout_api::livestream::ServiceStatus::Inactive
    );
    assert!(!reg.contains(1));
    assert_eq!(reg.start_check(1), Ok(()));
}

#[test]
fn test_bot_start_failure_containment() {
    let mut reg: Registry<u64> = Registry::new();

    let (r, kill) = bot_start_finish(&mut reg, 1, BotStartEvent::SpawnFailed);
    assert_eq!(r, Err(OrchestratorError::SpawnFailed));
    assert_eq!(kill, None);
    assert!(!reg.contains(1));

    let (r, kill) = bot_start_finish(&mut reg, 1, BotStartEvent::PipeFailed { proc: 3 });
    assert_eq!(r, Err(OrchestratorError::PipeAcquisitionFailed));
    assert_eq!(kill, Some(3));
    assert!(!reg.contains(1));
}

#[test]
fn test_stream_start_failure_containment() {
    let mut reg: Registry<PipelinePair> = Registry::new();

    let (r, kills) = stream_start_finish(&mut reg, 1, StreamStartEvent::ProducerSpawnFailed);
    assert_eq!(r, Err(OrchestratorError::SpawnFailed));
    assert!(kills.is_empty());
    assert!(!reg.contains(1));

    let (r, kills) =
        stream_start_finish(&mut reg, 1, StreamStartEvent::ProducerPipeFailed { producer: 4 });
    assert_eq!(r, Err(OrchestratorError::PipeAcquisitionFailed));
    assert_eq!(kills, vec![4]);
    assert!(!reg.contains(1));

    let (r, kills) =
        stream_start_finish(&mut reg, 1, StreamStartEvent::TargetFailed { producer: 4 });
    assert_eq!(r, Err(OrchestratorError::NoValidTarget));
    assert_eq!(kills, vec![4]);
    assert!(!reg.contains(1));

    let (r, kills) =
        stream_start_finish(&mut reg, 1, StreamStartEvent::ConsumerSpawnFailed { producer: 4 });
    assert_eq!(r, Err(OrchestratorError::SpawnFailed));
    assert_eq!(kills, vec![4]);
    assert!(!reg.contains(1));

    let (r, kills) = stream_start_finish(
        &mut reg,
        1,
        StreamStartEvent::ConsumerPipeFailed { producer: 4, consumer: 6 },
    );
    assert_eq!(r, Err(OrchestratorError::PipeAcquisitionFailed));
    assert_eq!(kills, vec![4, 6]);
    assert!(!reg.contains(1));
}

#[test]
fn test_registries_are_independent_per_channel() {
    let mut reg: Registry<u64> = Registry::new();
    let (r, _) = bot_start_finish(&mut reg, 1, BotStartEvent::Piped { proc: 5 });
    assert_eq!(r, Ok(()));
    let (r, _) = bot_start_finish(&mut reg, 2, BotStartEvent::Piped { proc: 6 });
    assert_eq!(r, Ok(()));
    assert_eq!(reg.len(), 2);
    assert_eq!(reg.take_for_stop(1), Ok(5));
    assert!(reg.contains(2));
    assert_eq!(reg.len(), 1);
}
