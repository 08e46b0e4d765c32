//! The guarantees of the registry's lifecycle, stated and proved over the
//! same models that the executable operations' contracts use: the map from
//! channel ids to entries, and the lifecycle transition functions.

use vstd::prelude::*;

use crate::error::OrchestratorError;
use crate::lifecycle::spec_stop_outcome;
use crate::lifecycle::KillOutcome;
use crate::livestream::spec_relay_teardown;
use crate::livestream::PipelinePair;
use crate::registry::spec_start_check;
use crate::registry::spec_status_settle;
use crate::registry::spec_take_entry;

verus! {

/// Starting is exclusive: for every channel id, once a start has passed the
/// presence check and recorded its entry, a second start without an
/// intervening stop is refused with `AlreadyRunning`, and exactly one entry
/// — the one the first start recorded — exists for the channel: removing it
/// restores the registry exactly as it was before the first start.
pub proof fn lemma_start_twice_refused<E>(m: Map<i32, E>, id: i32, entry: E)
    requires
        spec_start_check(m, id) is Ok,
    ensures
        ({
            let m1 = m.insert(id, entry);
            &&& spec_start_check(m1, id) == Err::<(), OrchestratorError>(
                OrchestratorError::AlreadyRunning,
            )
            &&& m1[id] == entry
            &&& m1.remove(id) == m
        }),
{
    assert(m.insert(id, entry).remove(id) =~= m);
}

/// Stopping a channel with no running entry is refused with `NotRunning`
/// and leaves the registry exactly as it was.
pub proof fn lemma_stop_without_entry_unchanged<E>(m: Map<i32, E>, id: i32)
    requires
        !m.contains_key(id),
    ensures
        spec_take_entry(m, id).0 == m,
        spec_take_entry(m, id).1 == Err::<E, OrchestratorError>(OrchestratorError::NotRunning),
{
}

/// A status poll heals the registry: a dead entry stays removed, so no
/// stale entry survives the poll and a fresh start is accepted immediately
/// afterwards; a live entry is restored exactly, so the registry reflects
/// the live processes either way.
pub proof fn lemma_status_poll_heals<E>(m: Map<i32, E>, id: i32)
    requires
        m.contains_key(id),
    ensures
        ({
            let taken = m.remove(id);
            &&& spec_status_settle(taken, id, m[id], false) == taken
            &&& !spec_status_settle(taken, id, m[id], false).contains_key(id)
            &&& spec_start_check(spec_status_settle(taken, id, m[id], false), id) is Ok
            &&& spec_status_settle(taken, id, m[id], true) == m
        }),
{
    assert(m.remove(id).insert(id, m[id]) =~= m);
}

/// A failed relay tears the whole unit down: the teardown names both legs
/// of the pair — the producer and the consumer, each terminated
/// independently — and once the dead pair is observed by a status poll its
/// entry is gone and a fresh start is accepted.
pub proof fn lemma_relay_failure_tears_down_pair(m: Map<i32, PipelinePair>, id: i32)
    requires
        m.contains_key(id),
    ensures
        spec_relay_teardown(m[id]) == seq![m[id].producer, m[id].consumer],
        ({
            let settled = spec_status_settle(m.remove(id), id, m[id], false);
            &&& !settled.contains_key(id)
            &&& spec_start_check(settled, id) is Ok
        }),
{
}

/// A stop that runs into the bounded wait still stops the channel: the
/// entry was removed before any termination was attempted, the elapsed wait
/// is reported as `KillTimeout`, and a subsequent start is accepted rather
/// than blocked — the error never restores the entry.
pub proof fn lemma_stop_timeout_channel_stopped<E>(m: Map<i32, E>, id: i32)
    requires
        m.contains_key(id),
    ensures
        spec_take_entry(m, id).1 == Ok::<E, OrchestratorError>(m[id]),
        !spec_take_entry(m, id).0.contains_key(id),
        spec_stop_outcome(KillOutcome::TimedOut) == Err::<(), OrchestratorError>(
            OrchestratorError::KillTimeout,
        ),
        spec_start_check(spec_take_entry(m, id).0, id) is Ok,
{
}

} // verus!
