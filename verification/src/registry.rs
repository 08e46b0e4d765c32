//! The process registry: the record of which channel currently runs which
//! supervised process or process pair.
//!
//! One registry exists per process kind, each independently lockable by the
//! surrounding program. An entry records the token(s) of the running
//! process(es) for one channel; the registry holds at most one entry per
//! channel id at any time, which is the central invariant of the subsystem.
//! The surrounding program owns the operating-system process handles and
//! keys them by the same tokens.

use vstd::prelude::*;

use crate::error::OrchestratorError;

verus! {

broadcast use vstd::std_specs::hash::group_hash_axioms;

/// A mapping from channel id to the running entry for that channel, of at
/// most one entry per channel. Its model is the [`Map`] from channel ids to
/// entries.
#[verifier::reject_recursive_types(E)]
pub struct Registry<E> {
    entries: std::collections::HashMap<i32, E>,
}

impl<E> View for Registry<E> {
    type V = Map<i32, E>;

    closed spec fn view(&self) -> Map<i32, E> {
        self.entries@
    }
}

/// The outcome a start attempt is given by the presence check: the start may
/// proceed exactly when the channel has no running entry.
pub open spec fn spec_start_check<E>(m: Map<i32, E>, id: i32) -> Result<(), OrchestratorError> {
    if m.contains_key(id) {
        Err(OrchestratorError::AlreadyRunning)
    } else {
        Ok(())
    }
}

/// What removing a channel's entry yields: the remaining registry, and the
/// removed entry or `NotRunning` when there was none.
pub open spec fn spec_take_entry<E>(m: Map<i32, E>, id: i32) -> (Map<i32, E>, Result<
    E,
    OrchestratorError,
>) {
    if m.contains_key(id) {
        (m.remove(id), Ok(m[id]))
    } else {
        (m, Err(OrchestratorError::NotRunning))
    }
}

/// How a status poll settles the registry: a live entry is restored, a dead
/// one stays removed.
pub open spec fn spec_status_settle<E>(m: Map<i32, E>, id: i32, entry: E, alive: bool) -> Map<
    i32,
    E,
> {
    if alive {
        m.insert(id, entry)
    } else {
        m
    }
}

impl<E> Registry<E> {
    /// A registry with no entries. Each process kind constructs its own once
    /// and the long-lived application context holds it.
    pub fn new() -> (r: Self)
        ensures
            r@ == Map::<i32, E>::empty(),
    {
        Registry { entries: std::collections::HashMap::new() }
    }

    /// Whether the channel currently has a running entry.
    pub fn contains(&self, id: i32) -> (r: bool)
        ensures
            r == self@.contains_key(id),
    {
        self.entries.contains_key(&id)
    }

    /// How many channels currently have a running entry.
    pub fn len(&self) -> (n: usize)
        ensures
            n == self@.len(),
    {
        self.entries.len()
    }

    /// The presence check that guards every start: it refuses a channel that
    /// already has a running entry, so a second start never spawns a
    /// duplicate process. The registry is never changed by the check.
    pub fn start_check(&self, id: i32) -> (r: Result<(), OrchestratorError>)
        ensures
            r == spec_start_check(self@, id),
    {
        if self.entries.contains_key(&id) {
            Err(OrchestratorError::AlreadyRunning)
        } else {
            Ok(())
        }
    }

    /// Records the entry of a freshly started channel. The caller must have
    /// passed [`Registry::start_check`] under the same exclusive access, so
    /// the check-and-insert is one atomic unit for other callers.
    pub fn commit(&mut self, id: i32, entry: E)
        requires
            !old(self)@.contains_key(id),
        ensures
            final(self)@ == old(self)@.insert(id, entry),
    {
        self.entries.insert(id, entry);
    }

    /// Removes and returns the channel's entry, for a stop: the entry leaves
    /// the registry before any termination is attempted, so a concurrent
    /// observer never sees a half-stopped entry. Yields `NotRunning`, with
    /// the registry unchanged, when no entry existed.
    pub fn take_for_stop(&mut self, id: i32) -> (r: Result<E, OrchestratorError>)
        ensures
            final(self)@ == spec_take_entry(old(self)@, id).0,
            r == spec_take_entry(old(self)@, id).1,
    {
        match self.entries.remove(&id) {
            Some(entry) => Ok(entry),
            None => Err(OrchestratorError::NotRunning),
        }
    }

    /// Removes and returns the channel's entry so that its liveness can be
    /// polled; `None` when the channel has no entry. The caller settles the
    /// registry with [`Registry::status_settle`] under the same exclusive
    /// access once the poll result is known.
    pub fn status_begin(&mut self, id: i32) -> (r: Option<E>)
        ensures
            final(self)@ == old(self)@.remove(id),
            r is Some <==> old(self)@.contains_key(id),
            r is Some ==> r->0 == old(self)@[id],
    {
        let r = self.entries.remove(&id);
        proof {
            if !old(self)@.contains_key(id) {
                assert(old(self)@.remove(id) =~= old(self)@);
            }
        }
        r
    }

    /// Settles a status poll: a live entry is restored under the same
    /// exclusive access, so no start can slip in while it was missing; a
    /// dead entry stays removed and never lingers to block a future start.
    pub fn status_settle(&mut self, id: i32, entry: E, alive: bool)
        requires
            !old(self)@.contains_key(id),
        ensures
            final(self)@ == spec_status_settle(old(self)@, id, entry, alive),
    {
        if alive {
            self.entries.insert(id, entry);
        }
    }
}

} // verus!
