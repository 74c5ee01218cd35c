//! The sessions that are alive.
//!
//! A session is a simulated chain that outlives the request that made it. The engine keeps
//! the chain itself and names it by a handle; the registry maps each session's identifier
//! to that handle.

use crate::errors::SimulationError;
use crate::simulation::{StatefulSimulationEndResponse, StatefulSimulationResponse};
use dashmap::DashMap;
use vstd::prelude::*;

verus! {

/// `dashmap::DashMap`, the concurrent hash map that holds the sessions.
#[verifier::external_type_specification]
#[verifier::external_body]
#[verifier::reject_recursive_types(K)]
#[verifier::reject_recursive_types(V)]
#[verifier::reject_recursive_types(S)]
pub struct ExDashMap<K, V, S>(DashMap<K, V, S>);

/// The entries of a `DashMap` of sessions: the handle of the simulated chain by the
/// session's identifier.
pub uninterp spec fn session_entries(sessions: DashMap<u128, u64>) -> Map<u128, u64>;

/// Calls `Uuid::new_v4` of `uuid` and hands back the identifier as a number
/// (`Uuid::as_u128`).
///
/// The identifier is drawn at random, so two calls may give any two values. Of every
/// outcome the outside function fixes the version (4) and the variant (RFC 4122) bits, and
/// that much is stated. The outside function panics if the system has no randomness to give.
#[verifier::external_body]
fn new_session_id() -> (id: u128)
    ensures
        is_drawn_identifier(id),
{
    uuid::Uuid::new_v4().as_u128()
}

/// Calls `DashMap::new`: a map without entries.
#[verifier::external_body]
fn new_session_map() -> (sessions: DashMap<u128, u64>)
    ensures
        session_entries(sessions) =~= Map::empty(),
{
    DashMap::new()
}

/// Calls `DashMap::insert`: the entry is set, the others stay, and the value that the key
/// had before is returned.
#[verifier::external_body]
fn insert_session(sessions: &mut DashMap<u128, u64>, id: u128, handle: u64) -> (previous: Option<u64>)
    ensures
        session_entries(*final(sessions)) == session_entries(*old(sessions)).insert(id, handle),
        previous == if session_entries(*old(sessions)).contains_key(id) {
            Some(session_entries(*old(sessions))[id])
        } else {
            None
        },
{
    sessions.insert(id, handle)
}

/// Calls `DashMap::contains_key`: whether the key has an entry.
#[verifier::external_body]
fn contains_session(sessions: &DashMap<u128, u64>, id: u128) -> (found: bool)
    ensures
        found == session_entries(*sessions).contains_key(id),
{
    sessions.contains_key(&id)
}

/// Calls `DashMap::remove`: the key's entry is taken out and returned, the others stay; a
/// key without an entry changes nothing.
#[verifier::external_body]
fn remove_session(sessions: &mut DashMap<u128, u64>, id: u128) -> (removed: Option<(u128, u64)>)
    ensures
        session_entries(*final(sessions)) == session_entries(*old(sessions)).remove(id),
        removed == if session_entries(*old(sessions)).contains_key(id) {
            Some((id, session_entries(*old(sessions))[id]))
        } else {
            None
        },
{
    sessions.remove(&id)
}

/// Calls `DashMap::get_mut` and copies the value out of the guard (`RefMut::value`): the
/// key's value, if it has an entry.
#[verifier::external_body]
fn session_handle(sessions: &DashMap<u128, u64>, id: u128) -> (handle: Option<u64>)
    ensures
        handle == if session_entries(*sessions).contains_key(id) {
            Some(session_entries(*sessions)[id])
        } else {
            None
        },
{
    match sessions.get_mut(&id) {
        Some(entry) => Some(*entry.value()),
        None => None,
    }
}

/// The live sessions.
pub struct SessionRegistry {
    sessions: DashMap<u128, u64>,
}

impl View for SessionRegistry {
    type V = Map<u128, u64>;

    /// The handle of each live session's simulated chain, by the session's identifier.
    closed spec fn view(&self) -> Map<u128, u64> {
        session_entries(self.sessions)
    }
}

/// What opening a session under the identifier `id` answers: the identifier, unless a live
/// session has it.
pub open spec fn begin_outcome(sessions: Map<u128, u64>, id: u128) -> Option<
    StatefulSimulationResponse,
> {
    if sessions.contains_key(id) {
        None
    } else {
        Some(StatefulSimulationResponse { stateful_simulation_id: id })
    }
}

/// What opening a session under the identifier `id` leaves of the registry.
pub open spec fn sessions_after_begin(sessions: Map<u128, u64>, id: u128, handle: u64) -> Map<
    u128,
    u64,
> {
    if sessions.contains_key(id) {
        sessions
    } else {
        sessions.insert(id, handle)
    }
}

/// What ending a session leaves of the registry.
pub open spec fn sessions_after_end(sessions: Map<u128, u64>, id: u128) -> Map<u128, u64> {
    sessions.remove(id)
}

/// What ending a session answers: success for a live session, else that there is none.
pub open spec fn end_outcome(sessions: Map<u128, u64>, id: u128) -> Result<
    StatefulSimulationEndResponse,
    SimulationError,
> {
    if sessions.contains_key(id) {
        Ok(StatefulSimulationEndResponse { success: true })
    } else {
        Err(SimulationError::StateNotFound)
    }
}

/// What looking a session up answers: the handle of its chain, else that there is none.
pub open spec fn acquire_outcome(sessions: Map<u128, u64>, id: u128) -> Result<u64, SimulationError> {
    if sessions.contains_key(id) {
        Ok(sessions[id])
    } else {
        Err(SimulationError::StateNotFound)
    }
}

impl SessionRegistry {
    /// A registry without sessions.
    pub fn new() -> (registry: SessionRegistry)
        ensures
            registry@ == Map::<u128, u64>::empty(),
    {
        SessionRegistry { sessions: new_session_map() }
    }

    /// Opens a session for the chain named by `handle` under the identifier `id`, unless a
    /// live session has that identifier already: then nothing changes and nothing is
    /// answered.
    pub fn begin_with(&mut self, id: u128, handle: u64) -> (response: Option<
        StatefulSimulationResponse,
    >)
        ensures
            response == begin_outcome(old(self)@, id),
            final(self)@ == sessions_after_begin(old(self)@, id, handle),
    {
        if contains_session(&self.sessions, id) {
            None
        } else {
            let _ = insert_session(&mut self.sessions, id, handle);
            Some(StatefulSimulationResponse { stateful_simulation_id: id })
        }
    }

    /// Opens a session for the chain named by `handle` under a newly drawn identifier: what
    /// `begin_with` does for that identifier. Should the draw hit a live session, nothing
    /// changes and nothing is answered; that cannot happen while no live session has one.
    pub fn begin(&mut self, handle: u64) -> (response: Option<StatefulSimulationResponse>)
        ensures
            exists|id: u128|
                {
                    &&& #[trigger] is_drawn_identifier(id)
                    &&& response == begin_outcome(old(self)@, id)
                    &&& final(self)@ == sessions_after_begin(old(self)@, id, handle)
                },
            match response {
                Some(opened) => {
                    &&& is_drawn_identifier(opened.stateful_simulation_id)
                    &&& !old(self)@.contains_key(opened.stateful_simulation_id)
                    &&& final(self)@ == old(self)@.insert(opened.stateful_simulation_id, handle)
                },
                None => final(self)@ == old(self)@,
            },
            (forall|id: u128| #[trigger] is_drawn_identifier(id) ==> !old(self)@.contains_key(id))
                ==> response is Some,
    {
        let id = new_session_id();
        self.begin_with(id, handle)
    }

    /// Looks up the chain of a live session.
    pub fn acquire(&self, id: u128) -> (result: Result<u64, SimulationError>)
        ensures
            result == acquire_outcome(self@, id),
    {
        match session_handle(&self.sessions, id) {
            Some(handle) => Ok(handle),
            None => Err(SimulationError::StateNotFound),
        }
    }

    /// Ends a session: it is taken out of the registry. An identifier without a live
    /// session is refused and the registry stays as it is.
    pub fn end(&mut self, id: u128) -> (result: Result<StatefulSimulationEndResponse, SimulationError>)
        ensures
            result == end_outcome(old(self)@, id),
            final(self)@ == sessions_after_end(old(self)@, id),
    {
        if contains_session(&self.sessions, id) {
            let _ = remove_session(&mut self.sessions, id);
            Ok(StatefulSimulationEndResponse { success: true })
        } else {
            proof {
                assert(self@.remove(id) =~= self@);
            }
            Err(SimulationError::StateNotFound)
        }
    }
}

/// Whether a number can be a drawn identifier: a UUID of version 4 in the variant of
/// RFC 4122, six bits fixed and the other 122 free.
pub open spec fn is_drawn_identifier(id: u128) -> bool {
    id & 0x0000_0000_0000_f000_c000_0000_0000_0000 == 0x0000_0000_0000_4000_8000_0000_0000_0000
}

/// Ends the session `param`.
pub fn simulate_stateful_end(param: u128, state: &mut SessionRegistry) -> (result: Result<
    StatefulSimulationEndResponse,
    SimulationError,
>)
    ensures
        result == end_outcome(old(state)@, param),
        final(state)@ == sessions_after_end(old(state)@, param),
{
    state.end(param)
}

/// Once a session has been ended, looking it up and ending it again both fail for want of
/// such a session, and the second attempt leaves the registry as it is.
pub proof fn ended_session_is_gone(sessions: Map<u128, u64>, id: u128)
    ensures
        acquire_outcome(sessions_after_end(sessions, id), id) == Err::<u64, SimulationError>(
            SimulationError::StateNotFound,
        ),
        end_outcome(sessions_after_end(sessions, id), id) == Err::<
            StatefulSimulationEndResponse,
            SimulationError,
        >(SimulationError::StateNotFound),
        sessions_after_end(sessions_after_end(sessions, id), id) == sessions_after_end(
            sessions,
            id,
        ),
{
    assert(sessions.remove(id).remove(id) =~= sessions.remove(id));
}

/// A session that has been opened is found, with its chain, until it is ended.
pub proof fn opened_session_is_found(sessions: Map<u128, u64>, id: u128, handle: u64)
    requires
        begin_outcome(sessions, id) is Some,
    ensures
        acquire_outcome(sessions_after_begin(sessions, id, handle), id) == Ok::<
            u64,
            SimulationError,
        >(handle),
        sessions_after_end(sessions_after_begin(sessions, id, handle), id) == sessions,
{
    assert(sessions.insert(id, handle).remove(id) =~= sessions);
}

/// Ending one session leaves every other session as it was.
pub proof fn ending_keeps_other_sessions(sessions: Map<u128, u64>, id: u128, other: u128)
    requires
        other != id,
    ensures
        acquire_outcome(sessions_after_end(sessions, id), other) == acquire_outcome(
            sessions,
            other,
        ),
{
}

} // verus!
