//! The handle bookkeeping of the Session runtime: the process-wide table of
//! engines, and per engine its one session and its outstanding audio
//! leases, each behind generation-checked handles.
//!
//! What an engine, a session or a lease holds beyond its phase is the
//! engine host's; these tables decide which handle names what, and apply the
//! outcomes the host reported to the session's phase.

use vstd::prelude::*;

use crate::abi::session::abi::{PksSessionHandle, PksSessionHandleKind, PksSessionLifecycleState};
use crate::abi::session::error::AbiError;
use crate::abi::session::handle::{
    filled_table, insert_outcome, lookup, occupied_count, remove_outcome, HandleTable,
    HandleTableView,
};
use crate::abi::session::runtime::{
    compile_outcome, compile_session, session_admission, spec_phase_state, start_outcome,
    start_session, SessionPhase, StartAttempt,
};

verus! {

/// Engines one process can hold at once.
pub const ENGINE_CAPACITY_COUNT: usize = 16;

/// Sessions one engine can hold.
pub const SESSION_CAPACITY_COUNT: usize = 1;

/// Owner scope of engine handles.
pub const ENGINE_HANDLE_SCOPE_ID: u64 = 1;

/// The process's engines, addressed by engine handles.
pub struct EngineTable<E> {
    engines: HandleTable<E>,
}

impl<E> View for EngineTable<E> {
    type V = HandleTableView<E>;

    closed spec fn view(&self) -> HandleTableView<E> {
        self.engines@
    }
}

impl<E> EngineTable<E> {
    /// A table of sixteen vacant engine slots under the engine scope.
    pub fn new() -> (r: Self)
        ensures
            r@ == filled_table::<E>(
                ENGINE_CAPACITY_COUNT as nat,
                PksSessionHandleKind::Engine,
                ENGINE_HANDLE_SCOPE_ID,
                Seq::empty(),
            ),
    {
        EngineTable {
            engines: HandleTable::new(
                ENGINE_CAPACITY_COUNT,
                PksSessionHandleKind::Engine,
                ENGINE_HANDLE_SCOPE_ID,
            ),
        }
    }

    /// Stores a new engine and returns its handle; refused when all sixteen
    /// slots are taken.
    pub fn allocate(&mut self, engine: E) -> (r: Result<PksSessionHandle, AbiError>)
        ensures
            (r, final(self)@) == insert_outcome(old(self)@, engine),
    {
        self.engines.insert(engine)
    }

    /// Removes and returns the engine a handle names; the handle goes stale.
    pub fn release(&mut self, handle: PksSessionHandle) -> (r: Result<E, AbiError>)
        ensures
            (r, final(self)@) == remove_outcome(old(self)@, handle),
    {
        self.engines.remove(handle)
    }

    /// The engine a handle names.
    pub fn engine(&self, handle: PksSessionHandle) -> (r: Result<&E, AbiError>)
        ensures
            match lookup(self@, handle) {
                Ok(engine) => r matches Ok(e) && *e == engine,
                Err(error) => r == Err::<&E, AbiError>(error),
            },
    {
        self.engines.get(handle)
    }

    /// Whether a handle names a live engine: `Ok(true)` when it does, else
    /// the error the handle meets.
    pub fn engine_is_live(&self, handle: PksSessionHandle) -> (r: Result<bool, AbiError>)
        ensures
            match lookup(self@, handle) {
                Ok(_) => r == Ok::<bool, AbiError>(true),
                Err(error) => r == Err::<bool, AbiError>(error),
            },
    {
        match self.engines.get(handle) {
            Ok(_) => Ok(true),
            Err(error) => Err(error),
        }
    }
}

/// What a stop request makes of a session's phase, given whether the engine
/// host stopped it: only a running session is stopped and records the
/// outcome; a failed one reports a backend failure, the others an invalid
/// lifecycle state.
pub open spec fn stop_outcome(phase: SessionPhase, stop_succeeded: bool) -> (
    Result<(), AbiError>,
    SessionPhase,
) {
    match phase {
        SessionPhase::Running { has_events, .. } => (
            if stop_succeeded {
                Ok(())
            } else {
                Err(AbiError::BackendFailure)
            },
            SessionPhase::Running { has_events, stopped_successfully: Some(stop_succeeded) },
        ),
        SessionPhase::Failed { .. } => (Err(AbiError::BackendFailure), phase),
        _ => (Err(AbiError::InvalidLifecycleState), phase),
    }
}

/// What applying `outcome` to the session a handle names does: the error
/// the handle meets, with nothing changed, or the outcome's result with the
/// session's phase replaced by the outcome's phase.
pub open spec fn session_step(
    sessions: HandleTableView<SessionPhase>,
    handle: PksSessionHandle,
    outcome: spec_fn(SessionPhase) -> (Result<(), AbiError>, SessionPhase),
) -> (Result<(), AbiError>, HandleTableView<SessionPhase>) {
    match lookup(sessions, handle) {
        Ok(phase) => (
            outcome(phase).0,
            sessions.with_value(handle.slot_index as int, Some(outcome(phase).1)),
        ),
        Err(error) => (Err(error), sessions),
    }
}

/// Abstract value of an engine's session bookkeeping.
pub struct SessionBookView<L> {
    pub sessions: HandleTableView<SessionPhase>,
    pub leases: HandleTableView<L>,
    pub session_created: bool,
}

/// An engine's session and audio leases.
pub struct SessionBook<L> {
    sessions: HandleTable<SessionPhase>,
    leases: HandleTable<L>,
    session_created: bool,
}

impl<L> View for SessionBook<L> {
    type V = SessionBookView<L>;

    closed spec fn view(&self) -> SessionBookView<L> {
        SessionBookView {
            sessions: self.sessions@,
            leases: self.leases@,
            session_created: self.session_created,
        }
    }
}

impl<L> SessionBook<L> {
    /// Bookkeeping for an engine whose handles carry `scope_id`: one vacant
    /// session slot, `lease_capacity_count` vacant lease slots, and no
    /// session created yet.
    pub fn new(scope_id: u64, lease_capacity_count: usize) -> (r: Self)
        ensures
            r@.sessions == filled_table::<SessionPhase>(
                SESSION_CAPACITY_COUNT as nat,
                PksSessionHandleKind::Session,
                scope_id,
                Seq::empty(),
            ),
            r@.leases == filled_table::<L>(
                lease_capacity_count as nat,
                PksSessionHandleKind::AudioBatch,
                scope_id,
                Seq::empty(),
            ),
            !r@.session_created,
    {
        SessionBook {
            sessions: HandleTable::new(
                SESSION_CAPACITY_COUNT,
                PksSessionHandleKind::Session,
                scope_id,
            ),
            leases: HandleTable::new(
                lease_capacity_count,
                PksSessionHandleKind::AudioBatch,
                scope_id,
            ),
            session_created: false,
        }
    }

    /// Stores the engine's session as a draft and returns its handle. An
    /// engine creates one session in its life: once one was created, or
    /// while one is held, the request is refused for want of capacity.
    pub fn create_session(&mut self) -> (r: Result<PksSessionHandle, AbiError>)
        ensures
            old(self)@.session_created || occupied_count(
                old(self)@.sessions.values,
                old(self)@.sessions.values.len() as int,
            ) != 0 ==> r == Err::<PksSessionHandle, AbiError>(AbiError::NoCapacity)
                && final(self)@ == old(self)@,
            !(old(self)@.session_created || occupied_count(
                old(self)@.sessions.values,
                old(self)@.sessions.values.len() as int,
            ) != 0) ==> ({
                &&& (r, final(self)@.sessions) == insert_outcome(
                    old(self)@.sessions,
                    SessionPhase::Draft,
                )
                &&& final(self)@.session_created == r is Ok
                &&& final(self)@.leases == old(self)@.leases
            }),
    {
        let active = self.sessions.active_count();
        session_admission(self.session_created, active)?;
        let handle = self.sessions.insert(SessionPhase::Draft)?;
        self.session_created = true;
        Ok(handle)
    }

    /// The lifecycle state of the session a handle names.
    pub fn session_state(&self, handle: PksSessionHandle) -> (r: Result<
        PksSessionLifecycleState,
        AbiError,
    >)
        ensures
            r == match lookup(self@.sessions, handle) {
                Ok(phase) => Ok::<PksSessionLifecycleState, AbiError>(spec_phase_state(phase)),
                Err(error) => Err(error),
            },
    {
        let phase = self.sessions.get(handle)?;
        Ok(phase.lifecycle_state())
    }

    /// Applies what the engine host reported of compiling the session a
    /// handle names.
    pub fn compile_session(
        &mut self,
        handle: PksSessionHandle,
        host_present: bool,
        compiled: bool,
    ) -> (r: Result<(), AbiError>)
        ensures
            (r, final(self)@.sessions) == session_step(
                old(self)@.sessions,
                handle,
                |phase: SessionPhase| compile_outcome(phase, host_present, compiled),
            ),
            final(self)@.leases == old(self)@.leases,
            final(self)@.session_created == old(self)@.session_created,
    {
        let phase = self.sessions.get_mut(handle)?;
        compile_session(phase, host_present, compiled)
    }

    /// Applies what the engine host reported of starting the session a
    /// handle names.
    pub fn start_session(
        &mut self,
        handle: PksSessionHandle,
        host_present: bool,
        attempt: StartAttempt,
    ) -> (r: Result<(), AbiError>)
        ensures
            (r, final(self)@.sessions) == session_step(
                old(self)@.sessions,
                handle,
                |phase: SessionPhase| start_outcome(phase, host_present, attempt),
            ),
            final(self)@.leases == old(self)@.leases,
            final(self)@.session_created == old(self)@.session_created,
    {
        let phase = self.sessions.get_mut(handle)?;
        start_session(phase, host_present, attempt)
    }

    /// Applies the outcome of stopping the session a handle names.
    pub fn stop_session(&mut self, handle: PksSessionHandle, stop_succeeded: bool) -> (r: Result<
        (),
        AbiError,
    >)
        ensures
            (r, final(self)@.sessions) == session_step(
                old(self)@.sessions,
                handle,
                |phase: SessionPhase| stop_outcome(phase, stop_succeeded),
            ),
            final(self)@.leases == old(self)@.leases,
            final(self)@.session_created == old(self)@.session_created,
    {
        let phase = self.sessions.get_mut(handle)?;
        phase.request_stop(stop_succeeded)
    }

    /// Removes the session a handle names; a running one is stopped first,
    /// with the stop's outcome as the result.
    pub fn destroy_session(&mut self, handle: PksSessionHandle, stop_succeeded: bool) -> (r: Result<
        (),
        AbiError,
    >)
        ensures
            final(self)@.sessions == remove_outcome(old(self)@.sessions, handle).1,
            r == match remove_outcome(old(self)@.sessions, handle).0 {
                Ok(phase) => if spec_phase_state(phase) == PksSessionLifecycleState::Running {
                    stop_outcome(phase, stop_succeeded).0
                } else {
                    Ok(())
                },
                Err(error) => Err(error),
            },
            final(self)@.leases == old(self)@.leases,
            final(self)@.session_created == old(self)@.session_created,
    {
        let mut phase = self.sessions.remove(handle)?;
        if phase.lifecycle_state() == PksSessionLifecycleState::Running {
            phase.request_stop(stop_succeeded)
        } else {
            Ok(())
        }
    }

    /// Holds a polled audio lease and returns its handle; refused when
    /// every lease slot is taken.
    pub fn hold_lease(&mut self, lease: L) -> (r: Result<PksSessionHandle, AbiError>)
        ensures
            (r, final(self)@.leases) == insert_outcome(old(self)@.leases, lease),
            final(self)@.sessions == old(self)@.sessions,
            final(self)@.session_created == old(self)@.session_created,
    {
        self.leases.insert(lease)
    }

    /// The lease a handle names.
    pub fn lease(&self, handle: PksSessionHandle) -> (r: Result<&L, AbiError>)
        ensures
            match lookup(self@.leases, handle) {
                Ok(lease) => r matches Ok(l) && *l == lease,
                Err(error) => r == Err::<&L, AbiError>(error),
            },
    {
        self.leases.get(handle)
    }

    /// Releases the lease a handle names; the handle goes stale.
    pub fn release_lease(&mut self, handle: PksSessionHandle) -> (r: Result<(), AbiError>)
        ensures
            final(self)@.leases == remove_outcome(old(self)@.leases, handle).1,
            r == match remove_outcome(old(self)@.leases, handle).0 {
                Ok(_) => Ok::<(), AbiError>(()),
                Err(error) => Err(error),
            },
            final(self)@.sessions == old(self)@.sessions,
            final(self)@.session_created == old(self)@.session_created,
    {
        let _ = self.leases.remove(handle)?;
        Ok(())
    }
}

} // verus!
