//! The lifecycle decisions of the Session runtime: the stage a session
//! object is in and what it reports, the engine-level state machine that
//! orders compile, start and stop requests, and the records the ABI returns.
//!
//! The session engine itself runs outside these functions; they take what
//! it reported and decide what the runtime does next.

use vstd::prelude::*;

use crate::abi::layout::session_event_bytes;
use crate::abi::session::abi::{
    event_kind_code, lifecycle_state_code, PksSessionEvent, PksSessionEventKind,
    PksSessionHandle, PksSessionHandleKind, PksSessionLifecycleState, PKS_SESSION_ABI_MAJOR,
    PKS_SESSION_ABI_MINOR,
};
use crate::abi::session::error::AbiError;

verus! {

/// The stage of a session object held by the runtime.
#[derive(Clone, Copy, Debug, PartialEq, Eq, Structural)]
pub enum SessionPhase {
    Draft,
    Compiled,
    /// Started; `stopped_successfully` records the outcome of a stop.
    Running { has_events: bool, stopped_successfully: Option<bool> },
    Failed { has_events: bool },
    /// Between two stages; a session left here by an interrupted transition
    /// counts as failed.
    Transitioning,
}

/// The lifecycle state a phase reports.
pub open spec fn spec_phase_state(phase: SessionPhase) -> PksSessionLifecycleState {
    match phase {
        SessionPhase::Draft => PksSessionLifecycleState::Draft,
        SessionPhase::Compiled => PksSessionLifecycleState::Compiled,
        SessionPhase::Running { stopped_successfully: None, .. } => PksSessionLifecycleState::Running,
        SessionPhase::Running { stopped_successfully: Some(true), .. } =>
            PksSessionLifecycleState::Stopped,
        SessionPhase::Running { stopped_successfully: Some(false), .. } =>
            PksSessionLifecycleState::Failed,
        SessionPhase::Failed { .. } => PksSessionLifecycleState::Failed,
        SessionPhase::Transitioning => PksSessionLifecycleState::Failed,
    }
}

impl SessionPhase {
    /// The lifecycle state this phase reports.
    pub fn lifecycle_state(&self) -> (r: PksSessionLifecycleState)
        ensures
            r == spec_phase_state(*self),
    {
        match self {
            SessionPhase::Draft => PksSessionLifecycleState::Draft,
            SessionPhase::Compiled => PksSessionLifecycleState::Compiled,
            SessionPhase::Running { stopped_successfully, .. } => match stopped_successfully {
                None => PksSessionLifecycleState::Running,
                Some(true) => PksSessionLifecycleState::Stopped,
                Some(false) => PksSessionLifecycleState::Failed,
            },
            SessionPhase::Failed { .. } => PksSessionLifecycleState::Failed,
            SessionPhase::Transitioning => PksSessionLifecycleState::Failed,
        }
    }

    /// Whether this phase holds a receiver of the session's events.
    pub fn events(&self) -> (r: bool)
        ensures
            r == match *self {
                SessionPhase::Running { has_events, .. } => has_events,
                SessionPhase::Failed { has_events } => has_events,
                _ => false,
            },
    {
        match self {
            SessionPhase::Running { has_events, .. } => *has_events,
            SessionPhase::Failed { has_events } => *has_events,
            _ => false,
        }
    }

    /// Whether a stop request stops the running session: only a running
    /// phase is stopped; a failed one reports a backend failure and the
    /// others an invalid lifecycle state.
    pub fn stop_refusal(&self) -> (r: Option<AbiError>)
        ensures
            r == match *self {
                SessionPhase::Running { .. } => None,
                SessionPhase::Failed { .. } => Some(AbiError::BackendFailure),
                _ => Some(AbiError::InvalidLifecycleState),
            },
    {
        match self {
            SessionPhase::Running { .. } => None,
            SessionPhase::Failed { .. } => Some(AbiError::BackendFailure),
            _ => Some(AbiError::InvalidLifecycleState),
        }
    }

    /// Records the outcome of stopping a running session.
    pub fn request_stop(&mut self, stop_succeeded: bool) -> (r: Result<(), AbiError>)
        ensures
            match *old(self) {
                SessionPhase::Running { has_events, .. } => {
                    &&& *final(self) == SessionPhase::Running {
                        has_events,
                        stopped_successfully: Some(stop_succeeded),
                    }
                    &&& r == if stop_succeeded {
                        Ok::<(), AbiError>(())
                    } else {
                        Err(AbiError::BackendFailure)
                    }
                },
                SessionPhase::Failed { .. } => *final(self) == *old(self) && r == Err::<(), AbiError>(
                    AbiError::BackendFailure,
                ),
                _ => *final(self) == *old(self) && r == Err::<(), AbiError>(
                    AbiError::InvalidLifecycleState,
                ),
            },
    {
        match *self {
            SessionPhase::Running { has_events, .. } => {
                *self = SessionPhase::Running {
                    has_events,
                    stopped_successfully: Some(stop_succeeded),
                };
                if stop_succeeded {
                    Ok(())
                } else {
                    Err(AbiError::BackendFailure)
                }
            },
            SessionPhase::Failed { .. } => Err(AbiError::BackendFailure),
            _ => Err(AbiError::InvalidLifecycleState),
        }
    }
}

/// What compiling a session does to its phase. Only a draft compiles; the
/// draft is given up first, so a missing engine host leaves the session
/// mid-transition, and a failed compile leaves it failed without events.
pub open spec fn compile_outcome(phase: SessionPhase, host_present: bool, compiled: bool) -> (
    Result<(), AbiError>,
    SessionPhase,
) {
    if phase != SessionPhase::Draft {
        (Err(AbiError::InvalidLifecycleState), phase)
    } else if !host_present {
        (Err(AbiError::InvalidLifecycleState), SessionPhase::Transitioning)
    } else if compiled {
        (Ok(()), SessionPhase::Compiled)
    } else {
        (Err(AbiError::BackendFailure), SessionPhase::Failed { has_events: false })
    }
}

/// Applies the outcome of compiling a session to its phase. `compiled` is
/// what the engine host reported, when there is a host and the phase is a
/// draft.
pub fn compile_session(phase: &mut SessionPhase, host_present: bool, compiled: bool) -> (r: Result<
    (),
    AbiError,
>)
    ensures
        (r, *final(phase)) == compile_outcome(*old(phase), host_present, compiled),
{
    if *phase != SessionPhase::Draft {
        return Err(AbiError::InvalidLifecycleState);
    }
    if !host_present {
        *phase = SessionPhase::Transitioning;
        return Err(AbiError::InvalidLifecycleState);
    }
    if compiled {
        *phase = SessionPhase::Compiled;
        Ok(())
    } else {
        *phase = SessionPhase::Failed { has_events: false };
        Err(AbiError::BackendFailure)
    }
}

/// How the engine host's attempt to start a compiled session ended.
#[derive(Clone, Copy, Debug, PartialEq, Eq, Structural)]
pub enum StartAttempt {
    Started { has_events: bool },
    Cancelled { has_events: bool },
    Failed { has_events: bool },
}

/// What starting a session does to its phase: only a compiled session
/// starts; without a host it is left mid-transition.
pub open spec fn start_outcome(phase: SessionPhase, host_present: bool, attempt: StartAttempt) -> (
    Result<(), AbiError>,
    SessionPhase,
) {
    if phase != SessionPhase::Compiled {
        (Err(AbiError::InvalidLifecycleState), phase)
    } else if !host_present {
        (Err(AbiError::InvalidLifecycleState), SessionPhase::Transitioning)
    } else {
        match attempt {
            StartAttempt::Started { has_events } => (
                Ok(()),
                SessionPhase::Running { has_events, stopped_successfully: None },
            ),
            StartAttempt::Cancelled { has_events } => (
                Err(AbiError::Cancelled),
                SessionPhase::Failed { has_events },
            ),
            StartAttempt::Failed { has_events } => (
                Err(AbiError::BackendFailure),
                SessionPhase::Failed { has_events },
            ),
        }
    }
}

/// Applies the outcome of starting a session to its phase.
pub fn start_session(phase: &mut SessionPhase, host_present: bool, attempt: StartAttempt) -> (r:
    Result<(), AbiError>)
    ensures
        (r, *final(phase)) == start_outcome(*old(phase), host_present, attempt),
{
    if *phase != SessionPhase::Compiled {
        return Err(AbiError::InvalidLifecycleState);
    }
    if !host_present {
        *phase = SessionPhase::Transitioning;
        return Err(AbiError::InvalidLifecycleState);
    }
    match attempt {
        StartAttempt::Started { has_events } => {
            *phase = SessionPhase::Running { has_events, stopped_successfully: None };
            Ok(())
        },
        StartAttempt::Cancelled { has_events } => {
            *phase = SessionPhase::Failed { has_events };
            Err(AbiError::Cancelled)
        },
        StartAttempt::Failed { has_events } => {
            *phase = SessionPhase::Failed { has_events };
            Err(AbiError::BackendFailure)
        },
    }
}

/// Whether a runtime may create its session: only one session, ever.
pub fn session_admission(session_created: bool, active_sessions: usize) -> (r: Result<(), AbiError>)
    ensures
        r == if session_created || active_sessions != 0 {
            Err::<(), AbiError>(AbiError::NoCapacity)
        } else {
            Ok(())
        },
{
    if session_created || active_sessions != 0 {
        Err(AbiError::NoCapacity)
    } else {
        Ok(())
    }
}

/// Whether a runtime may still register an extension with this id: only
/// before a session or an engine host exists, and never twice under one id.
pub fn registration_admission(
    session_created: bool,
    host_present: bool,
    registered_ids: &[String],
    id: &str,
) -> (r: Result<(), AbiError>)
    ensures
        r == if session_created || host_present {
            Err::<(), AbiError>(AbiError::InvalidLifecycleState)
        } else if exists|i: int| 0 <= i < registered_ids@.len() && #[trigger] registered_ids@[i]@ == id@ {
            Err::<(), AbiError>(AbiError::InvalidArgument)
        } else {
            Ok(())
        },
{
    if session_created || host_present {
        return Err(AbiError::InvalidLifecycleState);
    }
    let mut index: usize = 0;
    while index < registered_ids.len()
        invariant
            !session_created && !host_present,
            index <= registered_ids@.len(),
            forall|i: int| 0 <= i < index ==> #[trigger] registered_ids@[i]@ != id@,
        decreases registered_ids@.len() - index,
    {
        if crate::text::text_equals(registered_ids[index].as_str(), id) {
            assert(registered_ids@[index as int]@ == id@);
            return Err(AbiError::InvalidArgument);
        }
        index = index + 1;
    }
    Ok(())
}

/// Why polling the audio endpoint returned no batch.
#[derive(Clone, Copy, Debug, PartialEq, Eq, Structural)]
pub enum PolledAudioPollError {
    Empty,
    LeaseCapacityExhausted,
    StatePoisoned,
}

/// The ABI error a failed poll reports.
pub fn map_poll_error(error: PolledAudioPollError) -> (r: AbiError)
    ensures
        r == match error {
            PolledAudioPollError::Empty => AbiError::WouldBlock,
            PolledAudioPollError::LeaseCapacityExhausted => AbiError::NoCapacity,
            PolledAudioPollError::StatePoisoned => AbiError::BackendFailure,
        },
{
    match error {
        PolledAudioPollError::Empty => AbiError::WouldBlock,
        PolledAudioPollError::LeaseCapacityExhausted => AbiError::NoCapacity,
        PolledAudioPollError::StatePoisoned => AbiError::BackendFailure,
    }
}

/// The lifecycle states a session engine reports in its events.
#[derive(Clone, Copy, Debug, PartialEq, Eq, Structural)]
pub enum SessionLifecycleState {
    Starting,
    Running,
    Stopping,
    Stopped,
    Failed,
}

/// The ABI state of an engine-reported lifecycle state.
pub open spec fn spec_state_from_event(state: SessionLifecycleState) -> PksSessionLifecycleState {
    match state {
        SessionLifecycleState::Starting => PksSessionLifecycleState::Starting,
        SessionLifecycleState::Running => PksSessionLifecycleState::Running,
        SessionLifecycleState::Stopping => PksSessionLifecycleState::Stopping,
        SessionLifecycleState::Stopped => PksSessionLifecycleState::Stopped,
        SessionLifecycleState::Failed => PksSessionLifecycleState::Failed,
    }
}

/// Converts an engine-reported lifecycle state to its ABI state.
pub fn lifecycle_state_from_event(state: SessionLifecycleState) -> (r: PksSessionLifecycleState)
    ensures
        r == spec_state_from_event(state),
{
    match state {
        SessionLifecycleState::Starting => PksSessionLifecycleState::Starting,
        SessionLifecycleState::Running => PksSessionLifecycleState::Running,
        SessionLifecycleState::Stopping => PksSessionLifecycleState::Stopping,
        SessionLifecycleState::Stopped => PksSessionLifecycleState::Stopped,
        SessionLifecycleState::Failed => PksSessionLifecycleState::Failed,
    }
}

/// What a session engine event reports.
#[derive(Clone, Copy, Debug, PartialEq, Eq, Structural)]
pub enum SessionEventKind {
    Lifecycle(SessionLifecycleState),
    Source { stem_id: u64 },
    Endpoint { endpoint_id: u64, route_id: u64 },
    Rollback,
    Finalization,
    /// The session ended, stopped or failed, with this many failures of each
    /// kind.
    Terminal {
        stopped: bool,
        source_failures: u64,
        endpoint_failures: u64,
        rollback_failures: u64,
        finalization_failures: u64,
    },
}

/// The record an event of session `session_id` is reported as.
pub open spec fn spec_event_record(session_id: u64, kind: SessionEventKind) -> PksSessionEvent {
    let base = PksSessionEvent {
        struct_size_bytes: 64,
        abi_major: PKS_SESSION_ABI_MAJOR,
        abi_minor: PKS_SESSION_ABI_MINOR,
        kind: event_kind_code(PksSessionEventKind::Lifecycle),
        lifecycle_state: lifecycle_state_code(PksSessionLifecycleState::Failed),
        reserved: 0,
        session_id,
        stem_id: 0,
        endpoint_id: 0,
        route_id: 0,
        failures_total: 0,
    };
    match kind {
        SessionEventKind::Lifecycle(state) => PksSessionEvent {
            lifecycle_state: lifecycle_state_code(spec_state_from_event(state)),
            ..base
        },
        SessionEventKind::Source { stem_id } => PksSessionEvent {
            kind: event_kind_code(PksSessionEventKind::SourceFailure),
            stem_id,
            failures_total: 1,
            ..base
        },
        SessionEventKind::Endpoint { endpoint_id, route_id } => PksSessionEvent {
            kind: event_kind_code(PksSessionEventKind::EndpointFailure),
            endpoint_id,
            route_id,
            failures_total: 1,
            ..base
        },
        SessionEventKind::Rollback => PksSessionEvent {
            kind: event_kind_code(PksSessionEventKind::RollbackFailure),
            failures_total: 1,
            ..base
        },
        SessionEventKind::Finalization => PksSessionEvent {
            kind: event_kind_code(PksSessionEventKind::FinalizationFailure),
            failures_total: 1,
            ..base
        },
        SessionEventKind::Terminal {
            stopped,
            source_failures,
            endpoint_failures,
            rollback_failures,
            finalization_failures,
        } => PksSessionEvent {
            kind: event_kind_code(PksSessionEventKind::Terminal),
            lifecycle_state: lifecycle_state_code(
                if stopped {
                    PksSessionLifecycleState::Stopped
                } else {
                    PksSessionLifecycleState::Failed
                },
            ),
            failures_total: (source_failures + endpoint_failures + rollback_failures
                + finalization_failures) as u64,
            ..base
        },
    }
}

/// The failures a terminal event counts fit in a `u64`.
pub open spec fn event_counts_fit(kind: SessionEventKind) -> bool {
    kind matches SessionEventKind::Terminal {
        source_failures,
        endpoint_failures,
        rollback_failures,
        finalization_failures,
        ..
    } ==> source_failures + endpoint_failures + rollback_failures + finalization_failures
        <= u64::MAX
}

/// Builds the ABI record of one session event.
pub fn event_record(session_id: u64, kind: SessionEventKind) -> (r: PksSessionEvent)
    requires
        event_counts_fit(kind),
    ensures
        r == spec_event_record(session_id, kind),
{
    let mut record = PksSessionEvent {
        struct_size_bytes: session_event_bytes() as u32,
        abi_major: PKS_SESSION_ABI_MAJOR,
        abi_minor: PKS_SESSION_ABI_MINOR,
        kind: PksSessionEventKind::Lifecycle.code(),
        lifecycle_state: PksSessionLifecycleState::Failed.code(),
        reserved: 0,
        session_id,
        stem_id: 0,
        endpoint_id: 0,
        route_id: 0,
        failures_total: 0,
    };
    match kind {
        SessionEventKind::Lifecycle(state) => {
            record.lifecycle_state = lifecycle_state_from_event(state).code();
        },
        SessionEventKind::Source { stem_id } => {
            record.kind = PksSessionEventKind::SourceFailure.code();
            record.stem_id = stem_id;
            record.failures_total = 1;
        },
        SessionEventKind::Endpoint { endpoint_id, route_id } => {
            record.kind = PksSessionEventKind::EndpointFailure.code();
            record.endpoint_id = endpoint_id;
            record.route_id = route_id;
            record.failures_total = 1;
        },
        SessionEventKind::Rollback => {
            record.kind = PksSessionEventKind::RollbackFailure.code();
            record.failures_total = 1;
        },
        SessionEventKind::Finalization => {
            record.kind = PksSessionEventKind::FinalizationFailure.code();
            record.failures_total = 1;
        },
        SessionEventKind::Terminal {
            stopped,
            source_failures,
            endpoint_failures,
            rollback_failures,
            finalization_failures,
        } => {
            record.kind = PksSessionEventKind::Terminal.code();
            record.lifecycle_state = if stopped {
                PksSessionLifecycleState::Stopped.code()
            } else {
                PksSessionLifecycleState::Failed.code()
            };
            record.failures_total = source_failures + endpoint_failures + rollback_failures
                + finalization_failures;
        },
    }
    record
}

/// The lifecycle state stored as its wire value: an unknown value reads as
/// failed.
pub open spec fn spec_decode_state(value: u32) -> PksSessionLifecycleState {
    if value == 0 {
        PksSessionLifecycleState::Draft
    } else if value == 1 {
        PksSessionLifecycleState::Compiled
    } else if value == 5 {
        PksSessionLifecycleState::Starting
    } else if value == 2 {
        PksSessionLifecycleState::Running
    } else if value == 6 {
        PksSessionLifecycleState::Stopping
    } else if value == 3 {
        PksSessionLifecycleState::Stopped
    } else {
        PksSessionLifecycleState::Failed
    }
}

/// Reads a lifecycle state back from its wire value.
pub fn decode_lifecycle_state(value: u32) -> (r: PksSessionLifecycleState)
    ensures
        r == spec_decode_state(value),
{
    if value == PksSessionLifecycleState::Draft.code() {
        PksSessionLifecycleState::Draft
    } else if value == PksSessionLifecycleState::Compiled.code() {
        PksSessionLifecycleState::Compiled
    } else if value == PksSessionLifecycleState::Starting.code() {
        PksSessionLifecycleState::Starting
    } else if value == PksSessionLifecycleState::Running.code() {
        PksSessionLifecycleState::Running
    } else if value == PksSessionLifecycleState::Stopping.code() {
        PksSessionLifecycleState::Stopping
    } else if value == PksSessionLifecycleState::Stopped.code() {
        PksSessionLifecycleState::Stopped
    } else {
        PksSessionLifecycleState::Failed
    }
}

/// Every state reads back as itself from its wire value.
pub proof fn lemma_state_code_round_trip(state: PksSessionLifecycleState)
    ensures
        spec_decode_state(lifecycle_state_code(state)) == state,
{
}

/// The engine-level record of one engine's session: its lifecycle state, the
/// one session handle it issued, whether that session is live, and whether
/// a stop has asked any start in flight to give up.
#[derive(Debug)]
pub struct EngineLifecycle {
    pub state: PksSessionLifecycleState,
    pub session_handle: Option<PksSessionHandle>,
    pub session_live: bool,
    pub session_scope_id: u64,
    pub start_cancellation_requested: bool,
}

/// Why a session handle is refused by an engine, if it is.
pub open spec fn handle_refusal(engine: EngineLifecycle, handle: PksSessionHandle) -> Option<AbiError> {
    if handle.kind != PksSessionHandleKind::Session {
        Some(AbiError::InvalidHandle)
    } else if handle.scope_id != engine.session_scope_id {
        Some(AbiError::ForeignHandle)
    } else if engine.session_handle is None {
        Some(AbiError::InvalidHandle)
    } else if !engine.session_live {
        Some(AbiError::StaleHandle)
    } else if handle != engine.session_handle->0 {
        Some(AbiError::StaleHandle)
    } else {
        None
    }
}

/// What finishing a start leaves to do.
#[derive(Clone, Copy, Debug, PartialEq, Eq, Structural)]
pub enum StartCompletion {
    /// The session runs.
    Started,
    /// A stop arrived while starting: the started session must be stopped
    /// and the start reported cancelled.
    StopRequired,
    /// The start failed with this error.
    Refused(AbiError),
}

/// What a stop request leaves to do.
#[derive(Clone, Copy, Debug, PartialEq, Eq, Structural)]
pub enum StopDecision {
    /// Consult the session's own state and stop it if it runs.
    Proceed,
    /// The session already stopped; the request succeeds.
    AlreadyStopped,
    /// The request is refused.
    Refused(AbiError),
}

/// What stopping does once the session's own state is known.
#[derive(Clone, Copy, Debug, PartialEq, Eq, Structural)]
pub enum StopAction {
    /// Stop the running session.
    StopRunning,
    /// Nothing to stop; the stop succeeds.
    NothingToStop,
    /// The stop fails with this error.
    Fail(AbiError),
}

/// The decision and next state of finishing a start with `result`.
pub open spec fn finish_start_outcome(engine: EngineLifecycle, result: Result<(), AbiError>) -> (
    StartCompletion,
    EngineLifecycle,
) {
    match result {
        Ok(()) => if engine.start_cancellation_requested || engine.state
            != PksSessionLifecycleState::Starting {
            (
                StartCompletion::StopRequired,
                EngineLifecycle { state: PksSessionLifecycleState::Stopping, ..engine },
            )
        } else {
            (
                StartCompletion::Started,
                EngineLifecycle { state: PksSessionLifecycleState::Running, ..engine },
            )
        },
        Err(AbiError::Cancelled) => (
            StartCompletion::Refused(AbiError::Cancelled),
            EngineLifecycle { state: PksSessionLifecycleState::Stopped, ..engine },
        ),
        Err(error) => (
            StartCompletion::Refused(error),
            EngineLifecycle { state: PksSessionLifecycleState::Failed, ..engine },
        ),
    }
}

/// The decision and next state of a stop request.
pub open spec fn begin_stop_outcome(engine: EngineLifecycle) -> (StopDecision, EngineLifecycle) {
    let requested = EngineLifecycle { start_cancellation_requested: true, ..engine };
    match engine.state {
        PksSessionLifecycleState::Starting | PksSessionLifecycleState::Running => (
            StopDecision::Proceed,
            EngineLifecycle { state: PksSessionLifecycleState::Stopping, ..requested },
        ),
        PksSessionLifecycleState::Stopping => (StopDecision::Proceed, requested),
        PksSessionLifecycleState::Stopped => (StopDecision::AlreadyStopped, requested),
        _ => (StopDecision::Refused(AbiError::InvalidLifecycleState), requested),
    }
}

impl EngineLifecycle {
    /// An engine before its session exists.
    pub fn new(session_scope_id: u64) -> (r: Self)
        ensures
            r == (EngineLifecycle {
                state: PksSessionLifecycleState::Draft,
                session_handle: None,
                session_live: false,
                session_scope_id,
                start_cancellation_requested: false,
            }),
    {
        EngineLifecycle {
            state: PksSessionLifecycleState::Draft,
            session_handle: None,
            session_live: false,
            session_scope_id,
            start_cancellation_requested: false,
        }
    }

    /// Accepts only the live session handle this engine issued.
    pub fn validate_session(&self, handle: PksSessionHandle) -> (r: Result<(), AbiError>)
        ensures
            r == match handle_refusal(*self, handle) {
                Some(error) => Err::<(), AbiError>(error),
                None => Ok(()),
            },
    {
        if handle.kind != PksSessionHandleKind::Session {
            return Err(AbiError::InvalidHandle);
        }
        if handle.scope_id != self.session_scope_id {
            return Err(AbiError::ForeignHandle);
        }
        let expected = match self.session_handle {
            Some(expected) => expected,
            None => {
                return Err(AbiError::InvalidHandle);
            },
        };
        if !self.session_live {
            return Err(AbiError::StaleHandle);
        }
        if handle != expected {
            return Err(AbiError::StaleHandle);
        }
        Ok(())
    }

    /// Records the session the runtime created; an engine records one
    /// session only.
    pub fn record_session_created(&mut self, handle: PksSessionHandle) -> (r: Result<(), AbiError>)
        ensures
            match old(self).session_handle {
                Some(_) => r == Err::<(), AbiError>(AbiError::NoCapacity) && *final(self) == *old(self),
                None => r is Ok && *final(self) == (EngineLifecycle {
                    state: PksSessionLifecycleState::Draft,
                    session_handle: Some(handle),
                    session_live: true,
                    ..*old(self)
                }),
            },
    {
        if self.session_handle.is_some() {
            return Err(AbiError::NoCapacity);
        }
        self.session_handle = Some(handle);
        self.session_live = true;
        self.state = PksSessionLifecycleState::Draft;
        Ok(())
    }

    /// Records the outcome of compiling the session.
    pub fn record_compile(&mut self, compiled: bool)
        ensures
            *final(self) == (EngineLifecycle {
                state: if compiled {
                    PksSessionLifecycleState::Compiled
                } else {
                    PksSessionLifecycleState::Failed
                },
                ..*old(self)
            }),
    {
        self.state = if compiled {
            PksSessionLifecycleState::Compiled
        } else {
            PksSessionLifecycleState::Failed
        };
    }

    /// Begins a start: only a compiled session starts.
    pub fn begin_start(&mut self) -> (r: Result<(), AbiError>)
        ensures
            if old(self).state == PksSessionLifecycleState::Compiled {
                r is Ok && *final(self) == (EngineLifecycle {
                    state: PksSessionLifecycleState::Starting,
                    ..*old(self)
                })
            } else {
                r == Err::<(), AbiError>(AbiError::InvalidLifecycleState) && *final(self) == *old(
                    self,
                )
            },
    {
        if self.state != PksSessionLifecycleState::Compiled {
            return Err(AbiError::InvalidLifecycleState);
        }
        self.state = PksSessionLifecycleState::Starting;
        Ok(())
    }

    /// Finishes a start with what the runtime reported. A start that
    /// succeeded runs only if no stop arrived meanwhile; otherwise the
    /// session is stopping and must be stopped.
    pub fn finish_start(&mut self, result: Result<(), AbiError>) -> (r: StartCompletion)
        ensures
            (r, *final(self)) == finish_start_outcome(*old(self), result),
    {
        match result {
            Ok(()) => {
                if self.start_cancellation_requested || self.state
                    != PksSessionLifecycleState::Starting {
                    self.state = PksSessionLifecycleState::Stopping;
                    StartCompletion::StopRequired
                } else {
                    self.state = PksSessionLifecycleState::Running;
                    StartCompletion::Started
                }
            },
            Err(AbiError::Cancelled) => {
                self.state = PksSessionLifecycleState::Stopped;
                StartCompletion::Refused(AbiError::Cancelled)
            },
            Err(error) => {
                self.state = PksSessionLifecycleState::Failed;
                StartCompletion::Refused(error)
            },
        }
    }

    /// Finishes a start a stop overtook, once the session was stopped: the
    /// start reports that it was cancelled.
    pub fn finish_overtaken_start(&mut self, stop_succeeded: bool) -> (r: AbiError)
        ensures
            r == AbiError::Cancelled,
            *final(self) == (EngineLifecycle {
                state: if stop_succeeded {
                    PksSessionLifecycleState::Stopped
                } else {
                    PksSessionLifecycleState::Failed
                },
                ..*old(self)
            }),
    {
        self.state = if stop_succeeded {
            PksSessionLifecycleState::Stopped
        } else {
            PksSessionLifecycleState::Failed
        };
        AbiError::Cancelled
    }

    /// Begins a stop: any start in flight is asked to give up; a starting or
    /// running session becomes stopping; a stopped one succeeds at once; a
    /// draft, compiled or failed one refuses.
    pub fn begin_stop(&mut self) -> (r: StopDecision)
        ensures
            (r, *final(self)) == begin_stop_outcome(*old(self)),
    {
        self.start_cancellation_requested = true;
        match self.state {
            PksSessionLifecycleState::Starting | PksSessionLifecycleState::Running => {
                self.state = PksSessionLifecycleState::Stopping;
                StopDecision::Proceed
            },
            PksSessionLifecycleState::Stopping => StopDecision::Proceed,
            PksSessionLifecycleState::Stopped => StopDecision::AlreadyStopped,
            PksSessionLifecycleState::Draft
            | PksSessionLifecycleState::Compiled
            | PksSessionLifecycleState::Failed => StopDecision::Refused(
                AbiError::InvalidLifecycleState,
            ),
        }
    }

    /// Finishes a stop with its result: stopped on success, failed otherwise.
    pub fn finish_stop(&mut self, result: Result<(), AbiError>) -> (r: Result<(), AbiError>)
        ensures
            r == result,
            *final(self) == (EngineLifecycle {
                state: if result is Ok {
                    PksSessionLifecycleState::Stopped
                } else {
                    PksSessionLifecycleState::Failed
                },
                ..*old(self)
            }),
    {
        self.state = if result.is_ok() {
            PksSessionLifecycleState::Stopped
        } else {
            PksSessionLifecycleState::Failed
        };
        result
    }

    /// Records that the session was destroyed: its handle goes stale.
    pub fn record_destroy(&mut self, destroyed: bool)
        ensures
            *final(self) == (EngineLifecycle {
                session_live: if destroyed {
                    false
                } else {
                    old(self).session_live
                },
                ..*old(self)
            }),
    {
        if destroyed {
            self.session_live = false;
        }
    }
}

/// Decides how a stop proceeds from the session's own state: a running
/// session is stopped; a failed or stopped one needs nothing; any other
/// state is invalid, and an error reading it is returned as is.
pub fn stop_action(session_state: Result<PksSessionLifecycleState, AbiError>) -> (r: StopAction)
    ensures
        r == match session_state {
            Ok(PksSessionLifecycleState::Running) => StopAction::StopRunning,
            Ok(PksSessionLifecycleState::Failed) => StopAction::NothingToStop,
            Ok(PksSessionLifecycleState::Stopped) => StopAction::NothingToStop,
            Ok(_) => StopAction::Fail(AbiError::InvalidLifecycleState),
            Err(error) => StopAction::Fail(error),
        },
{
    match session_state {
        Ok(PksSessionLifecycleState::Running) => StopAction::StopRunning,
        Ok(PksSessionLifecycleState::Failed) => StopAction::NothingToStop,
        Ok(PksSessionLifecycleState::Stopped) => StopAction::NothingToStop,
        Ok(_) => StopAction::Fail(AbiError::InvalidLifecycleState),
        Err(error) => StopAction::Fail(error),
    }
}

/// A stop that arrives while a start is in flight wins: however the start
/// then ends, the session is never reported running, and a start that
/// succeeded leaves it to be stopped.
pub proof fn lemma_stop_overtakes_start(engine: EngineLifecycle, result: Result<(), AbiError>)
    requires
        engine.state == PksSessionLifecycleState::Starting,
    ensures
        ({
            let (decision, stopping) = begin_stop_outcome(engine);
            let (completion, after) = finish_start_outcome(stopping, result);
            &&& decision == StopDecision::Proceed
            &&& completion != StartCompletion::Started
            &&& after.state != PksSessionLifecycleState::Running
            &&& result is Ok ==> completion == StartCompletion::StopRequired
        }),
{
}

/// Stopping a stopped session succeeds and changes nothing but the
/// cancellation request.
pub proof fn lemma_stop_is_idempotent(engine: EngineLifecycle)
    requires
        engine.state == PksSessionLifecycleState::Stopped,
    ensures
        begin_stop_outcome(engine).0 == StopDecision::AlreadyStopped,
        begin_stop_outcome(engine).1.state == PksSessionLifecycleState::Stopped,
{
}

/// Only the handle an engine issued, while live, is accepted.
pub proof fn lemma_only_issued_handle_is_accepted(engine: EngineLifecycle, handle: PksSessionHandle)
    requires
        handle_refusal(engine, handle) is None,
    ensures
        engine.session_handle == Some(handle),
        engine.session_live,
{
}

} // verus!
