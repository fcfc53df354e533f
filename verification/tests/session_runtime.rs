use pocketstation::abi::session::abi::{
    PksSessionHandle, PksSessionHandleKind, PksSessionLifecycleState,
};
use pocketstation::abi::session::error::AbiError;
use pocketstation::abi::session::handle::HandleTable;
use pocketstation::abi::session::runtime::{
    compile_session, decode_lifecycle_state, event_record, lifecycle_state_from_event,
    map_poll_error, registration_admission, session_admission, start_session, stop_action,
    EngineLifecycle, PolledAudioPollError, SessionEventKind, SessionLifecycleState, SessionPhase,
    StartAttempt, StartCompletion, StopAction, StopDecision,
};

fn session_handle(scope_id: u64) -> PksSessionHandle {
    let mut table = HandleTable::new(1, PksSessionHandleKind::Session, scope_id);
    table.insert(()).expect("one free slot")
}

#[test]
fn session_phase_reports_its_lifecycle_state() {
    assert_eq!(SessionPhase::Draft.lifecycle_state(), PksSessionLifecycleState::Draft);
    assert_eq!(SessionPhase::Compiled.lifecycle_state(), PksSessionLifecycleState::Compiled);
    let running = SessionPhase::Running {
        has_events: true,
        stopped_successfully: None,
    };
    assert_eq!(running.lifecycle_state(), PksSessionLifecycleState::Running);
    assert!(running.events());
    assert_eq!(
        SessionPhase::Transitioning.lifecycle_state(),
        PksSessionLifecycleState::Failed
    );
    assert!(!SessionPhase::Draft.events());
}

#[test]
fn stopping_a_running_session_records_the_outcome() {
    let mut phase = SessionPhase::Running {
        has_events: false,
        stopped_successfully: None,
    };
    assert_eq!(phase.stop_refusal(), None);
    assert_eq!(phase.request_stop(true), Ok(()));
    assert_eq!(phase.lifecycle_state(), PksSessionLifecycleState::Stopped);

    let mut failing = SessionPhase::Running {
        has_events: false,
        stopped_successfully: None,
    };
    assert_eq!(failing.request_stop(false), Err(AbiError::BackendFailure));
    assert_eq!(failing.lifecycle_state(), PksSessionLifecycleState::Failed);

    let mut draft = SessionPhase::Draft;
    assert_eq!(draft.request_stop(true), Err(AbiError::InvalidLifecycleState));
    assert_eq!(draft, SessionPhase::Draft);
    let mut failed = SessionPhase::Failed { has_events: true };
    assert_eq!(failed.request_stop(true), Err(AbiError::BackendFailure));
}

#[test]
fn sessions_compile_then_start_in_order() {
    let mut phase = SessionPhase::Draft;
    assert_eq!(
        start_session(&mut phase, true, StartAttempt::Started { has_events: true }),
        Err(AbiError::InvalidLifecycleState)
    );
    assert_eq!(compile_session(&mut phase, true, true), Ok(()));
    assert_eq!(phase, SessionPhase::Compiled);
    assert_eq!(
        start_session(&mut phase, true, StartAttempt::Started { has_events: true }),
        Ok(())
    );
    assert_eq!(
        phase,
        SessionPhase::Running {
            has_events: true,
            stopped_successfully: None
        }
    );

    let mut failed = SessionPhase::Draft;
    assert_eq!(compile_session(&mut failed, true, false), Err(AbiError::BackendFailure));
    assert_eq!(failed, SessionPhase::Failed { has_events: false });

    let mut hostless = SessionPhase::Draft;
    assert_eq!(compile_session(&mut hostless, false, true), Err(AbiError::InvalidLifecycleState));
    assert_eq!(hostless, SessionPhase::Transitioning);

    let mut cancelled = SessionPhase::Compiled;
    assert_eq!(
        start_session(&mut cancelled, true, StartAttempt::Cancelled { has_events: true }),
        Err(AbiError::Cancelled)
    );
    assert_eq!(cancelled, SessionPhase::Failed { has_events: true });
}

#[test]
fn one_session_and_unique_extensions_per_runtime() {
    assert_eq!(session_admission(false, 0), Ok(()));
    assert_eq!(session_admission(true, 0), Err(AbiError::NoCapacity));
    assert_eq!(session_admission(false, 1), Err(AbiError::NoCapacity));
    let ids = vec!["source.a".to_owned(), "operator.b".to_owned()];
    assert_eq!(registration_admission(false, false, &ids, "endpoint.c"), Ok(()));
    assert_eq!(
        registration_admission(false, false, &ids, "operator.b"),
        Err(AbiError::InvalidArgument)
    );
    assert_eq!(
        registration_admission(true, false, &ids, "endpoint.c"),
        Err(AbiError::InvalidLifecycleState)
    );
    assert_eq!(
        registration_admission(false, true, &ids, "endpoint.c"),
        Err(AbiError::InvalidLifecycleState)
    );
}

#[test]
fn poll_errors_and_engine_states_map_to_the_abi() {
    assert_eq!(map_poll_error(PolledAudioPollError::Empty), AbiError::WouldBlock);
    assert_eq!(
        map_poll_error(PolledAudioPollError::LeaseCapacityExhausted),
        AbiError::NoCapacity
    );
    assert_eq!(
        map_poll_error(PolledAudioPollError::StatePoisoned),
        AbiError::BackendFailure
    );
    assert_eq!(
        lifecycle_state_from_event(SessionLifecycleState::Stopping),
        PksSessionLifecycleState::Stopping
    );
    for state in [
        PksSessionLifecycleState::Draft,
        PksSessionLifecycleState::Compiled,
        PksSessionLifecycleState::Running,
        PksSessionLifecycleState::Stopped,
        PksSessionLifecycleState::Failed,
        PksSessionLifecycleState::Starting,
        PksSessionLifecycleState::Stopping,
    ] {
        assert_eq!(decode_lifecycle_state(state.code()), state);
    }
    assert_eq!(decode_lifecycle_state(99), PksSessionLifecycleState::Failed);
}

#[test]
fn events_become_records() {
    let lifecycle = event_record(7, SessionEventKind::Lifecycle(SessionLifecycleState::Running));
    assert_eq!(lifecycle.struct_size_bytes, 64);
    assert_eq!(lifecycle.kind, 0);
    assert_eq!(lifecycle.lifecycle_state, 2);
    assert_eq!(lifecycle.session_id, 7);
    assert_eq!(lifecycle.failures_total, 0);

    let endpoint = event_record(
        7,
        SessionEventKind::Endpoint {
            endpoint_id: 3,
            route_id: 4,
        },
    );
    assert_eq!(endpoint.kind, 2);
    assert_eq!(endpoint.endpoint_id, 3);
    assert_eq!(endpoint.route_id, 4);
    assert_eq!(endpoint.failures_total, 1);
    assert_eq!(endpoint.lifecycle_state, 4);

    let terminal = event_record(
        7,
        SessionEventKind::Terminal {
            stopped: true,
            source_failures: 1,
            endpoint_failures: 2,
            rollback_failures: 3,
            finalization_failures: 4,
        },
    );
    assert_eq!(terminal.kind, 5);
    assert_eq!(terminal.lifecycle_state, 3);
    assert_eq!(terminal.failures_total, 10);
}

#[test]
fn engine_accepts_only_its_live_session_handle() {
    let mut engine = EngineLifecycle::new(9);
    let handle = session_handle(9);
    assert_eq!(engine.validate_session(handle), Err(AbiError::InvalidHandle));
    assert_eq!(engine.record_session_created(handle), Ok(()));
    assert_eq!(engine.validate_session(handle), Ok(()));
    assert_eq!(
        engine.validate_session(session_handle(10)),
        Err(AbiError::ForeignHandle)
    );
    assert_eq!(
        engine.validate_session(PksSessionHandle::invalid()),
        Err(AbiError::InvalidHandle)
    );
    assert_eq!(engine.record_session_created(handle), Err(AbiError::NoCapacity));
    engine.record_destroy(true);
    assert_eq!(engine.validate_session(handle), Err(AbiError::StaleHandle));
}

#[test]
fn engine_runs_compile_start_and_stop_in_order() {
    let mut engine = EngineLifecycle::new(9);
    engine.record_session_created(session_handle(9)).unwrap();
    assert_eq!(engine.begin_start(), Err(AbiError::InvalidLifecycleState));
    engine.record_compile(true);
    assert_eq!(engine.begin_start(), Ok(()));
    assert_eq!(engine.state, PksSessionLifecycleState::Starting);
    assert_eq!(engine.finish_start(Ok(())), StartCompletion::Started);
    assert_eq!(engine.state, PksSessionLifecycleState::Running);
    assert_eq!(engine.begin_stop(), StopDecision::Proceed);
    assert_eq!(engine.state, PksSessionLifecycleState::Stopping);
    assert_eq!(
        stop_action(Ok(PksSessionLifecycleState::Running)),
        StopAction::StopRunning
    );
    assert_eq!(engine.finish_stop(Ok(())), Ok(()));
    assert_eq!(engine.state, PksSessionLifecycleState::Stopped);
    assert_eq!(engine.begin_stop(), StopDecision::AlreadyStopped);
}

#[test]
fn engine_stop_during_start_cancels_the_start() {
    let mut engine = EngineLifecycle::new(9);
    engine.record_session_created(session_handle(9)).unwrap();
    engine.record_compile(true);
    engine.begin_start().unwrap();
    assert_eq!(engine.begin_stop(), StopDecision::Proceed);
    assert_eq!(engine.finish_start(Ok(())), StartCompletion::StopRequired);
    assert_eq!(engine.state, PksSessionLifecycleState::Stopping);
    assert_eq!(engine.finish_overtaken_start(true), AbiError::Cancelled);
    assert_eq!(engine.state, PksSessionLifecycleState::Stopped);
}

#[test]
fn engine_start_failures_are_typed() {
    let mut engine = EngineLifecycle::new(9);
    engine.record_compile(true);
    engine.begin_start().unwrap();
    assert_eq!(
        engine.finish_start(Err(AbiError::Cancelled)),
        StartCompletion::Refused(AbiError::Cancelled)
    );
    assert_eq!(engine.state, PksSessionLifecycleState::Stopped);

    let mut failing = EngineLifecycle::new(9);
    failing.record_compile(true);
    failing.begin_start().unwrap();
    assert_eq!(
        failing.finish_start(Err(AbiError::BackendFailure)),
        StartCompletion::Refused(AbiError::BackendFailure)
    );
    assert_eq!(failing.state, PksSessionLifecycleState::Failed);
    assert_eq!(
        failing.begin_stop(),
        StopDecision::Refused(AbiError::InvalidLifecycleState)
    );
    assert_eq!(stop_action(Ok(PksSessionLifecycleState::Failed)), StopAction::NothingToStop);
    assert_eq!(
        stop_action(Ok(PksSessionLifecycleState::Draft)),
        StopAction::Fail(AbiError::InvalidLifecycleState)
    );
    assert_eq!(
        stop_action(Err(AbiError::StaleHandle)),
        StopAction::Fail(AbiError::StaleHandle)
    );
}
