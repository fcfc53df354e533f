use pocketstation::abi::session::abi::{PksSessionHandleKind, PksSessionLifecycleState};
use pocketstation::abi::session::error::AbiError;
use pocketstation::abi::session::registry::{EngineTable, SessionBook, ENGINE_CAPACITY_COUNT};
use pocketstation::abi::session::runtime::StartAttempt;

#[test]
fn engine_table_holds_sixteen_engines_then_refuses() {
    let mut engines = EngineTable::new();
    let mut handles = Vec::new();
    for index in 0..ENGINE_CAPACITY_COUNT {
        let handle = engines.allocate(index).expect("a slot is vacant");
        assert_eq!(handle.kind, PksSessionHandleKind::Engine);
        assert_eq!(handle.scope_id, 1);
        assert_eq!(handle.slot_index as usize, index);
        handles.push(handle);
    }
    assert_eq!(engines.allocate(99), Err(AbiError::NoCapacity));
    assert_eq!(engines.engine_is_live(handles[3]), Ok(true));
    assert_eq!(engines.engine(handles[3]), Ok(&3));
    assert_eq!(engines.release(handles[3]), Ok(3));
    assert_eq!(engines.engine_is_live(handles[3]), Err(AbiError::StaleHandle));
    let reused = engines.allocate(7).expect("the released slot is vacant");
    assert_eq!(reused.slot_index, 3);
    assert_eq!(reused.generation, 2);
}

#[test]
fn engine_creates_one_session_in_its_life() {
    let mut book: SessionBook<u32> = SessionBook::new(5, 2);
    let session = book.create_session().expect("first session");
    assert_eq!(session.kind, PksSessionHandleKind::Session);
    assert_eq!(session.scope_id, 5);
    assert_eq!(book.create_session(), Err(AbiError::NoCapacity));
    assert_eq!(book.destroy_session(session, true), Ok(()));
    assert_eq!(book.create_session(), Err(AbiError::NoCapacity));
    assert_eq!(book.session_state(session), Err(AbiError::StaleHandle));
}

#[test]
fn session_moves_through_compile_start_and_stop() {
    let mut book: SessionBook<u32> = SessionBook::new(5, 2);
    let session = book.create_session().expect("first session");
    assert_eq!(book.session_state(session), Ok(PksSessionLifecycleState::Draft));
    assert_eq!(
        book.start_session(session, true, StartAttempt::Started { has_events: true }),
        Err(AbiError::InvalidLifecycleState)
    );
    assert_eq!(book.compile_session(session, true, true), Ok(()));
    assert_eq!(book.session_state(session), Ok(PksSessionLifecycleState::Compiled));
    assert_eq!(
        book.start_session(session, true, StartAttempt::Started { has_events: true }),
        Ok(())
    );
    assert_eq!(book.session_state(session), Ok(PksSessionLifecycleState::Running));
    assert_eq!(book.stop_session(session, false), Err(AbiError::BackendFailure));
    assert_eq!(book.session_state(session), Ok(PksSessionLifecycleState::Failed));
}

#[test]
fn destroying_a_running_session_reports_its_stop() {
    let mut book: SessionBook<u32> = SessionBook::new(5, 2);
    let session = book.create_session().expect("first session");
    assert_eq!(book.compile_session(session, true, true), Ok(()));
    assert_eq!(
        book.start_session(session, true, StartAttempt::Started { has_events: false }),
        Ok(())
    );
    assert_eq!(book.destroy_session(session, false), Err(AbiError::BackendFailure));
    assert_eq!(book.session_state(session), Err(AbiError::StaleHandle));
}

#[test]
fn leases_are_held_up_to_capacity_and_released_once() {
    let mut book: SessionBook<u32> = SessionBook::new(5, 2);
    let first = book.hold_lease(10).expect("vacant");
    let second = book.hold_lease(20).expect("vacant");
    assert_eq!(first.kind, PksSessionHandleKind::AudioBatch);
    assert_eq!(book.hold_lease(30), Err(AbiError::NoCapacity));
    assert_eq!(book.lease(second), Ok(&20));
    assert_eq!(book.release_lease(first), Ok(()));
    assert_eq!(book.release_lease(first), Err(AbiError::StaleHandle));
    assert_eq!(book.lease(first), Err(AbiError::StaleHandle));
}
