use pocketstation::abi::session::abi::{PksSessionAbiVersion, PksSessionHandleKind};
use pocketstation::abi::session::error::AbiError;
use pocketstation::abi::session::handle::HandleTable;
use pocketstation::capture::timeline::monotonic_reading_ns;

#[test]
fn fresh_table_fills_slots_in_order_then_refuses() {
    let mut table = HandleTable::new(3, PksSessionHandleKind::Session, 9);
    assert_eq!(table.active_count(), 0);
    for index in 0..3u32 {
        let handle = table.insert(index * 10).expect("a slot is vacant");
        assert_eq!(handle.slot_index, index);
        assert_eq!(handle.generation, 1);
        assert_eq!(handle.kind, PksSessionHandleKind::Session);
        assert_eq!(handle.scope_id, 9);
        assert_eq!(table.active_count(), index as usize + 1);
        assert_eq!(*table.get(handle).unwrap(), index * 10);
    }
    assert_eq!(table.insert(99).unwrap_err(), AbiError::NoCapacity);
    assert_eq!(table.active_count(), 3);
}

#[test]
fn removed_handle_stays_stale_after_its_slot_is_reused() {
    let mut table = HandleTable::new(1, PksSessionHandleKind::Session, 7);
    let first = table.insert(7_u32).unwrap();
    assert_eq!(table.remove(first), Ok(7));
    assert_eq!(table.active_count(), 0);
    assert_eq!(table.remove(first).unwrap_err(), AbiError::StaleHandle);
    assert_eq!(table.active_count(), 0);
    let second = table.insert(8_u32).unwrap();
    assert_eq!(second.slot_index, first.slot_index);
    assert_eq!(second.generation, 2);
    assert_ne!(second, first);
    assert_eq!(table.get(first).unwrap_err(), AbiError::StaleHandle);
    assert_eq!(*table.get(second).unwrap(), 8);
    assert_eq!(table.active_count(), 1);
}

#[test]
fn session_version_record_is_eight_bytes() {
    let version = PksSessionAbiVersion::current();
    assert_eq!(version.struct_size_bytes, 8);
    assert_eq!(std::mem::size_of::<PksSessionAbiVersion>(), 8);
}

#[test]
fn clock_readings_are_never_zero_and_never_go_back() {
    assert_eq!(monotonic_reading_ns(0), 1);
    assert_eq!(monotonic_reading_ns(41), 42);
    assert_eq!(monotonic_reading_ns(u64::MAX as u128), u64::MAX);
    assert_eq!(monotonic_reading_ns(u128::MAX), u64::MAX);
    assert!(monotonic_reading_ns(5) <= monotonic_reading_ns(6));
}

#[test]
fn for_each_mut_visits_only_occupied_slots() {
    let mut table = HandleTable::new(3, PksSessionHandleKind::Session, 1);
    let first = table.insert(1_u32).unwrap();
    let second = table.insert(2_u32).unwrap();
    assert_eq!(table.remove(first), Ok(1));
    let mut visited = 0;
    table.for_each_mut(|value| {
        *value += 10;
        visited += 1;
    });
    assert_eq!(visited, 1);
    assert_eq!(*table.get(second).unwrap(), 12);
    assert_eq!(table.active_count(), 1);
}

#[test]
fn active_count_follows_successful_inserts_and_removes_only() {
    let mut table = HandleTable::new(2, PksSessionHandleKind::Session, 4);
    let first = table.insert(1_u32).expect("vacant");
    let second = table.insert(2_u32).expect("vacant");
    assert_eq!(table.active_count(), 2);
    assert_eq!(table.insert(3_u32), Err(AbiError::NoCapacity));
    assert_eq!(table.active_count(), 2);
    assert_eq!(table.remove(first), Ok(1));
    assert_eq!(table.active_count(), 1);
    assert_eq!(table.remove(first), Err(AbiError::StaleHandle));
    assert_eq!(table.active_count(), 1);
    assert_eq!(table.get(second), Ok(&2));
}

#[test]
fn abi_errors_read_as_their_documented_text() {
    assert_eq!(AbiError::NullArgument.message(), "output pointer is null");
    assert_eq!(AbiError::StaleHandle.message(), "handle is stale");
    assert_eq!(AbiError::NoCapacity.message(), "handle table has no free slot");
    assert_eq!(AbiError::ForeignHandle.message(), "handle belongs to another engine");
    assert_eq!(
        AbiError::IndexOutOfRange.message(),
        "index is outside the bounded result"
    );
}

#[test]
fn given_monotonic_capture_clock_when_sampled_then_never_moves_backwards() {
    let epoch = std::time::Instant::now();
    let first = monotonic_reading_ns(epoch.elapsed().as_nanos());
    let second = monotonic_reading_ns(epoch.elapsed().as_nanos());
    assert!(first > 0);
    assert!(second >= first);
}
