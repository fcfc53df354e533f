use pocketstation::abi::executable_extension::{
    output_buffer, owned_port, parse_output, AbiExtensionError,
};
use pocketstation::abi::extension::{
    pks_extension_descriptor_validate, PksExtensionDescriptor, PksExtensionKind, PksExtensionPort,
    PksExtensionPortDirection, PointerState, PKS_EXTENSION_ABI_MAJOR, PKS_EXTENSION_ABI_MINOR,
};
use pocketstation::abi::layout::{extension_descriptor_bytes, extension_port_bytes};
use pocketstation::abi::session::abi::{PksSessionHandleKind, PksSessionStatus, PksSessionUtf8};
use pocketstation::abi::session::error::AbiError;
use pocketstation::abi::session::handle::HandleTable;
use pocketstation::codec::config::OpusChannels;
use pocketstation::codec::profile::StreamProfile;

fn utf8(bytes: &'static [u8]) -> PksSessionUtf8 {
    PksSessionUtf8 {
        data: bytes.as_ptr() as usize,
        len_bytes: bytes.len() as u32,
        bytes: bytes.to_vec(),
    }
}

#[test]
fn given_removed_handle_when_lookup_then_stale_is_reported() {
    let mut table = HandleTable::new(1, PksSessionHandleKind::Session, 7);
    let handle = table.insert(7_u32).expect("insert");
    let value = table.remove(handle).expect("remove");

    assert_eq!(value, 7);
    assert_eq!(
        table.get(handle).expect_err("stale handle"),
        AbiError::StaleHandle
    );
}

#[test]
fn given_full_table_when_insert_then_capacity_failure_is_returned() {
    let mut table = HandleTable::new(1, PksSessionHandleKind::Session, 7);
    let _ = table.insert(7_u32).expect("insert");

    assert_eq!(
        table.insert(8_u32).expect_err("full table"),
        AbiError::NoCapacity
    );
}

#[test]
fn given_other_scope_when_lookup_then_foreign_handle_is_reported() {
    let mut first = HandleTable::new(1, PksSessionHandleKind::Session, 7);
    let second = HandleTable::<u32>::new(1, PksSessionHandleKind::Session, 8);
    let handle = first.insert(7_u32).expect("insert");

    assert_eq!(
        second.get(handle).expect_err("foreign handle"),
        AbiError::ForeignHandle
    );
}

#[test]
fn given_oversized_callback_output_when_parsed_then_record_is_rejected() {
    let storage = vec![0_u8; 4];
    let storage_address = storage.as_ptr() as usize;
    let mut output = output_buffer(&storage, storage_address);
    output.len_bytes = 5;

    let result = parse_output(output, storage, storage_address);

    assert!(matches!(
        result,
        Err(message) if message == "foreign callback returned an invalid bounded output record"
    ));
}

#[test]
fn given_reserved_core_signal_when_c_port_owned_then_realtime_masquerade_is_rejected() {
    let port = PksExtensionPort {
        struct_size_bytes: extension_port_bytes() as u32,
        abi_major: PKS_EXTENSION_ABI_MAJOR,
        abi_minor: PKS_EXTENSION_ABI_MINOR,
        direction: PksExtensionPortDirection::Output.code(),
        required: 1,
        name: utf8(b"out"),
        signal_id: utf8(b"pks.signal.pcm-audio.v1"),
        semantic_role: utf8(b""),
        schema: utf8(b"urn:pocketstation:test:v1"),
    };

    assert!(matches!(
        owned_port(&port),
        Err(AbiExtensionError::InvalidArgument)
    ));
}

#[test]
fn given_core_extension_c_descriptor_when_validated_then_version_and_ports_pass() {
    let port = PksExtensionPort {
        struct_size_bytes: extension_port_bytes() as u32,
        abi_major: PKS_EXTENSION_ABI_MAJOR,
        abi_minor: PKS_EXTENSION_ABI_MINOR,
        direction: PksExtensionPortDirection::Output.code(),
        required: 1,
        name: utf8(b"out"),
        signal_id: utf8(b"dev.pocketstation.fixture.v1"),
        semantic_role: utf8(b""),
        schema: utf8(b"urn:pocketstation:fixture:v1"),
    };
    let descriptor = PksExtensionDescriptor {
        struct_size_bytes: extension_descriptor_bytes() as u32,
        abi_major: PKS_EXTENSION_ABI_MAJOR,
        abi_minor: PKS_EXTENSION_ABI_MINOR,
        kind: PksExtensionKind::Source.code(),
        revision: 1,
        generation: 1,
        port_count: 1,
        extension_id: utf8(b"dev.pocketstation.source.fixture.v1"),
    };
    let ports = [port];
    let status = pks_extension_descriptor_validate(&descriptor, PointerState::Valid, &ports, 1);
    assert_eq!(status, PksSessionStatus::ok());
}

#[test]
fn given_stereo_profiles_when_resolved_then_channels_remain_stereo() {
    for profile in [
        StreamProfile::MusicStereo20ms,
        StreamProfile::MusicStereo10ms,
        StreamProfile::BroadcastStereo20ms,
        StreamProfile::HifiStereo20ms,
    ] {
        assert_eq!(profile.opus_config().channels, OpusChannels::Stereo);
    }
}
