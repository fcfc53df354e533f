use pocketstation::abi::executable_extension::{
    build_registration, build_registration_with_library, prepare_registration,
    validate_callback_shape, AbiExtensionError, ExtensionCallbackShape,
};
use pocketstation::abi::extension::{
    PksExtensionDescriptor, PksExtensionKind, PksExtensionPort, PksExtensionPortDirection,
    PKS_EXTENSION_ABI_MAJOR, PKS_EXTENSION_ABI_MINOR,
};
use pocketstation::abi::layout::{
    extension_callbacks_bytes, extension_descriptor_bytes, extension_port_bytes,
};
use pocketstation::abi::session::abi::PksSessionUtf8;
use pocketstation::capture::identity::{CaptureSource, SourceKind, SourceState, StableSourceId};
use pocketstation::capture::input_order::order_input_sources;
use pocketstation::capture::platform::linux::pipewire::{
    alsa_negotiated_sample_rate, pipewire_capture_timing, pipewire_f32_sample_count,
    AlsaRead, AlsaReadStep, AlsaReaderState, NegotiatedPipeWireFormat, PipeWireBufferOutcome,
    PipeWireCaptureState, PipeWireCaptureTiming, PipeWireStreamTime,
};
use pocketstation::capture::platform::windows::capture_failure::{
    CaptureLoopFailure, WasapiTimestampMapping,
};
use pocketstation::capture::platform::windows::capture_loop::{
    announced_packet_step, capture_event_wait_step, delivered_packet_bytes, mapping_unavailable,
    packet_timestamp, process_watch_step, CaptureEventWait, DeliveredPacket, WasapiLoopKind,
};
use pocketstation::capture::platform::windows::discovery::{
    discover_sources_windows, wasapi_input_source, wasapi_session_source,
    windows_system_mix_source, WasapiSessionReading,
};
use pocketstation::capture::platform::windows::process_instance::ProcessInstanceWatchObservation;
use pocketstation::frame::Platform;

fn utf8(bytes: &'static [u8]) -> PksSessionUtf8 {
    PksSessionUtf8 {
        data: bytes.as_ptr() as usize,
        len_bytes: bytes.len() as u32,
        bytes: bytes.to_vec(),
    }
}

fn port(name: &'static [u8], direction: PksExtensionPortDirection) -> PksExtensionPort {
    PksExtensionPort {
        struct_size_bytes: extension_port_bytes() as u32,
        abi_major: PKS_EXTENSION_ABI_MAJOR,
        abi_minor: PKS_EXTENSION_ABI_MINOR,
        direction: direction.code(),
        required: 1,
        name: utf8(name),
        signal_id: utf8(b"dev.pocketstation.fixture.v1"),
        semantic_role: utf8(b""),
        schema: utf8(b"urn:pocketstation:fixture:v1"),
    }
}

fn descriptor(kind: PksExtensionKind, port_count: u32) -> PksExtensionDescriptor {
    PksExtensionDescriptor {
        struct_size_bytes: extension_descriptor_bytes() as u32,
        abi_major: PKS_EXTENSION_ABI_MAJOR,
        abi_minor: PKS_EXTENSION_ABI_MINOR,
        kind: kind.code(),
        revision: 1,
        generation: 1,
        port_count,
        extension_id: utf8(b"dev.pocketstation.fixture"),
    }
}

fn callbacks(kind: PksExtensionKind) -> ExtensionCallbackShape {
    ExtensionCallbackShape {
        struct_size_bytes: extension_callbacks_bytes() as u32,
        abi_major: PKS_EXTENSION_ABI_MAJOR,
        abi_minor: PKS_EXTENSION_ABI_MINOR,
        has_registration_context: true,
        max_payload_bytes: 4096,
        has_validate_configuration: true,
        has_create: true,
        has_prepare: true,
        has_source_next: kind == PksExtensionKind::Source,
        has_operator_process: kind == PksExtensionKind::Operator,
        has_endpoint_consume: kind == PksExtensionKind::Endpoint,
        has_request_stop: true,
        has_finish: true,
        has_destroy_instance: true,
        has_destroy_registration: true,
    }
}

#[test]
fn callback_record_needs_every_lifecycle_callback() {
    assert_eq!(
        validate_callback_shape(&callbacks(PksExtensionKind::Source)),
        Ok(())
    );
    let mut missing_finish = callbacks(PksExtensionKind::Source);
    missing_finish.has_finish = false;
    assert_eq!(
        validate_callback_shape(&missing_finish),
        Err(AbiExtensionError::InvalidArgument)
    );
    let mut oversized = callbacks(PksExtensionKind::Source);
    oversized.max_payload_bytes = 1_048_577;
    assert_eq!(
        validate_callback_shape(&oversized),
        Err(AbiExtensionError::InvalidArgument)
    );
    let mut short = callbacks(PksExtensionKind::Source);
    short.struct_size_bytes = 8;
    assert_eq!(
        validate_callback_shape(&short),
        Err(AbiExtensionError::InvalidSize)
    );
    let mut newer = callbacks(PksExtensionKind::Source);
    newer.abi_major = PKS_EXTENSION_ABI_MAJOR + 1;
    assert_eq!(
        validate_callback_shape(&newer),
        Err(AbiExtensionError::UnsupportedMajor)
    );
}

#[test]
fn source_registration_owns_its_output_port() {
    let ports = vec![port(b"out", PksExtensionPortDirection::Output)];
    let registration = prepare_registration(
        &descriptor(PksExtensionKind::Source, 1),
        &ports,
        &callbacks(PksExtensionKind::Source),
    )
    .expect("a source with one output port is accepted");
    assert_eq!(registration.kind(), PksExtensionKind::Source);
    assert_eq!(registration.id(), "dev.pocketstation.fixture");
    assert_eq!(registration.ports().len(), 1);
    assert_eq!(registration.ports()[0].name, "out");
    assert!(!registration.ports()[0].input);
    assert_eq!(registration.max_payload_bytes(), 4096);
}

#[test]
fn operator_registration_needs_one_input_and_one_output() {
    let both = vec![
        port(b"in", PksExtensionPortDirection::Input),
        port(b"out", PksExtensionPortDirection::Output),
    ];
    let registration = build_registration(
        &descriptor(PksExtensionKind::Operator, 2),
        &both,
        &callbacks(PksExtensionKind::Operator),
    )
    .expect("an operator with one input and one output is accepted");
    assert_eq!(registration.kind(), PksExtensionKind::Operator);

    let two_inputs = vec![
        port(b"in", PksExtensionPortDirection::Input),
        port(b"other", PksExtensionPortDirection::Input),
    ];
    assert!(matches!(
        build_registration(
            &descriptor(PksExtensionKind::Operator, 2),
            &two_inputs,
            &callbacks(PksExtensionKind::Operator),
        ),
        Err(AbiExtensionError::Status(_))
    ));
}

#[test]
fn registration_with_mismatched_callbacks_is_refused_and_released() {
    let ports = vec![port(b"in", PksExtensionPortDirection::Input)];
    let mut shape = callbacks(PksExtensionKind::Endpoint);
    shape.has_source_next = true;
    let failure = build_registration_with_library(
        &descriptor(PksExtensionKind::Endpoint, 1),
        &ports,
        &shape,
        true,
    )
    .expect_err("an endpoint with a source callback is refused");
    assert_eq!(failure.error, AbiExtensionError::InvalidArgument);
    assert!(failure.release_registration);

    let kept = build_registration_with_library(
        &descriptor(PksExtensionKind::Endpoint, 1),
        &ports,
        &shape,
        false,
    )
    .expect_err("the same refusal without release");
    assert!(!kept.release_registration);
}

#[test]
fn registration_refused_by_descriptor_reports_its_status() {
    let ports = vec![port(b"out", PksExtensionPortDirection::Output)];
    let mut declared = descriptor(PksExtensionKind::Source, 1);
    declared.revision = 0;
    match build_registration(&declared, &ports, &callbacks(PksExtensionKind::Source)) {
        Err(AbiExtensionError::Status(status)) => assert_eq!(status.code, 10),
        other => panic!("unexpected outcome {other:?}"),
    }
}

#[test]
fn pipewire_timing_reads_source_frames_and_delay() {
    let time = PipeWireStreamTime {
        rate_numerator: 1,
        rate_denominator: 48_000,
        ticks: 96_000,
        delay: 480,
        now_ns: 1_000_000,
    };
    let timing = pipewire_capture_timing(Some(time), 48_000, Some(4_000_000), 10_000_000, Some(5_000_000));
    assert_eq!(
        timing,
        PipeWireCaptureTiming {
            source_sample_frame: Some(96_000),
            capture_delay_ns: 10_000_000,
            report_age_ns: 4_000_000,
            buffer_timestamp_ns: Some(9_000_000),
        }
    );
    let other_rate = pipewire_capture_timing(Some(time), 44_100, None, 10_000_000, None);
    assert_eq!(other_rate.source_sample_frame, None);
    assert_eq!(other_rate.report_age_ns, 0);
    assert_eq!(other_rate.buffer_timestamp_ns, None);
    let none = pipewire_capture_timing(None, 48_000, Some(1), 10, Some(20));
    assert_eq!(
        none,
        PipeWireCaptureTiming {
            source_sample_frame: None,
            capture_delay_ns: 0,
            report_age_ns: 0,
            buffer_timestamp_ns: None,
        }
    );
}

#[test]
fn pipewire_buffer_timestamp_is_never_before_one_nanosecond() {
    let time = PipeWireStreamTime {
        rate_numerator: 1,
        rate_denominator: 48_000,
        ticks: 0,
        delay: -1,
        now_ns: -5,
    };
    let timing = pipewire_capture_timing(Some(time), 48_000, Some(0), 3, Some(100));
    assert_eq!(timing.buffer_timestamp_ns, Some(1));
    assert_eq!(timing.capture_delay_ns, 0);
    assert_eq!(timing.report_age_ns, 0);
}

#[test]
fn pipewire_sample_count_accepts_interleaved_and_planar_buffers() {
    assert_eq!(pipewire_f32_sample_count(&[Some(960)], 2), Some(960));
    assert_eq!(pipewire_f32_sample_count(&[Some(961)], 2), None);
    assert_eq!(pipewire_f32_sample_count(&[None], 2), None);
    assert_eq!(pipewire_f32_sample_count(&[Some(480), Some(470)], 2), Some(940));
    assert_eq!(pipewire_f32_sample_count(&[Some(480), None], 2), None);
    assert_eq!(pipewire_f32_sample_count(&[Some(480), Some(480)], 1), None);
    assert_eq!(pipewire_f32_sample_count(&[], 2), None);
}

fn negotiated_state() -> PipeWireCaptureState {
    let mut state = PipeWireCaptureState::new(2);
    state
        .set_negotiated_format(NegotiatedPipeWireFormat {
            sample_rate_hz: 48_000,
            channel_count: 2,
        })
        .expect("the expected format is accepted");
    state
}

#[test]
fn pipewire_buffer_with_presentation_time_keeps_it() {
    let mut state = negotiated_state();
    let outcome = state.plan_callback_buffer(
        Some(960),
        4096,
        None,
        Some(4_000_000),
        10_000_000,
        Some(5_000_000),
    );
    // Without a clock report no timing is read, so the buffer goes on the timeline.
    assert!(matches!(outcome, PipeWireBufferOutcome::Frames { sample_count: 960, .. }));

    let mut state = negotiated_state();
    let time = PipeWireStreamTime {
        rate_numerator: 1,
        rate_denominator: 48_000,
        ticks: 0,
        delay: 0,
        now_ns: 5_000_000,
    };
    let outcome = state.plan_callback_buffer(
        Some(960),
        4096,
        Some(time),
        Some(4_000_000),
        10_000_000,
        Some(5_000_000),
    );
    assert_eq!(
        outcome,
        PipeWireBufferOutcome::Frames {
            timestamp_ns: 9_000_000,
            sample_rate_hz: 48_000,
            channel_count: 2,
            sample_count: 960,
        }
    );
}

#[test]
fn pipewire_buffer_rejects_unreadable_and_oversized_buffers() {
    let mut state = negotiated_state();
    assert_eq!(
        state.plan_callback_buffer(None, 4096, None, None, 10, None),
        PipeWireBufferOutcome::InvalidBuffer
    );
    assert_eq!(
        state.plan_callback_buffer(Some(8192), 4096, None, None, 10, None),
        PipeWireBufferOutcome::OversizedBuffer
    );
    let mut unnegotiated = PipeWireCaptureState::new(2);
    assert_eq!(
        unnegotiated.plan_callback_buffer(Some(960), 4096, None, None, 10_000_000, None),
        PipeWireBufferOutcome::InvalidBuffer
    );
}

#[test]
fn pipewire_cumulative_buffers_follow_sample_count() {
    let mut state = negotiated_state();
    let first = state.plan_callback_buffer(Some(960), 4096, None, None, 1_010_000_000, None);
    assert_eq!(
        first,
        PipeWireBufferOutcome::Frames {
            timestamp_ns: 1_000_000_000,
            sample_rate_hz: 48_000,
            channel_count: 2,
            sample_count: 960,
        }
    );
    let second = state.plan_callback_buffer(Some(960), 4096, None, None, 5_000_000_000, None);
    assert_eq!(
        second,
        PipeWireBufferOutcome::Frames {
            timestamp_ns: 1_010_000_000,
            sample_rate_hz: 48_000,
            channel_count: 2,
            sample_count: 960,
        }
    );
}

#[test]
fn alsa_negotiation_requires_stereo_f32_and_a_rate() {
    assert_eq!(
        alsa_negotiated_sample_rate(2, true, "FloatLE", Some(48_000)),
        Ok(48_000)
    );
    assert_eq!(
        alsa_negotiated_sample_rate(1, true, "FloatLE", Some(48_000)),
        Err("ALSA negotiated 1 channels; expected 2".to_owned())
    );
    assert_eq!(
        alsa_negotiated_sample_rate(2, false, "S16LE", Some(48_000)),
        Err("ALSA negotiated unsupported sample format: S16LE".to_owned())
    );
    assert_eq!(
        alsa_negotiated_sample_rate(2, true, "FloatLE", Some(0)),
        Err("ALSA negotiated an invalid sample rate".to_owned())
    );
    assert_eq!(
        alsa_negotiated_sample_rate(2, true, "FloatLE", None),
        Err("ALSA negotiated an invalid sample rate".to_owned())
    );
}

#[test]
fn alsa_reader_reports_one_failure_and_stamps_frames() {
    let mut reader = AlsaReaderState::new(48_000, true);
    assert_eq!(reader.observe_read(AlsaRead::NoFrames, 5), AlsaReadStep::Idle);
    assert_eq!(
        reader.observe_read(AlsaRead::Failed, 5),
        AlsaReadStep::StreamError { report_failure: true }
    );
    assert_eq!(
        reader.observe_read(AlsaRead::Failed, 5),
        AlsaReadStep::StreamError { report_failure: false }
    );
    assert_eq!(
        reader.observe_read(AlsaRead::Frames(480), 1_000),
        AlsaReadStep::Deliver { sample_count: 960, timestamp_ns: 1_000 }
    );
    assert_eq!(
        reader.observe_read(AlsaRead::Frames(480), 9_999_999),
        AlsaReadStep::Deliver { sample_count: 960, timestamp_ns: 10_001_000 }
    );

    let mut silent = AlsaReaderState::new(48_000, false);
    assert_eq!(
        silent.observe_read(AlsaRead::Failed, 5),
        AlsaReadStep::StreamError { report_failure: false }
    );
}

fn backend_class(failure: &CaptureLoopFailure) -> (&'static str, &'static str) {
    match failure {
        CaptureLoopFailure::BackendClass { operation, class } => (operation, class),
        other => panic!("unexpected failure {other:?}"),
    }
}

#[test]
fn wasapi_announced_packets_drain_or_fail() {
    assert!(matches!(announced_packet_step(WasapiLoopKind::Endpoint, 0, 4096), Ok(false)));
    assert!(matches!(announced_packet_step(WasapiLoopKind::Endpoint, 512, 4096), Ok(true)));
    let failure = announced_packet_step(WasapiLoopKind::ProcessLoopback, 513, 4096)
        .expect_err("a packet past the storage fails");
    assert_eq!(
        backend_class(&failure),
        (
            "validate announced WASAPI process-loopback packet size",
            "announced-packet-oversized"
        )
    );
}

#[test]
fn wasapi_delivered_packets_need_data_when_audible() {
    assert!(matches!(
        delivered_packet_bytes(WasapiLoopKind::ProcessLoopback, 0, 4096, false, false),
        Ok(0)
    ));
    assert!(matches!(
        delivered_packet_bytes(WasapiLoopKind::ProcessLoopback, 10, 4096, true, false),
        Ok(80)
    ));
    let failure = delivered_packet_bytes(WasapiLoopKind::ProcessLoopback, 10, 4096, false, false)
        .expect_err("audible packet without data");
    assert_eq!(
        backend_class(&failure),
        ("read WASAPI process-loopback packet", "null-packet-data")
    );
    assert!(matches!(
        delivered_packet_bytes(WasapiLoopKind::Endpoint, 10, 4096, false, false),
        Ok(80)
    ));
    let failure = delivered_packet_bytes(WasapiLoopKind::Endpoint, 1000, 4096, false, true)
        .expect_err("oversized delivered packet");
    assert_eq!(
        backend_class(&failure),
        ("validate delivered WASAPI packet size", "delivered-packet-oversized")
    );
}

#[test]
fn wasapi_packet_timestamps_map_to_the_monotonic_clock() {
    let mapping = WasapiTimestampMapping {
        qpc_origin_ns: 1_000,
        monotonic_origin_ns: 50_000,
    };
    assert!(matches!(
        packet_timestamp(WasapiLoopKind::Endpoint, 0, false, 10, mapping),
        Ok(DeliveredPacket::Skip)
    ));
    assert!(matches!(
        packet_timestamp(WasapiLoopKind::Endpoint, 80, true, 10, mapping),
        Ok(DeliveredPacket::InvalidTimestamp)
    ));
    assert!(matches!(
        packet_timestamp(WasapiLoopKind::Endpoint, 80, false, 20, mapping),
        Ok(DeliveredPacket::Deliver { sample_count: 20, timestamp_ns: 51_000 })
    ));
    let failure = packet_timestamp(WasapiLoopKind::Endpoint, 80, false, u64::MAX, mapping)
        .expect_err("position past the clock");
    assert_eq!(
        backend_class(&failure),
        ("convert WASAPI packet timestamp", "qpc-timestamp-out-of-range")
    );
    let early = WasapiTimestampMapping {
        qpc_origin_ns: 1_000_000,
        monotonic_origin_ns: 10,
    };
    let failure = packet_timestamp(WasapiLoopKind::ProcessLoopback, 80, false, 1, early)
        .expect_err("position before the clock's origin");
    assert_eq!(
        backend_class(&failure),
        (
            "map WASAPI process-loopback packet timestamp",
            "qpc-timestamp-out-of-range"
        )
    );
}

#[test]
fn wasapi_capture_event_and_process_watch_steps() {
    assert!(matches!(capture_event_wait_step(0, 0), Ok(CaptureEventWait::Signalled)));
    assert!(matches!(capture_event_wait_step(258, 0), Ok(CaptureEventWait::TimedOut)));
    match capture_event_wait_step(0xFFFF_FFFF, 5) {
        Err(CaptureLoopFailure::Windows { operation, status_code }) => {
            assert_eq!(operation, "wait for WASAPI process-loopback capture event");
            assert_eq!(status_code, 0x8007_0005u32 as i32);
        }
        other => panic!("unexpected outcome {other:?}"),
    }
    let failure = capture_event_wait_step(128, 0).expect_err("abandoned wait");
    assert_eq!(
        backend_class(&failure),
        (
            "wait for WASAPI process-loopback capture event",
            "unexpected-wait-status"
        )
    );
    assert!(process_watch_step(ProcessInstanceWatchObservation::Running).is_ok());
    assert!(matches!(
        process_watch_step(ProcessInstanceWatchObservation::Exited),
        Err(CaptureLoopFailure::ProcessExited)
    ));
    assert!(matches!(
        process_watch_step(ProcessInstanceWatchObservation::Failed { status_code: -7 }),
        Err(CaptureLoopFailure::ProcessWatchFailed { status_code: -7 })
    ));
    assert_eq!(
        backend_class(&mapping_unavailable(WasapiLoopKind::Endpoint)),
        ("initialize WASAPI QPC timestamp mapping", "qpc-clock-unavailable")
    );
}

fn session(process_id: u32) -> WasapiSessionReading {
    WasapiSessionReading {
        process_id,
        creation_time_100ns: Some(1234),
        active: Some(true),
        image_stem: Some("Meeting".to_owned()),
        application_id: Some("Example.Meeting".to_owned()),
        confirmed_creation_time_100ns: Some(1234),
    }
}

#[test]
fn wasapi_session_lists_a_confirmed_process_instance() {
    let source = wasapi_session_source(session(42), 7).expect("a running process is listed");
    assert_eq!(source.stable_id.platform, Platform::Windows);
    assert_eq!(source.stable_id.kind, SourceKind::Application);
    assert_eq!(source.stable_id.stable_key, "wasapi:pid:42:creation-100ns:1234");
    assert_eq!(source.name, "Meeting");
    assert_eq!(source.process_id, Some(42));
    assert_eq!(source.app_id.as_deref(), Some("Example.Meeting"));
    assert_eq!(source.state, SourceState::Playing);

    let mut unnamed = session(42);
    unnamed.image_stem = None;
    unnamed.active = Some(false);
    let source = wasapi_session_source(unnamed, 7).expect("listed without a name");
    assert_eq!(source.name, "pid-42");
    assert_eq!(source.state, SourceState::Silent);
}

#[test]
fn wasapi_session_skips_host_idle_and_restarted_processes() {
    assert!(wasapi_session_source(session(0), 7).is_none());
    assert!(wasapi_session_source(session(7), 7).is_none());
    let mut restarted = session(42);
    restarted.confirmed_creation_time_100ns = Some(9999);
    assert!(wasapi_session_source(restarted, 7).is_none());
    let mut unreadable = session(42);
    unreadable.active = None;
    assert!(wasapi_session_source(unreadable, 7).is_none());
}

#[test]
fn windows_discovery_lists_the_system_mix_first() {
    let input = wasapi_input_source("{mic}".to_owned(), None, Some((44_100, 1)));
    assert_eq!(input.name, "{mic}");
    assert_eq!(input.device_uid.as_deref(), Some("{mic}"));
    assert_eq!((input.sample_rate_hz, input.channels), (44_100, 1));
    let sessions = vec![wasapi_session_source(session(42), 7).expect("listed")];
    let sources = discover_sources_windows(true, vec![input], sessions);
    assert_eq!(sources.len(), 3);
    assert_eq!(sources[0].stable_id.stable_key, "system:mix");
    assert_eq!(sources[0].name, windows_system_mix_source().name);
    assert_eq!(sources[1].stable_id.kind, SourceKind::InputDevice);
    assert_eq!(sources[2].stable_id.kind, SourceKind::Application);
    let without_com = discover_sources_windows(false, Vec::new(), Vec::new());
    assert_eq!(without_com.len(), 1);
}

fn input(uid: &str, name: &str) -> CaptureSource {
    CaptureSource {
        stable_id: StableSourceId::new(Platform::Macos, SourceKind::InputDevice, uid.to_owned()),
        name: name.to_owned(),
        process_id: None,
        app_id: None,
        device_uid: Some(uid.to_owned()),
        state: SourceState::Available,
        sample_rate_hz: 48_000,
        channels: 1,
    }
}

#[test]
fn input_sources_put_the_default_first_then_sort_by_name() {
    let sources = vec![
        input("c", "Zeta"),
        input("a", "Alpha"),
        input("b", "Beta"),
        input("d", "Alpha"),
    ];
    let ordered = order_input_sources(sources, Some("b"));
    let uids = ordered
        .iter()
        .map(|source| source.device_uid.clone().unwrap())
        .collect::<Vec<_>>();
    assert_eq!(uids, vec!["b", "a", "d", "c"]);

    let ordered = order_input_sources(vec![input("x", "b"), input("y", "B")], None);
    assert_eq!(ordered[0].name, "B");
    assert_eq!(ordered[1].name, "b");
}

use pocketstation::abi::executable_extension::{
    emission_observed_timestamp_ns, extension_metrics_snapshot, find_registration,
    operator_output, pipeline_registrations, stop_and_finish_result, ExtensionEndpointCounters,
    ExtensionOperatorCounters, ExtensionRouteCounters, ExtensionSourceCounters,
    ForeignCallbackLifecycle, ForeignDestroyAction, ForeignOutput,
};
use pocketstation::abi::session::error::AbiError;

fn operator_counters(processed_total: u64) -> ExtensionOperatorCounters {
    ExtensionOperatorCounters {
        input_capacity_signals: 8,
        input_depth_signals: 1,
        input_peak_signals: 3,
        input_enqueued_total: 10,
        input_dropped_total: 2,
        processed_total,
        output_emitted_total: 9,
        output_dropped_total: 0,
        process_failure_total: 1,
        timeout_total: 0,
        cancellation_total: 0,
    }
}

#[test]
fn extension_metrics_sum_counters_and_saturate() {
    let sources = vec![
        ExtensionSourceCounters {
            emitted_total: 5,
            dropped_total: 1,
            failure_total: 0,
            cancellation_total: 0,
        },
        ExtensionSourceCounters {
            emitted_total: u64::MAX,
            dropped_total: 2,
            failure_total: 1,
            cancellation_total: 1,
        },
    ];
    let operators = vec![operator_counters(7)];
    let routes = vec![
        ExtensionRouteCounters {
            maximum_buffered_payload_bytes: 4096,
            capacity_signals: 8,
            depth_signals: 2,
            peak_signals: 4,
            enqueued_total: 20,
            received_total: 18,
            dropped_total: 2,
            endpoint: Some(ExtensionEndpointCounters {
                received_total: 18,
                delivered_total: 17,
                dropped_total: 1,
                failure_total: 0,
            }),
        },
        ExtensionRouteCounters {
            maximum_buffered_payload_bytes: 1024,
            capacity_signals: 4,
            depth_signals: 0,
            peak_signals: 1,
            enqueued_total: 3,
            received_total: 3,
            dropped_total: 0,
            endpoint: None,
        },
    ];
    let snapshot = extension_metrics_snapshot(&sources, &operators, &routes).expect("counts fit");
    assert_eq!(snapshot.struct_size_bytes, 232);
    assert_eq!(snapshot.external_source_count, 2);
    assert_eq!(snapshot.operator_count, 1);
    assert_eq!(snapshot.derived_route_count, 2);
    assert_eq!(snapshot.source_emitted_total, u64::MAX);
    assert_eq!(snapshot.source_dropped_total, 3);
    assert_eq!(snapshot.source_cancellation_total, 1);
    assert_eq!(snapshot.operator_processed_total, 7);
    assert_eq!(snapshot.operator_input_capacity_signals, 8);
    assert_eq!(snapshot.maximum_buffered_payload_bytes, 5120);
    assert_eq!(snapshot.route_capacity_signals, 12);
    assert_eq!(snapshot.route_enqueued_total, 23);
    assert_eq!(snapshot.endpoint_received_total, 18);
    assert_eq!(snapshot.endpoint_delivered_total, 17);
    assert_eq!(snapshot.reserved, 0);

    let empty = extension_metrics_snapshot(&[], &[], &[]).expect("empty pipeline");
    assert_eq!(empty.source_emitted_total, 0);
    assert_eq!(empty.endpoint_failure_total, 0);
}

fn registered(kind: PksExtensionKind, id: &'static [u8]) -> pocketstation::abi::executable_extension::ExecutableExtensionRegistration {
    let direction = if kind == PksExtensionKind::Source {
        PksExtensionPortDirection::Output
    } else {
        PksExtensionPortDirection::Input
    };
    let mut declared = descriptor(kind, if kind == PksExtensionKind::Operator { 2 } else { 1 });
    declared.extension_id = utf8(id);
    let ports = if kind == PksExtensionKind::Operator {
        vec![
            port(b"in", PksExtensionPortDirection::Input),
            port(b"out", PksExtensionPortDirection::Output),
        ]
    } else {
        vec![port(b"p", direction)]
    };
    build_registration(&declared, &ports, &callbacks(kind)).expect("fixture registers")
}

#[test]
fn pipeline_finds_each_registration_by_kind_and_id() {
    let registrations = vec![
        registered(PksExtensionKind::Endpoint, b"sink"),
        registered(PksExtensionKind::Source, b"mic"),
        registered(PksExtensionKind::Operator, b"gain"),
        registered(PksExtensionKind::Source, b"sink"),
    ];
    assert_eq!(
        find_registration(&registrations, PksExtensionKind::Source, "sink"),
        Some(3)
    );
    assert_eq!(
        find_registration(&registrations, PksExtensionKind::Operator, "mic"),
        None
    );
    assert_eq!(
        pipeline_registrations(false, 0, false, &registrations, "mic", "gain", "sink"),
        Ok((1, 2, 0))
    );
    assert_eq!(
        pipeline_registrations(false, 0, false, &registrations, "mic", "missing", "sink"),
        Err(AbiError::InvalidArgument)
    );
    assert_eq!(
        pipeline_registrations(true, 0, false, &registrations, "mic", "gain", "sink"),
        Err(AbiError::NoCapacity)
    );
    assert_eq!(
        pipeline_registrations(false, 0, true, &registrations, "mic", "gain", "sink"),
        Err(AbiError::NoCapacity)
    );
}

#[test]
fn foreign_callbacks_run_once() {
    let mut lifecycle = ForeignCallbackLifecycle::new();
    assert!(lifecycle.claim_prepare().is_ok());
    assert_eq!(
        lifecycle.claim_prepare(),
        Err("foreign extension prepare invoked more than once".to_owned())
    );
    assert!(lifecycle.claim_stop());
    assert!(!lifecycle.claim_stop());
    assert!(lifecycle.claim_finish());
    assert!(!lifecycle.claim_finish());
    assert_eq!(lifecycle.claim_destroy(false), ForeignDestroyAction::Nothing);
    assert_eq!(
        lifecycle.claim_destroy(true),
        ForeignDestroyAction::InstanceAndRegistration
    );
    assert_eq!(lifecycle.claim_destroy(true), ForeignDestroyAction::Nothing);

    let mut returned = ForeignCallbackLifecycle::new();
    returned.registration_destroyed = true;
    assert_eq!(returned.claim_destroy(true), ForeignDestroyAction::InstanceOnly);

    assert_eq!(
        stop_and_finish_result(Err("stop".to_owned()), Err("finish".to_owned())),
        Err("stop".to_owned())
    );
    assert_eq!(
        stop_and_finish_result(Ok(()), Err("finish".to_owned())),
        Err("finish".to_owned())
    );
}

#[test]
fn operator_must_answer_with_one_output() {
    let output = ForeignOutput {
        bytes: vec![1, 2, 3],
        observed_timestamp_ns: 0,
        source_timestamp_ns: None,
        duration_ns: None,
        terminal: false,
    };
    assert_eq!(emission_observed_timestamp_ns(&output, 77), 77);
    assert_eq!(operator_output(Ok(Some(output.clone()))), Ok(output));
    assert_eq!(
        operator_output(Ok(None)),
        Err("operator returned end-of-stream instead of one output".to_owned())
    );
    assert_eq!(operator_output(Err("bad".to_owned())), Err("bad".to_owned()));
    let stamped = ForeignOutput {
        bytes: Vec::new(),
        observed_timestamp_ns: 5,
        source_timestamp_ns: None,
        duration_ns: None,
        terminal: true,
    };
    assert_eq!(emission_observed_timestamp_ns(&stamped, 77), 5);
}
