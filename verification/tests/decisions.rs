use pocketstation::abi::executable_extension::{copy_text, AbiExtensionError};
use pocketstation::abi::session::abi::PksSessionUtf8;
use pocketstation::capture::authorization::{CaptureError, PermissionObservation, PermissionEpoch};
use pocketstation::capture::authorization::CapturePermissionLifecycle;
use pocketstation::capture::events::{
    CaptureRuntimeFailureClass, SourceGeneration, SourceRecoveryRequirement, SourceRuntimeEvent,
    CaptureRuntimeFailure,
};
use pocketstation::capture::identity::{CaptureSource, SourceKind, SourceState, StableSourceId};
use pocketstation::capture::lifecycle_registry::{
    SourceGenerationTransition, SourceLifecycleRegistry,
};
use pocketstation::capture::platform::linux::pipewire::{
    discover_sources_linux, negotiated_format_from_raw, pipewire_discovered_node,
    resolve_linux_capture_target, LinuxCaptureTarget, NegotiatedPipeWireFormat,
    PipeWireCaptureState, PipeWireDiscoveredNode, PipeWireNodeProperties,
};
use pocketstation::capture::platform::macos::input::{
    plan_input_packets, select_input_device, InputDeviceChoice,
};
use pocketstation::capture::platform::macos::input_format::{
    maximum_resampled_frames, select_input_config, CaptureNativeFormat,
    CaptureSampleRepresentation, InputSampleFormat, SelectedInputConfig, SelectedInputFormat,
    SupportedInputRange,
};
use pocketstation::capture::platform::macos::tap::{
    cstr_to_string, host_to_process_mapping, tap_read_plan,
};
use pocketstation::capture::platform::windows::capture_failure::{
    wasapi_qpc_100ns_to_ns, CaptureLoopFailure, WasapiTimestampMapping,
};
use pocketstation::capture::platform::windows::open_lifecycle::{
    completion_wait_received, completion_wait_step, CancellableWaitOutcome, CompletionWaitStep,
    TimedReceive,
};
use pocketstation::capture::platform::windows::process_identity::ProcessInstanceFingerprint;
use pocketstation::capture::platform::windows::process_instance::{
    activation_failure, hresult_from_win32, instance_query_needs_retry,
    process_instance_from_query, verify_process_instance, watch_observation,
    CreationTimeQuery, ProcessInstanceWatchObservation, ERROR_INVALID_PARAMETER,
};
use pocketstation::capture::platform::windows::runtime_lifecycle::{
    WindowsRuntimeFailureDisposition, AUDCLNT_E_DEVICE_INVALIDATED_STATUS_CODE,
};
use pocketstation::capture::platform::windows::selection::{
    windows_capture_plan, WindowsCapturePlan,
};
use pocketstation::capture::query::{resolve_query, SourceQuery};
use pocketstation::capture::selection::{CaptureMode, InputDeviceSelector};
use pocketstation::capture::timeline::{CaptureSampleTimeline, TimelineMapping};
use pocketstation::frame::Platform;

fn source(platform: Platform, kind: SourceKind, key: &str, state: SourceState) -> CaptureSource {
    CaptureSource {
        stable_id: StableSourceId::new(platform, kind, key.to_owned()),
        name: key.to_owned(),
        process_id: None,
        app_id: None,
        device_uid: None,
        state,
        sample_rate_hz: 48_000,
        channels: 2,
    }
}

fn linux_app(key: &str) -> StableSourceId {
    StableSourceId::new(Platform::Linux, SourceKind::Application, key.to_owned())
}

#[test]
fn registry_reports_disappearance_and_reappearance_with_next_generation() {
    let a = || source(Platform::Linux, SourceKind::Application, "pw-app:a", SourceState::Available);
    let b = || source(Platform::Linux, SourceKind::Application, "pw-app:b", SourceState::Playing);
    let mut registry = SourceLifecycleRegistry::default();

    assert!(registry.observe_complete_snapshot(&[a(), b()]).is_empty());
    assert_eq!(registry.generation(&linux_app("pw-app:a")), Some(SourceGeneration(1)));
    assert_eq!(registry.generation(&linux_app("pw-app:c")), None);

    assert_eq!(
        registry.observe_complete_snapshot(&[a()]),
        vec![SourceGenerationTransition::Disappeared {
            stable_id: linux_app("pw-app:b"),
            generation: SourceGeneration(1),
        }]
    );
    assert_eq!(
        registry.observe_complete_snapshot(&[a(), b()]),
        vec![SourceGenerationTransition::Reappeared {
            stable_id: linux_app("pw-app:b"),
            previous_generation: SourceGeneration(1),
            generation: SourceGeneration(2),
        }]
    );
    assert_eq!(registry.generation(&linux_app("pw-app:b")), Some(SourceGeneration(2)));
}

#[test]
fn registry_repeated_snapshot_reports_nothing() {
    let a = || source(Platform::Linux, SourceKind::Application, "pw-app:a", SourceState::Available);
    let mut registry = SourceLifecycleRegistry::default();
    registry.observe_complete_snapshot(&[a()]);
    registry.observe_complete_snapshot(&[]);
    registry.observe_complete_snapshot(&[a()]);
    assert!(registry.observe_complete_snapshot(&[a()]).is_empty());
    assert!(registry.observe_complete_snapshot(&[a()]).is_empty());
    assert_eq!(registry.generation(&linux_app("pw-app:a")), Some(SourceGeneration(2)));
}

#[test]
fn registry_treats_unavailable_listing_as_absent() {
    let mut registry = SourceLifecycleRegistry::default();
    registry.observe_complete_snapshot(&[source(
        Platform::Linux,
        SourceKind::Application,
        "pw-app:a",
        SourceState::Available,
    )]);
    assert_eq!(
        registry.observe_complete_snapshot(&[source(
            Platform::Linux,
            SourceKind::Application,
            "pw-app:a",
            SourceState::Unavailable,
        )]),
        vec![SourceGenerationTransition::Disappeared {
            stable_id: linux_app("pw-app:a"),
            generation: SourceGeneration(1),
        }]
    );
}

fn format(sample_rate_hz: u32, channel_count: u8) -> NegotiatedPipeWireFormat {
    NegotiatedPipeWireFormat {
        sample_rate_hz,
        channel_count,
    }
}

#[test]
fn pipewire_format_is_fixed_once_negotiated_and_failure_is_sticky() {
    let mut state = PipeWireCaptureState::new(2);
    assert_eq!(state.set_negotiated_format(format(48_000, 2)), Ok(()));
    assert_eq!(state.set_negotiated_format(format(48_000, 2)), Ok(()));
    assert_eq!(
        state.set_negotiated_format(format(44_100, 2)),
        Err("PipeWire changed capture format after negotiation")
    );
    assert_eq!(state.negotiated_format(), Some(format(48_000, 2)));
    assert!(state.format_failed());
    assert!(state.advance_sample_timeline(Some(0), 480, 1).is_none());
    assert!(state.advance_sample_timeline(None, 480, 1).is_none());
}

#[test]
fn pipewire_unexpected_rate_fails_the_stream() {
    let mut state = PipeWireCaptureState::new(2);
    assert_eq!(
        state.set_negotiated_format(format(44_100, 2)),
        Err("PipeWire negotiated an unexpected sample rate")
    );
    assert!(state.format_failed());
    assert_eq!(state.negotiated_format(), None);
}

#[test]
fn pipewire_without_negotiation_yields_no_timestamp() {
    let mut state = PipeWireCaptureState::new(1);
    assert!(state.advance_sample_timeline(Some(0), 480, 5).is_none());
}

#[test]
fn pipewire_cumulative_timeline_counts_samples_only() {
    let mut state = PipeWireCaptureState::new(2);
    state.set_negotiated_format(format(48_000, 2)).unwrap();
    assert_eq!(
        state.advance_sample_timeline(None, 480, 5_000),
        Some((5_000, 48_000, 2))
    );
    assert_eq!(
        state.advance_sample_timeline(None, 480, 999),
        Some((10_005_000, 48_000, 2))
    );
    assert_eq!(
        state.advance_sample_timeline(Some(77), 480, 1),
        Some((20_005_000, 48_000, 2))
    );
}

#[test]
fn pipewire_source_position_stream_losing_positions_yields_nothing() {
    let mut state = PipeWireCaptureState::new(2);
    state.set_negotiated_format(format(48_000, 2)).unwrap();
    assert_eq!(
        state.advance_sample_timeline(Some(0), 480, 7),
        Some((7, 48_000, 2))
    );
    assert!(state.advance_sample_timeline(None, 480, 9).is_none());
    assert_eq!(
        state.advance_sample_timeline(Some(960), 480, 11),
        Some((20_000_007, 48_000, 2))
    );
}

#[test]
fn pipewire_open_is_signalled_once_after_connection_and_format() {
    let mut state = PipeWireCaptureState::new(2);
    state.mark_connected();
    assert!(!state.open_signal_due());
    state.set_negotiated_format(format(48_000, 2)).unwrap();
    assert!(state.open_signal_due());
    state.mark_open_signalled();
    assert!(!state.open_signal_due());
}

#[test]
fn pipewire_raw_format_is_checked() {
    assert_eq!(
        negotiated_format_from_raw(false, 48_000, 2),
        Err("PipeWire did not negotiate interleaved f32 audio")
    );
    assert_eq!(
        negotiated_format_from_raw(true, 0, 2),
        Err("PipeWire negotiated a zero sample rate")
    );
    assert_eq!(
        negotiated_format_from_raw(true, 48_000, 0),
        Err("PipeWire negotiated an invalid channel count")
    );
    assert_eq!(
        negotiated_format_from_raw(true, 48_000, 256),
        Err("PipeWire negotiated an invalid channel count")
    );
    assert_eq!(negotiated_format_from_raw(true, 48_000, 2), Ok(format(48_000, 2)));
}

fn no_properties() -> PipeWireNodeProperties {
    PipeWireNodeProperties {
        media_class: None,
        application_name: None,
        node_description: None,
        device_description: None,
        node_name: None,
        application_process_id: None,
        application_id: None,
        audio_rate: None,
        node_rate: None,
        audio_channels: None,
        object_serial: None,
    }
}

#[test]
fn pipewire_application_node_is_discovered_with_persistent_identity() {
    let props = PipeWireNodeProperties {
        media_class: Some("Stream/Output/Audio".to_owned()),
        application_name: Some("Meeting".to_owned()),
        node_name: Some("meeting-output".to_owned()),
        application_process_id: Some("41".to_owned()),
        application_id: Some("org.example.Meeting".to_owned()),
        node_rate: Some("1/48000".to_owned()),
        audio_channels: Some("2".to_owned()),
        object_serial: Some("812".to_owned()),
        ..no_properties()
    };
    let node = pipewire_discovered_node(&props, 91).expect("application streams are listed");
    assert_eq!(node.source.stable_id, linux_app("pw-app:org.example.Meeting"));
    assert_eq!(node.source.name, "Meeting");
    assert_eq!(node.source.process_id, Some(41));
    assert_eq!(node.source.app_id.as_deref(), Some("org.example.Meeting"));
    assert_eq!(node.source.device_uid, None);
    assert_eq!(node.source.state, SourceState::Available);
    assert_eq!(node.source.sample_rate_hz, 48_000);
    assert_eq!(node.source.channels, 2);
    assert_eq!(node.target_object.as_deref(), Some("812"));
}

#[test]
fn pipewire_device_nodes_are_keyed_by_node_name_or_global_id() {
    let sink = PipeWireNodeProperties {
        media_class: Some("Audio/Sink".to_owned()),
        node_description: Some("Speakers".to_owned()),
        node_name: Some("alsa_output.pci".to_owned()),
        application_id: Some("ignored".to_owned()),
        ..no_properties()
    };
    let node = pipewire_discovered_node(&sink, 5).expect("sinks are listed");
    assert_eq!(node.source.stable_id.kind, SourceKind::OutputDevice);
    assert_eq!(node.source.stable_id.stable_key, "pw-node:alsa_output.pci");
    assert_eq!(node.source.name, "Speakers");
    assert_eq!(node.source.device_uid.as_deref(), Some("alsa_output.pci"));
    assert_eq!(node.source.app_id, None);
    assert_eq!(node.source.sample_rate_hz, 0);
    assert_eq!(node.source.channels, 0);
    assert_eq!(node.target_object, None);

    let anonymous = PipeWireNodeProperties {
        media_class: Some("Audio/Source".to_owned()),
        application_process_id: Some("not-a-pid".to_owned()),
        ..no_properties()
    };
    let node = pipewire_discovered_node(&anonymous, 7).expect("sources are listed");
    assert_eq!(node.source.stable_id.kind, SourceKind::InputDevice);
    assert_eq!(node.source.stable_id.stable_key, "pw-transient:7");
    assert_eq!(node.source.name, "unknown");
    assert_eq!(node.source.process_id, None);
}

#[test]
fn pipewire_other_media_classes_are_not_listed() {
    let video = PipeWireNodeProperties {
        media_class: Some("Video/Source".to_owned()),
        ..no_properties()
    };
    assert!(pipewire_discovered_node(&video, 1).is_none());
    assert!(pipewire_discovered_node(&no_properties(), 1).is_none());
}

fn node(key: &str, name: &str, app_id: Option<&str>, pid: u32, serial: Option<&str>) -> PipeWireDiscoveredNode {
    PipeWireDiscoveredNode {
        source: CaptureSource {
            stable_id: linux_app(key),
            name: name.to_owned(),
            process_id: Some(pid),
            app_id: app_id.map(str::to_owned),
            device_uid: None,
            state: SourceState::Available,
            sample_rate_hz: 48_000,
            channels: 2,
        },
        target_object: serial.map(str::to_owned),
    }
}

fn input_node(uid: &str, serial: &str) -> PipeWireDiscoveredNode {
    PipeWireDiscoveredNode {
        source: CaptureSource {
            stable_id: StableSourceId::new(
                Platform::Linux,
                SourceKind::InputDevice,
                format!("pw-node:{uid}"),
            ),
            name: "Microphone".to_owned(),
            process_id: None,
            app_id: None,
            device_uid: Some(uid.to_owned()),
            state: SourceState::Available,
            sample_rate_hz: 48_000,
            channels: 1,
        },
        target_object: Some(serial.to_owned()),
    }
}

#[test]
fn linux_listing_starts_with_the_system_mix() {
    let sources = discover_sources_linux(vec![node("pw-app:a", "A", None, 3, Some("9"))]);
    assert_eq!(sources.len(), 2);
    assert_eq!(sources[0].stable_id.kind, SourceKind::SystemMix);
    assert_eq!(sources[0].stable_id.stable_key, "system:mix");
    assert_eq!(sources[0].name, "System Mix");
    assert_eq!(sources[0].sample_rate_hz, 0);
    assert_eq!(sources[0].channels, 0);
    assert_eq!(sources[1].stable_id, linux_app("pw-app:a"));
}

#[test]
fn linux_system_mix_prefers_pipewire_and_falls_back_to_alsa() {
    assert!(matches!(
        resolve_linux_capture_target(&CaptureMode::SystemMix, true, &[]),
        Ok(LinuxCaptureTarget::PipeWireSystemMix)
    ));
    assert!(matches!(
        resolve_linux_capture_target(&CaptureMode::SystemMix, false, &[]),
        Ok(LinuxCaptureTarget::AlsaSystemMix)
    ));
}

#[test]
fn linux_process_mode_opens_the_first_node_of_the_process() {
    let nodes = vec![node("pw-app:a", "A", None, 41, Some("812"))];
    match resolve_linux_capture_target(&CaptureMode::Process(41), true, &nodes) {
        Ok(LinuxCaptureTarget::PipeWireNode { target_object, stable_id }) => {
            assert_eq!(target_object, "812");
            assert_eq!(stable_id, linux_app("pw-app:a"));
        }
        other => panic!("unexpected target: {other:?}"),
    }
    match resolve_linux_capture_target(&CaptureMode::Process(7), true, &nodes) {
        Err(CaptureError::BackendInit(message)) => assert_eq!(
            message,
            "BLOCKED_WITH_EVIDENCE: PipeWire per-app source capture requires PipeWire node enumeration and link; no node found for '7'"
        ),
        other => panic!("unexpected outcome: {other:?}"),
    }
}

#[test]
fn linux_application_mode_matches_name_or_id_ignoring_case_and_refuses_ambiguity() {
    let one = vec![node("pw-app:m", "Meeting", Some("org.example.Meeting"), 1, Some("5"))];
    assert!(matches!(
        resolve_linux_capture_target(
            &CaptureMode::Application("ORG.EXAMPLE.MEETING".to_owned()),
            true,
            &one
        ),
        Ok(LinuxCaptureTarget::PipeWireNode { .. })
    ));
    let two = vec![
        node("pw-app:m", "Meeting", None, 1, Some("5")),
        node("pw-app:n", "meeting", None, 2, Some("6")),
    ];
    match resolve_linux_capture_target(&CaptureMode::Application("Meeting".to_owned()), true, &two) {
        Err(CaptureError::BackendInit(message)) => assert_eq!(
            message,
            "application 'Meeting' matches multiple PipeWire audio nodes \u{2014} select one from source discovery"
        ),
        other => panic!("unexpected outcome: {other:?}"),
    }
    match resolve_linux_capture_target(&CaptureMode::Application("other".to_owned()), true, &two) {
        Err(CaptureError::BackendInit(message)) => assert!(message.ends_with("no node found for 'other'")),
        other => panic!("unexpected outcome: {other:?}"),
    }
}

#[test]
fn linux_input_modes_require_a_matching_input_node() {
    assert!(matches!(
        resolve_linux_capture_target(&CaptureMode::InputDevice(InputDeviceSelector::Default), true, &[]),
        Err(CaptureError::BackendInit(message))
            if message == "requested default PipeWire input device is unavailable"
    ));
    assert_eq!(
        resolve_linux_capture_target(
            &CaptureMode::InputDevice(InputDeviceSelector::StableId("usb-mic".to_owned())),
            true,
            &[input_node("other-mic", "3")]
        )
        .err(),
        Some(CaptureError::SourceUnavailable {
            stable_key: "usb-mic".to_owned()
        })
    );
    match resolve_linux_capture_target(
        &CaptureMode::InputDevice(InputDeviceSelector::StableId("usb-mic".to_owned())),
        true,
        &[input_node("other-mic", "3"), input_node("usb-mic", "4")],
    ) {
        Ok(LinuxCaptureTarget::PipeWireNode { target_object, .. }) => assert_eq!(target_object, "4"),
        other => panic!("unexpected outcome: {other:?}"),
    }
}

#[test]
fn linux_node_without_serial_cannot_be_opened() {
    let nodes = vec![node("pw-app:a", "Meeting", None, 41, None)];
    assert!(matches!(
        resolve_linux_capture_target(&CaptureMode::Process(41), true, &nodes),
        Err(CaptureError::BackendInit(message))
            if message == "PipeWire source 'Meeting' has no current object serial"
    ));
}

#[test]
fn linux_exact_selector_of_another_platform_is_unavailable() {
    let stable_id = StableSourceId::new(Platform::Macos, SourceKind::Application, "x".to_owned());
    assert_eq!(
        resolve_linux_capture_target(&CaptureMode::ExactApplicationStable { stable_id }, true, &[]).err(),
        Some(CaptureError::SourceUnavailable {
            stable_key: "x".to_owned()
        })
    );
}

fn windows_app(key: &str) -> StableSourceId {
    StableSourceId::new(Platform::Windows, SourceKind::Application, key.to_owned())
}

#[test]
fn windows_process_exit_is_an_unavailable_source() {
    let failure = CaptureLoopFailure::ProcessExited;
    assert_eq!(
        failure.disposition(),
        WindowsRuntimeFailureDisposition::SourceUnavailable
    );
    assert_eq!(
        failure.runtime_event(&windows_app("k")),
        SourceRuntimeEvent::SourceUnavailable {
            stable_id: windows_app("k"),
            generation: SourceGeneration(1),
            recovery_requirement: SourceRecoveryRequirement::ExplicitRediscoveryAndNewSession,
            failure: CaptureRuntimeFailure {
                operation: "observe selected process lifetime",
                error_class: CaptureRuntimeFailureClass::SourceInstanceExited,
            },
        }
    );
    assert_eq!(
        failure.into_capture_error("k".to_owned()),
        CaptureError::SourceUnavailable {
            stable_key: "k".to_owned()
        }
    );
}

#[test]
fn windows_device_invalidation_is_an_unavailable_source_and_other_status_a_backend_failure() {
    let invalidated = CaptureLoopFailure::WasapiStatus {
        operation: "read WASAPI packet",
        status_code: AUDCLNT_E_DEVICE_INVALIDATED_STATUS_CODE,
    };
    assert_eq!(
        invalidated.into_capture_error("k".to_owned()),
        CaptureError::SourceUnavailable {
            stable_key: "k".to_owned()
        }
    );
    let generic = CaptureLoopFailure::Windows {
        operation: "start",
        status_code: 0x8000_4005_u32 as i32,
    };
    assert_eq!(
        generic.runtime_event(&windows_app("k")),
        SourceRuntimeEvent::BackendFailure {
            stable_id: windows_app("k"),
            generation: SourceGeneration(1),
            failure: CaptureRuntimeFailure {
                operation: "start",
                error_class: CaptureRuntimeFailureClass::PlatformStatus {
                    status_code: 0x8000_4005_u32 as i32
                },
            },
        }
    );
    assert_eq!(
        generic.into_capture_error("k".to_owned()),
        CaptureError::BackendStatus {
            operation: "start",
            status_code: 0x8000_4005_u32 as i32
        }
    );
}

#[test]
fn windows_untyped_failures_keep_their_text() {
    let other = CaptureLoopFailure::WasapiOther {
        operation: "initialize",
        debug_text: "UnsupportedFormat".to_owned(),
    };
    assert_eq!(
        other.error_class(),
        CaptureRuntimeFailureClass::BackendClass {
            class: "UnsupportedFormat".to_owned()
        }
    );
    assert_eq!(
        other.into_capture_error("k".to_owned()),
        CaptureError::BackendInit("initialize: UnsupportedFormat".to_owned())
    );
    assert_eq!(
        CaptureLoopFailure::BackendClass {
            operation: "x",
            class: "y"
        }
        .into_capture_error("k".to_owned()),
        CaptureError::BackendInit("x: y".to_owned())
    );
    assert_eq!(
        CaptureLoopFailure::ProcessWatchFailed { status_code: 5 }.into_capture_error("k".to_owned()),
        CaptureError::BackendStatus {
            operation: "observe selected process lifetime",
            status_code: 5
        }
    );
}

#[test]
fn wasapi_counter_times_map_onto_the_process_clock() {
    let mapping = WasapiTimestampMapping::from_readings(1_000, 10_000_000, 10_000_000, 3_000)
        .expect("non-negative readings map");
    assert_eq!(mapping.qpc_origin_ns, 1_000_000_000);
    assert_eq!(mapping.monotonic_origin_ns, 2_000);
    assert_eq!(mapping.to_monotonic_ns(1_000_000_500), Some(2_500));
    assert_eq!(mapping.to_monotonic_ns(999_998_500), Some(500));
    assert_eq!(mapping.to_monotonic_ns(999_998_000), None);
    assert!(WasapiTimestampMapping::from_readings(1, -1, 10, 2).is_none());
    let unit = WasapiTimestampMapping::from_readings(1, 5, 0, 1).expect("zero frequency counts as one");
    assert_eq!(unit.qpc_origin_ns, 5_000_000_000);
    assert_eq!(wasapi_qpc_100ns_to_ns(7), Some(700));
    assert_eq!(wasapi_qpc_100ns_to_ns(u64::MAX), None);
}

#[test]
fn windows_plan_follows_the_resolved_mode() {
    assert!(matches!(
        windows_capture_plan(CaptureMode::SystemMix),
        Ok(WindowsCapturePlan::SystemLoopback)
    ));
    match windows_capture_plan(CaptureMode::Process(42)) {
        Ok(WindowsCapturePlan::ProcessLoopback {
            process_id,
            expected_instance,
            stable_key,
            source_id,
        }) => {
            assert_eq!(process_id, 42);
            assert_eq!(expected_instance, None);
            assert_eq!(stable_key, "wasapi:pid:42");
            assert_eq!(source_id, windows_app("wasapi:pid:42").source_id());
        }
        other => panic!("unexpected plan: {other:?}"),
    }
    let fingerprint = ProcessInstanceFingerprint::new(42, 133_980_144_000_000_000);
    let stable_id = windows_app(&fingerprint.stable_key());
    match windows_capture_plan(CaptureMode::ExactApplication {
        process_id: 42,
        stable_id: stable_id.clone(),
    }) {
        Ok(WindowsCapturePlan::ProcessLoopback {
            expected_instance,
            stable_key,
            source_id,
            ..
        }) => {
            assert_eq!(expected_instance, Some(fingerprint));
            assert_eq!(stable_key, stable_id.stable_key);
            assert_eq!(source_id, stable_id.source_id());
        }
        other => panic!("unexpected plan: {other:?}"),
    }
    assert!(matches!(
        windows_capture_plan(CaptureMode::ExactApplication {
            process_id: 42,
            stable_id: windows_app("com.acme"),
        }),
        Err(CaptureError::BackendInit(message))
            if message == "exact Windows application identity 'com.acme' has no process-instance fingerprint"
    ));
    assert!(matches!(
        windows_capture_plan(CaptureMode::InputDevice(InputDeviceSelector::Default)),
        Ok(WindowsCapturePlan::Input(InputDeviceSelector::Default))
    ));
    assert_eq!(
        windows_capture_plan(CaptureMode::Application("x".to_owned())).err(),
        Some(CaptureError::ModeUnsupported(CaptureMode::Application("x".to_owned())))
    );
}

#[test]
fn windows_process_instance_queries_distinguish_exit_from_access_failure() {
    let gone = hresult_from_win32(ERROR_INVALID_PARAMETER);
    assert_eq!(gone, 0x8007_0057_u32 as i32);
    assert_eq!(hresult_from_win32(0), 0);
    assert_eq!(hresult_from_win32(0x8007_000E), 0x8007_000E_u32 as i32);
    let denied = hresult_from_win32(5);
    assert_eq!(denied, 0x8007_0005_u32 as i32);

    assert_eq!(
        process_instance_from_query(42, "k", CreationTimeQuery::Created(100), None),
        Ok(ProcessInstanceFingerprint::new(42, 100))
    );
    let failed = |status_code| CreationTimeQuery::Failed {
        status_code,
        message: "Access is denied.".to_owned(),
    };
    assert!(!instance_query_needs_retry(&failed(gone)));
    assert!(instance_query_needs_retry(&failed(denied)));
    assert_eq!(
        process_instance_from_query(42, "k", failed(gone), None),
        Err(CaptureError::SourceUnavailable {
            stable_key: "k".to_owned()
        })
    );
    assert_eq!(
        process_instance_from_query(42, "k", failed(denied), Some(failed(gone))),
        Err(CaptureError::SourceUnavailable {
            stable_key: "k".to_owned()
        })
    );
    assert_eq!(
        process_instance_from_query(42, "k", failed(denied), Some(failed(denied))),
        Err(CaptureError::BackendInit(
            "process 42 is inaccessible for exact-application capture: Access is denied.".to_owned()
        ))
    );
}

#[test]
fn windows_reused_process_id_is_rejected() {
    let expected = ProcessInstanceFingerprint::new(42, 100);
    assert_eq!(
        verify_process_instance(Some(expected), Ok(ProcessInstanceFingerprint::new(42, 200)), "k"),
        Err(CaptureError::SourceUnavailable {
            stable_key: "k".to_owned()
        })
    );
    assert_eq!(verify_process_instance(Some(expected), Ok(expected), "k"), Ok(expected));
    assert_eq!(
        verify_process_instance(None, Ok(ProcessInstanceFingerprint::new(42, 200)), "k"),
        Ok(ProcessInstanceFingerprint::new(42, 200))
    );
    assert_eq!(
        verify_process_instance(Some(expected), Err(CaptureError::NotSupported), "k"),
        Err(CaptureError::NotSupported)
    );
}

#[test]
fn windows_activation_failure_prefers_a_vanished_process() {
    let gone = || CaptureError::SourceUnavailable {
        stable_key: "k".to_owned(),
    };
    assert_eq!(
        activation_failure(false, Some(Err(gone())), "activation failed".to_owned()),
        gone()
    );
    assert_eq!(
        activation_failure(true, Some(Err(gone())), "activation failed".to_owned()),
        CaptureError::BackendInit("activation failed".to_owned())
    );
    assert_eq!(
        activation_failure(
            false,
            Some(Ok(ProcessInstanceFingerprint::new(1, 2))),
            "activation failed".to_owned()
        ),
        CaptureError::BackendInit("activation failed".to_owned())
    );
}

#[test]
fn windows_process_watch_reads_wait_results() {
    assert_eq!(watch_observation(0, 0), ProcessInstanceWatchObservation::Exited);
    assert_eq!(watch_observation(258, 0), ProcessInstanceWatchObservation::Running);
    assert_eq!(
        watch_observation(0xFFFF_FFFF, 5),
        ProcessInstanceWatchObservation::Failed {
            status_code: 0x8007_0005_u32 as i32
        }
    );
    assert_eq!(
        watch_observation(0x80, 0),
        ProcessInstanceWatchObservation::Failed { status_code: 128 }
    );
}

#[test]
fn windows_completion_wait_decides_each_step() {
    assert_eq!(
        completion_wait_step(true, false, 10, 5),
        CompletionWaitStep::Finish(CancellableWaitOutcome::Cancelled)
    );
    assert_eq!(
        completion_wait_step(false, true, 10, 5),
        CompletionWaitStep::Finish(CancellableWaitOutcome::TimedOut)
    );
    assert_eq!(
        completion_wait_step(false, false, 3, 10),
        CompletionWaitStep::Wait { wait_ns: 3 }
    );
    assert_eq!(
        completion_wait_step(false, false, 30, 10),
        CompletionWaitStep::Wait { wait_ns: 10 }
    );
    assert_eq!(
        completion_wait_received(TimedReceive::Received(())),
        Some(CancellableWaitOutcome::Completed)
    );
    assert_eq!(
        completion_wait_received(TimedReceive::Disconnected),
        Some(CancellableWaitOutcome::ProducerExited)
    );
    assert_eq!(completion_wait_received(TimedReceive::TimedOut), None);
}

fn range(channels: u16, min: u32, max: u32, sample_format: InputSampleFormat) -> SupportedInputRange {
    SupportedInputRange {
        channels,
        min_sample_rate_hz: min,
        max_sample_rate_hz: max,
        sample_format,
    }
}

#[test]
fn macos_input_selection_clamps_into_the_range_and_keeps_the_first_of_equals() {
    let selected = select_input_config(&[range(1, 8_000, 96_000, InputSampleFormat::I16)])
        .expect("PCM range");
    assert_eq!(selected.native.sample_rate_hz, 48_000);
    let selected = select_input_config(&[
        range(1, 48_000, 48_000, InputSampleFormat::F32),
        range(1, 48_000, 48_000, InputSampleFormat::F32),
    ])
    .expect("PCM range");
    assert_eq!(selected.range_index, 0);
    let selected = select_input_config(&[
        range(2, 96_000, 192_000, InputSampleFormat::F32),
        range(2, 8_000, 44_100, InputSampleFormat::Unknown),
        range(4, 8_000, 44_100, InputSampleFormat::I32),
    ])
    .expect("PCM range");
    assert_eq!(selected.range_index, 2);
    assert_eq!(selected.config.sample_rate_hz, 44_100);
    assert_eq!(selected.sample_size_bytes, 4);
    assert!(select_input_config(&[]).is_none());
}

#[test]
fn macos_input_packets_are_sized_from_the_selected_format() {
    let selected = select_input_config(&[range(2, 44_100, 44_100, InputSampleFormat::I16)])
        .expect("PCM range");
    let plan = plan_input_packets(&selected, None).expect("sizes fit");
    assert_eq!(plan.native_channels, 2);
    assert_eq!(plan.maximum_callback_frames, 8_820);
    assert_eq!(plan.maximum_callback_samples, 17_640);
    assert_eq!(plan.maximum_callback_bytes, 35_280);
    assert_eq!(plan.maximum_native_frames, 8_820);
    assert_eq!(plan.maximum_canonical_frames, 9_604);
    assert!(plan.fits(true, 17_640, 35_280));
    assert!(!plan.fits(false, 1, 1));
    assert!(!plan.fits(true, 17_641, 35_280));

    let clamped = plan_input_packets(&selected, Some((256, 4_096))).expect("sizes fit");
    assert_eq!(clamped.maximum_callback_frames, 4_096);
    assert_eq!(clamped.maximum_canonical_frames, 4_462);
    let raised = plan_input_packets(&selected, Some((10_000, 20_000))).expect("sizes fit");
    assert_eq!(raised.maximum_callback_frames, 10_000);

    let no_channels = SelectedInputFormat {
        range_index: 0,
        config: SelectedInputConfig {
            channels: 0,
            sample_rate_hz: 48_000,
            sample_format: InputSampleFormat::F32,
        },
        native: CaptureNativeFormat {
            sample_rate_hz: 48_000,
            channel_count: 0,
            sample_representation: CaptureSampleRepresentation::Float32,
        },
        sample_size_bytes: 4,
    };
    assert_eq!(
        plan_input_packets(&no_channels, None),
        Err(CaptureError::BackendInit(
            "input device channel count is invalid".to_owned()
        ))
    );
}

#[test]
fn macos_resampling_bound_covers_rounding() {
    assert_eq!(maximum_resampled_frames(480, 48_000), Some(483));
    assert_eq!(maximum_resampled_frames(480, 0), None);
    assert_eq!(maximum_resampled_frames(usize::MAX, 48_000), None);
}

#[test]
fn macos_input_device_is_chosen_by_selector() {
    assert_eq!(
        select_input_device(&InputDeviceSelector::Default, true, &[]),
        Ok(InputDeviceChoice::HostDefault)
    );
    assert_eq!(
        select_input_device(&InputDeviceSelector::Default, false, &[]),
        Err(CaptureError::BackendInit(
            "no default physical input device is available".to_owned()
        ))
    );
    let ids = [Some("a".to_owned()), None, Some("b".to_owned()), Some("b".to_owned())];
    assert_eq!(
        select_input_device(&InputDeviceSelector::StableId("b".to_owned()), true, &ids),
        Ok(InputDeviceChoice::Enumerated(2))
    );
    assert_eq!(
        select_input_device(&InputDeviceSelector::StableId("c".to_owned()), true, &ids),
        Err(CaptureError::BackendInit(
            "physical input device is unavailable: c".to_owned()
        ))
    );
}

#[test]
fn macos_tap_clock_mapping_and_read_sizes() {
    assert_eq!(
        host_to_process_mapping(1_000, 50, 3_000),
        Ok(TimelineMapping::new(2_000, 50))
    );
    assert_eq!(
        host_to_process_mapping(0, 50, 3_000),
        Err(CaptureError::BackendInit(
            "CoreAudio host-time mapping is unavailable".to_owned()
        ))
    );
    assert_eq!(
        host_to_process_mapping(3_000, 50, 1_000),
        Err(CaptureError::BackendInit(
            "CoreAudio host-time mapping is unavailable".to_owned()
        ))
    );
    let plan = tap_read_plan(48_000, 2).expect("non-zero rate");
    assert_eq!(plan.callback_frame_count, 960);
    assert_eq!(plan.buffer_capacity_samples, 1_920);
    assert_eq!(tap_read_plan(48_000, 258).expect("non-zero rate").channel_count, 2);
    assert_eq!(
        tap_read_plan(0, 2),
        Err(CaptureError::BackendInit("tap reported a zero sample rate".to_owned()))
    );
}

#[test]
fn application_query_lowercases_both_sides() {
    let mut named = source(Platform::Macos, SourceKind::Application, "x", SourceState::Playing);
    named.name = "Meeting App".to_owned();
    let other = source(Platform::Macos, SourceKind::Application, "y", SourceState::Playing);
    let found = resolve_query(&SourceQuery::App("MEETING".to_owned()), &[named, other]);
    assert_eq!(found.len(), 1);
    assert_eq!(found[0].name, "Meeting App");
}

#[test]
fn invalid_utf8_names_are_replaced_not_dropped() {
    assert_eq!(
        cstr_to_string(&[0x4d, 0xff, 0x41, 0x00, 0x42]),
        Some("M\u{fffd}A".to_owned())
    );
    assert_eq!(cstr_to_string(&[0x41, 0x42]), Some("AB".to_owned()));
    assert_eq!(cstr_to_string(&[0x00, 0x41]), None);
}

#[test]
fn foreign_text_must_be_utf8() {
    let invalid = PksSessionUtf8 {
        data: 8,
        len_bytes: 2,
        bytes: vec![0xc3, 0x28],
    };
    assert_eq!(copy_text(&invalid, false), Err(AbiExtensionError::InvalidArgument));
    let valid = PksSessionUtf8 {
        data: 8,
        len_bytes: 2,
        bytes: vec![0xc3, 0xa9],
    };
    assert_eq!(copy_text(&valid, false), Ok("\u{e9}".to_owned()));
    let null = PksSessionUtf8 {
        data: 0,
        len_bytes: 2,
        bytes: vec![],
    };
    assert_eq!(copy_text(&null, false), Err(AbiExtensionError::Null));
}

#[test]
fn unsupported_mode_message_names_the_mode() {
    let message = CaptureError::ModeUnsupported(CaptureMode::Process(1234)).message();
    assert_eq!(message, "capture mode not supported on this backend: Process(1234)");
}

#[test]
fn permission_epoch_only_advances() {
    let mut lifecycle = CapturePermissionLifecycle::new(PermissionObservation::NotDetermined);
    let mut previous = lifecycle.permission_epoch();
    for observation in [
        PermissionObservation::NotDetermined,
        PermissionObservation::Allowed,
        PermissionObservation::Allowed,
        PermissionObservation::Revoked,
        PermissionObservation::Allowed,
    ] {
        let changed = lifecycle.observe(observation).is_some();
        let now = lifecycle.permission_epoch();
        assert!(now.0 >= previous.0);
        assert_eq!(changed, now.0 == previous.0 + 1);
        previous = now;
    }
    assert_eq!(previous, PermissionEpoch(4));
}

#[test]
fn timeline_mapping_keeps_distances() {
    let mapping = TimelineMapping::new(8_500_000_000, 500_000_000);
    let a = mapping.normalize_timestamp_ns(9_000_000_000).unwrap();
    let b = mapping.normalize_timestamp_ns(9_000_123_456).unwrap();
    assert_eq!(b - a, 123_456);
    assert_eq!(mapping.normalize_timestamp_ns(8_000_000_000), None);
}

#[test]
fn anchored_timeline_starts_at_its_anchor() {
    let mut timeline = CaptureSampleTimeline::anchored(48_000, 0);
    assert_eq!(timeline.advance(480, 99), 1);
    assert_eq!(timeline.advance(480, 99), 10_000_001);
}

#[test]
fn unsupported_mode_message_writes_the_mode_as_debug_does() {
    let stable = || StableSourceId {
        platform: Platform::Windows,
        kind: SourceKind::Application,
        stable_key: "app \"quoted\"\\path\n".to_owned(),
    };
    let modes = vec![
        CaptureMode::SystemMix,
        CaptureMode::Application("say \"hi\"\t".to_owned()),
        CaptureMode::Process(4_294_967_295),
        CaptureMode::ExactApplication { process_id: 42, stable_id: stable() },
        CaptureMode::ExactApplicationStable { stable_id: stable() },
        CaptureMode::InputDevice(InputDeviceSelector::Default),
        CaptureMode::InputDevice(InputDeviceSelector::StableId("mic\u{7}".to_owned())),
    ];
    for mode in modes {
        let expected = format!("capture mode not supported on this backend: {:?}", mode);
        assert_eq!(CaptureError::ModeUnsupported(mode).message(), expected);
    }
}
