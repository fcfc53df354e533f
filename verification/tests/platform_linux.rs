use pocketstation::capture::authorization::CaptureError;
use pocketstation::capture::identity::{CaptureSource, SourceKind, SourceState, StableSourceId};
use pocketstation::capture::platform::linux::pipewire::{
    capture_channel_count, parse_pipewire_channel_count, parse_pipewire_sample_rate,
    pipewire_application_identity, pipewire_first_sample_timestamp_ns, pipewire_report_age_ns,
    pipewire_source_name, pipewire_ticks_to_nanoseconds, resolve_linux_capture_target,
    select_unique_exact_application, source_unavailable, ApplicationIdentityScope,
    NegotiatedPipeWireFormat, PipeWireCaptureState, PipeWireDiscoveredNode,
    CAPTURE_CHANNEL_COUNT, MICROPHONE_CHANNEL_COUNT,
};
use pocketstation::capture::selection::{CaptureMode, InputDeviceSelector};
use pocketstation::frame::Platform;

fn discovered_application(
    stable_key: &str,
    process_id: u32,
    target_object: &str,
) -> PipeWireDiscoveredNode {
    PipeWireDiscoveredNode {
        source: CaptureSource {
            stable_id: StableSourceId::new(
                Platform::Linux,
                SourceKind::Application,
                stable_key.to_owned(),
            ),
            name: "Meeting".to_owned(),
            process_id: Some(process_id),
            app_id: Some("org.example.Meeting".to_owned()),
            device_uid: None,
            state: SourceState::Available,
            sample_rate_hz: 48_000,
            channels: 2,
        },
        target_object: Some(target_object.to_owned()),
    }
}

fn linux_application(stable_key: &str) -> StableSourceId {
    StableSourceId::new(Platform::Linux, SourceKind::Application, stable_key.to_owned())
}

#[test]
fn given_capture_mode_when_channels_selected_then_microphone_is_mono_and_output_is_stereo() {
    assert_eq!(
        capture_channel_count(&CaptureMode::InputDevice(InputDeviceSelector::Default)),
        MICROPHONE_CHANNEL_COUNT
    );
    assert_eq!(
        capture_channel_count(&CaptureMode::Application("meeting".to_owned())),
        CAPTURE_CHANNEL_COUNT
    );
    assert_eq!(
        capture_channel_count(&CaptureMode::SystemMix),
        CAPTURE_CHANNEL_COUNT
    );
}

#[test]
fn given_pipewire_source_metadata_when_named_then_human_description_precedes_node_name() {
    assert_eq!(
        pipewire_source_name(
            SourceKind::InputDevice,
            None,
            Some("Studio Microphone"),
            None,
            Some("alsa_input.usb-42"),
        ),
        "Studio Microphone"
    );
    assert_eq!(
        pipewire_source_name(
            SourceKind::Application,
            Some("Meeting"),
            Some("Meeting audio output"),
            None,
            Some("meeting-output"),
        ),
        "Meeting"
    );
}

#[test]
fn given_missing_exact_source_when_classified_then_stable_key_is_preserved() {
    let stable_id = linux_application("pw-node:meeting");

    assert_eq!(
        source_unavailable(&stable_id.stable_key),
        CaptureError::SourceUnavailable {
            stable_key: "pw-node:meeting".to_owned(),
        }
    );
}

#[test]
fn given_pipewire_application_metadata_when_identity_is_derived_then_persistent_fields_win() {
    assert_eq!(
        pipewire_application_identity(Some("org.example.Meeting"), Some("meeting-output"), 91),
        (
            "pw-app:org.example.Meeting".to_owned(),
            ApplicationIdentityScope::Persistent
        )
    );
    assert_eq!(
        pipewire_application_identity(None, Some("meeting-output"), 91),
        (
            "pw-node:meeting-output".to_owned(),
            ApplicationIdentityScope::Persistent
        )
    );
    assert_eq!(
        pipewire_application_identity(None, None, 91),
        (
            "pw-transient:91".to_owned(),
            ApplicationIdentityScope::ProcessLifetime
        )
    );
}

#[test]
fn given_exact_application_selector_when_one_live_node_matches_then_current_target_is_selected() {
    let nodes = vec![
        discovered_application("pw-app:org.example.Meeting", 41, "812"),
        discovered_application("pw-app:org.example.Other", 42, "813"),
    ];
    let selector = linux_application("pw-app:org.example.Meeting");

    let selected = select_unique_exact_application(&nodes, &selector, Some(41))
        .expect("one persistent exact application must resolve");

    assert_eq!(selected.target_object.as_deref(), Some("812"));
    assert!(selected.source.device_uid.is_none());
}

#[test]
fn given_exact_application_selector_when_identity_is_transient_then_live_source_is_selected() {
    let nodes = vec![discovered_application("pw-transient:91", 41, "812")];
    let selector = linux_application("pw-transient:91");

    let selected = select_unique_exact_application(&nodes, &selector, None)
        .expect("an exact transient identity remains valid while its node is live");

    assert_eq!(selected.target_object.as_deref(), Some("812"));
}

#[test]
fn given_process_scoped_exact_selector_when_identity_is_transient_then_matching_pid_is_allowed() {
    let nodes = vec![discovered_application("pw-transient:91", 41, "812")];
    let selector = linux_application("pw-transient:91");

    let selected = select_unique_exact_application(&nodes, &selector, Some(41))
        .expect("process-scoped exact selector may use a transient identity");

    assert_eq!(selected.target_object.as_deref(), Some("812"));
}

#[test]
fn given_exact_application_selector_when_multiple_nodes_match_then_selection_is_ambiguous() {
    let nodes = vec![
        discovered_application("pw-app:org.example.Meeting", 41, "812"),
        discovered_application("pw-app:org.example.Meeting", 42, "813"),
    ];
    let selector = linux_application("pw-app:org.example.Meeting");

    let error = select_unique_exact_application(&nodes, &selector, None)
        .expect_err("persistent selector must not choose an arbitrary live node");

    assert!(
        matches!(error, CaptureError::BackendInit(message) if message.contains("ambiguous"))
    );
}

#[test]
fn given_pipewire_properties_when_native_format_is_reported_then_unknown_is_not_fabricated() {
    assert_eq!(
        parse_pipewire_sample_rate(Some("invalid"), Some("1/48000")),
        48_000
    );
    assert_eq!(
        parse_pipewire_sample_rate(Some("44100"), Some("1/48000")),
        44_100
    );
    assert_eq!(parse_pipewire_sample_rate(None, None), 0);
    assert_eq!(parse_pipewire_channel_count(Some("2")), 2);
    assert_eq!(parse_pipewire_channel_count(None), 0);
}

#[test]
fn given_negotiated_format_when_one_buffer_is_dropped_then_sample_timeline_keeps_its_duration() {
    let mut state = PipeWireCaptureState::new(CAPTURE_CHANNEL_COUNT);
    state
        .set_negotiated_format(NegotiatedPipeWireFormat {
            sample_rate_hz: 48_000,
            channel_count: CAPTURE_CHANNEL_COUNT,
        })
        .expect("test format must negotiate");

    let (dropped_timestamp_ns, _, _) = state
        .advance_sample_timeline(Some(1_000), 480, 2_000_000_000)
        .expect("dropped source buffer must still advance time");
    let (delivered_timestamp_ns, sample_rate_hz, channel_count) = state
        .advance_sample_timeline(Some(1_480), 480, 9_000_000_000)
        .expect("next source buffer must retain cadence");

    assert_eq!(dropped_timestamp_ns, 2_000_000_000);
    assert_eq!(delivered_timestamp_ns - dropped_timestamp_ns, 10_000_000);
    assert_eq!(sample_rate_hz, 48_000);
    assert_eq!(channel_count, CAPTURE_CHANNEL_COUNT);
}

#[test]
fn given_pipewire_callback_when_buffer_contains_multiple_frames_then_timestamp_starts_before_callback(
) {
    assert_eq!(
        pipewire_first_sample_timestamp_ns(1_000_000_000, 2_048, 48_000, 5_000_000, 300_000_000),
        652_333_334
    );
    assert_eq!(
        pipewire_report_age_ns(700_000_000, 1_000_000_000),
        Some(300_000_000)
    );
    assert_eq!(pipewire_report_age_ns(1_100_000_000, 1_000_000_000), None);
    assert_eq!(pipewire_report_age_ns(-1, 1_000_000_000), None);
    assert_eq!(
        pipewire_ticks_to_nanoseconds(960, 1, 48_000),
        Some(20_000_000)
    );
    assert_eq!(pipewire_ticks_to_nanoseconds(960, 0, 48_000), None);
}

#[test]
fn given_negotiated_format_when_channel_count_changes_then_capture_fails_closed() {
    let mut state = PipeWireCaptureState::new(MICROPHONE_CHANNEL_COUNT);

    assert_eq!(
        state.set_negotiated_format(NegotiatedPipeWireFormat {
            sample_rate_hz: 48_000,
            channel_count: CAPTURE_CHANNEL_COUNT,
        }),
        Err("PipeWire negotiated an unexpected channel count")
    );
    assert!(state
        .advance_sample_timeline(None, 480, 2_000_000_000)
        .is_none());
}

#[test]
fn given_process_mode_when_pipewire_unavailable_then_mode_unsupported_not_system_mix() {
    let result = resolve_linux_capture_target(&CaptureMode::Process(99999), false, &[]);
    match result {
        Err(CaptureError::ModeUnsupported(_)) => {}
        _ => panic!("expected Err(ModeUnsupported)"),
    }
}

#[test]
fn given_application_mode_when_pipewire_unavailable_then_mode_unsupported_not_system_mix() {
    let result = resolve_linux_capture_target(
        &CaptureMode::Application("some-app".to_owned()),
        false,
        &[],
    );
    match result {
        Err(CaptureError::ModeUnsupported(_)) => {}
        _ => panic!("expected Err(ModeUnsupported)"),
    }
}

#[test]
fn given_exact_stable_application_when_pipewire_unavailable_then_mode_is_not_weakened() {
    let stable_id = linux_application("pw-node:meeting");
    let result = resolve_linux_capture_target(
        &CaptureMode::ExactApplicationStable { stable_id },
        false,
        &[],
    );
    match result {
        Err(CaptureError::ModeUnsupported(_)) => {}
        _ => panic!("expected Err(ModeUnsupported)"),
    }
}

#[test]
fn given_process_mode_when_node_not_found_then_backend_init_error_not_system_mix() {
    // PID 0 is the idle process and will never appear as an audio node.
    let nodes = vec![discovered_application("pw-app:org.example.Meeting", 41, "812")];
    let result = resolve_linux_capture_target(&CaptureMode::Process(0), true, &nodes);
    match result {
        Err(CaptureError::ModeUnsupported(_))
        | Err(CaptureError::BackendInit(_))
        | Err(CaptureError::NotSupported) => {}
        Err(CaptureError::InvalidStreamCapacity) => {
            panic!("capture mode does not configure stream capacity")
        }
        Err(error) => panic!("unexpected error for nonexistent PID 0: {}", error.message()),
        Ok(_) => panic!("expected Err for nonexistent PID 0, got Ok"),
    }
}
