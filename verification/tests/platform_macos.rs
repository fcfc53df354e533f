use pocketstation::capture::platform::macos::input::InputReaderSequence;
use pocketstation::capture::authorization::{CaptureError, PermissionObservation};
use pocketstation::capture::identity::{CaptureSource, SourceKind, SourceState, StableSourceId};
use pocketstation::capture::platform::macos::authorization::{
    permission_observation, AUTHORIZED, DENIED, NOT_DETERMINED, RESTRICTED,
};
use pocketstation::capture::platform::macos::input::{
    cpal_error_class, cpal_stream_continues, cpal_stream_has_discontinuity,
    input_capture_timestamp, require_microphone_permission, InputStreamErrorKind,
    CPAL_ERROR_CLASS_CAPACITY,
};
use pocketstation::capture::platform::macos::input_format::{
    representation_sample_size, select_input_config, CaptureSampleRepresentation,
    InputSampleFormat, SupportedInputRange,
};
use pocketstation::capture::platform::macos::loopback::{
    require_asp_driver_active, ASP_BACKEND_NAME, ASP_SETUP_ACTION,
};
use pocketstation::capture::platform::macos::tap::{
    exact_application_open_audit, process_timestamp_ns, select_application_capture,
    select_stable_application_capture, source_host_timestamp_ns, stable_source_id, tap_error,
    AuditedCaptureSource, ExactApplicationOpenAudit, ProcessTapReadBatch,
    CORE_AUDIO_PERMISSION_DENIED_STATUS,
};
use pocketstation::capture::selection::CaptureMode;
use pocketstation::capture::timeline::TimelineMapping;
use pocketstation::frame::Platform;

#[test]
fn given_authorization_values_when_mapped_then_every_state_remains_distinct() {
    assert_eq!(
        permission_observation(NOT_DETERMINED),
        PermissionObservation::NotDetermined
    );
    assert_eq!(
        permission_observation(RESTRICTED),
        PermissionObservation::Restricted
    );
    assert_eq!(permission_observation(DENIED), PermissionObservation::Denied);
    assert_eq!(
        permission_observation(AUTHORIZED),
        PermissionObservation::Allowed
    );
    assert_eq!(
        permission_observation(i32::MAX),
        PermissionObservation::NotObservable
    );
}

#[test]
fn given_cpal_error_kinds_when_classified_then_names_fit_preallocated_storage() {
    let cases = [
        (InputStreamErrorKind::DeviceBusy, "cpal-device-busy"),
        (InputStreamErrorKind::DeviceChanged, "cpal-device-changed"),
        (
            InputStreamErrorKind::DeviceNotAvailable,
            "cpal-device-not-available",
        ),
        (InputStreamErrorKind::HostUnavailable, "cpal-host-unavailable"),
        (InputStreamErrorKind::InvalidInput, "cpal-invalid-input"),
        (InputStreamErrorKind::PermissionDenied, "cpal-permission-denied"),
        (InputStreamErrorKind::RealtimeDenied, "cpal-realtime-denied"),
        (
            InputStreamErrorKind::ResourceExhausted,
            "cpal-resource-exhausted",
        ),
        (
            InputStreamErrorKind::StreamInvalidated,
            "cpal-stream-invalidated",
        ),
        (
            InputStreamErrorKind::UnsupportedConfig,
            "cpal-unsupported-config",
        ),
        (
            InputStreamErrorKind::UnsupportedOperation,
            "cpal-unsupported-operation",
        ),
        (InputStreamErrorKind::Xrun, "cpal-xrun"),
        (InputStreamErrorKind::BackendError, "cpal-backend-error"),
        (InputStreamErrorKind::Other, "cpal-other"),
    ];

    for (kind, expected) in cases {
        assert_eq!(cpal_error_class(kind), expected);
        assert!(expected.len() <= CPAL_ERROR_CLASS_CAPACITY);
    }
    assert!("cpal-unrecognized-error".len() <= CPAL_ERROR_CLASS_CAPACITY);
    assert_eq!(
        cpal_error_class(InputStreamErrorKind::Unrecognized),
        "cpal-unrecognized-error"
    );
}

#[test]
fn given_nonfatal_cpal_notifications_when_classified_then_stream_stays_active() {
    assert!(cpal_stream_continues(InputStreamErrorKind::DeviceChanged));
    assert!(cpal_stream_continues(InputStreamErrorKind::RealtimeDenied));
    assert!(cpal_stream_continues(InputStreamErrorKind::Xrun));
    assert!(cpal_stream_has_discontinuity(InputStreamErrorKind::DeviceChanged));
    assert!(!cpal_stream_has_discontinuity(InputStreamErrorKind::RealtimeDenied));
    assert!(cpal_stream_has_discontinuity(InputStreamErrorKind::Xrun));
    assert!(!cpal_stream_continues(InputStreamErrorKind::DeviceNotAvailable));
    assert!(!cpal_stream_continues(InputStreamErrorKind::StreamInvalidated));
}

#[test]
fn given_capture_before_callback_when_mapped_then_process_timestamp_preserves_delay() {
    // The callback instant is 10 s + 20 ms and the capture instant 10 s.
    let timestamp = input_capture_timestamp(1_000_000_000, 20_000_000);

    assert_eq!(timestamp.timestamp_ns, 980_000_000);
    assert!(!timestamp.epoch_clamped);
}

#[test]
fn given_capture_before_process_epoch_when_mapped_then_timestamp_is_earliest_representable() {
    // The callback instant is 10 s + 40 ms and the capture instant 10 s.
    let timestamp = input_capture_timestamp(20_000_000, 40_000_000);

    assert_eq!(timestamp.timestamp_ns, 1);
    assert!(timestamp.epoch_clamped);
}

#[test]
fn given_denied_permission_when_opening_input_then_capture_fails_closed() {
    for permission in [
        PermissionObservation::Denied,
        PermissionObservation::Restricted,
        PermissionObservation::Revoked,
    ] {
        assert_eq!(
            require_microphone_permission(permission),
            Err(CaptureError::PermissionDenied {
                operation: "opening the macOS microphone input stream",
            })
        );
    }
}

#[test]
fn given_promptable_or_observable_permission_when_opening_input_then_native_open_decides() {
    for permission in [
        PermissionObservation::Allowed,
        PermissionObservation::NotDetermined,
        PermissionObservation::NotObservable,
        PermissionObservation::NotApplicable,
    ] {
        assert_eq!(require_microphone_permission(permission), Ok(()));
    }
}

fn supported(
    channels: u16,
    minimum_rate_hz: u32,
    maximum_rate_hz: u32,
    sample_format: InputSampleFormat,
) -> SupportedInputRange {
    SupportedInputRange {
        channels,
        min_sample_rate_hz: minimum_rate_hz,
        max_sample_rate_hz: maximum_rate_hz,
        sample_format,
    }
}

#[test]
fn given_advertised_pcm_ranges_when_selected_then_real_rates_are_not_fabricated() {
    for rate_hz in [8_000, 16_000, 24_000, 32_000, 44_100, 48_000, 96_000] {
        let selected = select_input_config(&[supported(1, rate_hz, rate_hz, InputSampleFormat::I16)])
            .expect("advertised PCM format must be selected");
        assert_eq!(selected.native.sample_rate_hz, rate_hz);
        assert_eq!(selected.config.sample_rate_hz, rate_hz);
        assert_eq!(
            selected.native.sample_representation,
            CaptureSampleRepresentation::SignedInteger16
        );
    }
}

#[test]
fn given_multiple_advertised_formats_when_selected_then_canonical_preferences_apply() {
    let selected = select_input_config(&[
        supported(2, 44_100, 44_100, InputSampleFormat::F32),
        supported(2, 48_000, 48_000, InputSampleFormat::I16),
        supported(1, 48_000, 48_000, InputSampleFormat::F64),
        supported(1, 48_000, 48_000, InputSampleFormat::F32),
    ])
    .expect("one PCM format must be selected");

    assert_eq!(selected.native.sample_rate_hz, 48_000);
    assert_eq!(selected.native.channel_count, 1);
    assert_eq!(
        selected.native.sample_representation,
        CaptureSampleRepresentation::Float32
    );
}

#[test]
fn given_dsd_only_input_when_selected_then_format_is_rejected_as_non_pcm() {
    assert!(select_input_config(&[supported(1, 48_000, 48_000, InputSampleFormat::DsdU8)]).is_none());
}

#[test]
fn given_supported_pcm_representations_when_advertised_then_each_is_selectable() {
    let cases = [
        (InputSampleFormat::I8, CaptureSampleRepresentation::SignedInteger8),
        (InputSampleFormat::I16, CaptureSampleRepresentation::SignedInteger16),
        (InputSampleFormat::I24, CaptureSampleRepresentation::SignedInteger24),
        (InputSampleFormat::I32, CaptureSampleRepresentation::SignedInteger32),
        (InputSampleFormat::I64, CaptureSampleRepresentation::SignedInteger64),
        (InputSampleFormat::U8, CaptureSampleRepresentation::UnsignedInteger8),
        (InputSampleFormat::U16, CaptureSampleRepresentation::UnsignedInteger16),
        (InputSampleFormat::U24, CaptureSampleRepresentation::UnsignedInteger24),
        (InputSampleFormat::U32, CaptureSampleRepresentation::UnsignedInteger32),
        (InputSampleFormat::U64, CaptureSampleRepresentation::UnsignedInteger64),
        (InputSampleFormat::F32, CaptureSampleRepresentation::Float32),
        (InputSampleFormat::F64, CaptureSampleRepresentation::Float64),
    ];

    for (sample_format, expected_representation) in cases {
        let selected = select_input_config(&[supported(1, 48_000, 48_000, sample_format)])
            .expect("advertised PCM representation must be selectable");
        assert_eq!(selected.native.sample_representation, expected_representation);
        assert_eq!(
            selected.sample_size_bytes,
            representation_sample_size(expected_representation)
        );
    }
}

#[test]
fn given_active_asp_when_required_then_sdk_accepts_external_provisioning() {
    assert_eq!(require_asp_driver_active(true), Ok(()));
}

#[test]
fn given_missing_asp_when_required_then_sdk_returns_actionable_typed_error() {
    assert_eq!(
        require_asp_driver_active(false),
        Err(CaptureError::BackendSetupRequired {
            backend: ASP_BACKEND_NAME,
            action: ASP_SETUP_ACTION,
        })
    );
}

fn audited_application(
    stable_id: StableSourceId,
    process_id: u32,
    process_start_time_ns: u64,
) -> AuditedCaptureSource {
    let app_id = stable_id.stable_key.clone();
    AuditedCaptureSource {
        source: CaptureSource {
            stable_id,
            name: "Application".to_owned(),
            process_id: Some(process_id),
            app_id: Some(app_id),
            device_uid: None,
            state: SourceState::Playing,
            sample_rate_hz: 48_000,
            channels: 2,
        },
        process_start_time_ns,
    }
}

fn application_source(name: &str, app_id: &str, process_id: Option<u32>) -> CaptureSource {
    CaptureSource {
        stable_id: StableSourceId::new(Platform::Macos, SourceKind::Application, app_id.to_owned()),
        name: name.to_owned(),
        process_id,
        app_id: Some(app_id.to_owned()),
        device_uid: None,
        state: SourceState::Playing,
        sample_rate_hz: 48_000,
        channels: 2,
    }
}

fn macos_application(stable_key: &str) -> StableSourceId {
    StableSourceId::new(Platform::Macos, SourceKind::Application, stable_key.to_owned())
}

#[test]
fn given_core_audio_permission_status_when_mapped_then_denial_remains_typed() {
    assert_eq!(
        tap_error(CORE_AUDIO_PERMISSION_DENIED_STATUS, 2),
        CaptureError::PermissionDenied {
            operation: "creating the CoreAudio process tap"
        }
    );
}

#[test]
fn given_reader_position_before_native_anchor_when_mapped_then_sample_delta_is_preserved() {
    let batch = ProcessTapReadBatch {
        frame_count: 480,
        source_frame_position_frames: 48_000,
        anchor_frame_position_frames: 48_480,
        anchor_host_time_ns: 2_000_000_000,
    };

    assert_eq!(source_host_timestamp_ns(batch, 48_000), Some(1_990_000_000));
}

#[test]
fn given_native_host_time_when_normalized_then_process_clock_boundary_is_comparable() {
    let batch = ProcessTapReadBatch {
        frame_count: 960,
        source_frame_position_frames: 96_000,
        anchor_frame_position_frames: 96_000,
        anchor_host_time_ns: 9_000_000_000,
    };
    let mapping = TimelineMapping::new(8_500_000_000, 500_000_000);

    assert_eq!(
        process_timestamp_ns(batch, 48_000, mapping),
        Some(1_000_000_000)
    );
}

#[test]
fn given_other_core_audio_status_when_mapped_then_raw_status_is_preserved() {
    assert_eq!(
        tap_error(-50, 7),
        CaptureError::BackendStatus {
            operation: "starting the CoreAudio aggregate device",
            status_code: -50
        }
    );
}

#[test]
fn given_exact_application_target_when_framed_then_stable_identity_is_preserved() {
    let stable_id = macos_application("com.acme.meeting");
    let expected = stable_id.source_id();

    let observed = stable_source_id(&CaptureMode::ExactApplication {
        process_id: 42,
        stable_id,
    })
    .unwrap()
    .source_id();

    assert_eq!(observed, expected);
}

#[test]
fn given_display_name_when_application_selected_then_all_matching_processes_are_captured() {
    let sources = vec![
        application_source("Brave Browser", "com.brave.Browser", Some(42)),
        application_source("Brave Browser", "com.brave.Browser", Some(43)),
    ];

    let selected = select_application_capture(&sources, "Brave Browser").unwrap();

    assert_eq!(selected.process_ids, vec![42, 43]);
    assert_eq!(selected.stable_id.stable_key, "com.brave.Browser");
}

#[test]
fn given_bundle_id_when_application_selected_then_discovered_identity_is_preserved() {
    let sources = vec![application_source(
        "Brave Browser",
        "com.brave.Browser",
        Some(42),
    )];

    let selected = select_application_capture(&sources, "com.brave.Browser").unwrap();

    assert_eq!(selected.process_ids, vec![42]);
    assert_eq!(selected.stable_id.stable_key, "com.brave.Browser");
}

#[test]
fn given_stable_application_identity_when_selected_then_all_live_processes_are_captured() {
    let stable_id = macos_application("com.brave.Browser");
    let sources = vec![
        application_source("Brave Browser", "com.brave.Browser", Some(42)),
        application_source("Brave Browser", "com.brave.Browser", Some(43)),
    ];

    let selected = select_stable_application_capture(&sources, &stable_id).unwrap();

    assert_eq!(selected.process_ids, vec![42, 43]);
    assert_eq!(selected.stable_id, stable_id);
}

#[test]
fn given_foreign_platform_identity_when_selected_then_capture_fails_closed() {
    let stable_id = StableSourceId::new(
        Platform::Windows,
        SourceKind::Application,
        "com.brave.Browser".to_owned(),
    );
    let sources = vec![application_source(
        "Brave Browser",
        "com.brave.Browser",
        Some(42),
    )];

    assert!(matches!(
        select_stable_application_capture(&sources, &stable_id),
        Err(CaptureError::SourceUnavailable { stable_key })
            if stable_key == "com.brave.Browser"
    ));
}

#[test]
fn given_ambiguous_display_name_when_application_selected_then_capture_fails_closed() {
    let sources = vec![
        application_source("Meeting", "com.acme.meeting", Some(42)),
        application_source("Meeting", "com.other.meeting", Some(43)),
    ];

    let error = select_application_capture(&sources, "Meeting").unwrap_err();

    assert!(error.message().contains("multiple running audio sources"));
}

#[test]
fn given_application_without_process_identity_when_selected_then_capture_fails_closed() {
    let sources = vec![application_source("Meeting", "com.acme.meeting", None)];

    let error = select_application_capture(&sources, "Meeting").unwrap_err();

    assert!(error.message().contains("has no process identity"));
}

#[test]
fn given_reused_pid_with_different_application_when_verified_then_target_is_rejected() {
    let selected = macos_application("com.acme.meeting");
    let replacement = macos_application("com.other.player");
    let sources = vec![audited_application(replacement, 42, 200)];

    assert_eq!(exact_application_open_audit(&sources, 42, &selected), None);
}

#[test]
fn given_same_pid_and_application_when_verified_then_target_is_retained() {
    let selected = macos_application("com.acme.meeting");
    let sources = vec![audited_application(selected.clone(), 42, 100)];

    assert_eq!(
        exact_application_open_audit(&sources, 42, &selected),
        Some(ExactApplicationOpenAudit {
            process_id: 42,
            stable_id: selected,
            process_start_time_ns: 100,
        })
    );
}

#[test]
fn given_same_pid_and_application_with_new_creation_when_audited_then_reuse_is_detected() {
    let selected = macos_application("com.acme.meeting");
    let before = ExactApplicationOpenAudit {
        process_id: 42,
        stable_id: selected.clone(),
        process_start_time_ns: 100,
    };
    let replacement = vec![audited_application(selected.clone(), 42, 200)];

    assert_ne!(
        exact_application_open_audit(&replacement, 42, &selected),
        Some(before)
    );
}

#[test]
fn given_missing_creation_time_when_audited_then_exact_open_fails_closed() {
    let selected = macos_application("com.acme.meeting");
    let sources = vec![audited_application(selected.clone(), 42, 0)];

    assert_eq!(exact_application_open_audit(&sources, 42, &selected), None);
}

#[test]
fn input_reader_skips_a_sequence_number_after_each_gap() {
    let mut reader = InputReaderSequence::new();
    assert!(!reader.begin_packet(false));
    assert_eq!(reader.next_frame(), 0);
    assert_eq!(reader.next_frame(), 1);
    assert!(reader.begin_packet(true));
    assert_eq!(reader.next_frame(), 3);
    reader.conversion_failed();
    assert!(reader.conversion_discontinuity_pending);
    assert!(reader.begin_packet(false));
    assert!(!reader.conversion_discontinuity_pending);
    assert_eq!(reader.next_frame(), 5);
    let mut saturated = InputReaderSequence {
        sequence_number: u64::MAX,
        conversion_discontinuity_pending: false,
    };
    assert_eq!(saturated.next_frame(), u64::MAX);
    assert!(saturated.begin_packet(true));
    assert_eq!(saturated.sequence_number, u64::MAX);
}
