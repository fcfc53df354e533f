use pocketstation::capture::authorization::CaptureError;
use pocketstation::capture::identity::{CaptureSource, SourceKind, SourceState, StableSourceId};
use pocketstation::capture::platform::windows::open_lifecycle::{
    report_open, wait_for_open, OpenCancellation, OpenReportError, OpenWaitOutcome,
};
use pocketstation::capture::platform::windows::packet_delivery::{
    plan_packet_read, sample_buffer_capacity_bytes, PacketReadPlan,
};
use pocketstation::capture::platform::windows::process_identity::ProcessInstanceFingerprint;
use pocketstation::capture::platform::windows::runtime_lifecycle::{
    classify_platform_status, WindowsRuntimeFailureDisposition,
    AUDCLNT_E_DEVICE_INVALIDATED_STATUS_CODE, AUDCLNT_E_RESOURCES_INVALIDATED_STATUS_CODE,
};
use pocketstation::capture::platform::windows::selection::{
    resolve_application_mode, select_process_source,
};
use pocketstation::capture::selection::CaptureMode;
use pocketstation::frame::Platform;
use std::time::Duration;

#[test]
fn given_hung_open_worker_when_waiting_then_timeout_is_returned() {
    let (_open_tx, open_rx) = std::sync::mpsc::sync_channel::<Result<u64, String>>(1);

    assert_eq!(
        wait_for_open(&open_rx, Duration::from_millis(1)),
        OpenWaitOutcome::TimedOut
    );
}

#[test]
fn given_timeout_when_cancellation_cloned_then_late_worker_observes_it() {
    let caller_cancellation = OpenCancellation::default();
    let worker_cancellation = caller_cancellation.clone();

    caller_cancellation.cancel();

    assert!(worker_cancellation.is_cancelled());
}

#[test]
fn given_cancelled_open_when_late_worker_reports_then_success_is_rejected() {
    let (open_tx, _open_rx) = std::sync::mpsc::sync_channel::<Result<u64, String>>(1);
    let open_cancellation = OpenCancellation::default();
    open_cancellation.cancel();

    assert_eq!(
        report_open(&open_tx, 7, &open_cancellation),
        Err(OpenReportError::Cancelled)
    );
}

#[test]
fn given_timed_out_receiver_when_late_worker_reports_then_success_is_rejected() {
    let (open_tx, open_rx) = std::sync::mpsc::sync_channel::<Result<u64, String>>(1);
    let open_cancellation = OpenCancellation::default();
    drop(open_rx);

    assert_eq!(
        report_open(&open_tx, 7, &open_cancellation),
        Err(OpenReportError::ReceiverUnavailable)
    );
}

#[test]
fn given_worker_error_when_waiting_then_exact_failure_is_retained() {
    let (open_tx, open_rx) = std::sync::mpsc::sync_channel::<Result<u64, String>>(1);
    open_tx.send(Err("activation failed".to_owned())).unwrap();

    assert_eq!(
        wait_for_open(&open_rx, Duration::from_millis(1)),
        OpenWaitOutcome::Failed("activation failed".to_owned())
    );
}

#[test]
fn given_empty_packet_when_planned_then_no_read_is_requested() {
    assert_eq!(plan_packet_read(0, 2, 4, 16_384), PacketReadPlan::Empty);
}

#[test]
fn given_packet_at_capacity_when_planned_then_exact_byte_count_is_retained() {
    assert_eq!(
        plan_packet_read(2_048, 2, 4, 16_384),
        PacketReadPlan::Read {
            packet_bytes: 16_384
        }
    );
}

#[test]
fn given_oversized_packet_when_planned_then_required_byte_count_is_reported() {
    assert_eq!(
        plan_packet_read(2_049, 2, 4, 16_384),
        PacketReadPlan::Oversized {
            required_bytes: Some(16_392)
        }
    );
}

#[test]
fn given_device_invalidated_hresult_when_classified_then_source_is_unavailable() {
    assert_eq!(
        classify_platform_status(AUDCLNT_E_DEVICE_INVALIDATED_STATUS_CODE),
        WindowsRuntimeFailureDisposition::SourceUnavailable
    );
}

#[test]
fn given_resources_invalidated_hresult_when_classified_then_failure_is_not_guessed_as_disappearance(
) {
    assert_eq!(
        classify_platform_status(AUDCLNT_E_RESOURCES_INVALIDATED_STATUS_CODE),
        WindowsRuntimeFailureDisposition::BackendFailure
    );
}

#[test]
fn given_generic_hresult_when_classified_then_exact_failure_remains_backend_failure() {
    assert_eq!(
        classify_platform_status(0x8000_4005_u32 as i32),
        WindowsRuntimeFailureDisposition::BackendFailure
    );
}

fn application_source(process_id: u32, stable_id: StableSourceId) -> CaptureSource {
    CaptureSource {
        stable_id,
        name: "Application".to_owned(),
        process_id: Some(process_id),
        app_id: None,
        device_uid: None,
        state: SourceState::Playing,
        sample_rate_hz: 48_000,
        channels: 2,
    }
}

#[test]
fn given_process_id_when_resolved_then_discovered_instance_identity_is_preserved() {
    let stable_id = StableSourceId::new(
        Platform::Windows,
        SourceKind::Application,
        ProcessInstanceFingerprint::new(42, 133_980_144_000_000_000).stable_key(),
    );
    let sources = vec![application_source(42, stable_id.clone())];

    assert_eq!(select_process_source(&sources, 42), Ok(stable_id));
}

#[test]
fn given_discovered_stable_identity_when_resolved_then_exact_process_instance_is_retained() {
    let fingerprint = ProcessInstanceFingerprint::new(42, 133_980_144_000_000_000);
    let stable_id = StableSourceId::new(
        Platform::Windows,
        SourceKind::Application,
        fingerprint.stable_key(),
    );

    assert_eq!(
        resolve_application_mode(
            CaptureMode::ExactApplicationStable {
                stable_id: stable_id.clone(),
            },
            &[],
        ),
        Ok(CaptureMode::ExactApplication {
            process_id: 42,
            stable_id,
        })
    );
}

#[test]
fn given_foreign_stable_identity_when_resolved_then_selection_fails_closed() {
    let stable_id = StableSourceId::new(
        Platform::Macos,
        SourceKind::Application,
        "com.acme.meeting".to_owned(),
    );

    assert!(matches!(
        resolve_application_mode(CaptureMode::ExactApplicationStable { stable_id }, &[]),
        Err(CaptureError::SourceUnavailable { stable_key })
            if stable_key == "com.acme.meeting"
    ));
}

#[test]
fn given_boxed_sample_storage_when_measured_then_the_slice_capacity_is_returned() {
    let samples = vec![0.0f32; 19_200].into_boxed_slice();

    assert_eq!(sample_buffer_capacity_bytes(samples.len()), 76_800);
    assert_eq!(sample_buffer_capacity_bytes(samples.len()), std::mem::size_of_val(&*samples));
}
