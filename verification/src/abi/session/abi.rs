//! Versioned records exchanged across the Session ABI.

use vstd::prelude::*;

use crate::abi::layout::{
    abi_version_bytes, app_mic_declaration_bytes, engine_config_bytes, pointer_bytes,
};

verus! {

/// Major version of the Session ABI.
pub const PKS_SESSION_ABI_MAJOR: u16 = 1;

/// Minor version of the Session ABI.
pub const PKS_SESSION_ABI_MINOR: u16 = 1;

/// Version record reported by the engine.
#[derive(Clone, Copy, Debug, PartialEq, Eq, Structural)]
pub struct PksSessionAbiVersion {
    pub struct_size_bytes: u32,
    pub abi_major: u16,
    pub abi_minor: u16,
}

impl PksSessionAbiVersion {
    /// The version record of this engine: eight bytes, at this ABI version.
    pub fn current() -> (r: Self)
        ensures
            r.struct_size_bytes == 8,
            r.abi_major == PKS_SESSION_ABI_MAJOR,
            r.abi_minor == PKS_SESSION_ABI_MINOR,
    {
        PksSessionAbiVersion {
            struct_size_bytes: abi_version_bytes() as u32,
            abi_major: PKS_SESSION_ABI_MAJOR,
            abi_minor: PKS_SESSION_ABI_MINOR,
        }
    }
}

/// What a handle refers to.
#[derive(Clone, Copy, Debug, PartialEq, Eq, Structural)]
pub enum PksSessionHandleKind {
    Invalid,
    Engine,
    Session,
    AudioBatch,
}

/// Numeric value of a handle kind on the wire.
pub open spec fn handle_kind_code(kind: PksSessionHandleKind) -> u32 {
    match kind {
        PksSessionHandleKind::Invalid => 0,
        PksSessionHandleKind::Engine => 1,
        PksSessionHandleKind::Session => 2,
        PksSessionHandleKind::AudioBatch => 3,
    }
}

impl PksSessionHandleKind {
    /// Numeric value of this kind on the wire.
    pub fn code(self) -> (r: u32)
        ensures
            r == handle_kind_code(self),
    {
        match self {
            PksSessionHandleKind::Invalid => 0,
            PksSessionHandleKind::Engine => 1,
            PksSessionHandleKind::Session => 2,
            PksSessionHandleKind::AudioBatch => 3,
        }
    }
}

/// Generation-checked reference to an engine, session or audio batch.
#[derive(Clone, Copy, Debug, PartialEq, Eq, Structural)]
pub struct PksSessionHandle {
    pub kind: PksSessionHandleKind,
    pub slot_index: u32,
    pub generation: u64,
    pub scope_id: u64,
}

impl PksSessionHandle {
    /// A handle that no table ever issues.
    pub fn invalid() -> (r: Self)
        ensures
            r.kind == PksSessionHandleKind::Invalid,
            r.slot_index == u32::MAX,
            r.generation == 0,
            r.scope_id == 0,
    {
        PksSessionHandle {
            kind: PksSessionHandleKind::Invalid,
            slot_index: u32::MAX,
            generation: 0,
            scope_id: 0,
        }
    }
}

/// Status returned by every ABI call.
#[derive(Clone, Copy, Debug, PartialEq, Eq, Structural)]
pub struct PksSessionStatus {
    pub code: u32,
    pub detail: u32,
}

/// Status codes of the Session ABI.
#[derive(Clone, Copy, Debug, PartialEq, Eq, Structural)]
pub enum PksSessionStatusCode {
    Success,
    NullArgument,
    BufferTooSmall,
    UnsupportedAbiMajor,
    InvalidStructSize,
    InvalidHandle,
    StaleHandle,
    NoCapacity,
    InternalPanic,
    MisalignedPointer,
    InvalidArgument,
    ForeignHandle,
    InvalidLifecycleState,
    WouldBlock,
    BackendFailure,
    Cancelled,
    IndexOutOfRange,
    UnsupportedAbiMinor,
}

/// Numeric value of a status code on the wire.
pub open spec fn status_code_value(code: PksSessionStatusCode) -> u32 {
    match code {
        PksSessionStatusCode::Success => 0,
        PksSessionStatusCode::NullArgument => 1,
        PksSessionStatusCode::BufferTooSmall => 2,
        PksSessionStatusCode::UnsupportedAbiMajor => 3,
        PksSessionStatusCode::InvalidStructSize => 4,
        PksSessionStatusCode::InvalidHandle => 5,
        PksSessionStatusCode::StaleHandle => 6,
        PksSessionStatusCode::NoCapacity => 7,
        PksSessionStatusCode::InternalPanic => 8,
        PksSessionStatusCode::MisalignedPointer => 9,
        PksSessionStatusCode::InvalidArgument => 10,
        PksSessionStatusCode::ForeignHandle => 11,
        PksSessionStatusCode::InvalidLifecycleState => 12,
        PksSessionStatusCode::WouldBlock => 13,
        PksSessionStatusCode::BackendFailure => 14,
        PksSessionStatusCode::Cancelled => 15,
        PksSessionStatusCode::IndexOutOfRange => 16,
        PksSessionStatusCode::UnsupportedAbiMinor => 17,
    }
}

impl PksSessionStatusCode {
    /// Numeric value of this code on the wire.
    pub fn value(self) -> (r: u32)
        ensures
            r == status_code_value(self),
    {
        match self {
            PksSessionStatusCode::Success => 0,
            PksSessionStatusCode::NullArgument => 1,
            PksSessionStatusCode::BufferTooSmall => 2,
            PksSessionStatusCode::UnsupportedAbiMajor => 3,
            PksSessionStatusCode::InvalidStructSize => 4,
            PksSessionStatusCode::InvalidHandle => 5,
            PksSessionStatusCode::StaleHandle => 6,
            PksSessionStatusCode::NoCapacity => 7,
            PksSessionStatusCode::InternalPanic => 8,
            PksSessionStatusCode::MisalignedPointer => 9,
            PksSessionStatusCode::InvalidArgument => 10,
            PksSessionStatusCode::ForeignHandle => 11,
            PksSessionStatusCode::InvalidLifecycleState => 12,
            PksSessionStatusCode::WouldBlock => 13,
            PksSessionStatusCode::BackendFailure => 14,
            PksSessionStatusCode::Cancelled => 15,
            PksSessionStatusCode::IndexOutOfRange => 16,
            PksSessionStatusCode::UnsupportedAbiMinor => 17,
        }
    }
}

impl PksSessionStatus {
    /// The success status.
    pub fn ok() -> (r: Self)
        ensures
            r.code == 0,
            r.detail == 0,
    {
        PksSessionStatus { code: 0, detail: 0 }
    }

    /// A status with the given code and detail.
    pub fn new(code: PksSessionStatusCode, detail: u32) -> (r: Self)
        ensures
            r.code == status_code_value(code),
            r.detail == detail,
    {
        PksSessionStatus { code: code.value(), detail }
    }
}

/// A UTF-8 text view passed across the ABI: the address the caller supplied
/// (`data`, zero when null), the declared length, and the bytes readable
/// there when the address is non-null and the length is within bounds.
#[derive(Clone, Debug, PartialEq, Eq)]
pub struct PksSessionUtf8 {
    pub data: usize,
    pub len_bytes: u32,
    pub bytes: Vec<u8>,
}

/// Engine configuration record.
#[derive(Clone, Copy, Debug, PartialEq, Eq, Structural)]
pub struct PksSessionEngineConfig {
    pub struct_size_bytes: u32,
    pub abi_major: u16,
    pub abi_minor: u16,
    pub source_queue_capacity_frames: u32,
    pub capture_frame_capacity_frames: u32,
    pub capture_runtime_event_capacity_count: u32,
    pub runtime_work_budget_frames: u32,
    pub runtime_idle_poll_ms: u64,
    pub runtime_ready_timeout_ms: u64,
    pub session_event_capacity_count: u32,
    pub audio_queue_capacity_frames: u32,
    pub audio_max_batch_frames: u32,
    pub audio_max_outstanding_leases: u32,
}

impl Default for PksSessionEngineConfig {
    fn default() -> (r: Self)
        ensures
            r.struct_size_bytes == 56,
            r.abi_major == PKS_SESSION_ABI_MAJOR,
            r.abi_minor == PKS_SESSION_ABI_MINOR,
            r.source_queue_capacity_frames == 32,
            r.capture_frame_capacity_frames == 32,
            r.capture_runtime_event_capacity_count == 8,
            r.runtime_work_budget_frames == 64,
            r.runtime_idle_poll_ms == 1,
            r.runtime_ready_timeout_ms == 1_000,
            r.session_event_capacity_count == 32,
            r.audio_queue_capacity_frames == 32,
            r.audio_max_batch_frames == 8,
            r.audio_max_outstanding_leases == 4,
    {
        PksSessionEngineConfig {
            struct_size_bytes: engine_config_bytes() as u32,
            abi_major: PKS_SESSION_ABI_MAJOR,
            abi_minor: PKS_SESSION_ABI_MINOR,
            source_queue_capacity_frames: 32,
            capture_frame_capacity_frames: 32,
            capture_runtime_event_capacity_count: 8,
            runtime_work_budget_frames: 64,
            runtime_idle_poll_ms: 1,
            runtime_ready_timeout_ms: 1_000,
            session_event_capacity_count: 32,
            audio_queue_capacity_frames: 32,
            audio_max_batch_frames: 8,
            audio_max_outstanding_leases: 4,
        }
    }
}

/// Declaration of the application-plus-microphone Session.
#[derive(Clone, Debug, PartialEq, Eq)]
pub struct PksSessionAppMicDeclaration {
    pub struct_size_bytes: u32,
    pub abi_major: u16,
    pub abi_minor: u16,
    pub application_name: PksSessionUtf8,
}

impl PksSessionAppMicDeclaration {
    /// A current-version declaration naming `application_name`.
    pub fn new(application_name: PksSessionUtf8) -> (r: Self)
        ensures
            r.struct_size_bytes == 8 + 2 * pointer_bytes(),
            r.abi_major == PKS_SESSION_ABI_MAJOR,
            r.abi_minor == PKS_SESSION_ABI_MINOR,
            r.application_name == application_name,
    {
        PksSessionAppMicDeclaration {
            struct_size_bytes: app_mic_declaration_bytes() as u32,
            abi_major: PKS_SESSION_ABI_MAJOR,
            abi_minor: PKS_SESSION_ABI_MINOR,
            application_name,
        }
    }
}

/// Lifecycle state of a Session as reported across the ABI.
#[derive(Clone, Copy, Debug, PartialEq, Eq, Structural)]
pub enum PksSessionLifecycleState {
    Draft,
    Compiled,
    Running,
    Stopped,
    Failed,
    Starting,
    Stopping,
}

/// Numeric value of a lifecycle state on the wire.
pub open spec fn lifecycle_state_code(state: PksSessionLifecycleState) -> u32 {
    match state {
        PksSessionLifecycleState::Draft => 0,
        PksSessionLifecycleState::Compiled => 1,
        PksSessionLifecycleState::Running => 2,
        PksSessionLifecycleState::Stopped => 3,
        PksSessionLifecycleState::Failed => 4,
        PksSessionLifecycleState::Starting => 5,
        PksSessionLifecycleState::Stopping => 6,
    }
}

impl PksSessionLifecycleState {
    /// Numeric value of this state on the wire.
    pub fn code(self) -> (r: u32)
        ensures
            r == lifecycle_state_code(self),
    {
        match self {
            PksSessionLifecycleState::Draft => 0,
            PksSessionLifecycleState::Compiled => 1,
            PksSessionLifecycleState::Running => 2,
            PksSessionLifecycleState::Stopped => 3,
            PksSessionLifecycleState::Failed => 4,
            PksSessionLifecycleState::Starting => 5,
            PksSessionLifecycleState::Stopping => 6,
        }
    }
}

/// Kind of a Session event record.
#[derive(Clone, Copy, Debug, PartialEq, Eq, Structural)]
pub enum PksSessionEventKind {
    Lifecycle,
    SourceFailure,
    EndpointFailure,
    RollbackFailure,
    FinalizationFailure,
    Terminal,
}

/// Numeric value of an event kind on the wire.
pub open spec fn event_kind_code(kind: PksSessionEventKind) -> u32 {
    match kind {
        PksSessionEventKind::Lifecycle => 0,
        PksSessionEventKind::SourceFailure => 1,
        PksSessionEventKind::EndpointFailure => 2,
        PksSessionEventKind::RollbackFailure => 3,
        PksSessionEventKind::FinalizationFailure => 4,
        PksSessionEventKind::Terminal => 5,
    }
}

impl PksSessionEventKind {
    /// Numeric value of this kind on the wire.
    pub fn code(self) -> (r: u32)
        ensures
            r == event_kind_code(self),
    {
        match self {
            PksSessionEventKind::Lifecycle => 0,
            PksSessionEventKind::SourceFailure => 1,
            PksSessionEventKind::EndpointFailure => 2,
            PksSessionEventKind::RollbackFailure => 3,
            PksSessionEventKind::FinalizationFailure => 4,
            PksSessionEventKind::Terminal => 5,
        }
    }
}

/// Sample layout of audio delivered across the ABI.
#[derive(Clone, Copy, Debug, PartialEq, Eq, Structural)]
pub enum PksSessionSampleFormat {
    F32Interleaved,
}

/// How complete an endpoint's observations are.
#[derive(Clone, Copy, Debug, PartialEq, Eq, Structural)]
pub enum PksSessionEndpointObservationStage {
    Unavailable,
    Live,
    Finalized,
}

/// One Session event record.
#[derive(Clone, Copy, Debug, PartialEq, Eq, Structural)]
pub struct PksSessionEvent {
    pub struct_size_bytes: u32,
    pub abi_major: u16,
    pub abi_minor: u16,
    pub kind: u32,
    pub lifecycle_state: u32,
    pub reserved: u32,
    pub session_id: u64,
    pub stem_id: u64,
    pub endpoint_id: u64,
    pub route_id: u64,
    pub failures_total: u64,
}

/// Session-level metrics record.
#[derive(Clone, Copy, Debug, PartialEq, Eq, Structural)]
pub struct PksSessionMetricsSnapshot {
    pub struct_size_bytes: u32,
    pub abi_major: u16,
    pub abi_minor: u16,
    pub reserved: u32,
    pub event_capacity_count: u64,
    pub event_depth_count: u64,
    pub event_peak_depth_count: u64,
    pub events_enqueued_total: u64,
    pub events_dropped_total: u64,
    pub event_receiver_closed_total: u64,
    pub audio_queue_capacity_frames: u64,
    pub audio_queue_depth_frames: u64,
    pub audio_queue_peak_frames: u64,
    pub audio_frames_received_total: u64,
    pub audio_frames_delivered_total: u64,
    pub audio_queue_full_drops_total: u64,
    pub audio_invalid_ownership_drops_total: u64,
    pub audio_lease_capacity_count: u64,
    pub audio_outstanding_leases_count: u64,
    pub audio_lease_exhausted_total: u64,
    pub audio_batches_polled_total: u64,
    pub audio_frames_polled_total: u64,
}

/// Per-source metrics record.
#[derive(Clone, Copy, Debug, PartialEq, Eq, Structural)]
pub struct PksSessionSourceMetrics {
    pub struct_size_bytes: u32,
    pub abi_major: u16,
    pub abi_minor: u16,
    pub stem_id: u64,
    pub capture_callback_buffers_total: u64,
    pub capture_frames_enqueued_total: u64,
    pub capture_pool_exhausted_total: u64,
    pub capture_dispatch_queue_full_total: u64,
    pub capture_invalid_buffer_total: u64,
    pub capture_oversized_buffer_total: u64,
    pub capture_stream_errors_total: u64,
    pub capture_timestamp_epoch_clamps_total: u64,
    pub capture_stream_delivered_frames_total: u64,
    pub capture_stream_dropped_newest_frames_total: u64,
    pub capture_runtime_events_enqueued_total: u64,
    pub capture_runtime_events_dropped_total: u64,
    pub ingress_queue_capacity_frames: u64,
    pub ingress_queue_depth_frames: u64,
    pub ingress_queue_peak_frames: u64,
    pub ingress_frames_enqueued_total: u64,
    pub ingress_frames_delivered_total: u64,
    pub ingress_frames_rejected_full_total: u64,
    pub ingress_frames_rejected_cancelled_total: u64,
    pub ingress_frames_discarded_total: u64,
}

/// Per-route metrics record.
#[derive(Clone, Copy, Debug, PartialEq, Eq, Structural)]
pub struct PksSessionRouteMetrics {
    pub struct_size_bytes: u32,
    pub abi_major: u16,
    pub abi_minor: u16,
    pub route_id: u64,
    pub endpoint_id: u64,
    pub edge_queue_capacity_frames: u64,
    pub edge_queue_depth_frames: u64,
    pub edge_queue_peak_frames: u64,
    pub edge_frames_enqueued_total: u64,
    pub edge_frames_delivered_total: u64,
    pub edge_frames_dropped_total: u64,
    pub edge_overruns_total: u64,
    pub edge_receiver_unavailable_drops_total: u64,
    pub edge_queue_full_drops_total: u64,
    pub edge_shared_reference_exhausted_drops_total: u64,
    pub edge_branch_pool_exhausted_drops_total: u64,
    pub edge_invalid_copy_policy_drops_total: u64,
    pub edge_freeze_failed_drops_total: u64,
    pub edge_discontinuities_total: u64,
    pub edge_source_identity_discontinuities_total: u64,
    pub edge_sequence_discontinuities_total: u64,
    pub edge_timestamp_discontinuities_total: u64,
    pub edge_lineage_epoch_discontinuities_total: u64,
    pub edge_manually_reported_discontinuities_total: u64,
    pub edge_enqueue_to_receive_samples_total: u64,
    pub edge_enqueue_to_receive_invalid_order_total: u64,
    pub edge_enqueue_to_receive_p50_ns: u64,
    pub edge_enqueue_to_receive_p95_ns: u64,
    pub edge_enqueue_to_receive_p99_ns: u64,
    pub edge_enqueue_to_receive_max_ns: u64,
    pub edge_source_timestamp_to_receive_samples_total: u64,
    pub edge_source_timestamp_to_receive_missing_total: u64,
    pub edge_source_timestamp_to_receive_future_total: u64,
    pub edge_source_timestamp_to_receive_p50_ns: u64,
    pub edge_source_timestamp_to_receive_p95_ns: u64,
    pub edge_source_timestamp_to_receive_p99_ns: u64,
    pub edge_source_timestamp_to_receive_max_ns: u64,
    pub edge_worker_failures_total: u64,
    pub edge_shutdown_discarded_total: u64,
    pub endpoint_frames_received_total: u64,
    pub endpoint_frames_delivered_total: u64,
    pub endpoint_frames_dropped_total: u64,
    pub endpoint_discontinuities_total: u64,
    pub endpoint_failures_total: u64,
    pub endpoint_observation_stage: u32,
    pub reserved: u32,
    pub endpoint_finalization_failures_total: u64,
}

/// A leased batch of polled audio frames.
#[derive(Clone, Copy, Debug, PartialEq, Eq, Structural)]
pub struct PksSessionAudioBatch {
    pub struct_size_bytes: u32,
    pub abi_major: u16,
    pub abi_minor: u16,
    pub frame_count: u32,
    pub reserved: u32,
    pub handle: PksSessionHandle,
}

} // verus!
