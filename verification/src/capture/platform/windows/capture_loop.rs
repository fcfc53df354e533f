//! Decisions of the WASAPI capture loops: when to drain the next packet, how
//! many bytes a delivered packet holds, and where its first sample sits on
//! the monotonic clock. The endpoint loop (system mix and input devices) and
//! the process-loopback loop decide alike and name their operations apart.

use vstd::prelude::*;

use crate::capture::platform::windows::capture_failure::{
    spec_to_monotonic, wasapi_qpc_100ns_to_ns, CaptureLoopFailure, WasapiTimestampMapping,
};
use crate::capture::platform::windows::packet_delivery::{packet_bytes, plan_packet_read, PacketReadPlan};
use crate::capture::platform::windows::process_instance::{
    hresult_from_win32, spec_hresult_from_win32, ProcessInstanceWatchObservation, WAIT_FAILED,
    WAIT_OBJECT_0, WAIT_TIMEOUT,
};

verus! {

/// Channels every WASAPI capture loop reads.
pub const CAPTURE_CHANNEL_COUNT: u8 = 2;

/// Bytes of one `f32` sample.
pub const SAMPLE_BYTES: usize = 4;

/// Which capture loop is reading.
#[derive(Debug, Clone, Copy, PartialEq, Eq, Structural)]
pub enum WasapiLoopKind {
    /// A shared-mode endpoint stream: the system mix or an input device.
    Endpoint,
    /// An application process-loopback stream.
    ProcessLoopback,
}

/// Name of a loop operation: the endpoint text, or the process-loopback text.
pub open spec fn loop_operation(kind: WasapiLoopKind, endpoint: Seq<char>, process: Seq<char>) -> Seq<
    char,
> {
    match kind {
        WasapiLoopKind::Endpoint => endpoint,
        WasapiLoopKind::ProcessLoopback => process,
    }
}

/// `failure` is a backend-class failure of `operation` with class `class`.
pub open spec fn is_backend_class(
    failure: CaptureLoopFailure,
    operation: Seq<char>,
    class: Seq<char>,
) -> bool {
    failure matches CaptureLoopFailure::BackendClass { operation: op, class: name } && op@
        == operation && name@ == class
}

/// The failure of a loop whose performance-counter clock cannot be mapped.
pub fn mapping_unavailable(kind: WasapiLoopKind) -> (r: CaptureLoopFailure)
    ensures
        is_backend_class(
            r,
            loop_operation(
                kind,
                "initialize WASAPI QPC timestamp mapping"@,
                "initialize WASAPI process-loopback QPC timestamp mapping"@,
            ),
            "qpc-clock-unavailable"@,
        ),
{
    let operation = match kind {
        WasapiLoopKind::Endpoint => "initialize WASAPI QPC timestamp mapping",
        WasapiLoopKind::ProcessLoopback => "initialize WASAPI process-loopback QPC timestamp mapping",
    };
    CaptureLoopFailure::BackendClass { operation, class: "qpc-clock-unavailable" }
}

/// A selected process that exited or whose watch failed ends the loop.
pub fn process_watch_step(observation: ProcessInstanceWatchObservation) -> (r: Result<
    (),
    CaptureLoopFailure,
>)
    ensures
        match observation {
            ProcessInstanceWatchObservation::Running => r is Ok,
            ProcessInstanceWatchObservation::Exited => r matches Err(
                CaptureLoopFailure::ProcessExited,
            ),
            ProcessInstanceWatchObservation::Failed { status_code } => r matches Err(
                CaptureLoopFailure::ProcessWatchFailed { status_code: code },
            ) && code == status_code,
        },
{
    match observation {
        ProcessInstanceWatchObservation::Running => Ok(()),
        ProcessInstanceWatchObservation::Exited => Err(CaptureLoopFailure::ProcessExited),
        ProcessInstanceWatchObservation::Failed { status_code } => Err(
            CaptureLoopFailure::ProcessWatchFailed { status_code },
        ),
    }
}

/// What the process-loopback loop does after waiting on its capture event.
#[derive(Debug, Clone, Copy, PartialEq, Eq, Structural)]
pub enum CaptureEventWait {
    /// The event was signalled: drain the packets.
    Signalled,
    /// The wait timed out: check for stop and wait again.
    TimedOut,
}

/// Reads the result of waiting on the process-loopback capture event; a
/// failed wait reports the thread's last error as an HRESULT, and any other
/// result is an unexpected status.
pub fn capture_event_wait_step(wait_result: u32, last_error: u32) -> (r: Result<
    CaptureEventWait,
    CaptureLoopFailure,
>)
    ensures
        wait_result == WAIT_OBJECT_0 ==> r == Ok::<CaptureEventWait, CaptureLoopFailure>(
            CaptureEventWait::Signalled,
        ),
        wait_result == WAIT_TIMEOUT ==> r == Ok::<CaptureEventWait, CaptureLoopFailure>(
            CaptureEventWait::TimedOut,
        ),
        wait_result == WAIT_FAILED ==> (r matches Err(
            CaptureLoopFailure::Windows { operation, status_code },
        ) && operation@ == "wait for WASAPI process-loopback capture event"@ && status_code
            == spec_hresult_from_win32(last_error)),
        wait_result != WAIT_OBJECT_0 && wait_result != WAIT_TIMEOUT && wait_result != WAIT_FAILED
            ==> (r matches Err(failure) && is_backend_class(
            failure,
            "wait for WASAPI process-loopback capture event"@,
            "unexpected-wait-status"@,
        )),
{
    if wait_result == WAIT_OBJECT_0 {
        Ok(CaptureEventWait::Signalled)
    } else if wait_result == WAIT_TIMEOUT {
        Ok(CaptureEventWait::TimedOut)
    } else if wait_result == WAIT_FAILED {
        Err(
            CaptureLoopFailure::Windows {
                operation: "wait for WASAPI process-loopback capture event",
                status_code: hresult_from_win32(last_error),
            },
        )
    } else {
        Err(
            CaptureLoopFailure::BackendClass {
                operation: "wait for WASAPI process-loopback capture event",
                class: "unexpected-wait-status",
            },
        )
    }
}

/// Whether a packet of `packet_frames` stereo `f32` frames fits callback
/// storage of `capacity_bytes`.
pub open spec fn packet_fits(packet_frames: u32, capacity_bytes: usize) -> bool {
    packet_bytes(packet_frames, CAPTURE_CHANNEL_COUNT, SAMPLE_BYTES) matches Some(bytes) && bytes
        <= capacity_bytes
}

/// Whether to read the announced next packet: an empty announcement ends
/// the drain, one that fits is read, and one that cannot fit the callback
/// storage ends capture.
pub fn announced_packet_step(
    kind: WasapiLoopKind,
    announced_frames: u32,
    capacity_bytes: usize,
) -> (r: Result<bool, CaptureLoopFailure>)
    ensures
        announced_frames == 0 ==> r == Ok::<bool, CaptureLoopFailure>(false),
        announced_frames > 0 && packet_fits(announced_frames, capacity_bytes) ==> r == Ok::<
            bool,
            CaptureLoopFailure,
        >(true),
        announced_frames > 0 && !packet_fits(announced_frames, capacity_bytes) ==> (r matches Err(
            failure,
        ) && is_backend_class(
            failure,
            loop_operation(
                kind,
                "validate announced WASAPI packet size"@,
                "validate announced WASAPI process-loopback packet size"@,
            ),
            "announced-packet-oversized"@,
        )),
{
    match plan_packet_read(announced_frames, CAPTURE_CHANNEL_COUNT, SAMPLE_BYTES, capacity_bytes) {
        PacketReadPlan::Empty => Ok(false),
        PacketReadPlan::Read { .. } => Ok(true),
        PacketReadPlan::Oversized { .. } => {
            let operation = match kind {
                WasapiLoopKind::Endpoint => "validate announced WASAPI packet size",
                WasapiLoopKind::ProcessLoopback => "validate announced WASAPI process-loopback packet size",
            };
            Err(CaptureLoopFailure::BackendClass { operation, class: "announced-packet-oversized" })
        },
    }
}

/// Bytes of a delivered packet of `delivered_frames` frames: none for an
/// empty packet; a packet that cannot fit the callback storage ends capture,
/// and so does a process-loopback packet with audible samples but no data.
pub fn delivered_packet_bytes(
    kind: WasapiLoopKind,
    delivered_frames: u32,
    capacity_bytes: usize,
    silent: bool,
    data_present: bool,
) -> (r: Result<usize, CaptureLoopFailure>)
    ensures
        delivered_frames == 0 ==> r == Ok::<usize, CaptureLoopFailure>(0),
        delivered_frames > 0 && !packet_fits(delivered_frames, capacity_bytes) ==> (r matches Err(
            failure,
        ) && is_backend_class(
            failure,
            loop_operation(
                kind,
                "validate delivered WASAPI packet size"@,
                "validate delivered WASAPI process-loopback packet size"@,
            ),
            "delivered-packet-oversized"@,
        )),
        delivered_frames > 0 && packet_fits(delivered_frames, capacity_bytes) ==> {
            let bytes = packet_bytes(delivered_frames, CAPTURE_CHANNEL_COUNT, SAMPLE_BYTES)->0;
            if kind == WasapiLoopKind::ProcessLoopback && !silent && !data_present {
                r matches Err(failure) && is_backend_class(
                    failure,
                    "read WASAPI process-loopback packet"@,
                    "null-packet-data"@,
                )
            } else {
                r == Ok::<usize, CaptureLoopFailure>(bytes)
            }
        },
{
    match plan_packet_read(delivered_frames, CAPTURE_CHANNEL_COUNT, SAMPLE_BYTES, capacity_bytes) {
        PacketReadPlan::Empty => Ok(0),
        PacketReadPlan::Read { packet_bytes } => {
            if kind == WasapiLoopKind::ProcessLoopback && !silent && !data_present {
                Err(
                    CaptureLoopFailure::BackendClass {
                        operation: "read WASAPI process-loopback packet",
                        class: "null-packet-data",
                    },
                )
            } else {
                Ok(packet_bytes)
            }
        },
        PacketReadPlan::Oversized { .. } => {
            let operation = match kind {
                WasapiLoopKind::Endpoint => "validate delivered WASAPI packet size",
                WasapiLoopKind::ProcessLoopback => "validate delivered WASAPI process-loopback packet size",
            };
            Err(CaptureLoopFailure::BackendClass { operation, class: "delivered-packet-oversized" })
        },
    }
}

/// What becomes of a delivered packet once read.
#[derive(Debug, Clone, Copy, PartialEq, Eq, Structural)]
pub enum DeliveredPacket {
    /// The packet carried no samples.
    Skip,
    /// The device flagged the packet's timestamp as wrong; count it invalid.
    InvalidTimestamp,
    /// Deliver `sample_count` samples whose first frame was captured at
    /// `timestamp_ns` on the monotonic clock.
    Deliver { sample_count: usize, timestamp_ns: u64 },
}

/// Places a read packet of `packet_bytes` bytes on the monotonic clock from
/// its performance-counter position in 100 ns units; a position that cannot
/// be converted or mapped ends capture.
pub fn packet_timestamp(
    kind: WasapiLoopKind,
    packet_bytes: usize,
    timestamp_error: bool,
    qpc_position: u64,
    mapping: WasapiTimestampMapping,
) -> (r: Result<DeliveredPacket, CaptureLoopFailure>)
    ensures
        packet_bytes == 0 ==> r == Ok::<DeliveredPacket, CaptureLoopFailure>(DeliveredPacket::Skip),
        packet_bytes > 0 && timestamp_error ==> r == Ok::<DeliveredPacket, CaptureLoopFailure>(
            DeliveredPacket::InvalidTimestamp,
        ),
        packet_bytes > 0 && !timestamp_error && qpc_position * 100 > u64::MAX ==> (r matches Err(
            failure,
        ) && is_backend_class(
            failure,
            loop_operation(
                kind,
                "convert WASAPI packet timestamp"@,
                "convert WASAPI process-loopback packet timestamp"@,
            ),
            "qpc-timestamp-out-of-range"@,
        )),
        packet_bytes > 0 && !timestamp_error && qpc_position * 100 <= u64::MAX ==> match spec_to_monotonic(
            mapping,
            (qpc_position * 100) as u64,
        ) {
            Some(timestamp_ns) => r == Ok::<DeliveredPacket, CaptureLoopFailure>(
                DeliveredPacket::Deliver { sample_count: packet_bytes / SAMPLE_BYTES, timestamp_ns },
            ),
            None => r matches Err(failure) && is_backend_class(
                failure,
                loop_operation(
                    kind,
                    "map WASAPI packet timestamp"@,
                    "map WASAPI process-loopback packet timestamp"@,
                ),
                "qpc-timestamp-out-of-range"@,
            ),
        },
{
    if packet_bytes == 0 {
        return Ok(DeliveredPacket::Skip);
    }
    if timestamp_error {
        return Ok(DeliveredPacket::InvalidTimestamp);
    }
    let qpc_timestamp_ns = match wasapi_qpc_100ns_to_ns(qpc_position) {
        Some(ns) => ns,
        None => {
            let operation = match kind {
                WasapiLoopKind::Endpoint => "convert WASAPI packet timestamp",
                WasapiLoopKind::ProcessLoopback => "convert WASAPI process-loopback packet timestamp",
            };
            return Err(
                CaptureLoopFailure::BackendClass { operation, class: "qpc-timestamp-out-of-range" },
            );
        },
    };
    match mapping.to_monotonic_ns(qpc_timestamp_ns) {
        Some(timestamp_ns) => Ok(
            DeliveredPacket::Deliver { sample_count: packet_bytes / SAMPLE_BYTES, timestamp_ns },
        ),
        None => {
            let operation = match kind {
                WasapiLoopKind::Endpoint => "map WASAPI packet timestamp",
                WasapiLoopKind::ProcessLoopback => "map WASAPI process-loopback packet timestamp",
            };
            Err(CaptureLoopFailure::BackendClass { operation, class: "qpc-timestamp-out-of-range" })
        },
    }
}

/// A delivered packet is never larger than the callback storage: whatever
/// byte count the delivery step accepts fits it, as whole stereo frames.
pub proof fn lemma_accepted_packet_fits(delivered_frames: u32, capacity_bytes: usize)
    requires
        delivered_frames > 0,
        packet_fits(delivered_frames, capacity_bytes),
    ensures
        packet_bytes(delivered_frames, CAPTURE_CHANNEL_COUNT, SAMPLE_BYTES)->0 <= capacity_bytes,
        packet_bytes(delivered_frames, CAPTURE_CHANNEL_COUNT, SAMPLE_BYTES)->0 == delivered_frames
            * 8,
{
}

} // verus!
