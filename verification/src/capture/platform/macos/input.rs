//! Decisions of the macOS microphone input: the permission gate, the device
//! and buffer sizes a capture opens, stream-error classification and the
//! timestamp of each captured packet.

use vstd::prelude::*;

use crate::capture::authorization::{CaptureError, PermissionObservation};
use crate::capture::platform::macos::input_format::{
    spec_maximum_resampled_frames, maximum_resampled_frames, SelectedInputFormat,
};
use crate::capture::selection::InputDeviceSelector;
use crate::text::{push_str, text_equals};

verus! {

/// Refuses to open the microphone when the platform reported capture as
/// denied, restricted or revoked; otherwise the native open decides.
pub fn require_microphone_permission(permission: PermissionObservation) -> (r: Result<
    (),
    CaptureError,
>)
    ensures
        (permission == PermissionObservation::Denied || permission
            == PermissionObservation::Restricted || permission == PermissionObservation::Revoked)
            ==> r == Err::<(), CaptureError>(
            CaptureError::PermissionDenied { operation: "opening the macOS microphone input stream" },
        ),
        !(permission == PermissionObservation::Denied || permission
            == PermissionObservation::Restricted || permission == PermissionObservation::Revoked)
            ==> r is Ok,
{
    match permission {
        PermissionObservation::Denied
        | PermissionObservation::Restricted
        | PermissionObservation::Revoked => Err(
            CaptureError::PermissionDenied { operation: "opening the macOS microphone input stream" },
        ),
        PermissionObservation::Allowed
        | PermissionObservation::NotDetermined
        | PermissionObservation::NotObservable
        | PermissionObservation::NotApplicable => Ok(()),
    }
}


/// Longest stream-error class name; the error callback preallocates this
/// much so that classifying never allocates.
pub const CPAL_ERROR_CLASS_CAPACITY: usize = 32;

/// Kinds of error an input stream reports.
#[derive(Debug, Clone, Copy, PartialEq, Eq, Structural)]
pub enum InputStreamErrorKind {
    DeviceBusy,
    DeviceChanged,
    DeviceNotAvailable,
    HostUnavailable,
    InvalidInput,
    PermissionDenied,
    RealtimeDenied,
    ResourceExhausted,
    StreamInvalidated,
    UnsupportedConfig,
    UnsupportedOperation,
    Xrun,
    BackendError,
    Other,
    /// A kind this library does not know.
    Unrecognized,
}

/// The class name a stream error is reported under.
pub open spec fn spec_error_class(kind: InputStreamErrorKind) -> Seq<char> {
    match kind {
        InputStreamErrorKind::DeviceBusy => "cpal-device-busy"@,
        InputStreamErrorKind::DeviceChanged => "cpal-device-changed"@,
        InputStreamErrorKind::DeviceNotAvailable => "cpal-device-not-available"@,
        InputStreamErrorKind::HostUnavailable => "cpal-host-unavailable"@,
        InputStreamErrorKind::InvalidInput => "cpal-invalid-input"@,
        InputStreamErrorKind::PermissionDenied => "cpal-permission-denied"@,
        InputStreamErrorKind::RealtimeDenied => "cpal-realtime-denied"@,
        InputStreamErrorKind::ResourceExhausted => "cpal-resource-exhausted"@,
        InputStreamErrorKind::StreamInvalidated => "cpal-stream-invalidated"@,
        InputStreamErrorKind::UnsupportedConfig => "cpal-unsupported-config"@,
        InputStreamErrorKind::UnsupportedOperation => "cpal-unsupported-operation"@,
        InputStreamErrorKind::Xrun => "cpal-xrun"@,
        InputStreamErrorKind::BackendError => "cpal-backend-error"@,
        InputStreamErrorKind::Other => "cpal-other"@,
        InputStreamErrorKind::Unrecognized => "cpal-unrecognized-error"@,
    }
}

/// Names the class of a stream error; every name fits in
/// `CPAL_ERROR_CLASS_CAPACITY` bytes.
pub fn cpal_error_class(kind: InputStreamErrorKind) -> (r: &'static str)
    ensures
        r@ == spec_error_class(kind),
        r@.len() <= CPAL_ERROR_CLASS_CAPACITY,
{
    proof {
        reveal_strlit("cpal-device-busy");
        reveal_strlit("cpal-device-changed");
        reveal_strlit("cpal-device-not-available");
        reveal_strlit("cpal-host-unavailable");
        reveal_strlit("cpal-invalid-input");
        reveal_strlit("cpal-permission-denied");
        reveal_strlit("cpal-realtime-denied");
        reveal_strlit("cpal-resource-exhausted");
        reveal_strlit("cpal-stream-invalidated");
        reveal_strlit("cpal-unsupported-config");
        reveal_strlit("cpal-unsupported-operation");
        reveal_strlit("cpal-xrun");
        reveal_strlit("cpal-backend-error");
        reveal_strlit("cpal-other");
        reveal_strlit("cpal-unrecognized-error");
    }
    match kind {
        InputStreamErrorKind::DeviceBusy => "cpal-device-busy",
        InputStreamErrorKind::DeviceChanged => "cpal-device-changed",
        InputStreamErrorKind::DeviceNotAvailable => "cpal-device-not-available",
        InputStreamErrorKind::HostUnavailable => "cpal-host-unavailable",
        InputStreamErrorKind::InvalidInput => "cpal-invalid-input",
        InputStreamErrorKind::PermissionDenied => "cpal-permission-denied",
        InputStreamErrorKind::RealtimeDenied => "cpal-realtime-denied",
        InputStreamErrorKind::ResourceExhausted => "cpal-resource-exhausted",
        InputStreamErrorKind::StreamInvalidated => "cpal-stream-invalidated",
        InputStreamErrorKind::UnsupportedConfig => "cpal-unsupported-config",
        InputStreamErrorKind::UnsupportedOperation => "cpal-unsupported-operation",
        InputStreamErrorKind::Xrun => "cpal-xrun",
        InputStreamErrorKind::BackendError => "cpal-backend-error",
        InputStreamErrorKind::Other => "cpal-other",
        InputStreamErrorKind::Unrecognized => "cpal-unrecognized-error",
    }
}

/// A stream keeps running after a device change, a realtime-priority denial
/// or an overrun; any other error ends it.
pub fn cpal_stream_continues(kind: InputStreamErrorKind) -> (r: bool)
    ensures
        r == (kind == InputStreamErrorKind::DeviceChanged || kind == InputStreamErrorKind::RealtimeDenied
            || kind == InputStreamErrorKind::Xrun),
{
    match kind {
        InputStreamErrorKind::DeviceChanged
        | InputStreamErrorKind::RealtimeDenied
        | InputStreamErrorKind::Xrun => true,
        _ => false,
    }
}

/// A device change or an overrun breaks the continuity of the samples.
pub fn cpal_stream_has_discontinuity(kind: InputStreamErrorKind) -> (r: bool)
    ensures
        r == (kind == InputStreamErrorKind::DeviceChanged || kind == InputStreamErrorKind::Xrun),
{
    match kind {
        InputStreamErrorKind::DeviceChanged | InputStreamErrorKind::Xrun => true,
        _ => false,
    }
}

/// When a captured packet's first sample was taken, on the process clock.
#[derive(Debug, Clone, Copy, PartialEq, Eq, Structural)]
pub struct InputCaptureTimestamp {
    pub timestamp_ns: u64,
    /// The capture preceded the process clock's epoch and was raised to its
    /// earliest representable instant.
    pub epoch_clamped: bool,
}

/// Places a packet's capture `capture_before_callback_ns` before the moment
/// its callback was observed; a capture at or before the clock's epoch is
/// clamped to one nanosecond.
pub fn input_capture_timestamp(callback_observed_at_ns: u64, capture_before_callback_ns: u128) -> (r:
    InputCaptureTimestamp)
    ensures
        if capture_before_callback_ns < callback_observed_at_ns {
            r == (InputCaptureTimestamp {
                timestamp_ns: (callback_observed_at_ns - capture_before_callback_ns) as u64,
                epoch_clamped: false,
            })
        } else {
            r == (InputCaptureTimestamp { timestamp_ns: 1, epoch_clamped: true })
        },
{
    let before: u64 = if capture_before_callback_ns > u64::MAX as u128 {
        u64::MAX
    } else {
        capture_before_callback_ns as u64
    };
    match callback_observed_at_ns.checked_sub(before) {
        Some(timestamp_ns) => if timestamp_ns != 0 {
            InputCaptureTimestamp { timestamp_ns, epoch_clamped: false }
        } else {
            InputCaptureTimestamp { timestamp_ns: 1, epoch_clamped: true }
        },
        None => InputCaptureTimestamp { timestamp_ns: 1, epoch_clamped: true },
    }
}

/// Which input device a capture opens.
#[derive(Debug, Clone, Copy, PartialEq, Eq, Structural)]
pub enum InputDeviceChoice {
    /// The host's default input device.
    HostDefault,
    /// The enumerated device at this index.
    Enumerated(usize),
}

/// Index of the first enumerated device at or after `from` whose id reads as
/// `expected`.
pub open spec fn first_device_with_id(ids: Seq<Option<String>>, expected: Seq<char>, from: int) -> Option<int>
    decreases ids.len() - from,
{
    if from < 0 || from >= ids.len() {
        None
    } else if ids[from] matches Some(id) && id@ == expected {
        Some(from)
    } else {
        first_device_with_id(ids, expected, from + 1)
    }
}

/// Chooses the device for a selector: the host default, which must exist,
/// or the first enumerated device whose id is the selector's. `device_ids`
/// holds each enumerated device's id, none where reading it failed.
pub fn select_input_device(
    selector: &InputDeviceSelector,
    default_available: bool,
    device_ids: &[Option<String>],
) -> (r: Result<InputDeviceChoice, CaptureError>)
    ensures
        match *selector {
            InputDeviceSelector::Default => if default_available {
                r == Ok::<InputDeviceChoice, CaptureError>(InputDeviceChoice::HostDefault)
            } else {
                r matches Err(CaptureError::BackendInit(message)) && message@
                    == "no default physical input device is available"@
            },
            InputDeviceSelector::StableId(expected) => match first_device_with_id(
                device_ids@,
                expected@,
                0,
            ) {
                Some(k) => r matches Ok(InputDeviceChoice::Enumerated(index)) && index == k,
                None => r matches Err(CaptureError::BackendInit(message)) && message@
                    == "physical input device is unavailable: "@ + expected@,
            },
        },
{
    match selector {
        InputDeviceSelector::Default => {
            if default_available {
                Ok(InputDeviceChoice::HostDefault)
            } else {
                Err(
                    CaptureError::BackendInit(
                        "no default physical input device is available".to_owned(),
                    ),
                )
            }
        },
        InputDeviceSelector::StableId(expected) => {
            let mut index: usize = 0;
            while index < device_ids.len()
                invariant
                    index <= device_ids@.len(),
                    *selector == InputDeviceSelector::StableId(*expected),
                    first_device_with_id(device_ids@, expected@, 0) == first_device_with_id(
                        device_ids@,
                        expected@,
                        index as int,
                    ),
                decreases device_ids@.len() - index,
            {
                if let Some(id) = &device_ids[index] {
                    if text_equals(id.as_str(), expected.as_str()) {
                        assert(device_ids@[index as int] == Some(*id));
                        assert(first_device_with_id(device_ids@, expected@, index as int) == Some(
                            index as int,
                        ));
                        return Ok(InputDeviceChoice::Enumerated(index));
                    }
                }
                index = index + 1;
            }
            let mut message = String::new();
            push_str(&mut message, "physical input device is unavailable: ");
            push_str(&mut message, expected.as_str());
            Err(CaptureError::BackendInit(message))
        },
    }
}

/// Longest callback, in milliseconds, assumed when the device does not say.
pub const FALLBACK_MAX_CALLBACK_DURATION_MS: u32 = 200;

/// The fixed sizes of an input capture's packet storage.
#[derive(Debug, Clone, Copy, PartialEq, Eq, Structural)]
pub struct InputPacketPlan {
    pub native_channels: u8,
    pub maximum_callback_frames: u32,
    pub maximum_callback_samples: usize,
    pub maximum_callback_bytes: usize,
    pub maximum_native_frames: usize,
    pub maximum_canonical_frames: usize,
}

/// Frames of the longest callback: 200 ms at the native rate (at least one),
/// clamped into the buffer-size range the device advertises.
pub open spec fn spec_callback_frames(sample_rate_hz: u32, buffer_size: Option<(u32, u32)>) -> u32 {
    let fallback = if sample_rate_hz / 5 == 0 {
        1
    } else {
        sample_rate_hz / 5
    };
    match buffer_size {
        Some((min, max)) => {
            let raised = if fallback < min {
                min
            } else {
                fallback
            };
            if raised > max {
                max
            } else {
                raised
            }
        },
        None => fallback,
    }
}

/// The packet storage a selected format needs, or the reason it cannot be
/// sized.
pub open spec fn spec_input_packet_plan(
    selected: SelectedInputFormat,
    buffer_size: Option<(u32, u32)>,
) -> Result<InputPacketPlan, Seq<char>> {
    let channels = selected.native.channel_count;
    let frames = spec_callback_frames(selected.native.sample_rate_hz, buffer_size);
    let samples = frames * channels;
    let bytes = samples * selected.sample_size_bytes;
    if channels == 0 || channels > u8::MAX {
        Err("input device channel count is invalid"@)
    } else if samples > usize::MAX {
        Err("input pool size overflow"@)
    } else if bytes > usize::MAX {
        Err("input packet size overflow"@)
    } else {
        match spec_maximum_resampled_frames(
            (samples / (channels as int)) as usize,
            selected.native.sample_rate_hz,
        ) {
            Some(canonical) => Ok(
                InputPacketPlan {
                    native_channels: channels as u8,
                    maximum_callback_frames: frames,
                    maximum_callback_samples: samples as usize,
                    maximum_callback_bytes: bytes as usize,
                    maximum_native_frames: (samples / (channels as int)) as usize,
                    maximum_canonical_frames: canonical,
                },
            ),
            None => Err("input resampling pool size overflow"@),
        }
    }
}

/// Sizes the packet storage of an input capture from its selected format
/// and the buffer-size range the device advertises, if any.
pub fn plan_input_packets(selected: &SelectedInputFormat, buffer_size: Option<(u32, u32)>) -> (r:
    Result<InputPacketPlan, CaptureError>)
    ensures
        match spec_input_packet_plan(*selected, buffer_size) {
            Ok(plan) => r == Ok::<InputPacketPlan, CaptureError>(plan),
            Err(message) => r matches Err(CaptureError::BackendInit(text)) && text@ == message,
        },
{
    let channel_count = selected.native.channel_count;
    if channel_count == 0 || channel_count > 255 {
        return Err(CaptureError::BackendInit("input device channel count is invalid".to_owned()));
    }
    let native_channels = channel_count as u8;
    let rate = selected.native.sample_rate_hz;
    let fallback: u32 = if rate / 5 == 0 {
        1
    } else {
        rate / 5
    };
    let frames: u32 = match buffer_size {
        Some((min, max)) => {
            let raised = if fallback < min {
                min
            } else {
                fallback
            };
            if raised > max {
                max
            } else {
                raised
            }
        },
        None => fallback,
    };
    let samples = match (frames as usize).checked_mul(native_channels as usize) {
        Some(samples) => samples,
        None => {
            return Err(CaptureError::BackendInit("input pool size overflow".to_owned()));
        },
    };
    let bytes = match samples.checked_mul(selected.sample_size_bytes) {
        Some(bytes) => bytes,
        None => {
            return Err(CaptureError::BackendInit("input packet size overflow".to_owned()));
        },
    };
    let native_frames = samples / (native_channels as usize);
    match maximum_resampled_frames(native_frames, rate) {
        Some(canonical) => Ok(
            InputPacketPlan {
                native_channels,
                maximum_callback_frames: frames,
                maximum_callback_samples: samples,
                maximum_callback_bytes: bytes,
                maximum_native_frames: native_frames,
                maximum_canonical_frames: canonical,
            },
        ),
        None => Err(
            CaptureError::BackendInit("input resampling pool size overflow".to_owned()),
        ),
    }
}

impl InputPacketPlan {
    /// Whether a callback's data fits the packet storage: in the opened
    /// sample format and within the sized samples and bytes.
    pub fn fits(&self, sample_format_matches: bool, sample_count: usize, byte_count: usize) -> (r: bool)
        ensures
            r == (sample_format_matches && sample_count <= self.maximum_callback_samples
                && byte_count <= self.maximum_callback_bytes),
    {
        sample_format_matches && sample_count <= self.maximum_callback_samples && byte_count
            <= self.maximum_callback_bytes
    }
}

/// `value + 1`, saturating at `u64::MAX`.
pub open spec fn next_sequence(value: u64) -> u64 {
    if value == u64::MAX {
        u64::MAX
    } else {
        (value + 1) as u64
    }
}

/// The input reader's frame numbering: the sequence number the next frame
/// carries, and whether a conversion failure left a gap that the next
/// packet must start after.
#[derive(Clone, Copy, Debug, PartialEq, Eq, Structural)]
pub struct InputReaderSequence {
    pub sequence_number: u64,
    pub conversion_discontinuity_pending: bool,
}

impl InputReaderSequence {
    /// Numbering of a reader that has read nothing: the first frame is
    /// number zero.
    pub fn new() -> (r: Self)
        ensures
            r == (InputReaderSequence { sequence_number: 0, conversion_discontinuity_pending: false }),
    {
        InputReaderSequence { sequence_number: 0, conversion_discontinuity_pending: false }
    }

    /// Takes up a packet. When the packet starts after a gap the callback
    /// saw, or after a conversion failure, the sequence skips one number so
    /// that the gap shows downstream, the pending failure is cleared, and
    /// the result asks the caller to reset its framing and rate conversion.
    pub fn begin_packet(&mut self, starts_after_discontinuity: bool) -> (r: bool)
        ensures
            r == (starts_after_discontinuity || old(self).conversion_discontinuity_pending),
            *final(self) == if r {
                InputReaderSequence {
                    sequence_number: next_sequence(old(self).sequence_number),
                    conversion_discontinuity_pending: false,
                }
            } else {
                *old(self)
            },
    {
        if starts_after_discontinuity || self.conversion_discontinuity_pending {
            self.sequence_number = self.sequence_number.saturating_add(1);
            self.conversion_discontinuity_pending = false;
            true
        } else {
            false
        }
    }

    /// Records that decoding, rate conversion or framing refused a packet:
    /// the next packet starts after a gap.
    pub fn conversion_failed(&mut self)
        ensures
            *final(self) == (InputReaderSequence {
                conversion_discontinuity_pending: true,
                ..*old(self)
            }),
    {
        self.conversion_discontinuity_pending = true;
    }

    /// The number of the frame being emitted; the next frame takes the
    /// following number, saturating at `u64::MAX`.
    pub fn next_frame(&mut self) -> (r: u64)
        ensures
            r == old(self).sequence_number,
            *final(self) == (InputReaderSequence {
                sequence_number: next_sequence(old(self).sequence_number),
                ..*old(self)
            }),
    {
        let number = self.sequence_number;
        self.sequence_number = self.sequence_number.saturating_add(1);
        number
    }
}

/// Frame numbers never go back and a gap always shows: across a packet
/// that starts after a discontinuity, the next frame's number is greater
/// than any number already handed out (below the saturation point).
pub proof fn lemma_gap_skips_a_number(reader: InputReaderSequence, emitted: u64)
    requires
        emitted < reader.sequence_number < u64::MAX,
    ensures
        next_sequence(reader.sequence_number) > emitted + 1,
{
}

} // verus!
