//! Decisions of the C Opus codec boundary: which encoder requests are
//! accepted, and which result code each encode and bitrate call reports.
//!
//! The encoder itself is the codec's; the boundary decides what reaches it
//! and reports its outcome as a stable C integer.

use vstd::prelude::*;

use crate::codec::config::OpusChannels;

verus! {

/// The only sample rate an Opus encoder is created at.
pub const OPUS_ENCODER_SAMPLE_RATE_HZ: u32 = 48_000;

/// Stable negative result codes returned by codec operations.
#[derive(Clone, Copy, Debug, PartialEq, Eq, Structural)]
pub enum PksCodecErrorCode {
    InvalidPointer,
    Encode,
    OutputTooSmall,
    InvalidFrame,
    InternalPanic,
}

/// C value of each result code.
pub open spec fn codec_error_value(code: PksCodecErrorCode) -> int {
    match code {
        PksCodecErrorCode::InvalidPointer => -1,
        PksCodecErrorCode::Encode => -2,
        PksCodecErrorCode::OutputTooSmall => -3,
        PksCodecErrorCode::InvalidFrame => -4,
        PksCodecErrorCode::InternalPanic => -5,
    }
}

impl PksCodecErrorCode {
    /// The code's C value.
    pub fn as_c_int(self) -> (r: i32)
        ensures
            r == codec_error_value(self),
            r < 0,
    {
        match self {
            PksCodecErrorCode::InvalidPointer => -1,
            PksCodecErrorCode::Encode => -2,
            PksCodecErrorCode::OutputTooSmall => -3,
            PksCodecErrorCode::InvalidFrame => -4,
            PksCodecErrorCode::InternalPanic => -5,
        }
    }
}

/// The channel layout and target bitrate an encoder request asks for: only
/// 48 kHz, mono or stereo; a zero bitrate leaves the bitrate to Opus. Any
/// other request is refused.
pub fn encoder_create_request(sample_rate: u32, channels: u8, bitrate_kbps: u32) -> (r: Option<
    (OpusChannels, Option<u32>),
>)
    ensures
        r is Some <==> (sample_rate == OPUS_ENCODER_SAMPLE_RATE_HZ && (channels == 1 || channels
            == 2)),
        r matches Some((layout, bitrate)) ==> {
            &&& layout == (if channels == 1 {
                OpusChannels::Mono
            } else {
                OpusChannels::Stereo
            })
            &&& bitrate == (if bitrate_kbps > 0 {
                Some(bitrate_kbps)
            } else {
                None
            })
        },
{
    if sample_rate != OPUS_ENCODER_SAMPLE_RATE_HZ {
        return None;
    }
    let layout = match channels {
        1 => OpusChannels::Mono,
        2 => OpusChannels::Stereo,
        _ => {
            return None;
        },
    };
    let bitrate = if bitrate_kbps > 0 {
        Some(bitrate_kbps)
    } else {
        None
    };
    Some((layout, bitrate))
}

/// What the encoder found of a frame's sample count.
#[derive(Clone, Copy, Debug, PartialEq, Eq, Structural)]
pub enum FrameSampleCountCheck {
    Valid,
    InvalidFrameSampleCount,
    OpusFailure,
}

/// Whether an encode call may reach the encoder: every pointer present, a
/// complete supported frame, and output room for the largest packet. The
/// first failed check decides the code, and nothing is encoded or copied.
pub fn encode_precheck(
    encoder_present: bool,
    pcm_present: bool,
    output_present: bool,
    frame_check: FrameSampleCountCheck,
    output_capacity: usize,
    max_packet_bytes: usize,
) -> (r: Result<(), PksCodecErrorCode>)
    ensures
        r == (if !encoder_present || !pcm_present || !output_present {
            Err(PksCodecErrorCode::InvalidPointer)
        } else if frame_check == FrameSampleCountCheck::InvalidFrameSampleCount {
            Err(PksCodecErrorCode::InvalidFrame)
        } else if frame_check == FrameSampleCountCheck::OpusFailure {
            Err(PksCodecErrorCode::Encode)
        } else if output_capacity < max_packet_bytes {
            Err(PksCodecErrorCode::OutputTooSmall)
        } else {
            Ok(())
        }),
{
    if !encoder_present || !pcm_present || !output_present {
        return Err(PksCodecErrorCode::InvalidPointer);
    }
    match frame_check {
        FrameSampleCountCheck::Valid => {},
        FrameSampleCountCheck::InvalidFrameSampleCount => {
            return Err(PksCodecErrorCode::InvalidFrame);
        },
        FrameSampleCountCheck::OpusFailure => {
            return Err(PksCodecErrorCode::Encode);
        },
    }
    if output_capacity < max_packet_bytes {
        return Err(PksCodecErrorCode::OutputTooSmall);
    }
    Ok(())
}

/// The C result of an encode call: the packet's byte count, or the code of
/// what stopped it.
pub fn encode_status(outcome: Result<usize, FrameSampleCountCheck>) -> (r: i32)
    requires
        outcome matches Ok(bytes) ==> bytes <= i32::MAX,
    ensures
        match outcome {
            Ok(bytes) => r == bytes,
            Err(FrameSampleCountCheck::InvalidFrameSampleCount) => r == codec_error_value(
                PksCodecErrorCode::InvalidFrame,
            ),
            Err(_) => r == codec_error_value(PksCodecErrorCode::Encode),
        },
{
    match outcome {
        Ok(bytes) => bytes as i32,
        Err(FrameSampleCountCheck::InvalidFrameSampleCount) => PksCodecErrorCode::InvalidFrame.as_c_int(),
        Err(_) => PksCodecErrorCode::Encode.as_c_int(),
    }
}

/// The C result of a bitrate update: a missing encoder, success, or an
/// encoder that refused the bitrate.
pub fn set_bitrate_status(encoder_present: bool, accepted: bool) -> (r: i32)
    ensures
        r == (if !encoder_present {
            codec_error_value(PksCodecErrorCode::InvalidPointer)
        } else if accepted {
            0
        } else {
            codec_error_value(PksCodecErrorCode::Encode)
        }),
{
    if !encoder_present {
        PksCodecErrorCode::InvalidPointer.as_c_int()
    } else if accepted {
        0
    } else {
        PksCodecErrorCode::Encode.as_c_int()
    }
}

} // verus!
