use pocketstation::abi::codec::{
    encode_precheck, encode_status, encoder_create_request, set_bitrate_status,
    FrameSampleCountCheck, PksCodecErrorCode,
};
use pocketstation::codec::config::OpusChannels;

const MAX_PACKET_BYTES: usize = 4000;

#[test]
fn given_wrong_sample_rate_when_create_then_returns_null() {
    assert!(
        encoder_create_request(44_100, 1, 64).is_none(),
        "must reject non-48000 sample rate"
    );
}

#[test]
fn given_invalid_channel_count_when_create_then_returns_null() {
    assert!(
        encoder_create_request(48_000, 3, 64).is_none(),
        "must reject channels != 1 or 2"
    );
}

#[test]
fn given_null_encoder_when_encode_then_returns_minus_one() {
    let status = match encode_precheck(
        false,
        true,
        true,
        FrameSampleCountCheck::Valid,
        MAX_PACKET_BYTES,
        MAX_PACKET_BYTES,
    ) {
        Ok(()) => 0,
        Err(code) => code.as_c_int(),
    };
    assert_eq!(status, -1);
}

#[test]
fn given_null_encoder_when_set_bitrate_then_returns_minus_one() {
    assert_eq!(set_bitrate_status(false, true), -1);
}

#[test]
fn codec_create_request_keeps_layout_and_bitrate() {
    assert_eq!(
        encoder_create_request(48_000, 2, 64),
        Some((OpusChannels::Stereo, Some(64)))
    );
    assert_eq!(
        encoder_create_request(48_000, 1, 0),
        Some((OpusChannels::Mono, None))
    );
}

#[test]
fn codec_precheck_reports_the_first_failed_check() {
    assert_eq!(
        encode_precheck(true, true, true, FrameSampleCountCheck::InvalidFrameSampleCount, 1, 4000),
        Err(PksCodecErrorCode::InvalidFrame)
    );
    assert_eq!(
        encode_precheck(true, true, true, FrameSampleCountCheck::OpusFailure, 4000, 4000),
        Err(PksCodecErrorCode::Encode)
    );
    assert_eq!(
        encode_precheck(true, true, true, FrameSampleCountCheck::Valid, 1, 4000),
        Err(PksCodecErrorCode::OutputTooSmall)
    );
    assert_eq!(
        encode_precheck(true, true, true, FrameSampleCountCheck::Valid, 4000, 4000),
        Ok(())
    );
    assert_eq!(PksCodecErrorCode::OutputTooSmall.as_c_int(), -3);
    assert_eq!(PksCodecErrorCode::InternalPanic.as_c_int(), -5);
}

#[test]
fn codec_status_reports_bytes_or_codes() {
    assert_eq!(encode_status(Ok(57)), 57);
    assert_eq!(
        encode_status(Err(FrameSampleCountCheck::InvalidFrameSampleCount)),
        -4
    );
    assert_eq!(encode_status(Err(FrameSampleCountCheck::OpusFailure)), -2);
    assert_eq!(set_bitrate_status(true, true), 0);
    assert_eq!(set_bitrate_status(true, false), -2);
}
