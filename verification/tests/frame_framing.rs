use pocketstation::capture::frame_framing::{CaptureFrameFraming, FrameEmission};

fn push_into(
    framing: &mut CaptureFrameFraming,
    callback_sample_count: usize,
    callback_timestamp_ns: u64,
    emitted: &mut Vec<(u64, usize)>,
) -> bool {
    let frame = framing.frame_sample_count();
    match framing.push(callback_sample_count, callback_timestamp_ns) {
        Some(emissions) => {
            for emission in emissions {
                emitted.push((emission.timestamp_ns, frame));
            }
            true
        }
        None => false,
    }
}

#[test]
fn given_two_1024_frame_stereo_callbacks_when_normalized_then_twenty_ms_frames_are_contiguous() {
    let mut normalizer = CaptureFrameFraming::new(960, 2, 48_000);
    let callback = 1_024 * 2;
    let mut emitted = Vec::new();

    assert!(push_into(&mut normalizer, callback, 1_000_000_000, &mut emitted));
    assert!(push_into(&mut normalizer, callback, 1_021_333_333, &mut emitted));

    assert_eq!(emitted, vec![(1_000_000_000, 1_920), (1_020_000_000, 1_920)]);
    assert_eq!(normalizer.pending_sample_count(), 256);
}

#[test]
fn given_two_half_frames_when_normalized_then_one_complete_frame_is_emitted() {
    let mut normalizer = CaptureFrameFraming::new(960, 1, 48_000);
    let mut emitted = Vec::new();

    assert!(push_into(&mut normalizer, 480, 2_000_000_000, &mut emitted));
    assert!(push_into(&mut normalizer, 480, 2_010_000_000, &mut emitted));

    assert_eq!(emitted, vec![(2_000_000_000, 960)]);
    assert_eq!(normalizer.pending_sample_count(), 0);
}

#[test]
fn given_voice_frame_duration_when_callback_is_larger_then_ten_ms_frames_are_contiguous() {
    let mut normalizer = CaptureFrameFraming::new(480, 1, 48_000);
    let mut emitted = Vec::new();

    assert!(push_into(&mut normalizer, 960, 3_000_000_000, &mut emitted));

    assert_eq!(emitted, vec![(3_000_000_000, 480), (3_010_000_000, 480)]);
    assert_eq!(normalizer.pending_sample_count(), 0);
}

#[test]
fn given_misaligned_stereo_callback_when_normalized_then_input_is_rejected() {
    let mut normalizer = CaptureFrameFraming::new(960, 2, 48_000);

    assert!(normalizer.push(3, 1).is_none());
    assert_eq!(normalizer.pending_sample_count(), 0);
}

#[test]
fn framing_reports_where_each_frame_ends_in_the_callback() {
    let mut framing = CaptureFrameFraming::new(4, 1, 1_000);
    assert_eq!(framing.push(3, 0), Some(vec![]));
    assert_eq!(
        framing.push(10, 50),
        Some(vec![
            FrameEmission { timestamp_ns: 1, source_end: 1 },
            FrameEmission { timestamp_ns: 4_000_001, source_end: 5 },
            FrameEmission { timestamp_ns: 8_000_001, source_end: 9 },
        ])
    );
    assert_eq!(framing.pending_sample_count(), 1);
    assert_eq!(framing.frame_sample_count(), 4);
}

#[test]
fn framing_refuses_empty_frames_and_missing_rates() {
    assert!(CaptureFrameFraming::new(0, 2, 48_000).push(2, 1).is_none());
    assert!(CaptureFrameFraming::new(960, 0, 48_000).push(0, 1).is_none());
    assert!(CaptureFrameFraming::new(960, 2, 0).push(2, 1).is_none());
}

#[test]
fn framing_saturates_timestamps_at_the_maximum() {
    let mut framing = CaptureFrameFraming::new(1, 1, 1);
    assert_eq!(
        framing.push(2, u64::MAX - 1),
        Some(vec![
            FrameEmission { timestamp_ns: u64::MAX - 1, source_end: 1 },
            FrameEmission { timestamp_ns: u64::MAX, source_end: 2 },
        ])
    );
}
