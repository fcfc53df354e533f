use pocketstation::capture::authorization::CaptureError;
use pocketstation::capture::frame_stream::{
    capture_delivery_start_gate, captured_frame_stream, captured_frame_stream_with_start_gate,
    delivery_outcome, CapturedFrameDelivery, CapturedFrameStreamStats,
};

#[derive(Debug, PartialEq, Eq)]
struct Frame {
    sequence_number: u64,
}

fn frame(sequence_number: u64) -> Frame {
    Frame { sequence_number }
}

#[test]
fn given_zero_capacity_when_stream_is_created_then_error_is_returned() {
    assert!(matches!(
        captured_frame_stream::<Frame>(0),
        Err(CaptureError::InvalidStreamCapacity)
    ));
}

#[test]
fn given_available_capacity_when_frame_is_sent_then_stream_preserves_frame() {
    let (mut sender, mut stream) = captured_frame_stream::<Frame>(2).unwrap();
    let observations = stream.observation_handle();

    assert_eq!(sender.try_send(frame(17)), CapturedFrameDelivery::Delivered);
    assert_eq!(observations.observations().delivered_frames, 1);
    assert_eq!(stream.try_next().unwrap().sequence_number, 17);
    assert_eq!(
        stream.stats(),
        CapturedFrameStreamStats {
            delivered_frames: 1,
            dropped_newest_frames: 0,
            frames_discarded_before_start_total: 0,
        }
    );
}

#[test]
fn given_closed_start_gate_when_frame_is_sent_then_frame_is_discarded_and_counted() {
    let (controller, gate) = capture_delivery_start_gate();
    let (mut sender, mut stream) = captured_frame_stream_with_start_gate::<Frame>(1, gate).unwrap();

    assert_eq!(
        sender.try_send(frame(1)),
        CapturedFrameDelivery::DiscardedBeforeStart
    );
    assert_eq!(stream.stats().frames_discarded_before_start_total, 1);
    assert!(stream.try_next().is_none());
    assert!(controller.open());
    assert_eq!(sender.try_send(frame(2)), CapturedFrameDelivery::Delivered);
    assert_eq!(stream.try_next().unwrap().sequence_number, 2);
    assert!(!controller.open());
}

#[test]
fn given_full_stream_when_frame_is_sent_then_newest_is_dropped_and_counted() {
    let (mut sender, mut stream) = captured_frame_stream::<Frame>(1).unwrap();

    assert_eq!(sender.try_send(frame(1)), CapturedFrameDelivery::Delivered);
    assert_eq!(sender.try_send(frame(2)), CapturedFrameDelivery::DroppedNewest);
    assert_eq!(stream.try_next().unwrap().sequence_number, 1);
    assert_eq!(stream.stats().dropped_newest_frames, 1);
    assert!(stream.try_next().is_none());
}

#[test]
fn given_sender_dropped_when_stream_checked_then_closed_is_true() {
    let (sender, stream) = captured_frame_stream::<Frame>(1).unwrap();
    drop(sender);
    assert!(stream.is_closed());
}

#[test]
fn stream_reports_its_capacity_and_stays_open_while_the_sender_lives() {
    let (sender, stream) = captured_frame_stream::<Frame>(3).unwrap();
    assert_eq!(stream.capacity_frames(), 3);
    assert!(!stream.is_closed());
    assert_eq!(sender.stats(), stream.stats());
}

#[test]
fn delivery_outcome_names_each_case() {
    assert_eq!(
        delivery_outcome(false, true),
        CapturedFrameDelivery::DiscardedBeforeStart
    );
    assert_eq!(delivery_outcome(true, true), CapturedFrameDelivery::Delivered);
    assert_eq!(
        delivery_outcome(true, false),
        CapturedFrameDelivery::DroppedNewest
    );
}

use pocketstation::capture::observations::CaptureObservationCounters;
use pocketstation::capture::frame_stream::frame_ring;
use pocketstation::capture::platform::linux::pipewire::enqueue_capture_frame;

#[test]
fn given_full_dispatch_ring_when_producer_pushes_then_failure_is_observed_once() {
    let counters = CaptureObservationCounters::default();
    let (mut producer, mut consumer) = frame_ring(1);

    assert!(enqueue_capture_frame(&mut producer, frame(0), &counters));
    assert!(!enqueue_capture_frame(&mut producer, frame(1), &counters));

    let observations = counters.snapshot();
    assert_eq!(observations.frames_enqueued_total, 1);
    assert_eq!(observations.dispatch_queue_full_total, 1);
    assert_eq!(
        consumer.pop().expect("first frame must remain queued"),
        frame(0)
    );
}
