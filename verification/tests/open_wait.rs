use std::sync::mpsc::{Receiver, RecvTimeoutError};
use std::time::{Duration, Instant};

use pocketstation::capture::platform::windows::open_lifecycle::{
    completion_wait_received, completion_wait_step, CancellableWaitOutcome, CompletionWaitStep,
    OpenCancellation, TimedReceive,
};

/// Drives the library's wait decisions with a real clock and channel.
fn wait_for_completion(
    completion_rx: &Receiver<()>,
    cancellation: &OpenCancellation,
    timeout_duration: Duration,
    cancellation_poll_duration: Duration,
) -> CancellableWaitOutcome {
    let deadline = Instant::now() + timeout_duration;
    loop {
        let now = Instant::now();
        let remaining = deadline.saturating_duration_since(now);
        match completion_wait_step(
            cancellation.is_cancelled(),
            now >= deadline,
            remaining.as_nanos(),
            cancellation_poll_duration.as_nanos(),
        ) {
            CompletionWaitStep::Finish(outcome) => return outcome,
            CompletionWaitStep::Wait { wait_ns } => {
                let wait = Duration::from_nanos(u64::try_from(wait_ns).unwrap_or(u64::MAX));
                let received = match completion_rx.recv_timeout(wait) {
                    Ok(()) => TimedReceive::Received(()),
                    Err(RecvTimeoutError::Timeout) => TimedReceive::TimedOut,
                    Err(RecvTimeoutError::Disconnected) => TimedReceive::Disconnected,
                };
                if let Some(outcome) = completion_wait_received(received) {
                    return outcome;
                }
            }
        }
    }
}

#[test]
fn given_cancelled_activation_when_waiting_then_cancellation_is_bounded() {
    let (_completion_tx, completion_rx) = std::sync::mpsc::sync_channel(1);
    let cancellation = OpenCancellation::default();
    cancellation.cancel();

    assert_eq!(
        wait_for_completion(
            &completion_rx,
            &cancellation,
            Duration::from_secs(5),
            Duration::from_millis(10),
        ),
        CancellableWaitOutcome::Cancelled
    );
}

#[test]
fn given_completed_activation_when_waiting_then_completion_is_returned() {
    let (completion_tx, completion_rx) = std::sync::mpsc::sync_channel(1);
    let cancellation = OpenCancellation::default();
    completion_tx.try_send(()).unwrap();

    assert_eq!(
        wait_for_completion(
            &completion_rx,
            &cancellation,
            Duration::from_secs(5),
            Duration::from_millis(10),
        ),
        CancellableWaitOutcome::Completed
    );
}

#[test]
fn given_hung_activation_when_deadline_expires_then_timeout_is_returned() {
    let (_completion_tx, completion_rx) = std::sync::mpsc::sync_channel(1);
    let cancellation = OpenCancellation::default();

    assert_eq!(
        wait_for_completion(
            &completion_rx,
            &cancellation,
            Duration::from_millis(1),
            Duration::from_millis(1),
        ),
        CancellableWaitOutcome::TimedOut
    );
}
