//! Bounded waiting for a native open performed on a worker thread, and the
//! one-way cancellation that makes a late worker's success be rejected.

use vstd::prelude::*;

use core::time::Duration;
use std::sync::Arc;
use std::sync::atomic::AtomicBool;
use std::sync::mpsc::{Receiver, SyncSender};

verus! {

/// One-way cancellation shared by the caller waiting for an open and the
/// worker performing it. Either side may read it at any moment, so what a
/// read returns is not stated.
pub struct OpenCancellation {
    cancelled: Arc<AtomicBool>,
}

impl Clone for OpenCancellation {
    fn clone(&self) -> (r: Self) {
        OpenCancellation { cancelled: self.cancelled.clone() }
    }
}

impl Default for OpenCancellation {
    fn default() -> (r: Self) {
        OpenCancellation { cancelled: Arc::new(AtomicBool::new(false)) }
    }
}

impl OpenCancellation {
    /// Cancels the open; every clone observes it from now on.
    pub fn cancel(&self) {
        self.cancelled.store(true, std::sync::atomic::Ordering::Release);
    }

    /// Whether the open has been cancelled.
    pub fn is_cancelled(&self) -> (r: bool) {
        self.cancelled.load(std::sync::atomic::Ordering::Acquire)
    }
}

/// How waiting for an open ended.
#[derive(Debug, PartialEq, Eq)]
pub enum OpenWaitOutcome<T, E> {
    Opened(T),
    Failed(E),
    TimedOut,
    WorkerExited,
}

/// Why a worker's open report was refused.
#[derive(Debug, Clone, Copy, PartialEq, Eq, Structural)]
pub enum OpenReportError {
    Cancelled,
    ReceiverUnavailable,
}

/// How waiting for a completion signal ended.
#[derive(Debug, Clone, Copy, PartialEq, Eq, Structural)]
pub enum CancellableWaitOutcome {
    Completed,
    Cancelled,
    TimedOut,
    ProducerExited,
}

/// What a bounded wait on a channel produced.
#[derive(Debug, PartialEq, Eq)]
pub enum TimedReceive<T> {
    Received(T),
    TimedOut,
    Disconnected,
}

/// Calls `Receiver::recv_timeout`: a message, or that the timeout elapsed,
/// or that every sender is gone. Which happens depends on other threads and
/// on time, so nothing is stated.
#[verifier::external_body]
fn receive_within<T>(receiver: &Receiver<T>, timeout: Duration) -> (r: TimedReceive<T>) {
    match receiver.recv_timeout(timeout) {
        Ok(value) => TimedReceive::Received(value),
        Err(std::sync::mpsc::RecvTimeoutError::Timeout) => TimedReceive::TimedOut,
        Err(std::sync::mpsc::RecvTimeoutError::Disconnected) => TimedReceive::Disconnected,
    }
}

/// Calls `SyncSender::try_send`; returns whether the value was accepted.
/// Whether the receiver still exists and has room depends on other threads,
/// so nothing is stated.
#[verifier::external_body]
fn offer<T>(sender: &SyncSender<T>, value: T) -> (r: bool) {
    sender.try_send(value).is_ok()
}

/// The outcome of an open for what the bounded wait received.
pub open spec fn spec_open_wait_outcome<T, E>(received: TimedReceive<Result<T, E>>) -> OpenWaitOutcome<T, E> {
    match received {
        TimedReceive::Received(Ok(value)) => OpenWaitOutcome::Opened(value),
        TimedReceive::Received(Err(error)) => OpenWaitOutcome::Failed(error),
        TimedReceive::TimedOut => OpenWaitOutcome::TimedOut,
        TimedReceive::Disconnected => OpenWaitOutcome::WorkerExited,
    }
}

/// Classifies what the bounded wait for an open received: the worker's
/// value or exact failure, a timeout, or a worker that exited unreported.
pub fn open_wait_outcome<T, E>(received: TimedReceive<Result<T, E>>) -> (r: OpenWaitOutcome<T, E>)
    ensures
        r == spec_open_wait_outcome(received),
{
    match received {
        TimedReceive::Received(Ok(value)) => OpenWaitOutcome::Opened(value),
        TimedReceive::Received(Err(error)) => OpenWaitOutcome::Failed(error),
        TimedReceive::TimedOut => OpenWaitOutcome::TimedOut,
        TimedReceive::Disconnected => OpenWaitOutcome::WorkerExited,
    }
}

/// Waits at most `timeout_duration` for the worker's open report.
pub fn wait_for_open<T, E>(open_rx: &Receiver<Result<T, E>>, timeout_duration: Duration) -> (r:
    OpenWaitOutcome<T, E>) {
    open_wait_outcome(receive_within(open_rx, timeout_duration))
}

/// Reports a successful open, unless the caller has cancelled it; a late
/// report to a receiver that gave up is refused.
pub fn report_open<T, E>(
    open_tx: &SyncSender<Result<T, E>>,
    value: T,
    open_cancellation: &OpenCancellation,
) -> (r: Result<(), OpenReportError>) {
    if open_cancellation.is_cancelled() {
        return Err(OpenReportError::Cancelled);
    }
    if offer(open_tx, Ok(value)) {
        Ok(())
    } else {
        Err(OpenReportError::ReceiverUnavailable)
    }
}


/// What a cancellable wait for a completion signal does next.
#[derive(Debug, Clone, Copy, PartialEq, Eq, Structural)]
pub enum CompletionWaitStep {
    /// The wait is over.
    Finish(CancellableWaitOutcome),
    /// Wait this many nanoseconds for the signal, then decide again.
    Wait { wait_ns: u128 },
}

/// One decision of a cancellable wait: a cancelled open ends it, so does a
/// passed deadline; otherwise it waits for the signal at most one poll
/// interval, and never past the deadline, so that cancellation is seen
/// within one poll interval.
pub fn completion_wait_step(
    cancelled: bool,
    deadline_reached: bool,
    remaining_ns: u128,
    poll_interval_ns: u128,
) -> (r: CompletionWaitStep)
    ensures
        r == (if cancelled {
            CompletionWaitStep::Finish(CancellableWaitOutcome::Cancelled)
        } else if deadline_reached {
            CompletionWaitStep::Finish(CancellableWaitOutcome::TimedOut)
        } else {
            CompletionWaitStep::Wait {
                wait_ns: if remaining_ns < poll_interval_ns {
                    remaining_ns
                } else {
                    poll_interval_ns
                },
            }
        }),
{
    if cancelled {
        return CompletionWaitStep::Finish(CancellableWaitOutcome::Cancelled);
    }
    if deadline_reached {
        return CompletionWaitStep::Finish(CancellableWaitOutcome::TimedOut);
    }
    let wait_ns = if remaining_ns < poll_interval_ns {
        remaining_ns
    } else {
        poll_interval_ns
    };
    CompletionWaitStep::Wait { wait_ns }
}

/// What one bounded wait for the completion signal decides: the signal
/// completes the wait, a vanished producer ends it, a timeout decides again.
pub fn completion_wait_received(received: TimedReceive<()>) -> (r: Option<CancellableWaitOutcome>)
    ensures
        r == match received {
            TimedReceive::Received(()) => Some(CancellableWaitOutcome::Completed),
            TimedReceive::Disconnected => Some(CancellableWaitOutcome::ProducerExited),
            TimedReceive::TimedOut => None::<CancellableWaitOutcome>,
        },
{
    match received {
        TimedReceive::Received(()) => Some(CancellableWaitOutcome::Completed),
        TimedReceive::Disconnected => Some(CancellableWaitOutcome::ProducerExited),
        TimedReceive::TimedOut => None,
    }
}

} // verus!
