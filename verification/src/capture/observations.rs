//! Allocation-free capture callback observations.
//!
//! Every observation is one relaxed atomic increment on a counter shared by
//! the capture callback and any number of observation handles, so it stays
//! allocation-free, lock-free and log-free. Other threads may increment the
//! same counters at any moment, so what a read returns is not stated beyond
//! its type.

use vstd::prelude::*;

use std::sync::Arc;
use std::sync::atomic::AtomicU64;

use crate::sharing::share;

verus! {

fn zero_counter() -> (r: AtomicU64) {
    AtomicU64::new(0)
}

fn add_to_counter(counter: &AtomicU64, amount: u64) {
    counter.fetch_add(amount, std::sync::atomic::Ordering::Relaxed);
}

fn read_counter(counter: &AtomicU64) -> (r: u64) {
    counter.load(std::sync::atomic::Ordering::Relaxed)
}

/// Totals of capture callback events at one observation boundary.
#[derive(Debug, Clone, Copy, PartialEq, Eq, Structural)]
pub struct CaptureObservations {
    pub callback_buffers_total: u64,
    pub frames_enqueued_total: u64,
    pub pool_exhausted_total: u64,
    pub dispatch_queue_full_total: u64,
    pub invalid_buffer_total: u64,
    pub oversized_buffer_total: u64,
    pub stream_errors_total: u64,
    pub timestamp_epoch_clamps_total: u64,
}

impl Default for CaptureObservations {
    fn default() -> (r: Self)
        ensures
            r == (CaptureObservations {
                callback_buffers_total: 0,
                frames_enqueued_total: 0,
                pool_exhausted_total: 0,
                dispatch_queue_full_total: 0,
                invalid_buffer_total: 0,
                oversized_buffer_total: 0,
                stream_errors_total: 0,
                timestamp_epoch_clamps_total: 0,
            }),
    {
        CaptureObservations {
            callback_buffers_total: 0,
            frames_enqueued_total: 0,
            pool_exhausted_total: 0,
            dispatch_queue_full_total: 0,
            invalid_buffer_total: 0,
            oversized_buffer_total: 0,
            stream_errors_total: 0,
            timestamp_epoch_clamps_total: 0,
        }
    }
}

fn zeroed_values() -> (r: Arc<CaptureObservationValues>) {
    Arc::new(
        CaptureObservationValues {
            callback_buffers_total: zero_counter(),
            frames_enqueued_total: zero_counter(),
            pool_exhausted_total: zero_counter(),
            dispatch_queue_full_total: zero_counter(),
            invalid_buffer_total: zero_counter(),
            oversized_buffer_total: zero_counter(),
            stream_errors_total: zero_counter(),
            timestamp_epoch_clamps_total: zero_counter(),
        },
    )
}

fn snapshot_values(values: &CaptureObservationValues) -> (r: CaptureObservations) {
    CaptureObservations {
        callback_buffers_total: read_counter(&values.callback_buffers_total),
        frames_enqueued_total: read_counter(&values.frames_enqueued_total),
        pool_exhausted_total: read_counter(&values.pool_exhausted_total),
        dispatch_queue_full_total: read_counter(&values.dispatch_queue_full_total),
        invalid_buffer_total: read_counter(&values.invalid_buffer_total),
        oversized_buffer_total: read_counter(&values.oversized_buffer_total),
        stream_errors_total: read_counter(&values.stream_errors_total),
        timestamp_epoch_clamps_total: read_counter(&values.timestamp_epoch_clamps_total),
    }
}

/// Read access to the counters of one capture source.
pub struct CaptureObservationHandle {
    values: Arc<CaptureObservationValues>,
}

/// The counters of one capture source, shared by its writers and readers.
pub struct CaptureObservationValues {
    callback_buffers_total: AtomicU64,
    frames_enqueued_total: AtomicU64,
    pool_exhausted_total: AtomicU64,
    dispatch_queue_full_total: AtomicU64,
    invalid_buffer_total: AtomicU64,
    oversized_buffer_total: AtomicU64,
    stream_errors_total: AtomicU64,
    timestamp_epoch_clamps_total: AtomicU64,
}

impl CaptureObservationHandle {
    /// The counters this handle reads.
    pub closed spec fn spec_values(&self) -> Arc<CaptureObservationValues> {
        self.values
    }
}

impl Clone for CaptureObservationHandle {
    fn clone(&self) -> (r: Self) {
        CaptureObservationHandle { values: self.values.clone() }
    }
}

impl Default for CaptureObservationHandle {
    fn default() -> (r: Self) {
        CaptureObservationHandle { values: zeroed_values() }
    }
}

impl CaptureObservationHandle {
    /// The counters now.
    pub fn observations(&self) -> (r: CaptureObservations) {
        snapshot_values(&self.values)
    }
}

/// Setup-time cloneable writer of a capture source's counters.
pub struct CaptureObservationCounters {
    values: Arc<CaptureObservationValues>,
}

impl Clone for CaptureObservationCounters {
    fn clone(&self) -> (r: Self) {
        CaptureObservationCounters { values: self.values.clone() }
    }
}

impl Default for CaptureObservationCounters {
    fn default() -> (r: Self) {
        CaptureObservationCounters { values: zeroed_values() }
    }
}

impl CaptureObservationCounters {
    /// The counters this writer updates.
    pub closed spec fn spec_values(&self) -> Arc<CaptureObservationValues> {
        self.values
    }

    /// Counts one callback buffer.
    pub fn observe_callback_buffer(&self) {
        add_to_counter(&self.values.callback_buffers_total, 1);
    }

    /// Counts one enqueued frame.
    pub fn observe_enqueued_frame(&self) {
        add_to_counter(&self.values.frames_enqueued_total, 1);
    }

    /// Counts one exhausted frame pool.
    pub fn observe_pool_exhaustion(&self) {
        add_to_counter(&self.values.pool_exhausted_total, 1);
    }

    /// Counts one frame lost to a full dispatch queue.
    pub fn observe_dispatch_queue_full(&self) {
        self.observe_dispatch_queue_full_frames(1);
    }

    /// Records a known number of frames lost at a bounded native or Rust
    /// delivery edge.
    pub fn observe_dispatch_queue_full_frames(&self, lost_frames: u64) {
        add_to_counter(&self.values.dispatch_queue_full_total, lost_frames);
    }

    /// Counts one invalid buffer.
    pub fn observe_invalid_buffer(&self) {
        add_to_counter(&self.values.invalid_buffer_total, 1);
    }

    /// Counts one oversized buffer.
    pub fn observe_oversized_buffer(&self) {
        add_to_counter(&self.values.oversized_buffer_total, 1);
    }

    /// Counts one stream error.
    pub fn observe_stream_error(&self) {
        add_to_counter(&self.values.stream_errors_total, 1);
    }

    /// Counts one timestamp clamped to the process epoch.
    pub fn observe_timestamp_epoch_clamp(&self) {
        add_to_counter(&self.values.timestamp_epoch_clamps_total, 1);
    }

    /// A handle reading the same counters.
    pub fn observation_handle(&self) -> (r: CaptureObservationHandle)
        ensures
            r.spec_values() == self.spec_values(),
    {
        CaptureObservationHandle { values: share(&self.values) }
    }

    /// The counters now.
    pub fn snapshot(&self) -> (r: CaptureObservations) {
        snapshot_values(&self.values)
    }
}

} // verus!
