//! The bounded captured-frame crossing: a single-producer ring from the
//! capture callback to one consumer, a start gate, and delivery counters.
//!
//! A start gate is a flag that only ever goes from closed to open, shared by its
//! controller and the capture callbacks that read it; the counters are shared by the callback and
//! every observation handle. Both are atomics other threads change at any
//! moment, so what a read returns is not stated beyond its type. The ring's
//! two ends live on different threads, so whether a push finds room or a pop
//! finds a frame is decided by the other end; what is stated is what each
//! outcome means for the frame and the counters.

use vstd::prelude::*;

use std::sync::Arc;
use std::sync::atomic::{AtomicBool, AtomicU64};

use crate::capture::authorization::CaptureError;
use crate::sharing::share;

verus! {

/// Whether a captured frame was accepted, dropped, or rejected by delivery.
#[derive(Debug, Clone, Copy, PartialEq, Eq, Structural)]
pub enum CapturedFrameDelivery {
    Delivered,
    DroppedNewest,
    DiscardedBeforeStart,
}

/// Delivery counters of a captured-frame stream at one observation boundary.
#[derive(Debug, Clone, Copy, PartialEq, Eq, Structural)]
pub struct CapturedFrameStreamStats {
    pub delivered_frames: u64,
    pub dropped_newest_frames: u64,
    pub frames_discarded_before_start_total: u64,
}

impl Default for CapturedFrameStreamStats {
    fn default() -> (r: Self)
        ensures
            r == (CapturedFrameStreamStats {
                delivered_frames: 0,
                dropped_newest_frames: 0,
                frames_discarded_before_start_total: 0,
            }),
    {
        CapturedFrameStreamStats {
            delivered_frames: 0,
            dropped_newest_frames: 0,
            frames_discarded_before_start_total: 0,
        }
    }
}

/// The shared delivery counters of one captured-frame stream.
pub struct CapturedFrameStreamCounters {
    delivered_frames: AtomicU64,
    dropped_newest_frames: AtomicU64,
    frames_discarded_before_start_total: AtomicU64,
}

impl CapturedFrameStreamCounters {
    /// Counters starting at zero.
    pub fn new() -> (r: Self) {
        CapturedFrameStreamCounters {
            delivered_frames: AtomicU64::new(0),
            dropped_newest_frames: AtomicU64::new(0),
            frames_discarded_before_start_total: AtomicU64::new(0),
        }
    }

    /// Counts the delivery outcome of one frame.
    pub fn record(&self, delivery: CapturedFrameDelivery) {
        match delivery {
            CapturedFrameDelivery::Delivered => {
                self.delivered_frames.fetch_add(1, std::sync::atomic::Ordering::Relaxed);
            },
            CapturedFrameDelivery::DroppedNewest => {
                self.dropped_newest_frames.fetch_add(1, std::sync::atomic::Ordering::Relaxed);
            },
            CapturedFrameDelivery::DiscardedBeforeStart => {
                self.frames_discarded_before_start_total.fetch_add(
                    1,
                    std::sync::atomic::Ordering::Relaxed,
                );
            },
        }
    }

    /// The counters now.
    pub fn snapshot(&self) -> (r: CapturedFrameStreamStats) {
        CapturedFrameStreamStats {
            delivered_frames: self.delivered_frames.load(std::sync::atomic::Ordering::Relaxed),
            dropped_newest_frames: self.dropped_newest_frames.load(
                std::sync::atomic::Ordering::Relaxed,
            ),
            frames_discarded_before_start_total: self.frames_discarded_before_start_total.load(
                std::sync::atomic::Ordering::Relaxed,
            ),
        }
    }
}

/// Read access to a stream's delivery counters.
pub struct CapturedFrameObservationHandle {
    counters: Arc<CapturedFrameStreamCounters>,
}

impl Clone for CapturedFrameObservationHandle {
    fn clone(&self) -> (r: Self) {
        CapturedFrameObservationHandle { counters: self.counters.clone() }
    }
}

impl CapturedFrameObservationHandle {
    /// The counters this handle reads.
    pub closed spec fn spec_counters(&self) -> Arc<CapturedFrameStreamCounters> {
        self.counters
    }

    /// A handle reading `counters`.
    pub fn new(counters: Arc<CapturedFrameStreamCounters>) -> (r: Self)
        ensures
            r.spec_counters() == counters,
    {
        CapturedFrameObservationHandle { counters }
    }

    /// The counters now.
    pub fn observations(&self) -> (r: CapturedFrameStreamStats) {
        self.counters.snapshot()
    }
}

/// Read-only one-way start barrier checked by capture delivery callbacks.
pub struct CaptureDeliveryStartGate {
    open: AtomicBool,
}

impl CaptureDeliveryStartGate {
    /// Whether frames may pass.
    pub fn is_open(&self) -> (r: bool) {
        self.open.load(std::sync::atomic::Ordering::Acquire)
    }

    /// A gate that is already open.
    pub fn opened() -> (r: Arc<Self>) {
        Arc::new(CaptureDeliveryStartGate { open: AtomicBool::new(true) })
    }
}

/// Session-owned authority that opens one capture delivery start gate.
pub struct CaptureDeliveryStartGateController {
    gate: Arc<CaptureDeliveryStartGate>,
}

impl CaptureDeliveryStartGateController {
    /// The start barrier this controller opens.
    pub closed spec fn spec_gate(&self) -> Arc<CaptureDeliveryStartGate> {
        self.gate
    }

    /// Lets frames through; returns whether frames were held back before.
    pub fn open(&self) -> (r: bool) {
        !self.gate.open.swap(true, std::sync::atomic::Ordering::AcqRel)
    }
}

/// Creates a closed Session-owned controller and callback-visible start gate.
pub fn capture_delivery_start_gate() -> (r: (
    CaptureDeliveryStartGateController,
    Arc<CaptureDeliveryStartGate>,
))
    ensures
        r.0.spec_gate() == r.1,
{
    let gate = Arc::new(CaptureDeliveryStartGate { open: AtomicBool::new(false) });
    (CaptureDeliveryStartGateController { gate: share(&gate) }, gate)
}


#[verifier::external_type_specification]
#[verifier::external_body]
#[verifier::reject_recursive_types(T)]
pub struct ExRingProducer<T>(rtrb::Producer<T>);

#[verifier::external_type_specification]
#[verifier::external_body]
#[verifier::reject_recursive_types(T)]
pub struct ExRingConsumer<T>(rtrb::Consumer<T>);

/// Calls `rtrb::RingBuffer::new`, which allocates a ring of `capacity`
/// slots and returns its producer and consumer ends. The allocation panics
/// past `isize::MAX` bytes, which `requires` leaves out.
#[verifier::external_body]
fn ring_buffer<T>(capacity: usize) -> (r: (rtrb::Producer<T>, rtrb::Consumer<T>))
    requires
        capacity * vstd::layout::size_of::<T>() <= isize::MAX,
{
    rtrb::RingBuffer::new(capacity)
}

/// The producer end of a frame ring, together with every frame the ring has
/// accepted from it, oldest first.
#[verifier::reject_recursive_types(F)]
pub struct FrameRingProducer<F> {
    producer: rtrb::Producer<F>,
    accepted: Ghost<Seq<F>>,
}

impl<F> FrameRingProducer<F> {
    /// The frames the ring accepted from this producer, oldest first.
    pub closed spec fn spec_accepted(&self) -> Seq<F> {
        self.accepted@
    }

    /// Calls `rtrb::Producer::push`, which moves `value` into the ring when a
    /// slot is free, and otherwise hands it back unchanged without touching
    /// the ring. A moved-in value joins the accepted frames. Whether a slot
    /// is free depends on the consumer, which may run on another thread.
    #[verifier::external_body]
    pub(crate) fn push(&mut self, value: F) -> (r: Result<(), F>)
        ensures
            r is Ok ==> final(self).spec_accepted() == old(self).spec_accepted().push(value),
            r matches Err(back) ==> back == value && final(self).spec_accepted() == old(
                self,
            ).spec_accepted(),
    {
        match self.producer.push(value) {
            Ok(()) => Ok(()),
            Err(rtrb::PushError::Full(back)) => Err(back),
        }
    }
}

/// A ring of `capacity` slots: its producer end, which has accepted nothing
/// yet, and its consumer end.
pub fn frame_ring<F>(capacity: usize) -> (r: (FrameRingProducer<F>, rtrb::Consumer<F>))
    requires
        capacity * vstd::layout::size_of::<F>() <= isize::MAX,
    ensures
        r.0.spec_accepted() == Seq::<F>::empty(),
{
    let (producer, consumer) = ring_buffer(capacity);
    (FrameRingProducer { producer, accepted: Ghost(Seq::empty()) }, consumer)
}

/// Calls `rtrb::Consumer::pop`, which takes the oldest frame in the ring if
/// there is one. What is there depends on the producer's thread.
#[verifier::external_body]
fn ring_pop<T>(consumer: &mut rtrb::Consumer<T>) -> (r: Option<T>) {
    consumer.pop().ok()
}

/// Calls `rtrb::Consumer::is_abandoned`, which reports whether the producer
/// was dropped; another thread may drop it at any moment.
#[verifier::external_body]
fn ring_is_abandoned<T>(consumer: &rtrb::Consumer<T>) -> (r: bool) {
    consumer.is_abandoned()
}

/// Calls `std::sync::atomic::fence` with acquire ordering, so reads after it
/// see what the abandoned producer wrote before it was dropped.
#[verifier::external_body]
fn acquire_fence() {
    std::sync::atomic::fence(std::sync::atomic::Ordering::Acquire)
}

/// What delivery makes of a frame: frames before the start gate opens are
/// discarded, and a full ring drops the newest frame rather than an older
/// one.
pub open spec fn spec_delivery(gate_open: bool, pushed: bool) -> CapturedFrameDelivery {
    if !gate_open {
        CapturedFrameDelivery::DiscardedBeforeStart
    } else if pushed {
        CapturedFrameDelivery::Delivered
    } else {
        CapturedFrameDelivery::DroppedNewest
    }
}

/// Names the delivery outcome of a frame from whether frames may pass yet and
/// whether the ring took it.
pub fn delivery_outcome(gate_open: bool, pushed: bool) -> (r: CapturedFrameDelivery)
    ensures
        r == spec_delivery(gate_open, pushed),
{
    if !gate_open {
        CapturedFrameDelivery::DiscardedBeforeStart
    } else if pushed {
        CapturedFrameDelivery::Delivered
    } else {
        CapturedFrameDelivery::DroppedNewest
    }
}

/// Single-producer end passed into a platform capture callback.
///
/// `try_send` is wait-free, lock-free, and allocation-free. A full stream
/// drops the newest frame immediately, preserving the age of frames already
/// queued.
#[verifier::reject_recursive_types(F)]
pub struct CapturedFrameSender<F> {
    producer: FrameRingProducer<F>,
    counters: Arc<CapturedFrameStreamCounters>,
    start_gate: Arc<CaptureDeliveryStartGate>,
}

impl<F> CapturedFrameSender<F> {
    /// The delivery counters this sender updates.
    pub closed spec fn spec_counters(&self) -> Arc<CapturedFrameStreamCounters> {
        self.counters
    }

    /// The start barrier this sender checks before each frame.
    pub closed spec fn spec_start_gate(&self) -> Arc<CaptureDeliveryStartGate> {
        self.start_gate
    }

    /// The frames the stream's ring accepted from this sender, oldest first.
    pub closed spec fn spec_accepted(&self) -> Seq<F> {
        self.producer.spec_accepted()
    }

    /// Offers one frame without waiting: it is discarded while the start
    /// gate is closed, queued when the ring has room, and dropped otherwise;
    /// the outcome is counted and returned. Exactly a delivered frame joins
    /// the ring's accepted frames, as the newest; a dropped or discarded one
    /// leaves them as they were.
    pub fn try_send(&mut self, frame: F) -> (r: CapturedFrameDelivery)
        ensures
            r is Delivered <==> final(self).spec_accepted() == old(self).spec_accepted().push(
                frame,
            ),
            !(r is Delivered) ==> final(self).spec_accepted() == old(self).spec_accepted(),
            final(self).spec_counters() == old(self).spec_counters(),
            final(self).spec_start_gate() == old(self).spec_start_gate(),
    {
        let ghost before = self.spec_accepted();
        if !self.start_gate.is_open() {
            let delivery = delivery_outcome(false, false);
            self.counters.record(delivery);
            assert(before.len() != before.push(frame).len());
            return delivery;
        }
        let pushed = match self.producer.push(frame) {
            Ok(()) => true,
            Err(_newest) => false,
        };
        assert(before.len() != before.push(frame).len());
        let delivery = delivery_outcome(true, pushed);
        self.counters.record(delivery);
        delivery
    }

    /// The stream's delivery counters now.
    pub fn stats(&self) -> (r: CapturedFrameStreamStats) {
        self.counters.snapshot()
    }

    /// A handle reading the stream's delivery counters.
    pub fn observation_handle(&self) -> (r: CapturedFrameObservationHandle)
        ensures
            r.spec_counters() == self.spec_counters(),
    {
        CapturedFrameObservationHandle::new(share(&self.counters))
    }
}

/// Non-blocking consumer of captured frames.
///
/// The consumer owns each frame until it is dropped or forwarded; it never
/// blocks an audio thread.
#[verifier::reject_recursive_types(F)]
pub struct CapturedFrameStream<F> {
    consumer: rtrb::Consumer<F>,
    counters: Arc<CapturedFrameStreamCounters>,
    capacity_frames: usize,
}

impl<F> CapturedFrameStream<F> {
    /// The delivery counters this stream reads.
    pub closed spec fn spec_counters(&self) -> Arc<CapturedFrameStreamCounters> {
        self.counters
    }

    /// Slots of the stream's ring, as it was created.
    pub closed spec fn spec_capacity_frames(&self) -> usize {
        self.capacity_frames
    }

    /// The oldest queued frame, if any.
    pub fn try_next(&mut self) -> (r: Option<F>) {
        ring_pop(&mut self.consumer)
    }

    /// Slots of the stream's ring, fixed when the stream was created.
    pub fn capacity_frames(&self) -> (r: usize)
        ensures
            r == self.spec_capacity_frames(),
    {
        self.capacity_frames
    }

    /// Whether the sender was dropped; once it was, the stream stays closed.
    pub fn is_closed(&self) -> (r: bool) {
        let abandoned = ring_is_abandoned(&self.consumer);
        if abandoned {
            acquire_fence();
        }
        abandoned
    }

    /// The stream's delivery counters now.
    pub fn stats(&self) -> (r: CapturedFrameStreamStats) {
        self.counters.snapshot()
    }

    /// A handle reading the stream's delivery counters.
    pub fn observation_handle(&self) -> (r: CapturedFrameObservationHandle)
        ensures
            r.spec_counters() == self.spec_counters(),
    {
        CapturedFrameObservationHandle::new(share(&self.counters))
    }
}

/// A sender and stream over one ring of `capacity_frames` slots, whose
/// frames pass once `start_gate` opens; a zero capacity is refused.
pub fn captured_frame_stream_with_start_gate<F>(
    capacity_frames: usize,
    start_gate: Arc<CaptureDeliveryStartGate>,
) -> (r: Result<(CapturedFrameSender<F>, CapturedFrameStream<F>), CaptureError>)
    requires
        capacity_frames * vstd::layout::size_of::<F>() <= isize::MAX,
    ensures
        capacity_frames == 0 <==> r is Err,
        r is Err ==> r matches Err(CaptureError::InvalidStreamCapacity),
        r matches Ok((sender, stream)) ==> stream.spec_capacity_frames() == capacity_frames
            && stream.spec_counters() == sender.spec_counters() && sender.spec_start_gate()
            == start_gate && sender.spec_accepted() == Seq::<F>::empty(),
{
    if capacity_frames == 0 {
        return Err(CaptureError::InvalidStreamCapacity);
    }
    let (producer, consumer) = frame_ring(capacity_frames);
    let counters = Arc::new(CapturedFrameStreamCounters::new());
    Ok(
        (
            CapturedFrameSender { producer, counters: share(&counters), start_gate },
            CapturedFrameStream { consumer, counters, capacity_frames },
        ),
    )
}

/// A sender and stream over one ring of `capacity_frames` slots whose start
/// barrier is already open; a zero capacity is refused.
pub fn captured_frame_stream<F>(capacity_frames: usize) -> (r: Result<
    (CapturedFrameSender<F>, CapturedFrameStream<F>),
    CaptureError,
>)
    requires
        capacity_frames * vstd::layout::size_of::<F>() <= isize::MAX,
    ensures
        capacity_frames == 0 <==> r is Err,
        r is Err ==> r matches Err(CaptureError::InvalidStreamCapacity),
        r matches Ok((sender, stream)) ==> stream.spec_capacity_frames() == capacity_frames
            && stream.spec_counters() == sender.spec_counters() && sender.spec_accepted()
            == Seq::<F>::empty(),
{
    captured_frame_stream_with_start_gate(capacity_frames, CaptureDeliveryStartGate::opened())
}

} // verus!
