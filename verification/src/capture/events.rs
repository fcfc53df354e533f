//! Bounded capture-runtime failure and lifecycle event channel.
//!
//! The channel's state is one bounded FIFO queue plus its counters, kept under
//! a lock shared by every sender, the receiver and any observation handle.
//! Each operation is a verified transition of that state; whether the peer
//! side still exists is read from a rendezvous token channel whose ends are
//! dropped together with the senders and the receiver.

use vstd::prelude::*;
use vstd::rwlock::{RwLock, RwLockPredicate};
use vstd::utf8::encode_utf8;

use std::collections::VecDeque;
use std::sync::Arc;
use std::sync::mpsc::{Receiver, SyncSender};

use crate::capture::authorization::CaptureError;
use crate::capture::identity::StableSourceId;
use crate::sharing::share;

verus! {

/// One appearance generation of a capture source across loss and reappearance.
#[derive(Debug, Clone, Copy, PartialEq, Eq, Structural)]
pub struct SourceGeneration(pub u32);

impl SourceGeneration {
    /// The generation of a source's first appearance.
    pub fn initial() -> (r: Self)
        ensures
            r.0 == 1,
    {
        SourceGeneration(1)
    }

    /// Returns the generation assigned after explicit rediscovery; saturates
    /// at the maximum.
    pub fn next(self) -> (r: Self)
        ensures
            r.0 == (if self.0 == u32::MAX {
                u32::MAX
            } else {
                (self.0 + 1) as u32
            }),
    {
        SourceGeneration(self.0.saturating_add(1))
    }
}

/// Kind of a source lifecycle event.
#[derive(Debug, Clone, Copy, PartialEq, Eq, Structural)]
pub enum SourceLifecycleEventKind {
    SourceUnavailable,
    ReplacementObserved,
    PermissionChanged,
    PermissionRevoked,
    SourceReappeared,
}

/// What a host must do to recover a lost source.
#[derive(Debug, Clone, Copy, PartialEq, Eq, Structural)]
pub enum SourceRecoveryRequirement {
    ExplicitRediscoveryAndNewSession,
}

/// Classification of a capture runtime failure.
#[derive(Debug, Clone, PartialEq, Eq)]
pub enum CaptureRuntimeFailureClass {
    SourceInstanceExited,
    PlatformStatus { status_code: i32 },
    BackendClass { class: String },
}

/// A capture runtime failure: the operation that failed and how.
#[derive(Debug, Clone, PartialEq, Eq)]
pub struct CaptureRuntimeFailure {
    pub operation: &'static str,
    pub error_class: CaptureRuntimeFailureClass,
}

/// An observable event of a running capture source.
#[derive(Debug, Clone, PartialEq, Eq)]
pub enum SourceRuntimeEvent {
    SourceUnavailable {
        stable_id: StableSourceId,
        generation: SourceGeneration,
        recovery_requirement: SourceRecoveryRequirement,
        failure: CaptureRuntimeFailure,
    },
    BackendFailure {
        stable_id: StableSourceId,
        generation: SourceGeneration,
        failure: CaptureRuntimeFailure,
    },
}

/// Maximum heap storage retained by one queued capture-runtime event.
///
/// Native error text and stable platform identities are variable-length
/// control-plane data. The bounded event channel rejects a larger event before
/// enqueue so a count bound also has a concrete byte bound.
pub const MAX_SOURCE_RUNTIME_EVENT_OWNED_BYTES: usize = 65536;

/// Calls `String::capacity`, the size of the string's allocation in bytes,
/// which is never less than the length of its contents. How much more the
/// allocator handed out is not stated.
#[verifier::external_body]
fn string_capacity(text: &String) -> (r: usize)
    ensures
        r >= encode_utf8(text@).len(),
{
    text.capacity()
}

impl SourceRuntimeEvent {
    /// Heap and inline storage this event retains while queued: its inline
    /// size plus the capacities of its identity key and failure class text.
    pub fn owned_bytes(&self) -> (r: usize)
        ensures
            r >= vstd::layout::size_of::<SourceRuntimeEvent>(),
            r >= encode_utf8(self.stable_id_of().stable_key@).len(),
    {
        let (stable_id, failure) = match self {
            SourceRuntimeEvent::SourceUnavailable { stable_id, failure, .. } => (stable_id, failure),
            SourceRuntimeEvent::BackendFailure { stable_id, failure, .. } => (stable_id, failure),
        };
        let error_class_bytes = match &failure.error_class {
            CaptureRuntimeFailureClass::BackendClass { class } => string_capacity(class),
            CaptureRuntimeFailureClass::SourceInstanceExited => 0,
            CaptureRuntimeFailureClass::PlatformStatus { .. } => 0,
        };
        core::mem::size_of::<SourceRuntimeEvent>().saturating_add(
            string_capacity(&stable_id.stable_key),
        ).saturating_add(error_class_bytes)
    }

    /// The identity the event concerns.
    pub open spec fn stable_id_of(self) -> StableSourceId {
        match self {
            SourceRuntimeEvent::SourceUnavailable { stable_id, .. } => stable_id,
            SourceRuntimeEvent::BackendFailure { stable_id, .. } => stable_id,
        }
    }
}

/// What happened to a published event.
#[derive(Debug, Clone, Copy, PartialEq, Eq, Structural)]
pub enum SourceRuntimeEventDelivery {
    Enqueued,
    DroppedFull,
    DroppedOversized,
    ReceiverClosed,
}

/// What a receive attempt found.
#[derive(Debug, Clone, PartialEq, Eq)]
pub enum SourceRuntimeEventReceive {
    Event(SourceRuntimeEvent),
    Empty,
    Closed,
}

/// Counters of an event channel at one observation boundary.
#[derive(Debug, Clone, Copy, PartialEq, Eq, Structural)]
pub struct SourceRuntimeEventObservations {
    pub capacity_event_count: u64,
    pub maximum_event_owned_bytes: u64,
    pub maximum_buffered_owned_bytes: u64,
    pub depth_events: u64,
    pub depth_owned_bytes: u64,
    pub peak_depth_owned_bytes: u64,
    pub events_enqueued_total: u64,
    pub events_dropped_total: u64,
    pub events_dropped_oversized_total: u64,
}

impl Default for SourceRuntimeEventObservations {
    fn default() -> (r: Self)
        ensures
            r == (SourceRuntimeEventObservations {
                capacity_event_count: 0,
                maximum_event_owned_bytes: 0,
                maximum_buffered_owned_bytes: 0,
                depth_events: 0,
                depth_owned_bytes: 0,
                peak_depth_owned_bytes: 0,
                events_enqueued_total: 0,
                events_dropped_total: 0,
                events_dropped_oversized_total: 0,
            }),
    {
        SourceRuntimeEventObservations {
            capacity_event_count: 0,
            maximum_event_owned_bytes: 0,
            maximum_buffered_owned_bytes: 0,
            depth_events: 0,
            depth_owned_bytes: 0,
            peak_depth_owned_bytes: 0,
            events_enqueued_total: 0,
            events_dropped_total: 0,
            events_dropped_oversized_total: 0,
        }
    }
}

struct QueuedSourceRuntimeEvent {
    event: SourceRuntimeEvent,
    owned_bytes: usize,
}

/// The state of one event channel: a FIFO of events with the storage each
/// retains, bounded by `capacity_events` events, and the channel's counters.
pub struct SourceRuntimeEventQueue {
    capacity_events: usize,
    queued: VecDeque<QueuedSourceRuntimeEvent>,
    observations: SourceRuntimeEventObservations,
}

/// Abstract state of an event queue.
pub struct SourceRuntimeEventQueueView {
    pub capacity_events: usize,
    pub events: Seq<SourceRuntimeEvent>,
    pub owned: Seq<usize>,
    pub observations: SourceRuntimeEventObservations,
}

impl View for SourceRuntimeEventQueue {
    type V = SourceRuntimeEventQueueView;

    closed spec fn view(&self) -> SourceRuntimeEventQueueView {
        SourceRuntimeEventQueueView {
            capacity_events: self.capacity_events,
            events: self.queued@.map_values(|q: QueuedSourceRuntimeEvent| q.event),
            owned: self.queued@.map_values(|q: QueuedSourceRuntimeEvent| q.owned_bytes),
            observations: self.observations,
        }
    }
}

/// Total of the first `len` entries of `owned`.
pub open spec fn owned_total(owned: Seq<usize>, len: int) -> int
    decreases len,
{
    if len <= 0 {
        0
    } else {
        owned_total(owned, len - 1) + owned[len - 1]
    }
}

/// Byte budget of a channel of `capacity_events` events.
pub open spec fn buffered_budget(capacity_events: usize) -> u64 {
    (if capacity_events * MAX_SOURCE_RUNTIME_EVENT_OWNED_BYTES > usize::MAX {
        usize::MAX as int
    } else {
        capacity_events * MAX_SOURCE_RUNTIME_EVENT_OWNED_BYTES
    }) as u64
}

/// `a + 1` wrapping modulo 2^64, as an atomic counter increments.
pub open spec fn bump(a: u64) -> u64 {
    if a == u64::MAX {
        0
    } else {
        (a + 1) as u64
    }
}

impl SourceRuntimeEventQueueView {
    /// The invariant every reachable queue state keeps.
    pub open spec fn wf(self) -> bool {
        let obs = self.observations;
        let total = owned_total(self.owned, self.owned.len() as int);
        &&& self.capacity_events >= 1
        &&& self.events.len() == self.owned.len()
        &&& self.events.len() <= self.capacity_events
        &&& obs.capacity_event_count == self.capacity_events
        &&& obs.maximum_event_owned_bytes == MAX_SOURCE_RUNTIME_EVENT_OWNED_BYTES
        &&& obs.maximum_buffered_owned_bytes == buffered_budget(self.capacity_events)
        &&& obs.depth_events == self.events.len()
        &&& obs.depth_owned_bytes == total
        &&& total <= obs.maximum_buffered_owned_bytes
        &&& obs.peak_depth_owned_bytes >= obs.depth_owned_bytes
        &&& forall|i: int|
            0 <= i < self.owned.len() ==> #[trigger] self.owned[i]
                <= MAX_SOURCE_RUNTIME_EVENT_OWNED_BYTES
    }
}

/// Result and next state of publishing `event` retaining `owned_bytes`, when
/// the receiving end is (`receiver_open`) or is not still alive.
pub open spec fn send_outcome(
    queue: SourceRuntimeEventQueueView,
    event: SourceRuntimeEvent,
    owned_bytes: usize,
    receiver_open: bool,
) -> (SourceRuntimeEventDelivery, SourceRuntimeEventQueueView) {
    let obs = queue.observations;
    let reserved = obs.depth_owned_bytes + owned_bytes;
    let peak = if reserved > obs.peak_depth_owned_bytes {
        reserved as u64
    } else {
        obs.peak_depth_owned_bytes
    };
    if owned_bytes > MAX_SOURCE_RUNTIME_EVENT_OWNED_BYTES {
        (
            SourceRuntimeEventDelivery::DroppedOversized,
            SourceRuntimeEventQueueView {
                observations: SourceRuntimeEventObservations {
                    events_dropped_total: bump(obs.events_dropped_total),
                    events_dropped_oversized_total: bump(obs.events_dropped_oversized_total),
                    ..obs
                },
                ..queue
            },
        )
    } else if reserved > obs.maximum_buffered_owned_bytes {
        (
            SourceRuntimeEventDelivery::DroppedFull,
            SourceRuntimeEventQueueView {
                observations: SourceRuntimeEventObservations {
                    events_dropped_total: bump(obs.events_dropped_total),
                    ..obs
                },
                ..queue
            },
        )
    } else if !receiver_open {
        (
            SourceRuntimeEventDelivery::ReceiverClosed,
            SourceRuntimeEventQueueView {
                observations: SourceRuntimeEventObservations {
                    peak_depth_owned_bytes: peak,
                    ..obs
                },
                ..queue
            },
        )
    } else if queue.events.len() >= queue.capacity_events {
        (
            SourceRuntimeEventDelivery::DroppedFull,
            SourceRuntimeEventQueueView {
                observations: SourceRuntimeEventObservations {
                    peak_depth_owned_bytes: peak,
                    events_dropped_total: bump(obs.events_dropped_total),
                    ..obs
                },
                ..queue
            },
        )
    } else {
        (
            SourceRuntimeEventDelivery::Enqueued,
            SourceRuntimeEventQueueView {
                events: queue.events.push(event),
                owned: queue.owned.push(owned_bytes),
                observations: SourceRuntimeEventObservations {
                    depth_events: (obs.depth_events + 1) as u64,
                    depth_owned_bytes: reserved as u64,
                    peak_depth_owned_bytes: peak,
                    events_enqueued_total: bump(obs.events_enqueued_total),
                    ..obs
                },
                ..queue
            },
        )
    }
}

/// Result and next state of a receive attempt, when some sender is
/// (`senders_open`) or none is still alive.
pub open spec fn receive_outcome(queue: SourceRuntimeEventQueueView, senders_open: bool) -> (
    SourceRuntimeEventReceive,
    SourceRuntimeEventQueueView,
) {
    let obs = queue.observations;
    if queue.events.len() > 0 {
        (
            SourceRuntimeEventReceive::Event(queue.events[0]),
            SourceRuntimeEventQueueView {
                events: queue.events.drop_first(),
                owned: queue.owned.drop_first(),
                observations: SourceRuntimeEventObservations {
                    depth_events: (obs.depth_events - 1) as u64,
                    depth_owned_bytes: (obs.depth_owned_bytes - queue.owned[0]) as u64,
                    ..obs
                },
                ..queue
            },
        )
    } else if senders_open {
        (SourceRuntimeEventReceive::Empty, queue)
    } else {
        (SourceRuntimeEventReceive::Closed, queue)
    }
}

/// Totals are never negative.
proof fn lemma_owned_total_nonnegative(owned: Seq<usize>, len: int)
    ensures
        owned_total(owned, len) >= 0,
    decreases len,
{
    if len > 0 {
        lemma_owned_total_nonnegative(owned, len - 1);
    }
}

/// The total of the entries after the first is the total less the first.
proof fn lemma_owned_total_drop_first(owned: Seq<usize>, len: int)
    requires
        1 <= len <= owned.len(),
    ensures
        owned_total(owned.drop_first(), len - 1) == owned_total(owned, len) - owned[0],
    decreases len,
{
    let rest = owned.drop_first();
    if len > 1 {
        lemma_owned_total_drop_first(owned, len - 1);
        assert(rest[len - 2] == owned[len - 1]);
        assert(owned_total(rest, len - 1) == owned_total(rest, len - 2) + rest[len - 2]);
        assert(owned_total(owned, len) == owned_total(owned, len - 1) + owned[len - 1]);
    } else {
        assert(owned_total(rest, 0) == 0);
        assert(owned_total(owned, 0) == 0);
        assert(owned_total(owned, 1) == owned_total(owned, 0) + owned[0]);
    }
}

/// A total over a prefix only reads that prefix.
proof fn lemma_owned_total_prefix(owned: Seq<usize>, len: int)
    requires
        0 <= len <= owned.len(),
    ensures
        owned_total(owned, len) == owned_total(owned.subrange(0, len), len),
    decreases len,
{
    if len > 0 {
        lemma_owned_total_prefix(owned, len - 1);
        lemma_owned_total_prefix(owned.subrange(0, len), len - 1);
        assert(owned.subrange(0, len).subrange(0, len - 1) =~= owned.subrange(0, len - 1));
    }
}

impl SourceRuntimeEventQueue {
    proof fn lemma_view(&self)
        ensures
            self@.events.len() == self.queued@.len(),
            self@.owned.len() == self.queued@.len(),
            forall|i: int|
                0 <= i < self.queued@.len() ==> #[trigger] self@.events[i]
                    == self.queued@[i].event,
            forall|i: int|
                0 <= i < self.queued@.len() ==> #[trigger] self@.owned[i]
                    == self.queued@[i].owned_bytes,
    {
    }

    /// An empty queue bounded by `capacity_events` events.
    pub fn new(capacity_events: usize) -> (r: Self)
        requires
            capacity_events >= 1,
        ensures
            r@.wf(),
            r@.capacity_events == capacity_events,
            r@.events.len() == 0,
            r@.observations.depth_owned_bytes == 0,
            r@.observations.peak_depth_owned_bytes == 0,
            r@.observations.events_enqueued_total == 0,
            r@.observations.events_dropped_total == 0,
            r@.observations.events_dropped_oversized_total == 0,
    {
        let budget: usize = match capacity_events.checked_mul(MAX_SOURCE_RUNTIME_EVENT_OWNED_BYTES) {
            Some(product) => product,
            None => usize::MAX,
        };
        let r = SourceRuntimeEventQueue {
            capacity_events,
            queued: VecDeque::new(),
            observations: SourceRuntimeEventObservations {
                capacity_event_count: capacity_events as u64,
                maximum_event_owned_bytes: MAX_SOURCE_RUNTIME_EVENT_OWNED_BYTES as u64,
                maximum_buffered_owned_bytes: budget as u64,
                depth_events: 0,
                depth_owned_bytes: 0,
                peak_depth_owned_bytes: 0,
                events_enqueued_total: 0,
                events_dropped_total: 0,
                events_dropped_oversized_total: 0,
            },
        };
        proof {
            r.lemma_view();
        }
        r
    }

    /// The channel's counters.
    pub fn observations(&self) -> (r: SourceRuntimeEventObservations)
        ensures
            r == self@.observations,
    {
        self.observations
    }

    /// Publishes without blocking. An event retaining more than the per-event
    /// bound, or one that would exceed the byte budget, is dropped and
    /// counted. Otherwise a departed receiver is reported as closed, even
    /// when the queue is full; with the receiver present, the newest event
    /// is dropped and counted when the queue is full.
    pub fn try_send(
        &mut self,
        event: SourceRuntimeEvent,
        owned_bytes: usize,
        receiver_open: bool,
    ) -> (r: SourceRuntimeEventDelivery)
        requires
            old(self)@.wf(),
        ensures
            final(self)@.wf(),
            (r, final(self)@) == send_outcome(old(self)@, event, owned_bytes, receiver_open),
    {
        proof {
            self.lemma_view();
        }
        if owned_bytes > MAX_SOURCE_RUNTIME_EVENT_OWNED_BYTES {
            self.observations.events_dropped_total = self.observations.events_dropped_total.wrapping_add(
                1,
            );
            self.observations.events_dropped_oversized_total =
                self.observations.events_dropped_oversized_total.wrapping_add(1);
            return SourceRuntimeEventDelivery::DroppedOversized;
        }
        let owned = owned_bytes as u64;
        let reserved = match self.observations.depth_owned_bytes.checked_add(owned) {
            Some(total) => total,
            None => {
                self.observations.events_dropped_total =
                    self.observations.events_dropped_total.wrapping_add(1);
                return SourceRuntimeEventDelivery::DroppedFull;
            },
        };
        if reserved > self.observations.maximum_buffered_owned_bytes {
            self.observations.events_dropped_total = self.observations.events_dropped_total.wrapping_add(
                1,
            );
            return SourceRuntimeEventDelivery::DroppedFull;
        }
        if reserved > self.observations.peak_depth_owned_bytes {
            self.observations.peak_depth_owned_bytes = reserved;
        }
        if !receiver_open {
            return SourceRuntimeEventDelivery::ReceiverClosed;
        }
        if self.queued.len() >= self.capacity_events {
            self.observations.events_dropped_total = self.observations.events_dropped_total.wrapping_add(
                1,
            );
            return SourceRuntimeEventDelivery::DroppedFull;
        }
        let ghost before = self@;
        self.queued.push_back(QueuedSourceRuntimeEvent { event, owned_bytes });
        self.observations.depth_events = self.observations.depth_events + 1;
        self.observations.depth_owned_bytes = reserved;
        self.observations.events_enqueued_total = self.observations.events_enqueued_total.wrapping_add(
            1,
        );
        proof {
            self.lemma_view();
            assert(self@.events =~= before.events.push(event));
            assert(self@.owned =~= before.owned.push(owned_bytes));
            assert(self@.owned.drop_last() =~= before.owned);
            assert(owned_total(self@.owned, self@.owned.len() as int) == owned_total(
                before.owned,
                before.owned.len() as int,
            ) + owned_bytes) by {
                lemma_owned_total_prefix(self@.owned, before.owned.len() as int);
                assert(self@.owned.subrange(0, before.owned.len() as int) =~= before.owned);
                lemma_owned_total_prefix(before.owned, before.owned.len() as int);
                assert(before.owned.subrange(0, before.owned.len() as int) =~= before.owned);
            }
        }
        SourceRuntimeEventDelivery::Enqueued
    }

    /// Takes the oldest queued event, or reports an empty queue, or, once the
    /// queue is drained and no sender remains, that the channel is closed.
    pub fn try_recv(&mut self, senders_open: bool) -> (r: SourceRuntimeEventReceive)
        requires
            old(self)@.wf(),
        ensures
            final(self)@.wf(),
            (r, final(self)@) == receive_outcome(old(self)@, senders_open),
    {
        proof {
            self.lemma_view();
        }
        let ghost before = self@;
        match self.queued.pop_front() {
            Some(queued) => {
                proof {
                    self.lemma_view();
                    assert(self@.events =~= before.events.drop_first());
                    assert(self@.owned =~= before.owned.drop_first());
                    lemma_owned_total_drop_first(before.owned, before.owned.len() as int);
                    lemma_owned_total_nonnegative(before.owned.drop_first(), before.owned.len() - 1);
                    assert(before.owned[0] == queued.owned_bytes);
                }
                self.observations.depth_events = self.observations.depth_events - 1;
                self.observations.depth_owned_bytes = self.observations.depth_owned_bytes
                    - queued.owned_bytes as u64;
                SourceRuntimeEventReceive::Event(queued.event)
            },
            None => {
                if senders_open {
                    SourceRuntimeEventReceive::Empty
                } else {
                    SourceRuntimeEventReceive::Closed
                }
            },
        }
    }
}

/// An event within both byte bounds sent after the receiver is gone is
/// reported as closed, whether or not the queue is full, and nothing is
/// queued.
pub proof fn lemma_departed_receiver_is_reported_closed(
    queue: SourceRuntimeEventQueueView,
    event: SourceRuntimeEvent,
    owned_bytes: usize,
)
    requires
        owned_bytes <= MAX_SOURCE_RUNTIME_EVENT_OWNED_BYTES,
        queue.observations.depth_owned_bytes + owned_bytes
            <= queue.observations.maximum_buffered_owned_bytes,
    ensures
        send_outcome(queue, event, owned_bytes, false).0
            == SourceRuntimeEventDelivery::ReceiverClosed,
        send_outcome(queue, event, owned_bytes, false).1.events == queue.events,
{
}

/// Events come out in the order they were accepted: publishing to a queue
/// that holds events does not change which event is received next.
pub proof fn lemma_fifo_order(
    queue: SourceRuntimeEventQueueView,
    event: SourceRuntimeEvent,
    owned_bytes: usize,
    receiver_open: bool,
    senders_open: bool,
)
    requires
        queue.wf(),
        queue.events.len() > 0,
    ensures
        receive_outcome(send_outcome(queue, event, owned_bytes, receiver_open).1, senders_open).0
            == receive_outcome(queue, senders_open).0,
{
}

/// A refused event never reaches the queue: every outcome but `Enqueued`
/// leaves the queued events exactly as they were.
pub proof fn lemma_refused_event_is_not_queued(
    queue: SourceRuntimeEventQueueView,
    event: SourceRuntimeEvent,
    owned_bytes: usize,
    receiver_open: bool,
)
    ensures
        ({
            let (delivery, next) = send_outcome(queue, event, owned_bytes, receiver_open);
            delivery != SourceRuntimeEventDelivery::Enqueued ==> next.events == queue.events
                && next.owned == queue.owned && next.observations.depth_owned_bytes
                == queue.observations.depth_owned_bytes
        }),
{
}

/// An oversized event is always refused as oversized, whatever the state of
/// the queue or its receiver.
pub proof fn lemma_oversized_is_always_refused(
    queue: SourceRuntimeEventQueueView,
    event: SourceRuntimeEvent,
    owned_bytes: usize,
    receiver_open: bool,
)
    requires
        owned_bytes > MAX_SOURCE_RUNTIME_EVENT_OWNED_BYTES,
    ensures
        send_outcome(queue, event, owned_bytes, receiver_open).0
            == SourceRuntimeEventDelivery::DroppedOversized,
{
}

/// An accepted event and then a receive on an empty queue hand back exactly
/// that event and restore the queue's depth counters.
pub proof fn lemma_send_then_receive_round_trips(
    queue: SourceRuntimeEventQueueView,
    event: SourceRuntimeEvent,
    owned_bytes: usize,
    senders_open: bool,
)
    requires
        queue.wf(),
        queue.events.len() == 0,
        send_outcome(queue, event, owned_bytes, true).0 == SourceRuntimeEventDelivery::Enqueued,
    ensures
        ({
            let sent = send_outcome(queue, event, owned_bytes, true).1;
            let (received, after) = receive_outcome(sent, senders_open);
            &&& received == SourceRuntimeEventReceive::Event(event)
            &&& after.events.len() == 0
            &&& after.observations.depth_events == queue.observations.depth_events
            &&& after.observations.depth_owned_bytes == queue.observations.depth_owned_bytes
        }),
{
}

/// Lock predicate of a channel: the queue state is well formed.
pub struct QueueInvariant;

impl RwLockPredicate<SourceRuntimeEventQueue> for QueueInvariant {
    closed spec fn inv(self, queue: SourceRuntimeEventQueue) -> bool {
        queue@.wf()
    }
}

type SharedQueue = Arc<RwLock<SourceRuntimeEventQueue, QueueInvariant>>;

#[verifier::external_type_specification]
#[verifier::external_body]
#[verifier::reject_recursive_types(T)]
pub struct ExSyncSender<T>(std::sync::mpsc::SyncSender<T>);

#[verifier::external_type_specification]
#[verifier::external_body]
#[verifier::reject_recursive_types(T)]
pub struct ExReceiver<T>(std::sync::mpsc::Receiver<T>);

/// Calls `std::sync::mpsc::sync_channel(0)`: a rendezvous channel used only
/// to learn whether the other side still exists.
#[verifier::external_body]
fn liveness_channel() -> (r: (SyncSender<()>, Receiver<()>)) {
    std::sync::mpsc::sync_channel(0)
}

/// Calls `SyncSender::clone`, another handle to the same channel.
#[verifier::external_body]
fn clone_liveness_sender(token: &SyncSender<()>) -> (r: SyncSender<()>) {
    token.clone()
}

/// Calls `SyncSender::try_send(())` on a rendezvous channel whose receiver
/// never waits: it fails as full while the receiver exists and as
/// disconnected once it has been dropped. Returns whether it still exists;
/// another thread may drop it at any moment, so nothing is stated.
#[verifier::external_body]
fn receiver_is_alive(token: &SyncSender<()>) -> (r: bool) {
    !matches!(token.try_send(()), Err(std::sync::mpsc::TrySendError::Disconnected(())))
}

/// Calls `Receiver::try_recv` on the rendezvous channel nobody sends on: it
/// reports disconnected once every sender has been dropped. Returns whether a
/// sender still exists; nothing is stated, as senders may drop at any moment.
#[verifier::external_body]
fn senders_are_alive(token: &Receiver<()>) -> (r: bool) {
    !matches!(token.try_recv(), Err(std::sync::mpsc::TryRecvError::Disconnected))
}

/// Bounded read access to an event channel's counters.
pub struct SourceRuntimeEventObservationHandle {
    shared: SharedQueue,
}

impl SourceRuntimeEventObservationHandle {
    /// The channel this handle reads.
    pub closed spec fn spec_channel(&self) -> Arc<RwLock<SourceRuntimeEventQueue, QueueInvariant>> {
        self.shared
    }
}

impl Clone for SourceRuntimeEventObservationHandle {
    fn clone(&self) -> (r: Self) {
        SourceRuntimeEventObservationHandle { shared: self.shared.clone() }
    }
}

/// The counters of a well-formed channel obey its bounds: the depth never
/// exceeds the capacity or the byte budget, and the peak is at least the
/// current depth.
pub open spec fn observations_within_bounds(obs: SourceRuntimeEventObservations) -> bool {
    &&& obs.depth_events <= obs.capacity_event_count
    &&& obs.depth_owned_bytes <= obs.maximum_buffered_owned_bytes
    &&& obs.peak_depth_owned_bytes >= obs.depth_owned_bytes
    &&& obs.maximum_event_owned_bytes == MAX_SOURCE_RUNTIME_EVENT_OWNED_BYTES
    &&& obs.capacity_event_count >= 1
}

fn read_observations(shared: &SharedQueue) -> (r: SourceRuntimeEventObservations)
    ensures
        observations_within_bounds(r),
{
    let lock: &RwLock<SourceRuntimeEventQueue, QueueInvariant> = &**shared;
    let handle = lock.acquire_read();
    let queue = handle.borrow();
    let r = queue.observations();
    handle.release_read();
    r
}

impl SourceRuntimeEventObservationHandle {
    /// The channel's counters now.
    pub fn observations(&self) -> (r: SourceRuntimeEventObservations)
        ensures
            observations_within_bounds(r),
    {
        read_observations(&self.shared)
    }
}

/// The publishing end of an event channel.
pub struct SourceRuntimeEventSender {
    shared: SharedQueue,
    receiver_token: SyncSender<()>,
}

impl Clone for SourceRuntimeEventSender {
    fn clone(&self) -> (r: Self) {
        SourceRuntimeEventSender {
            shared: self.shared.clone(),
            receiver_token: clone_liveness_sender(&self.receiver_token),
        }
    }
}

impl SourceRuntimeEventSender {
    /// The channel this sender publishes to.
    pub closed spec fn spec_channel(&self) -> Arc<RwLock<SourceRuntimeEventQueue, QueueInvariant>> {
        self.shared
    }

    /// Publishes from a capture worker without blocking. When the bounded
    /// control channel is full and its receiver still exists, the newest
    /// event is dropped and counted; once the receiver is gone the event is
    /// reported as closed; an event retaining more than the per-event bound
    /// is always refused.
    pub fn try_send(&self, event: SourceRuntimeEvent) -> (r: SourceRuntimeEventDelivery)
        ensures
            event.owned_bytes_bound_exceeded() ==> r == SourceRuntimeEventDelivery::DroppedOversized,
    {
        let owned_bytes = event.owned_bytes();
        let receiver_open = receiver_is_alive(&self.receiver_token);
        let lock: &RwLock<SourceRuntimeEventQueue, QueueInvariant> = &*self.shared;
        let (mut queue, handle) = lock.acquire_write();
        let r = queue.try_send(event, owned_bytes, receiver_open);
        handle.release_write(queue);
        r
    }

    /// The channel's counters now.
    pub fn observations(&self) -> (r: SourceRuntimeEventObservations)
        ensures
            observations_within_bounds(r),
    {
        read_observations(&self.shared)
    }

    /// A handle for reading this channel's counters.
    pub fn observation_handle(&self) -> (r: SourceRuntimeEventObservationHandle)
        ensures
            r.spec_channel() == self.spec_channel(),
    {
        SourceRuntimeEventObservationHandle { shared: share(&self.shared) }
    }
}

impl SourceRuntimeEvent {
    /// The event certainly retains more than the per-event bound: its key
    /// alone is longer than the bound.
    pub open spec fn owned_bytes_bound_exceeded(self) -> bool {
        encode_utf8(self.stable_id_of().stable_key@).len() > MAX_SOURCE_RUNTIME_EVENT_OWNED_BYTES
    }
}

/// Publishes one exact post-open backend failure without introducing another
/// event queue or worker.
pub fn publish_backend_failure(
    sender: &SourceRuntimeEventSender,
    stable_id: StableSourceId,
    generation: SourceGeneration,
    operation: &'static str,
    error_class: CaptureRuntimeFailureClass,
) -> (r: SourceRuntimeEventDelivery)
    ensures
        encode_utf8(stable_id.stable_key@).len() > MAX_SOURCE_RUNTIME_EVENT_OWNED_BYTES ==> r
            == SourceRuntimeEventDelivery::DroppedOversized,
{
    sender.try_send(
        SourceRuntimeEvent::BackendFailure {
            stable_id,
            generation,
            failure: CaptureRuntimeFailure { operation, error_class },
        },
    )
}

/// The receiving end of an event channel.
pub struct SourceRuntimeEventReceiver {
    shared: SharedQueue,
    senders_token: Receiver<()>,
}

impl SourceRuntimeEventReceiver {
    /// The channel this receiver drains.
    pub closed spec fn spec_channel(&self) -> Arc<RwLock<SourceRuntimeEventQueue, QueueInvariant>> {
        self.shared
    }

    /// Takes the oldest event without blocking; reports `Empty` while senders
    /// remain, and `Closed` once the queue is drained and every sender is gone.
    pub fn try_recv(&self) -> (r: SourceRuntimeEventReceive) {
        let senders_open = senders_are_alive(&self.senders_token);
        let lock: &RwLock<SourceRuntimeEventQueue, QueueInvariant> = &*self.shared;
        let (mut queue, handle) = lock.acquire_write();
        let r = queue.try_recv(senders_open);
        handle.release_write(queue);
        r
    }

    /// The channel's counters now.
    pub fn observations(&self) -> (r: SourceRuntimeEventObservations)
        ensures
            observations_within_bounds(r),
    {
        read_observations(&self.shared)
    }

    /// A handle for reading this channel's counters.
    pub fn observation_handle(&self) -> (r: SourceRuntimeEventObservationHandle)
        ensures
            r.spec_channel() == self.spec_channel(),
    {
        SourceRuntimeEventObservationHandle { shared: share(&self.shared) }
    }
}

/// Creates a bounded event channel holding at most `capacity_events` events;
/// a zero capacity is refused.
pub fn source_runtime_event_channel(capacity_events: usize) -> (r: Result<
    (SourceRuntimeEventSender, SourceRuntimeEventReceiver),
    CaptureError,
>)
    ensures
        capacity_events == 0 <==> r == Err::<
            (SourceRuntimeEventSender, SourceRuntimeEventReceiver),
            CaptureError,
        >(CaptureError::InvalidRuntimeEventCapacity),
        capacity_events > 0 <==> r is Ok,
{
    if capacity_events == 0 {
        return Err(CaptureError::InvalidRuntimeEventCapacity);
    }
    let queue = SourceRuntimeEventQueue::new(capacity_events);
    let lock = RwLock::new(queue, Ghost(QueueInvariant));
    let shared = Arc::new(lock);
    let (receiver_token, senders_token) = liveness_channel();
    Ok(
        (
            SourceRuntimeEventSender { shared: shared.clone(), receiver_token },
            SourceRuntimeEventReceiver { shared, senders_token },
        ),
    )
}

} // verus!
