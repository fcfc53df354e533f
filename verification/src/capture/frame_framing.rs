//! Bounded native-callback framing for capture backends.
//!
//! Native callbacks deliver interleaved buffers of arbitrary length; capture
//! streams carry frames of one fixed duration. A framing keeps how many
//! samples of the current frame are pending and the timestamp that frame
//! will carry, and plans, for each callback, which prefixes of the callback
//! complete a frame and at which timestamp each completed frame is emitted.
//! The caller copies the samples and emits the frames as planned.

use vstd::prelude::*;

verus! {

/// A frame completed while consuming one callback: it is emitted with
/// `timestamp_ns` once the callback's samples up to `source_end` have been
/// copied.
#[derive(Clone, Copy, Debug, PartialEq, Eq, Structural)]
pub struct FrameEmission {
    pub timestamp_ns: u64,
    pub source_end: usize,
}

/// Pending-frame state of one capture stream's framing.
pub struct CaptureFrameFraming {
    frame_sample_count: usize,
    samples_per_channel: usize,
    channel_count: usize,
    sample_rate_hz: u32,
    sample_count: usize,
    next_timestamp_ns: Option<u64>,
}

/// Abstract value of a framing.
pub struct CaptureFrameFramingView {
    pub frame_sample_count: nat,
    pub samples_per_channel: nat,
    pub channel_count: nat,
    pub sample_rate_hz: nat,
    pub sample_count: nat,
    pub next_timestamp_ns: Option<u64>,
}

impl View for CaptureFrameFraming {
    type V = CaptureFrameFramingView;

    closed spec fn view(&self) -> CaptureFrameFramingView {
        CaptureFrameFramingView {
            frame_sample_count: self.frame_sample_count as nat,
            samples_per_channel: self.samples_per_channel as nat,
            channel_count: self.channel_count as nat,
            sample_rate_hz: self.sample_rate_hz as nat,
            sample_count: self.sample_count as nat,
            next_timestamp_ns: self.next_timestamp_ns,
        }
    }
}

/// `value` capped at `u64::MAX`.
pub open spec fn cap_u64(value: int) -> int {
    if value > u64::MAX {
        u64::MAX as int
    } else {
        value
    }
}

/// Duration of one frame in whole nanoseconds: the frame's samples per
/// channel times one second, capped at `u64::MAX`, divided by the rate.
pub open spec fn frame_duration_ns(samples_per_channel: nat, sample_rate_hz: nat) -> int {
    cap_u64((samples_per_channel * 1_000_000_000) as int) / sample_rate_hz as int
}

/// A callback is refused when the framing was built with an empty frame, no
/// channels or no rate, or when the callback does not hold whole sample
/// frames of the declared channel count.
pub open spec fn callback_refused(framing: CaptureFrameFramingView, callback_sample_count: nat) -> bool {
    framing.frame_sample_count == 0 || framing.channel_count == 0 || framing.sample_rate_hz == 0
        || callback_sample_count % framing.channel_count != 0
}

/// Timestamp of the first frame completed by a callback: the callback's own
/// time (never zero) when no samples were pending, else the time the pending
/// frame was started with.
pub open spec fn first_frame_timestamp(framing: CaptureFrameFramingView, callback_timestamp_ns: u64) -> int {
    if framing.sample_count == 0 || framing.next_timestamp_ns is None {
        if callback_timestamp_ns == 0 {
            1
        } else {
            callback_timestamp_ns as int
        }
    } else {
        framing.next_timestamp_ns->0 as int
    }
}

/// Number of frames a callback completes.
pub open spec fn completed_frames(framing: CaptureFrameFramingView, callback_sample_count: nat) -> int {
    (framing.sample_count + callback_sample_count) as int / framing.frame_sample_count as int
}

/// The `k`-th frame a callback completes: it ends `k + 1` frames past where
/// the pending frame began, and is stamped `k` frame durations after the
/// first, capped at `u64::MAX`.
pub open spec fn planned_emission(
    framing: CaptureFrameFramingView,
    callback_timestamp_ns: u64,
    k: int,
) -> FrameEmission {
    FrameEmission {
        timestamp_ns: cap_u64(
            first_frame_timestamp(framing, callback_timestamp_ns) + k * frame_duration_ns(
                framing.samples_per_channel,
                framing.sample_rate_hz,
            ),
        ) as u64,
        source_end: ((k + 1) * framing.frame_sample_count - framing.sample_count) as usize,
    }
}

/// The framing after accepting a callback: the samples past the last
/// completed frame stay pending; the pending frame's timestamp is the
/// callback's first-frame time when nothing completed, the time after the
/// last completed frame when samples remain, and none otherwise.
pub open spec fn framing_after(
    framing: CaptureFrameFramingView,
    callback_sample_count: nat,
    callback_timestamp_ns: u64,
) -> CaptureFrameFramingView {
    let total = (framing.sample_count + callback_sample_count) as int;
    let frames = completed_frames(framing, callback_sample_count);
    let pending = total % framing.frame_sample_count as int;
    CaptureFrameFramingView {
        sample_count: pending as nat,
        next_timestamp_ns: if frames == 0 {
            Some(first_frame_timestamp(framing, callback_timestamp_ns) as u64)
        } else if pending > 0 {
            Some(
                cap_u64(
                    first_frame_timestamp(framing, callback_timestamp_ns) + frames
                        * frame_duration_ns(framing.samples_per_channel, framing.sample_rate_hz),
                ) as u64,
            )
        } else {
            None
        },
        ..framing
    }
}

impl CaptureFrameFraming {
    #[verifier::type_invariant]
    spec fn pending_fits(self) -> bool {
        &&& self.sample_count == 0 || self.sample_count < self.frame_sample_count
        &&& self.sample_count > 0 ==> self.next_timestamp_ns is Some
    }

    /// A framing into frames of `samples_per_channel` sample frames of
    /// `channel_count` interleaved channels at `sample_rate_hz`, with nothing
    /// pending. The frame holds their product of samples, capped at
    /// `usize::MAX`.
    pub fn new(samples_per_channel: usize, channel_count: u8, sample_rate_hz: u32) -> (r: Self)
        ensures
            r@.frame_sample_count == cap_usize(samples_per_channel * channel_count),
            r@.samples_per_channel == samples_per_channel,
            r@.channel_count == channel_count,
            r@.sample_rate_hz == sample_rate_hz,
            r@.sample_count == 0,
            r@.next_timestamp_ns is None,
    {
        let channel_count = channel_count as usize;
        let frame_sample_count = match samples_per_channel.checked_mul(channel_count) {
            Some(product) => product,
            None => usize::MAX,
        };
        CaptureFrameFraming {
            frame_sample_count,
            samples_per_channel,
            channel_count,
            sample_rate_hz,
            sample_count: 0,
            next_timestamp_ns: None,
        }
    }

    /// Samples in one frame.
    pub fn frame_sample_count(&self) -> (r: usize)
        ensures
            r == self@.frame_sample_count,
    {
        self.frame_sample_count
    }

    /// Samples of the current frame already received.
    pub fn pending_sample_count(&self) -> (r: usize)
        ensures
            r == self@.sample_count,
    {
        self.sample_count
    }

    /// Plans one callback of `callback_sample_count` interleaved samples
    /// received at `callback_timestamp_ns`: `None` when the callback is
    /// refused (the framing is then unchanged), else the frames it completes,
    /// in order.
    pub fn push(&mut self, callback_sample_count: usize, callback_timestamp_ns: u64) -> (r: Option<
        Vec<FrameEmission>,
    >)
        ensures
            callback_refused(old(self)@, callback_sample_count as nat) ==> r is None
                && final(self)@ == old(self)@,
            final(self)@.sample_count == 0 || final(self)@.sample_count
                < final(self)@.frame_sample_count,
            !callback_refused(old(self)@, callback_sample_count as nat) ==> ({
                &&& r is Some
                &&& r->0@.len() == completed_frames(old(self)@, callback_sample_count as nat)
                &&& forall|k: int|
                    0 <= k < r->0@.len() ==> #[trigger] r->0@[k] == planned_emission(
                        old(self)@,
                        callback_timestamp_ns,
                        k,
                    )
                &&& final(self)@ == framing_after(
                    old(self)@,
                    callback_sample_count as nat,
                    callback_timestamp_ns,
                )
            }),
    {
        proof {
            use_type_invariant(&*self);
        }
        if self.frame_sample_count == 0 || self.channel_count == 0 || self.sample_rate_hz == 0
            || callback_sample_count % self.channel_count != 0 {
            return None;
        }
        let ghost start = self@;
        let frame = self.frame_sample_count;
        let first: u64 = match self.next_timestamp_ns {
            Some(timestamp_ns) if self.sample_count > 0 => timestamp_ns,
            _ => if callback_timestamp_ns == 0 {
                1
            } else {
                callback_timestamp_ns
            },
        };
        let duration = frame_duration(self.samples_per_channel, self.sample_rate_hz);
        let ghost first_ts = first as int;
        let ghost dur = duration as int;
        let mut count = self.sample_count;
        let mut next: u64 = first;
        let mut emissions: Vec<FrameEmission> = Vec::new();
        let mut offset: usize = 0;
        while offset < callback_sample_count
            invariant
                frame == start.frame_sample_count,
                frame > 0,
                count < frame,
                offset <= callback_sample_count,
                start.sample_count + offset == emissions@.len() * frame + count,
                first_ts == first_frame_timestamp(start, callback_timestamp_ns),
                dur == frame_duration_ns(start.samples_per_channel, start.sample_rate_hz),
                dur == duration,
                first_ts == first,
                next == cap_u64(first_ts + emissions@.len() * dur),
                forall|k: int|
                    0 <= k < emissions@.len() ==> #[trigger] emissions@[k] == planned_emission(
                        start,
                        callback_timestamp_ns,
                        k,
                    ),
            decreases callback_sample_count - offset,
        {
            let available = frame - count;
            let remaining = callback_sample_count - offset;
            let copy_count = if available < remaining {
                available
            } else {
                remaining
            };
            count = count + copy_count;
            offset = offset + copy_count;
            if count == frame {
                let ghost done = emissions@.len() as int;
                proof {
                    assert((done + 1) * frame == done * frame + frame) by (nonlinear_arith);
                    assert((done + 1) * dur == done * dur + dur) by (nonlinear_arith);
                }
                emissions.push(FrameEmission { timestamp_ns: next, source_end: offset });
                count = 0;
                next = next.saturating_add(duration);
            }
        }
        let ghost frames = emissions@.len() as int;
        proof {
            let total = (start.sample_count + callback_sample_count) as int;
            assert(total == frames * frame + count);
            assert(frames >= 0);
            vstd::arithmetic::div_mod::lemma_fundamental_div_mod_converse(
                total,
                frame as int,
                frames,
                count as int,
            );
        }
        let next_timestamp_ns = if frames_is_empty(&emissions) {
            Some(first)
        } else if count > 0 {
            Some(next)
        } else {
            None
        };
        *self = CaptureFrameFraming {
            frame_sample_count: self.frame_sample_count,
            samples_per_channel: self.samples_per_channel,
            channel_count: self.channel_count,
            sample_rate_hz: self.sample_rate_hz,
            sample_count: count,
            next_timestamp_ns,
        };
        Some(emissions)
    }
}

/// `value` capped at `usize::MAX`.
pub open spec fn cap_usize(value: int) -> int {
    if value > usize::MAX {
        usize::MAX as int
    } else {
        value
    }
}

fn frame_duration(samples_per_channel: usize, sample_rate_hz: u32) -> (r: u64)
    requires
        sample_rate_hz > 0,
    ensures
        r == frame_duration_ns(samples_per_channel as nat, sample_rate_hz as nat),
{
    let samples = samples_per_channel as u64;
    let scaled = match samples.checked_mul(1_000_000_000) {
        Some(product) => product,
        None => u64::MAX,
    };
    scaled / (sample_rate_hz as u64)
}

fn frames_is_empty(emissions: &Vec<FrameEmission>) -> (r: bool)
    ensures
        r == (emissions@.len() == 0),
{
    emissions.len() == 0
}

/// Frames stay contiguous: within one callback each planned frame ends one
/// frame of samples after the previous and is stamped one frame duration
/// later (capped at `u64::MAX`); and when a callback leaves samples pending
/// after completing frames, the next callback's first frame is stamped one
/// frame duration after the last frame of this one, whatever time that
/// callback arrives at.
pub proof fn lemma_frames_stay_contiguous(
    framing: CaptureFrameFramingView,
    callback_sample_count: nat,
    callback_timestamp_ns: u64,
    next_timestamp_ns: u64,
    k: int,
)
    requires
        !callback_refused(framing, callback_sample_count),
        framing.sample_count < framing.frame_sample_count,
        callback_sample_count <= usize::MAX,
        0 <= k,
    ensures
        ({
            let duration = frame_duration_ns(framing.samples_per_channel, framing.sample_rate_hz);
            let this = planned_emission(framing, callback_timestamp_ns, k);
            let following = planned_emission(framing, callback_timestamp_ns, k + 1);
            &&& following.timestamp_ns == cap_u64(this.timestamp_ns + duration)
            &&& (k + 2) * framing.frame_sample_count <= framing.sample_count
                + callback_sample_count ==> following.source_end == this.source_end
                + framing.frame_sample_count
        }),
        ({
            let duration = frame_duration_ns(framing.samples_per_channel, framing.sample_rate_hz);
            let frames = completed_frames(framing, callback_sample_count);
            let after = framing_after(framing, callback_sample_count, callback_timestamp_ns);
            frames > 0 && after.sample_count > 0 ==> first_frame_timestamp(after, next_timestamp_ns)
                == cap_u64(
                planned_emission(framing, callback_timestamp_ns, frames - 1).timestamp_ns
                    + duration,
            )
        }),
{
    let duration = frame_duration_ns(framing.samples_per_channel, framing.sample_rate_hz);
    let first = first_frame_timestamp(framing, callback_timestamp_ns);
    let frame = framing.frame_sample_count as int;
    assert(duration >= 0) by (nonlinear_arith)
        requires
            duration == cap_u64((framing.samples_per_channel * 1_000_000_000) as int)
                / framing.sample_rate_hz as int,
            framing.sample_rate_hz > 0,
            framing.samples_per_channel >= 0,
    ;
    assert(first >= 0);
    assert((k + 1) * duration == k * duration + duration) by (nonlinear_arith);
    assert((k + 2) * frame == (k + 1) * frame + frame) by (nonlinear_arith);
    assert(k * duration >= 0) by (nonlinear_arith)
        requires
            k >= 0,
            duration >= 0,
    ;
    assert(cap_u64(cap_u64(first + k * duration) + duration) == cap_u64(
        first + (k + 1) * duration,
    ));
    if (k + 2) * frame <= framing.sample_count + callback_sample_count {
        assert((k + 1) * frame >= frame) by (nonlinear_arith)
            requires
                k >= 0,
                frame > 0,
        ;
        assert(0 <= (k + 1) * frame - framing.sample_count <= usize::MAX);
        assert(0 <= (k + 2) * frame - framing.sample_count <= usize::MAX);
    }
    let frames = completed_frames(framing, callback_sample_count);
    if frames > 0 {
        assert((frames - 1) * duration + duration == frames * duration) by (nonlinear_arith);
        assert((frames - 1) * duration >= 0) by (nonlinear_arith)
            requires
                frames >= 1,
                duration >= 0,
        ;
    }
}

} // verus!
