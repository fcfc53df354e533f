//! Source-sample time mapped into the process monotonic clock domain.
//!
//! A capture stream's media cadence is defined by the number of sample frames
//! the device produced, not by when callbacks arrived. A timeline anchors the
//! first observed frame to a monotonic clock reading and then advances only by
//! represented sample count.

use vstd::prelude::*;

verus! {

/// Nanoseconds in one second.
pub const NANOS_PER_SECOND: u64 = 1_000_000_000;

/// Duration of `frames` sample frames at `rate_hz`, in whole nanoseconds
/// rounded down, capped at `u64::MAX`.
pub open spec fn sample_offset_ns(frames: int, rate_hz: int) -> int {
    let exact = frames * 1_000_000_000 / rate_hz;
    if exact > u64::MAX {
        u64::MAX as int
    } else {
        exact
    }
}

/// `a + b` saturated at `u64::MAX`.
pub open spec fn saturating_add_u64(a: int, b: int) -> int {
    if a + b > u64::MAX {
        u64::MAX as int
    } else {
        a + b
    }
}

/// Why a timeline refused a source position.
#[derive(Debug, Clone, Copy, PartialEq, Eq, Structural)]
pub enum CaptureSampleTimelineError {
    MixedAdvanceModes,
    SourcePositionOverflow,
    SourcePositionMovedBackward { expected_at_least: u64, observed: u64 },
}

/// Source-time clock for one capture stream.
///
/// Callers advance it even when a captured buffer is dropped, so downstream
/// gaps remain observable.
#[derive(Debug)]
pub struct CaptureSampleTimeline {
    sample_rate_hz: u32,
    origin_timestamp_ns: Option<u64>,
    elapsed_sample_frames: u64,
    source_origin_sample_frame: Option<u64>,
    next_source_sample_frame: Option<u64>,
}

/// Abstract state of a timeline.
pub struct CaptureSampleTimelineView {
    pub sample_rate_hz: u32,
    pub origin_timestamp_ns: Option<u64>,
    pub elapsed_sample_frames: u64,
    pub source_origin_sample_frame: Option<u64>,
    pub next_source_sample_frame: Option<u64>,
}

impl View for CaptureSampleTimeline {
    type V = CaptureSampleTimelineView;

    closed spec fn view(&self) -> CaptureSampleTimelineView {
        CaptureSampleTimelineView {
            sample_rate_hz: self.sample_rate_hz,
            origin_timestamp_ns: self.origin_timestamp_ns,
            elapsed_sample_frames: self.elapsed_sample_frames,
            source_origin_sample_frame: self.source_origin_sample_frame,
            next_source_sample_frame: self.next_source_sample_frame,
        }
    }
}

/// The origin a timeline uses: its anchor, or the clock reading handed in
/// when it has none yet.
pub open spec fn resolved_origin(origin: Option<u64>, clock_now_ns: u64) -> u64 {
    match origin {
        Some(anchor) => anchor,
        None => clock_now_ns,
    }
}

/// Result and next state of `advance_from_source_position`.
pub open spec fn source_position_outcome(
    timeline: CaptureSampleTimelineView,
    source_sample_frame: u64,
    sample_frames: u64,
    clock_now_ns: u64,
) -> (Result<u64, CaptureSampleTimelineError>, CaptureSampleTimelineView) {
    let source_origin = match timeline.source_origin_sample_frame {
        Some(frame) => frame,
        None => source_sample_frame,
    };
    if timeline.elapsed_sample_frames != 0 {
        (Err(CaptureSampleTimelineError::MixedAdvanceModes), timeline)
    } else if source_sample_frame + sample_frames > u64::MAX {
        (Err(CaptureSampleTimelineError::SourcePositionOverflow), timeline)
    } else if timeline.next_source_sample_frame is Some && source_sample_frame
        < timeline.next_source_sample_frame->0 {
        (
            Err(
                CaptureSampleTimelineError::SourcePositionMovedBackward {
                    expected_at_least: timeline.next_source_sample_frame->0,
                    observed: source_sample_frame,
                },
            ),
            timeline,
        )
    } else if source_sample_frame < source_origin {
        (
            Err(
                CaptureSampleTimelineError::SourcePositionMovedBackward {
                    expected_at_least: source_origin,
                    observed: source_sample_frame,
                },
            ),
            timeline,
        )
    } else {
        let origin = resolved_origin(timeline.origin_timestamp_ns, clock_now_ns);
        (
            Ok(
                saturating_add_u64(
                    origin as int,
                    sample_offset_ns(source_sample_frame - source_origin, timeline.sample_rate_hz as int),
                ) as u64,
            ),
            CaptureSampleTimelineView {
                origin_timestamp_ns: Some(origin),
                source_origin_sample_frame: Some(source_origin),
                next_source_sample_frame: Some((source_sample_frame + sample_frames) as u64),
                ..timeline
            },
        )
    }
}

fn elapsed_ns(frames: u64, rate_hz: u32) -> (r: u64)
    requires
        rate_hz > 0,
    ensures
        r == sample_offset_ns(frames as int, rate_hz as int),
{
    assert(frames * 1_000_000_000 <= u64::MAX * 1_000_000_000) by (nonlinear_arith);
    let scaled: u128 = (frames as u128) * (NANOS_PER_SECOND as u128);
    let exact: u128 = scaled / (rate_hz as u128);
    if exact > u64::MAX as u128 {
        u64::MAX
    } else {
        exact as u64
    }
}

impl CaptureSampleTimeline {
    #[verifier::type_invariant]
    spec fn rate_is_positive(self) -> bool {
        self.sample_rate_hz > 0
    }

    /// A timeline that anchors to the clock at its first advance.
    pub fn new(sample_rate_hz: u32) -> (r: Self)
        requires
            sample_rate_hz > 0,
        ensures
            r@.sample_rate_hz == sample_rate_hz,
            r@.origin_timestamp_ns is None,
            r@.elapsed_sample_frames == 0,
            r@.source_origin_sample_frame is None,
            r@.next_source_sample_frame is None,
    {
        CaptureSampleTimeline {
            sample_rate_hz,
            origin_timestamp_ns: None,
            elapsed_sample_frames: 0,
            source_origin_sample_frame: None,
            next_source_sample_frame: None,
        }
    }

    /// A timeline whose first frame starts at `origin_timestamp_ns`, raised to
    /// one so that a timestamp is never zero.
    pub fn anchored(sample_rate_hz: u32, origin_timestamp_ns: u64) -> (r: Self)
        requires
            sample_rate_hz > 0,
        ensures
            r@.sample_rate_hz == sample_rate_hz,
            r@.origin_timestamp_ns == Some(
                if origin_timestamp_ns == 0 {
                    1u64
                } else {
                    origin_timestamp_ns
                },
            ),
            r@.elapsed_sample_frames == 0,
            r@.source_origin_sample_frame is None,
            r@.next_source_sample_frame is None,
    {
        let origin = if origin_timestamp_ns == 0 {
            1
        } else {
            origin_timestamp_ns
        };
        CaptureSampleTimeline {
            sample_rate_hz,
            origin_timestamp_ns: Some(origin),
            elapsed_sample_frames: 0,
            source_origin_sample_frame: None,
            next_source_sample_frame: None,
        }
    }

    /// Returns this buffer's source-time start and advances the next start by
    /// `sample_frames`.
    ///
    /// `clock_now_ns` is a reading of the process monotonic clock; it becomes
    /// the origin when the timeline has none yet and is otherwise unused.
    pub fn advance(&mut self, sample_frames: u64, clock_now_ns: u64) -> (r: u64)
        ensures
            ({
                let origin = resolved_origin(old(self)@.origin_timestamp_ns, clock_now_ns);
                &&& r == saturating_add_u64(
                    origin as int,
                    sample_offset_ns(
                        old(self)@.elapsed_sample_frames as int,
                        old(self)@.sample_rate_hz as int,
                    ),
                )
                &&& final(self)@ == CaptureSampleTimelineView {
                    origin_timestamp_ns: Some(origin),
                    elapsed_sample_frames: saturating_add_u64(
                        old(self)@.elapsed_sample_frames as int,
                        sample_frames as int,
                    ) as u64,
                    ..old(self)@
                }
            }),
    {
        proof {
            use_type_invariant(&*self);
        }
        let origin = match self.origin_timestamp_ns {
            Some(anchor) => anchor,
            None => clock_now_ns,
        };
        self.origin_timestamp_ns = Some(origin);
        let offset = elapsed_ns(self.elapsed_sample_frames, self.sample_rate_hz);
        self.elapsed_sample_frames = self.elapsed_sample_frames.saturating_add(sample_frames);
        origin.saturating_add(offset)
    }

    /// Returns a buffer's source-time start from its native sample-frame
    /// position. Forward gaps are preserved in the returned timestamp; an
    /// overlap or a rewind is refused and leaves the timeline unchanged.
    pub fn advance_from_source_position(
        &mut self,
        source_sample_frame: u64,
        sample_frames: u64,
        clock_now_ns: u64,
    ) -> (r: Result<u64, CaptureSampleTimelineError>)
        ensures
            (r, final(self)@) == source_position_outcome(
                old(self)@,
                source_sample_frame,
                sample_frames,
                clock_now_ns,
            ),
    {
        proof {
            use_type_invariant(&*self);
        }
        if self.elapsed_sample_frames != 0 {
            return Err(CaptureSampleTimelineError::MixedAdvanceModes);
        }
        let next_source_sample_frame = match source_sample_frame.checked_add(sample_frames) {
            Some(next) => next,
            None => {
                return Err(CaptureSampleTimelineError::SourcePositionOverflow);
            },
        };
        if let Some(expected_at_least) = self.next_source_sample_frame {
            if source_sample_frame < expected_at_least {
                return Err(
                    CaptureSampleTimelineError::SourcePositionMovedBackward {
                        expected_at_least,
                        observed: source_sample_frame,
                    },
                );
            }
        }
        let source_origin = match self.source_origin_sample_frame {
            Some(frame) => frame,
            None => source_sample_frame,
        };
        if source_sample_frame < source_origin {
            return Err(
                CaptureSampleTimelineError::SourcePositionMovedBackward {
                    expected_at_least: source_origin,
                    observed: source_sample_frame,
                },
            );
        }
        self.source_origin_sample_frame = Some(source_origin);
        let origin = match self.origin_timestamp_ns {
            Some(anchor) => anchor,
            None => clock_now_ns,
        };
        self.origin_timestamp_ns = Some(origin);
        let offset = elapsed_ns(source_sample_frame - source_origin, self.sample_rate_hz);
        self.next_source_sample_frame = Some(next_source_sample_frame);
        Ok(origin.saturating_add(offset))
    }
}

/// Timestamps derived from sample counts never move backward: more frames
/// never map to an earlier offset.
pub proof fn lemma_offset_is_monotonic(earlier: int, later: int, rate_hz: int)
    requires
        0 <= earlier <= later,
        rate_hz > 0,
    ensures
        sample_offset_ns(earlier, rate_hz) <= sample_offset_ns(later, rate_hz),
{
    assert(earlier * 1_000_000_000 <= later * 1_000_000_000) by (nonlinear_arith)
        requires
            earlier <= later,
    ;
    vstd::arithmetic::div_mod::lemma_div_is_ordered(
        earlier * 1_000_000_000,
        later * 1_000_000_000,
        rate_hz,
    );
}

/// Rounding never accumulates: one second's worth of frames always moves the
/// offset forward by exactly one second, whatever came before (below the cap).
pub proof fn lemma_one_second_of_frames_is_one_second(frames: int, rate_hz: int)
    requires
        frames >= 0,
        rate_hz > 0,
        (frames + rate_hz) * 1_000_000_000 / rate_hz <= u64::MAX,
    ensures
        sample_offset_ns(frames + rate_hz, rate_hz) == sample_offset_ns(frames, rate_hz)
            + 1_000_000_000,
{
    let x = frames * 1_000_000_000;
    assert((frames + rate_hz) * 1_000_000_000 == x + rate_hz * 1_000_000_000) by (nonlinear_arith)
        requires
            x == frames * 1_000_000_000,
    ;
    vstd::arithmetic::div_mod::lemma_fundamental_div_mod(x, rate_hz);
    let q = x / rate_hz;
    let m = x % rate_hz;
    assert(x + rate_hz * 1_000_000_000 == rate_hz * (q + 1_000_000_000) + m) by (nonlinear_arith)
        requires
            x == rate_hz * q + m,
    ;
    vstd::arithmetic::div_mod::lemma_div_multiples_vanish_fancy(q + 1_000_000_000, m, rate_hz);
    lemma_offset_is_monotonic(frames, frames + rate_hz, rate_hz);
}

/// A refused source position leaves the timeline exactly as it was, and an
/// accepted one moves the next expected position past the buffer.
pub proof fn lemma_source_position_refusal_is_side_effect_free(
    timeline: CaptureSampleTimelineView,
    source_sample_frame: u64,
    sample_frames: u64,
    clock_now_ns: u64,
)
    ensures
        ({
            let (result, next) = source_position_outcome(
                timeline,
                source_sample_frame,
                sample_frames,
                clock_now_ns,
            );
            &&& result is Err ==> next == timeline
            &&& result is Ok ==> next.next_source_sample_frame == Some(
                (source_sample_frame + sample_frames) as u64,
            )
        }),
{
}

/// After an accepted position, a later buffer that starts before the end of
/// the accepted one is refused as moving backward.
pub proof fn lemma_overlap_is_refused(
    timeline: CaptureSampleTimelineView,
    first_frame: u64,
    first_len: u64,
    second_frame: u64,
    second_len: u64,
    clock_now_ns: u64,
)
    requires
        source_position_outcome(timeline, first_frame, first_len, clock_now_ns).0 is Ok,
        second_frame < first_frame + first_len,
        second_frame + second_len <= u64::MAX,
    ensures
        ({
            let after = source_position_outcome(timeline, first_frame, first_len, clock_now_ns).1;
            source_position_outcome(after, second_frame, second_len, clock_now_ns).0 == Err::<
                u64,
                CaptureSampleTimelineError,
            >(
                CaptureSampleTimelineError::SourcePositionMovedBackward {
                    expected_at_least: (first_frame + first_len) as u64,
                    observed: second_frame,
                },
            )
        }),
{
}

/// Maps timestamps of one monotonic clock domain onto another by a fixed
/// offset: the instant `source_origin_ns` of the source domain is the instant
/// `target_origin_ns` of the target domain.
#[derive(Debug, Clone, Copy, PartialEq, Eq, Structural)]
pub struct TimelineMapping {
    pub source_origin_ns: u64,
    pub target_origin_ns: u64,
}

/// The target-domain timestamp of `timestamp_ns`, when it is a representable
/// non-zero timestamp.
pub open spec fn spec_normalize(mapping: TimelineMapping, timestamp_ns: u64) -> Option<u64> {
    let mapped = timestamp_ns - mapping.source_origin_ns + mapping.target_origin_ns;
    if 0 < mapped <= u64::MAX {
        Some(mapped as u64)
    } else {
        None
    }
}

impl TimelineMapping {
    /// A mapping taking `source_origin_ns` to `target_origin_ns`.
    pub fn new(source_origin_ns: u64, target_origin_ns: u64) -> (r: Self)
        ensures
            r.source_origin_ns == source_origin_ns,
            r.target_origin_ns == target_origin_ns,
    {
        TimelineMapping { source_origin_ns, target_origin_ns }
    }

    /// The target-domain timestamp of a source-domain timestamp; none when it
    /// would fall at or before the target epoch or past the largest timestamp.
    pub fn normalize_timestamp_ns(&self, timestamp_ns: u64) -> (r: Option<u64>)
        ensures
            r == spec_normalize(*self, timestamp_ns),
    {
        let shifted: u128 = timestamp_ns as u128 + self.target_origin_ns as u128;
        if shifted <= self.source_origin_ns as u128 {
            return None;
        }
        let mapped = shifted - self.source_origin_ns as u128;
        if mapped > u64::MAX as u128 {
            None
        } else {
            Some(mapped as u64)
        }
    }
}

/// Mapping preserves order and distance: two timestamps that both map keep
/// their difference exactly.
pub proof fn lemma_mapping_preserves_distance(mapping: TimelineMapping, a: u64, b: u64)
    requires
        spec_normalize(mapping, a) is Some,
        spec_normalize(mapping, b) is Some,
    ensures
        spec_normalize(mapping, b)->0 - spec_normalize(mapping, a)->0 == b - a,
{
}


/// The process clock reading for `elapsed_ns` nanoseconds since the clock
/// domain's epoch: one more than the elapsed time, so that no reading is
/// zero, saturating at `u64::MAX`.
pub open spec fn clock_reading(elapsed_ns: int) -> int {
    if elapsed_ns >= u64::MAX {
        u64::MAX as int
    } else {
        elapsed_ns + 1
    }
}

/// The process clock reading for `elapsed_ns` nanoseconds since the clock
/// domain's epoch.
pub fn monotonic_reading_ns(elapsed_ns: u128) -> (r: u64)
    ensures
        r == clock_reading(elapsed_ns as int),
        r >= 1,
{
    if elapsed_ns >= u64::MAX as u128 {
        u64::MAX
    } else {
        (elapsed_ns as u64) + 1
    }
}

/// Clock readings are never zero and never move backwards: of two readings
/// taken at non-decreasing elapsed times since the epoch (which a monotonic
/// clock guarantees for a later call), the later is at least the earlier.
pub proof fn lemma_monotonic_reading_never_decreases(earlier_ns: u128, later_ns: u128)
    requires
        earlier_ns <= later_ns,
    ensures
        1 <= clock_reading(earlier_ns as int) <= clock_reading(later_ns as int),
{
}
} // verus!
