//! Native microphone format selection: which advertised PCM configuration a
//! capture opens, and the buffer sizes that follow from it.

use vstd::prelude::*;

verus! {

/// The sample rate canonical capture produces.
pub const CANONICAL_INPUT_SAMPLE_RATE_HZ: u32 = 48_000;

/// The channel count canonical capture produces.
pub const CANONICAL_INPUT_CHANNEL_COUNT: u8 = 1;

/// Sample formats an input device may advertise.
#[derive(Debug, Clone, Copy, PartialEq, Eq, Structural)]
pub enum InputSampleFormat {
    I8,
    I16,
    I24,
    I32,
    I64,
    U8,
    U16,
    U24,
    U32,
    U64,
    F32,
    F64,
    DsdU8,
    DsdU16,
    DsdU32,
    /// A format this library does not know.
    Unknown,
}

/// How one native PCM sample is encoded.
#[derive(Debug, Clone, Copy, PartialEq, Eq, Structural)]
pub enum CaptureSampleRepresentation {
    SignedInteger8,
    SignedInteger16,
    SignedInteger24,
    SignedInteger32,
    SignedInteger64,
    UnsignedInteger8,
    UnsignedInteger16,
    UnsignedInteger24,
    UnsignedInteger32,
    UnsignedInteger64,
    Float32,
    Float64,
}

/// The native format a capture opened.
#[derive(Debug, Clone, Copy, PartialEq, Eq, Structural)]
pub struct CaptureNativeFormat {
    pub sample_rate_hz: u32,
    pub channel_count: u16,
    pub sample_representation: CaptureSampleRepresentation,
}

/// One configuration range an input device advertises.
#[derive(Debug, Clone, Copy, PartialEq, Eq, Structural)]
pub struct SupportedInputRange {
    pub channels: u16,
    pub min_sample_rate_hz: u32,
    pub max_sample_rate_hz: u32,
    pub sample_format: InputSampleFormat,
}

/// One concrete configuration within an advertised range.
#[derive(Debug, Clone, Copy, PartialEq, Eq, Structural)]
pub struct SelectedInputConfig {
    pub channels: u16,
    pub sample_rate_hz: u32,
    pub sample_format: InputSampleFormat,
}

/// The configuration a capture opens: which advertised range, the concrete
/// configuration in it, its native format and the bytes of one sample.
#[derive(Debug, Clone, Copy, PartialEq, Eq, Structural)]
pub struct SelectedInputFormat {
    pub range_index: usize,
    pub config: SelectedInputConfig,
    pub native: CaptureNativeFormat,
    pub sample_size_bytes: usize,
}

/// The PCM representation of a sample format; DSD and unknown formats are
/// not PCM.
pub open spec fn spec_representation(format: InputSampleFormat) -> Option<CaptureSampleRepresentation> {
    match format {
        InputSampleFormat::I8 => Some(CaptureSampleRepresentation::SignedInteger8),
        InputSampleFormat::I16 => Some(CaptureSampleRepresentation::SignedInteger16),
        InputSampleFormat::I24 => Some(CaptureSampleRepresentation::SignedInteger24),
        InputSampleFormat::I32 => Some(CaptureSampleRepresentation::SignedInteger32),
        InputSampleFormat::I64 => Some(CaptureSampleRepresentation::SignedInteger64),
        InputSampleFormat::U8 => Some(CaptureSampleRepresentation::UnsignedInteger8),
        InputSampleFormat::U16 => Some(CaptureSampleRepresentation::UnsignedInteger16),
        InputSampleFormat::U24 => Some(CaptureSampleRepresentation::UnsignedInteger24),
        InputSampleFormat::U32 => Some(CaptureSampleRepresentation::UnsignedInteger32),
        InputSampleFormat::U64 => Some(CaptureSampleRepresentation::UnsignedInteger64),
        InputSampleFormat::F32 => Some(CaptureSampleRepresentation::Float32),
        InputSampleFormat::F64 => Some(CaptureSampleRepresentation::Float64),
        _ => None,
    }
}

/// Maps an advertised sample format to its PCM representation.
pub fn sample_representation(sample_format: InputSampleFormat) -> (r: Option<
    CaptureSampleRepresentation,
>)
    ensures
        r == spec_representation(sample_format),
{
    match sample_format {
        InputSampleFormat::I8 => Some(CaptureSampleRepresentation::SignedInteger8),
        InputSampleFormat::I16 => Some(CaptureSampleRepresentation::SignedInteger16),
        InputSampleFormat::I24 => Some(CaptureSampleRepresentation::SignedInteger24),
        InputSampleFormat::I32 => Some(CaptureSampleRepresentation::SignedInteger32),
        InputSampleFormat::I64 => Some(CaptureSampleRepresentation::SignedInteger64),
        InputSampleFormat::U8 => Some(CaptureSampleRepresentation::UnsignedInteger8),
        InputSampleFormat::U16 => Some(CaptureSampleRepresentation::UnsignedInteger16),
        InputSampleFormat::U24 => Some(CaptureSampleRepresentation::UnsignedInteger24),
        InputSampleFormat::U32 => Some(CaptureSampleRepresentation::UnsignedInteger32),
        InputSampleFormat::U64 => Some(CaptureSampleRepresentation::UnsignedInteger64),
        InputSampleFormat::F32 => Some(CaptureSampleRepresentation::Float32),
        InputSampleFormat::F64 => Some(CaptureSampleRepresentation::Float64),
        InputSampleFormat::DsdU8
        | InputSampleFormat::DsdU16
        | InputSampleFormat::DsdU32
        | InputSampleFormat::Unknown => None,
    }
}

/// Preference among representations: float first, then signed integers from
/// the widest usual width, then unsigned ones; 64-bit integers last in each.
pub open spec fn spec_rank(representation: CaptureSampleRepresentation) -> u8 {
    match representation {
        CaptureSampleRepresentation::Float32 => 0,
        CaptureSampleRepresentation::Float64 => 1,
        CaptureSampleRepresentation::SignedInteger32 => 2,
        CaptureSampleRepresentation::SignedInteger24 => 3,
        CaptureSampleRepresentation::SignedInteger16 => 4,
        CaptureSampleRepresentation::SignedInteger8 => 5,
        CaptureSampleRepresentation::SignedInteger64 => 6,
        CaptureSampleRepresentation::UnsignedInteger32 => 7,
        CaptureSampleRepresentation::UnsignedInteger24 => 8,
        CaptureSampleRepresentation::UnsignedInteger16 => 9,
        CaptureSampleRepresentation::UnsignedInteger8 => 10,
        CaptureSampleRepresentation::UnsignedInteger64 => 11,
    }
}

fn representation_rank(representation: CaptureSampleRepresentation) -> (r: u8)
    ensures
        r == spec_rank(representation),
{
    match representation {
        CaptureSampleRepresentation::Float32 => 0,
        CaptureSampleRepresentation::Float64 => 1,
        CaptureSampleRepresentation::SignedInteger32 => 2,
        CaptureSampleRepresentation::SignedInteger24 => 3,
        CaptureSampleRepresentation::SignedInteger16 => 4,
        CaptureSampleRepresentation::SignedInteger8 => 5,
        CaptureSampleRepresentation::SignedInteger64 => 6,
        CaptureSampleRepresentation::UnsignedInteger32 => 7,
        CaptureSampleRepresentation::UnsignedInteger24 => 8,
        CaptureSampleRepresentation::UnsignedInteger16 => 9,
        CaptureSampleRepresentation::UnsignedInteger8 => 10,
        CaptureSampleRepresentation::UnsignedInteger64 => 11,
    }
}

/// Bytes one sample of a representation occupies; 24-bit samples are held
/// in four bytes.
pub open spec fn spec_sample_size(representation: CaptureSampleRepresentation) -> usize {
    match representation {
        CaptureSampleRepresentation::SignedInteger8 | CaptureSampleRepresentation::UnsignedInteger8 => 1,
        CaptureSampleRepresentation::SignedInteger16
        | CaptureSampleRepresentation::UnsignedInteger16 => 2,
        CaptureSampleRepresentation::SignedInteger24
        | CaptureSampleRepresentation::SignedInteger32
        | CaptureSampleRepresentation::UnsignedInteger24
        | CaptureSampleRepresentation::UnsignedInteger32
        | CaptureSampleRepresentation::Float32 => 4,
        CaptureSampleRepresentation::SignedInteger64
        | CaptureSampleRepresentation::UnsignedInteger64
        | CaptureSampleRepresentation::Float64 => 8,
    }
}

/// Bytes one sample of a representation occupies.
pub fn representation_sample_size(representation: CaptureSampleRepresentation) -> (r: usize)
    ensures
        r == spec_sample_size(representation),
{
    match representation {
        CaptureSampleRepresentation::SignedInteger8
        | CaptureSampleRepresentation::UnsignedInteger8 => 1,
        CaptureSampleRepresentation::SignedInteger16
        | CaptureSampleRepresentation::UnsignedInteger16 => 2,
        CaptureSampleRepresentation::SignedInteger24
        | CaptureSampleRepresentation::SignedInteger32
        | CaptureSampleRepresentation::UnsignedInteger24
        | CaptureSampleRepresentation::UnsignedInteger32
        | CaptureSampleRepresentation::Float32 => 4,
        CaptureSampleRepresentation::SignedInteger64
        | CaptureSampleRepresentation::UnsignedInteger64
        | CaptureSampleRepresentation::Float64 => 8,
    }
}

/// The rate within a range closest to the canonical rate.
pub open spec fn spec_preferred_rate(range: SupportedInputRange) -> u32 {
    if CANONICAL_INPUT_SAMPLE_RATE_HZ < range.min_sample_rate_hz {
        range.min_sample_rate_hz
    } else if CANONICAL_INPUT_SAMPLE_RATE_HZ > range.max_sample_rate_hz {
        range.max_sample_rate_hz
    } else {
        CANONICAL_INPUT_SAMPLE_RATE_HZ
    }
}

/// How far a range is from canonical capture, compared in order: distance
/// from the canonical rate, whether it is not mono, the representation's
/// rank, then the channel count.
pub open spec fn spec_score(range: SupportedInputRange, representation: CaptureSampleRepresentation) -> (
    u32,
    u8,
    u8,
    u16,
) {
    let rate = spec_preferred_rate(range);
    (
        if rate >= CANONICAL_INPUT_SAMPLE_RATE_HZ {
            (rate - CANONICAL_INPUT_SAMPLE_RATE_HZ) as u32
        } else {
            (CANONICAL_INPUT_SAMPLE_RATE_HZ - rate) as u32
        },
        if range.channels != 1 {
            1u8
        } else {
            0u8
        },
        spec_rank(representation),
        range.channels,
    )
}

/// `a` precedes `b` in lexicographic order.
pub open spec fn score_less(a: (u32, u8, u8, u16), b: (u32, u8, u8, u16)) -> bool {
    a.0 < b.0 || (a.0 == b.0 && (a.1 < b.1 || (a.1 == b.1 && (a.2 < b.2 || (a.2 == b.2 && a.3
        < b.3)))))
}

/// The score of an advertised range, if it is PCM.
pub open spec fn range_score(range: SupportedInputRange) -> Option<(u32, u8, u8, u16)> {
    match spec_representation(range.sample_format) {
        Some(representation) => Some(spec_score(range, representation)),
        None => None,
    }
}

/// Index of the best PCM range among the first `n`: the lowest score, the
/// earliest among equals.
pub open spec fn best_range(ranges: Seq<SupportedInputRange>, n: int) -> Option<int>
    decreases n,
{
    if n <= 0 {
        None
    } else {
        let before = best_range(ranges, n - 1);
        match range_score(ranges[n - 1]) {
            None => before,
            Some(score) => match before {
                None => Some(n - 1),
                Some(best) => if score_less(score, range_score(ranges[best])->0) {
                    Some(n - 1)
                } else {
                    before
                },
            },
        }
    }
}

/// What capture opens of the range at `index`.
pub open spec fn selected_from(ranges: Seq<SupportedInputRange>, index: int) -> SelectedInputFormat {
    let range = ranges[index];
    let representation = spec_representation(range.sample_format)->0;
    let rate = spec_preferred_rate(range);
    SelectedInputFormat {
        range_index: index as usize,
        config: SelectedInputConfig {
            channels: range.channels,
            sample_rate_hz: rate,
            sample_format: range.sample_format,
        },
        native: CaptureNativeFormat {
            sample_rate_hz: rate,
            channel_count: range.channels,
            sample_representation: representation,
        },
        sample_size_bytes: spec_sample_size(representation),
    }
}

/// Every advertised range has a lowest rate no higher than its highest.
pub open spec fn ranges_are_ordered(ranges: Seq<SupportedInputRange>) -> bool {
    forall|i: int| 0 <= i < ranges.len() ==> #[trigger] ranges[i].min_sample_rate_hz <= ranges[i].max_sample_rate_hz
}

/// Chooses the advertised PCM configuration closest to canonical capture:
/// the canonical rate clamped into each range, compared by distance from the
/// canonical rate, then mono before more channels, then representation, then
/// channel count; the first of equals wins. None when nothing is PCM.
pub fn select_input_config(ranges: &[SupportedInputRange]) -> (r: Option<SelectedInputFormat>)
    requires
        ranges_are_ordered(ranges@),
    ensures
        match best_range(ranges@, ranges@.len() as int) {
            Some(k) => r == Some(selected_from(ranges@, k)),
            None => r is None,
        },
{
    let mut best: Option<(usize, (u32, u8, u8, u16))> = None;
    let mut index: usize = 0;
    while index < ranges.len()
        invariant
            index <= ranges@.len(),
            ranges_are_ordered(ranges@),
            match best_range(ranges@, index as int) {
                Some(k) => best matches Some((b, score)) && b == k && 0 <= k < index && range_score(
                    ranges@[k],
                ) == Some(score),
                None => best is None,
            },
        decreases ranges@.len() - index,
    {
        let range = ranges[index];
        match sample_representation(range.sample_format) {
            Some(representation) => {
                let rate = preferred_rate_in_range(&range);
                let distance = if rate >= CANONICAL_INPUT_SAMPLE_RATE_HZ {
                    rate - CANONICAL_INPUT_SAMPLE_RATE_HZ
                } else {
                    CANONICAL_INPUT_SAMPLE_RATE_HZ - rate
                };
                let not_mono: u8 = if range.channels != 1 {
                    1
                } else {
                    0
                };
                let score = (distance, not_mono, representation_rank(representation), range.channels);
                let replace = match best {
                    None => true,
                    Some((_, current)) => score.0 < current.0 || (score.0 == current.0 && (score.1
                        < current.1 || (score.1 == current.1 && (score.2 < current.2 || (score.2
                        == current.2 && score.3 < current.3))))),
                };
                if replace {
                    best = Some((index, score));
                }
            },
            None => {},
        }
        index = index + 1;
    }
    match best {
        Some((k, _)) => {
            let range = ranges[k];
            let representation = match sample_representation(range.sample_format) {
                Some(representation) => representation,
                None => {
                    return None;
                },
            };
            let rate = preferred_rate_in_range(&range);
            Some(
                SelectedInputFormat {
                    range_index: k,
                    config: SelectedInputConfig {
                        channels: range.channels,
                        sample_rate_hz: rate,
                        sample_format: range.sample_format,
                    },
                    native: CaptureNativeFormat {
                        sample_rate_hz: rate,
                        channel_count: range.channels,
                        sample_representation: representation,
                    },
                    sample_size_bytes: representation_sample_size(representation),
                },
            )
        },
        None => None,
    }
}

fn preferred_rate_in_range(range: &SupportedInputRange) -> (r: u32)
    ensures
        r == spec_preferred_rate(*range),
{
    if CANONICAL_INPUT_SAMPLE_RATE_HZ < range.min_sample_rate_hz {
        range.min_sample_rate_hz
    } else if CANONICAL_INPUT_SAMPLE_RATE_HZ > range.max_sample_rate_hz {
        range.max_sample_rate_hz
    } else {
        CANONICAL_INPUT_SAMPLE_RATE_HZ
    }
}

/// The best range scores no worse than any PCM range before it and better
/// than every earlier one, and no worse than any later one: it is the first
/// PCM range of lowest score.
pub proof fn lemma_best_range_is_first_minimum(ranges: Seq<SupportedInputRange>, n: int)
    requires
        0 <= n <= ranges.len(),
    ensures
        best_range(ranges, n) matches Some(k) ==> {
            &&& 0 <= k < n
            &&& range_score(ranges[k]) is Some
            &&& forall|j: int|
                0 <= j < n && #[trigger] range_score(ranges[j]) is Some ==> !score_less(
                    range_score(ranges[j])->0,
                    range_score(ranges[k])->0,
                )
            &&& forall|j: int|
                0 <= j < k && #[trigger] range_score(ranges[j]) is Some ==> score_less(
                    range_score(ranges[k])->0,
                    range_score(ranges[j])->0,
                )
        },
        best_range(ranges, n) is None ==> forall|j: int|
            0 <= j < n ==> #[trigger] range_score(ranges[j]) is None,
    decreases n,
{
    if n > 0 {
        lemma_best_range_is_first_minimum(ranges, n - 1);
        let before = best_range(ranges, n - 1);
        if let Some(score) = range_score(ranges[n - 1]) {
            if let Some(best) = before {
                let best_score = range_score(ranges[best])->0;
                if score_less(score, best_score) {
                    assert forall|j: int|
                        0 <= j < n && #[trigger] range_score(ranges[j]) is Some implies !score_less(
                        range_score(ranges[j])->0,
                        score,
                    ) by {
                        if j < n - 1 {
                            assert(!score_less(range_score(ranges[j])->0, best_score));
                        }
                    }
                    assert forall|j: int|
                        0 <= j < n - 1 && #[trigger] range_score(ranges[j]) is Some implies score_less(
                        score,
                        range_score(ranges[j])->0,
                    ) by {
                        assert(!score_less(range_score(ranges[j])->0, best_score));
                    }
                }
            }
        }
    }
}

/// The most canonical frames that resampling `native_frame_capacity` frames
/// at `native_rate_hz` can produce: the frames plus one, scaled to the
/// canonical rate and rounded up, plus two. None for a zero rate or on
/// overflow.
pub open spec fn spec_maximum_resampled_frames(native_frame_capacity: usize, native_rate_hz: u32) -> Option<
    usize,
> {
    let scaled = (native_frame_capacity + 1) * CANONICAL_INPUT_SAMPLE_RATE_HZ;
    let rounded = scaled + native_rate_hz - 1;
    if native_rate_hz == 0 || native_frame_capacity + 1 > usize::MAX || scaled > usize::MAX
        || rounded > usize::MAX || rounded / (native_rate_hz as int) + 2 > usize::MAX {
        None
    } else {
        Some((rounded / (native_rate_hz as int) + 2) as usize)
    }
}

/// Bounds the canonical frames one native buffer can resample to.
pub fn maximum_resampled_frames(native_frame_capacity: usize, native_rate_hz: u32) -> (r: Option<
    usize,
>)
    ensures
        r == spec_maximum_resampled_frames(native_frame_capacity, native_rate_hz),
{
    if native_rate_hz == 0 {
        return None;
    }
    let frames = match native_frame_capacity.checked_add(1) {
        Some(frames) => frames,
        None => {
            return None;
        },
    };
    let scaled = match frames.checked_mul(CANONICAL_INPUT_SAMPLE_RATE_HZ as usize) {
        Some(scaled) => scaled,
        None => {
            return None;
        },
    };
    let rounded = match scaled.checked_add((native_rate_hz - 1) as usize) {
        Some(rounded) => rounded,
        None => {
            return None;
        },
    };
    let quotient = rounded / (native_rate_hz as usize);
    quotient.checked_add(2)
}

} // verus!
