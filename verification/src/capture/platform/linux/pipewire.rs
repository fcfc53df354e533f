//! Decisions of the Linux PipeWire capture backend: node identity and
//! naming, exact-application selection, negotiated format, and the sample
//! timeline of each callback.

use vstd::prelude::*;
use vstd::utf8::encode_utf8;

use crate::capture::authorization::CaptureError;
use crate::capture::identity::{CaptureSource, SourceKind, SourceState, StableSourceId, derived_source_id};
use crate::capture::frame_stream::FrameRingProducer;
use crate::capture::observations::CaptureObservationCounters;
use crate::capture::selection::{CaptureMode, InputDeviceSelector};
use crate::capture::timeline::{
    resolved_origin, sample_offset_ns, saturating_add_u64, source_position_outcome,
    CaptureSampleTimeline, CaptureSampleTimelineView,
};
use crate::frame::{Platform, SourceId};
use crate::text::{
    bytes_eq_ignore_ascii_case, decimal_digits, eq_ignore_ascii_case, parse_unsigned,
    push_decimal_u64, push_str, text_equals, unsigned_text_value,
};

verus! {

/// Channels captured from applications and the system mix.
pub const CAPTURE_CHANNEL_COUNT: u8 = 2;

/// Channels captured from a microphone.
pub const MICROPHONE_CHANNEL_COUNT: u8 = 1;

/// The only sample rate capture negotiates.
pub const SAMPLE_RATE_HZ: u32 = 48_000;

/// Channels captured for a capture mode: microphones are mono, everything
/// else stereo.
pub fn capture_channel_count(mode: &CaptureMode) -> (r: u8)
    ensures
        r == (if mode is InputDevice {
            MICROPHONE_CHANNEL_COUNT
        } else {
            CAPTURE_CHANNEL_COUNT
        }),
{
    match mode {
        CaptureMode::InputDevice(_) => MICROPHONE_CHANNEL_COUNT,
        CaptureMode::SystemMix
        | CaptureMode::Application(_)
        | CaptureMode::Process(_)
        | CaptureMode::ExactApplication { .. }
        | CaptureMode::ExactApplicationStable { .. } => CAPTURE_CHANNEL_COUNT,
    }
}

/// The error naming an exact source that is not live.
pub fn source_unavailable(stable_key: &str) -> (r: CaptureError)
    ensures
        r matches CaptureError::SourceUnavailable { stable_key: key } && key@ == stable_key@,
{
    CaptureError::SourceUnavailable { stable_key: stable_key.to_owned() }
}

/// The frame identity of the Linux system mix.
pub fn system_mix_source_id() -> (r: SourceId)
    ensures
        exists|id: StableSourceId|
            id@.platform == Platform::Linux && id@.kind == SourceKind::SystemMix && id@.stable_key
                == "system:mix"@ && r.0 == derived_source_id(id@),
{
    let id = StableSourceId::new(Platform::Linux, SourceKind::SystemMix, "system:mix".to_owned());
    id.source_id()
}

/// One live PipeWire node as discovered.
#[derive(Debug)]
pub struct PipeWireDiscoveredNode {
    pub source: CaptureSource,
    /// Current PipeWire object serial used only to open this live node. It is
    /// deliberately separate from the persistent public source identity.
    pub target_object: Option<String>,
}

/// How long a derived application identity stays valid.
#[derive(Debug, Clone, Copy, PartialEq, Eq, Structural)]
pub enum ApplicationIdentityScope {
    Persistent,
    ProcessLifetime,
}

/// The identity key of an application node: its application id, else its
/// node name, else the transient global id.
pub open spec fn spec_application_identity(
    application_id: Option<Seq<char>>,
    node_name: Option<Seq<char>>,
    global_id: u32,
) -> (Seq<char>, ApplicationIdentityScope) {
    if application_id matches Some(id) && id.len() > 0 {
        ("pw-app:"@ + application_id->0, ApplicationIdentityScope::Persistent)
    } else if node_name matches Some(name) && name.len() > 0 {
        ("pw-node:"@ + node_name->0, ApplicationIdentityScope::Persistent)
    } else {
        (
            "pw-transient:"@ + decimal_digits(global_id as nat),
            ApplicationIdentityScope::ProcessLifetime,
        )
    }
}

/// The text of an optional borrowed string.
pub open spec fn text_of(value: Option<&str>) -> Option<Seq<char>> {
    match value {
        Some(text) => Some(text@),
        None => None,
    }
}

/// Derives an application node's identity; persistent fields win over the
/// transient global id.
pub fn pipewire_application_identity(
    application_id: Option<&str>,
    node_name: Option<&str>,
    global_id: u32,
) -> (r: (String, ApplicationIdentityScope))
    ensures
        (r.0@, r.1) == spec_application_identity(
            text_of(application_id),
            text_of(node_name),
            global_id,
        ),
{
    if let Some(application_id) = application_id {
        if !application_id.is_empty() {
            let mut key = String::new();
            push_str(&mut key, "pw-app:");
            push_str(&mut key, application_id);
            return (key, ApplicationIdentityScope::Persistent);
        }
    }
    if let Some(node_name) = node_name {
        if !node_name.is_empty() {
            let mut key = String::new();
            push_str(&mut key, "pw-node:");
            push_str(&mut key, node_name);
            return (key, ApplicationIdentityScope::Persistent);
        }
    }
    let mut key = String::new();
    push_str(&mut key, "pw-transient:");
    push_decimal_u64(&mut key, global_id as u64);
    (key, ApplicationIdentityScope::ProcessLifetime)
}

/// The display name of a node: applications prefer their application name,
/// devices their descriptions, then the node name; `unknown` when none.
pub open spec fn spec_source_name(
    kind: SourceKind,
    application_name: Option<Seq<char>>,
    node_description: Option<Seq<char>>,
    device_description: Option<Seq<char>>,
    node_name: Option<Seq<char>>,
) -> Seq<char> {
    let order = if kind == SourceKind::Application {
        seq![application_name, node_description, device_description, node_name]
    } else {
        seq![node_description, device_description, node_name, application_name]
    };
    if order[0] is Some {
        order[0]->0
    } else if order[1] is Some {
        order[1]->0
    } else if order[2] is Some {
        order[2]->0
    } else if order[3] is Some {
        order[3]->0
    } else {
        "unknown"@
    }
}

fn first_present<'a>(
    first: Option<&'a str>,
    second: Option<&'a str>,
    third: Option<&'a str>,
    fourth: Option<&'a str>,
) -> (r: Option<&'a str>)
    ensures
        r == (if first is Some {
            first
        } else if second is Some {
            second
        } else if third is Some {
            third
        } else {
            fourth
        }),
{
    match first {
        Some(value) => Some(value),
        None => match second {
            Some(value) => Some(value),
            None => match third {
                Some(value) => Some(value),
                None => fourth,
            },
        },
    }
}

/// Chooses the human name of a discovered node.
pub fn pipewire_source_name(
    kind: SourceKind,
    application_name: Option<&str>,
    node_description: Option<&str>,
    device_description: Option<&str>,
    node_name: Option<&str>,
) -> (r: String)
    ensures
        r@ == spec_source_name(
            kind,
            text_of(application_name),
            text_of(node_description),
            text_of(device_description),
            text_of(node_name),
        ),
{
    let preferred = if kind == SourceKind::Application {
        first_present(application_name, node_description, device_description, node_name)
    } else {
        first_present(node_description, device_description, node_name, application_name)
    };
    match preferred {
        Some(name) => name.to_owned(),
        None => "unknown".to_owned(),
    }
}

/// Native sample rate a node reports: its audio rate when that is a positive
/// integer, else the rate of a `1/{rate}` node rate, else zero (unknown).
pub open spec fn spec_sample_rate(audio_rate: Option<Seq<char>>, node_rate: Option<Seq<char>>) -> u32 {
    let from_audio = match audio_rate {
        Some(text) => match unsigned_text_value(text) {
            Some(value) => if 0 < value <= u32::MAX {
                Some(value as u32)
            } else {
                None::<u32>
            },
            None => None::<u32>,
        },
        None => None::<u32>,
    };
    match from_audio {
        Some(rate) => rate,
        None => match node_rate {
            Some(text) => match slash_split(text) {
                Some((numerator, denominator)) => if numerator == "1"@ {
                    match unsigned_text_value(denominator) {
                        Some(value) => if 0 < value <= u32::MAX {
                            value as u32
                        } else {
                            0
                        },
                        None => 0,
                    }
                } else {
                    0
                },
                None => 0,
            },
            None => 0,
        },
    }
}

/// Index of the first `/` of `text` at or after `from`, or its length.
pub open spec fn first_slash(text: Seq<char>, from: int) -> int
    decreases text.len() - from,
{
    if from < 0 || from >= text.len() {
        text.len() as int
    } else if text[from] == '/' {
        from
    } else {
        first_slash(text, from + 1)
    }
}

/// The parts of `text` before and after its first `/`, if it has one.
pub open spec fn slash_split(text: Seq<char>) -> Option<(Seq<char>, Seq<char>)> {
    let slash = first_slash(text, 0);
    if slash >= text.len() {
        None
    } else {
        Some((text.take(slash), text.skip(slash + 1)))
    }
}

proof fn lemma_first_slash(text: Seq<char>, from: int)
    requires
        0 <= from <= text.len(),
    ensures
        from <= first_slash(text, from) <= text.len(),
    decreases text.len() - from,
{
    if from < text.len() && text[from] != '/' {
        lemma_first_slash(text, from + 1);
    }
}

fn positive_u32(text: &str) -> (r: Option<u32>)
    ensures
        r == match unsigned_text_value(text@) {
            Some(value) => if 0 < value <= u32::MAX {
                Some(value as u32)
            } else {
                None::<u32>
            },
            None => None::<u32>,
        },
{
    match parse_unsigned(text, 0xffff_ffff) {
        Some(value) => if value > 0 {
            Some(value as u32)
        } else {
            None
        },
        None => None,
    }
}

fn rate_from_node_rate(text: &str) -> (r: u32)
    ensures
        r == match slash_split(text@) {
            Some((numerator, denominator)) => if numerator == "1"@ {
                match unsigned_text_value(denominator) {
                    Some(value) => if 0 < value <= u32::MAX {
                        value as u32
                    } else {
                        0
                    },
                    None => 0,
                }
            } else {
                0
            },
            None => 0,
        },
{
    proof {
        lemma_first_slash(text@, 0);
    }
    let count = text.unicode_len();
    let mut slash: usize = 0;
    while slash < count
        invariant_except_break
            slash <= count,
            count == text@.len(),
            first_slash(text@, 0) == first_slash(text@, slash as int),
        ensures
            slash <= count,
            first_slash(text@, 0) == slash,
        decreases count - slash,
    {
        if text.get_char(slash) == '/' {
            break;
        }
        slash = slash + 1;
    }
    if slash == count {
        return 0;
    }
    let numerator = text.substring_char(0, slash);
    let denominator = text.substring_char(slash + 1, count);
    assert(numerator@ == text@.take(slash as int));
    assert(denominator@ == text@.skip(slash + 1));
    let one = "1";
    proof {
        reveal_strlit("1");
    }
    if !(numerator.unicode_len() == 1 && numerator.get_char(0) == '1') {
        assert(numerator@ != "1"@) by {
            if numerator@ == "1"@ {
                assert(numerator@.len() == 1 && numerator@[0] == '1');
            }
        }
        return 0;
    }
    assert(numerator@ =~= "1"@);
    match positive_u32(denominator) {
        Some(rate) => rate,
        None => 0,
    }
}

/// Reads a node's native sample rate without fabricating one: zero means
/// discovery did not observe it.
pub fn parse_pipewire_sample_rate(audio_rate: Option<&str>, node_rate: Option<&str>) -> (r: u32)
    ensures
        r == spec_sample_rate(text_of(audio_rate), text_of(node_rate)),
{
    let from_audio = match audio_rate {
        Some(text) => positive_u32(text),
        None => None,
    };
    match from_audio {
        Some(rate) => rate,
        None => match node_rate {
            Some(text) => rate_from_node_rate(text),
            None => 0,
        },
    }
}

/// Native channel count a node reports: a positive `u16`, else zero.
pub open spec fn spec_channel_count(audio_channels: Option<Seq<char>>) -> u16 {
    match audio_channels {
        Some(text) => match unsigned_text_value(text) {
            Some(value) => if 0 < value <= u16::MAX {
                value as u16
            } else {
                0
            },
            None => 0,
        },
        None => 0,
    }
}

/// Reads a node's native channel count without fabricating one.
pub fn parse_pipewire_channel_count(audio_channels: Option<&str>) -> (r: u16)
    ensures
        r == spec_channel_count(text_of(audio_channels)),
{
    match audio_channels {
        Some(text) => match parse_unsigned(text, 0xffff) {
            Some(value) => if value > 0 {
                value as u16
            } else {
                0
            },
            None => 0,
        },
        None => 0,
    }
}

/// Age of a PipeWire report at a monotonic instant; none for a negative
/// report time or one in the future.
pub fn pipewire_report_age_ns(report_timestamp_ns: i64, monotonic_now_ns: u64) -> (r: Option<u64>)
    ensures
        r == (if report_timestamp_ns < 0 || report_timestamp_ns > monotonic_now_ns {
            None::<u64>
        } else {
            Some((monotonic_now_ns - report_timestamp_ns) as u64)
        }),
{
    if report_timestamp_ns < 0 {
        return None;
    }
    let report = report_timestamp_ns as u64;
    if report > monotonic_now_ns {
        None
    } else {
        Some(monotonic_now_ns - report)
    }
}

/// Nanoseconds of `ticks` ticks of `numerator / denominator` seconds each,
/// rounded down; none for a zero rate or a duration past `u64::MAX`.
pub open spec fn spec_ticks_to_ns(ticks: u64, numerator: u32, denominator: u32) -> Option<u64> {
    if numerator == 0 || denominator == 0 {
        None
    } else {
        let ns = ticks * numerator * 1_000_000_000 / (denominator as int);
        if ns > u64::MAX {
            None
        } else {
            Some(ns as u64)
        }
    }
}

/// Converts a count of PipeWire clock ticks to nanoseconds.
pub fn pipewire_ticks_to_nanoseconds(
    ticks: u64,
    seconds_per_tick_numerator_seconds: u32,
    seconds_per_tick_denominator_ticks: u32,
) -> (r: Option<u64>)
    ensures
        r == spec_ticks_to_ns(
            ticks,
            seconds_per_tick_numerator_seconds,
            seconds_per_tick_denominator_ticks,
        ),
{
    if seconds_per_tick_numerator_seconds == 0 || seconds_per_tick_denominator_ticks == 0 {
        return None;
    }
    assert(ticks * seconds_per_tick_numerator_seconds <= u64::MAX * u32::MAX) by (nonlinear_arith)
        requires
            ticks <= u64::MAX,
            seconds_per_tick_numerator_seconds <= u32::MAX,
    ;
    assert(ticks * seconds_per_tick_numerator_seconds * 1_000_000_000 <= u64::MAX * u32::MAX
        * 1_000_000_000) by (nonlinear_arith)
        requires
            ticks * seconds_per_tick_numerator_seconds <= u64::MAX * u32::MAX,
    ;
    let scaled_ticks: u128 = (ticks as u128) * (seconds_per_tick_numerator_seconds as u128);
    let nanoseconds: u128 = scaled_ticks * 1_000_000_000 / (seconds_per_tick_denominator_ticks as u128);
    if nanoseconds > u64::MAX as u128 {
        None
    } else {
        Some(nanoseconds as u64)
    }
}

/// The capture time of a callback's first sample: the callback time less
/// the buffer's duration, the reported capture delay and the report's age,
/// saturating, and never earlier than one nanosecond.
pub open spec fn spec_first_sample_timestamp_ns(
    callback_timestamp_ns: u64,
    sample_frames: u64,
    sample_rate_hz: u32,
    capture_delay_ns: u64,
    report_age_ns: u64,
) -> u64 {
    let duration = match spec_ticks_to_ns(sample_frames, 1, sample_rate_hz) {
        Some(ns) => ns as int,
        None => u64::MAX as int,
    };
    let behind = duration + capture_delay_ns + report_age_ns;
    let start = callback_timestamp_ns - behind;
    if start < 1 {
        1
    } else {
        start as u64
    }
}

/// Places a callback's first sample before the callback by the buffer's
/// length and the reported latency.
pub fn pipewire_first_sample_timestamp_ns(
    callback_timestamp_ns: u64,
    sample_frames: u64,
    sample_rate_hz: u32,
    capture_delay_ns: u64,
    report_age_ns: u64,
) -> (r: u64)
    ensures
        r == spec_first_sample_timestamp_ns(
            callback_timestamp_ns,
            sample_frames,
            sample_rate_hz,
            capture_delay_ns,
            report_age_ns,
        ),
{
    let duration = match pipewire_ticks_to_nanoseconds(sample_frames, 1, sample_rate_hz) {
        Some(ns) => ns,
        None => u64::MAX,
    };
    let behind = duration.saturating_add(capture_delay_ns).saturating_add(report_age_ns);
    let start = callback_timestamp_ns.saturating_sub(behind);
    if start < 1 {
        1
    } else {
        start
    }
}

/// What PipeWire reported of a stream's clock at one callback: the tick rate
/// as seconds per tick (`rate_numerator / rate_denominator`), the tick
/// position, the capture delay in ticks, and the monotonic time of the report.
#[derive(Clone, Copy, Debug, PartialEq, Eq, Structural)]
pub struct PipeWireStreamTime {
    pub rate_numerator: u32,
    pub rate_denominator: u32,
    pub ticks: u64,
    pub delay: i64,
    pub now_ns: i64,
}

/// Timing of one callback buffer derived from the stream's clock.
#[derive(Clone, Copy, Debug, PartialEq, Eq, Structural)]
pub struct PipeWireCaptureTiming {
    pub source_sample_frame: Option<u64>,
    pub capture_delay_ns: u64,
    pub report_age_ns: u64,
    pub buffer_timestamp_ns: Option<u64>,
}

/// Timing of a callback whose stream reported no clock.
pub open spec fn no_capture_timing() -> PipeWireCaptureTiming {
    PipeWireCaptureTiming {
        source_sample_frame: None,
        capture_delay_ns: 0,
        report_age_ns: 0,
        buffer_timestamp_ns: None,
    }
}

/// Age of a report at a monotonic instant; none for a negative report time
/// or one in the future.
pub open spec fn report_age(report_ns: i64, now_ns: u64) -> Option<u64> {
    if report_ns < 0 || report_ns > now_ns {
        None
    } else {
        Some((now_ns - report_ns) as u64)
    }
}

/// Timing of a callback buffer from the stream's clock report.
///
/// The clock counts source sample frames when it ticks once per sample at
/// the negotiated rate. The capture delay converts its ticks to
/// nanoseconds (zero when negative or out of range); the report's age is
/// taken against the monotonic clock (zero when unknown). A buffer stamped
/// with a presentation time is placed that far before the callback, and
/// never earlier than one nanosecond.
pub open spec fn spec_capture_timing(
    stream_time: Option<PipeWireStreamTime>,
    sample_rate_hz: u32,
    buffer_pts_ns: Option<i64>,
    callback_timestamp_ns: u64,
    monotonic_now_ns: Option<u64>,
) -> PipeWireCaptureTiming {
    match stream_time {
        None => no_capture_timing(),
        Some(time) => PipeWireCaptureTiming {
            source_sample_frame: if time.rate_numerator == 1 && time.rate_denominator
                == sample_rate_hz {
                Some(time.ticks)
            } else {
                None
            },
            capture_delay_ns: if time.delay < 0 {
                0
            } else {
                match spec_ticks_to_ns(time.delay as u64, time.rate_numerator, time.rate_denominator) {
                    Some(ns) => ns,
                    None => 0,
                }
            },
            report_age_ns: match monotonic_now_ns {
                Some(now) => match report_age(time.now_ns, now) {
                    Some(age) => age,
                    None => 0,
                },
                None => 0,
            },
            buffer_timestamp_ns: match (buffer_pts_ns, monotonic_now_ns) {
                (Some(pts), Some(now)) => match report_age(pts, now) {
                    Some(age) => Some(
                        if callback_timestamp_ns - age < 1 {
                            1u64
                        } else {
                            (callback_timestamp_ns - age) as u64
                        },
                    ),
                    None => None,
                },
                _ => None,
            },
        },
    }
}

/// Derives a callback buffer's timing from the stream's clock report, the
/// buffer's presentation time and the monotonic clock.
pub fn pipewire_capture_timing(
    stream_time: Option<PipeWireStreamTime>,
    sample_rate_hz: u32,
    buffer_pts_ns: Option<i64>,
    callback_timestamp_ns: u64,
    monotonic_now_ns: Option<u64>,
) -> (r: PipeWireCaptureTiming)
    ensures
        r == spec_capture_timing(
            stream_time,
            sample_rate_hz,
            buffer_pts_ns,
            callback_timestamp_ns,
            monotonic_now_ns,
        ),
{
    let time = match stream_time {
        Some(time) => time,
        None => {
            return PipeWireCaptureTiming {
                source_sample_frame: None,
                capture_delay_ns: 0,
                report_age_ns: 0,
                buffer_timestamp_ns: None,
            };
        },
    };
    let source_sample_frame = if time.rate_numerator == 1 && time.rate_denominator
        == sample_rate_hz {
        Some(time.ticks)
    } else {
        None
    };
    let capture_delay_ns = if time.delay < 0 {
        0
    } else {
        match pipewire_ticks_to_nanoseconds(
            time.delay as u64,
            time.rate_numerator,
            time.rate_denominator,
        ) {
            Some(ns) => ns,
            None => 0,
        }
    };
    let report_age_ns = match monotonic_now_ns {
        Some(now) => match pipewire_report_age_ns(time.now_ns, now) {
            Some(age) => age,
            None => 0,
        },
        None => 0,
    };
    let buffer_timestamp_ns = match (buffer_pts_ns, monotonic_now_ns) {
        (Some(pts), Some(now)) => match pipewire_report_age_ns(pts, now) {
            Some(age) => {
                let placed = callback_timestamp_ns.saturating_sub(age);
                Some(
                    if placed < 1 {
                        1
                    } else {
                        placed
                    },
                )
            },
            None => None,
        },
        _ => None,
    };
    PipeWireCaptureTiming { source_sample_frame, capture_delay_ns, report_age_ns, buffer_timestamp_ns }
}

/// Interleaved samples of a callback buffer from the `f32` sample counts of
/// its data planes (none for a plane that cannot be read as whole aligned
/// samples): one interleaved plane must hold whole frames; a stereo stream
/// may instead deliver one plane per channel, of which the shorter bounds
/// the frames.
pub open spec fn spec_sample_count(planes: Seq<Option<usize>>, channel_count: usize) -> Option<
    usize,
> {
    if planes.len() == 1 {
        match planes[0] {
            Some(samples) => if samples % channel_count == 0 {
                Some(samples)
            } else {
                None
            },
            None => None,
        }
    } else if channel_count == 2 && planes.len() >= 2 {
        match (planes[0], planes[1]) {
            (Some(left), Some(right)) => {
                let frames = if left <= right {
                    left
                } else {
                    right
                };
                if frames * 2 > usize::MAX {
                    None
                } else {
                    Some((frames * 2) as usize)
                }
            },
            _ => None,
        }
    } else {
        None
    }
}

/// Counts the interleaved samples a callback buffer carries.
pub fn pipewire_f32_sample_count(plane_sample_counts: &[Option<usize>], channel_count: usize) -> (r:
    Option<usize>)
    requires
        channel_count > 0,
    ensures
        r == spec_sample_count(plane_sample_counts@, channel_count),
{
    if plane_sample_counts.len() == 1 {
        return match plane_sample_counts[0] {
            Some(samples) => if samples % channel_count == 0 {
                Some(samples)
            } else {
                None
            },
            None => None,
        };
    }
    if channel_count == 2 && plane_sample_counts.len() >= 2 {
        return match (plane_sample_counts[0], plane_sample_counts[1]) {
            (Some(left), Some(right)) => {
                let frames = if left <= right {
                    left
                } else {
                    right
                };
                frames.checked_mul(2)
            },
            _ => None,
        };
    }
    None
}

/// `node` carries exactly `stable_id` and, when a process is required, runs
/// in that process.
pub open spec fn node_matches(
    node: PipeWireDiscoveredNode,
    stable_id: StableSourceId,
    process_id: Option<u32>,
) -> bool {
    node.source.stable_id@ == stable_id@ && (match process_id {
        Some(pid) => node.source.process_id == Some(pid),
        None => true,
    })
}

/// Index of the first matching node at or after `from`.
pub open spec fn first_node(
    nodes: Seq<PipeWireDiscoveredNode>,
    stable_id: StableSourceId,
    process_id: Option<u32>,
    from: int,
) -> Option<int>
    decreases nodes.len() - from,
{
    if from < 0 || from >= nodes.len() {
        None
    } else if node_matches(nodes[from], stable_id, process_id) {
        Some(from)
    } else {
        first_node(nodes, stable_id, process_id, from + 1)
    }
}

proof fn lemma_first_node(
    nodes: Seq<PipeWireDiscoveredNode>,
    stable_id: StableSourceId,
    process_id: Option<u32>,
    from: int,
)
    requires
        0 <= from,
    ensures
        first_node(nodes, stable_id, process_id, from) matches Some(k) ==> from <= k < nodes.len()
            && node_matches(nodes[k], stable_id, process_id),
    decreases nodes.len() - from,
{
    if from < nodes.len() && !node_matches(nodes[from], stable_id, process_id) {
        lemma_first_node(nodes, stable_id, process_id, from + 1);
    }
}

/// Text refusing a selector several live nodes match.
pub open spec fn ambiguous_selector_text(stable_key: Seq<char>) -> Seq<char> {
    "ambiguous PipeWire exact-application selector: "@ + stable_key
}

/// Selects the one live node of an exact Linux application identity,
/// optionally within one process. None or several matching nodes fail
/// closed: a persistent selector never picks an arbitrary live node.
pub fn select_unique_exact_application<'a>(
    nodes: &'a [PipeWireDiscoveredNode],
    stable_id: &StableSourceId,
    process_id: Option<u32>,
) -> (r: Result<&'a PipeWireDiscoveredNode, CaptureError>)
    ensures
        if stable_id.platform != Platform::Linux || stable_id.kind != SourceKind::Application {
            r matches Err(CaptureError::SourceUnavailable { stable_key }) && stable_key@
                == stable_id.stable_key@
        } else {
            match first_node(nodes@, *stable_id, process_id, 0) {
                None => r matches Err(CaptureError::SourceUnavailable { stable_key }) && stable_key@
                    == stable_id.stable_key@,
                Some(k) => if first_node(nodes@, *stable_id, process_id, k + 1) is Some {
                    r matches Err(CaptureError::BackendInit(message)) && message@
                        == ambiguous_selector_text(stable_id.stable_key@)
                } else {
                    r matches Ok(node) && *node == nodes@[k]
                },
            }
        },
{
    if stable_id.platform != Platform::Linux || stable_id.kind != SourceKind::Application {
        return Err(source_unavailable(stable_id.stable_key.as_str()));
    }
    proof {
        lemma_first_node(nodes@, *stable_id, process_id, 0);
    }
    let first = match find_node(nodes, stable_id, process_id, 0) {
        Some(index) => index,
        None => {
            return Err(source_unavailable(stable_id.stable_key.as_str()));
        },
    };
    let count = nodes.len();
    assert(first < count);
    match find_node(nodes, stable_id, process_id, first + 1) {
        Some(_) => {
            let mut message = String::new();
            push_str(&mut message, "ambiguous PipeWire exact-application selector: ");
            push_str(&mut message, stable_id.stable_key.as_str());
            Err(CaptureError::BackendInit(message))
        },
        None => Ok(&nodes[first]),
    }
}

fn node_matches_exec(
    node: &PipeWireDiscoveredNode,
    stable_id: &StableSourceId,
    process_id: Option<u32>,
) -> (r: bool)
    ensures
        r == node_matches(*node, *stable_id, process_id),
{
    if !node.source.stable_id.same_as(stable_id) {
        return false;
    }
    match process_id {
        Some(pid) => match node.source.process_id {
            Some(node_pid) => node_pid == pid,
            None => false,
        },
        None => true,
    }
}

fn find_node(
    nodes: &[PipeWireDiscoveredNode],
    stable_id: &StableSourceId,
    process_id: Option<u32>,
    from: usize,
) -> (r: Option<usize>)
    requires
        from <= nodes@.len(),
    ensures
        match r {
            Some(k) => k < nodes@.len() && first_node(nodes@, *stable_id, process_id, from as int)
                == Some(k as int),
            None => first_node(nodes@, *stable_id, process_id, from as int) is None,
        },
{
    let mut index = from;
    while index < nodes.len()
        invariant
            from <= index <= nodes@.len(),
            first_node(nodes@, *stable_id, process_id, from as int) == first_node(
                nodes@,
                *stable_id,
                process_id,
                index as int,
            ),
        decreases nodes@.len() - index,
    {
        if node_matches_exec(&nodes[index], stable_id, process_id) {
            return Some(index);
        }
        index = index + 1;
    }
    None
}

/// Text refusing a node without a current object serial.
pub open spec fn no_serial_text(name: Seq<char>) -> Seq<char> {
    "PipeWire source '"@ + name + "' has no current object serial"@
}

/// The object serial to open a node by.
pub fn pipewire_node_target(node: &PipeWireDiscoveredNode) -> (r: Result<String, CaptureError>)
    ensures
        match node.target_object {
            Some(serial) => r == Ok::<String, CaptureError>(serial),
            None => r matches Err(CaptureError::BackendInit(message)) && message@ == no_serial_text(
                node.source.name@,
            ),
        },
{
    match &node.target_object {
        Some(serial) => Ok(serial.clone()),
        None => {
            let mut message = String::new();
            push_str(&mut message, "PipeWire source '");
            push_str(&mut message, node.source.name.as_str());
            push_str(&mut message, "' has no current object serial");
            Err(CaptureError::BackendInit(message))
        },
    }
}


/// The properties of a PipeWire registry node that discovery reads, each as
/// the node reported it.
#[derive(Debug)]
pub struct PipeWireNodeProperties {
    pub media_class: Option<String>,
    pub application_name: Option<String>,
    pub node_description: Option<String>,
    pub device_description: Option<String>,
    pub node_name: Option<String>,
    pub application_process_id: Option<String>,
    pub application_id: Option<String>,
    pub audio_rate: Option<String>,
    pub node_rate: Option<String>,
    pub audio_channels: Option<String>,
    pub object_serial: Option<String>,
}

/// The text of an optional owned string.
pub open spec fn owned_text(value: Option<String>) -> Option<Seq<char>> {
    match value {
        Some(text) => Some(text@),
        None => None,
    }
}

/// The source kind of a PipeWire media class, if discovery lists it.
pub open spec fn spec_media_class_kind(media_class: Seq<char>) -> Option<SourceKind> {
    if media_class == "Stream/Output/Audio"@ {
        Some(SourceKind::Application)
    } else if media_class == "Audio/Source"@ {
        Some(SourceKind::InputDevice)
    } else if media_class == "Audio/Sink"@ {
        Some(SourceKind::OutputDevice)
    } else {
        None
    }
}

/// The stable key of a discovered node: the application identity for
/// applications, else `pw-node:{node name}`, else `pw-transient:{global id}`.
pub open spec fn spec_node_stable_key(
    kind: SourceKind,
    application_id: Option<Seq<char>>,
    node_name: Option<Seq<char>>,
    global_id: u32,
) -> Seq<char> {
    if kind == SourceKind::Application {
        spec_application_identity(application_id, node_name, global_id).0
    } else {
        match node_name {
            Some(name) => "pw-node:"@ + name,
            None => "pw-transient:"@ + decimal_digits(global_id as nat),
        }
    }
}

/// A process id property: a decimal `u32`, else none.
pub open spec fn spec_process_id(text: Option<Seq<char>>) -> Option<u32> {
    match text {
        Some(text) => match unsigned_text_value(text) {
            Some(value) => if value <= u32::MAX {
                Some(value as u32)
            } else {
                None::<u32>
            },
            None => None::<u32>,
        },
        None => None,
    }
}

/// `node` is what discovery makes of a node of `kind` with `props`.
pub open spec fn discovered_node_fields(
    node: PipeWireDiscoveredNode,
    props: PipeWireNodeProperties,
    kind: SourceKind,
    global_id: u32,
) -> bool {
    let application_id = if kind == SourceKind::Application {
        owned_text(props.application_id)
    } else {
        None
    };
    &&& node.source.stable_id@.platform == Platform::Linux
    &&& node.source.stable_id@.kind == kind
    &&& node.source.stable_id@.stable_key == spec_node_stable_key(
        kind,
        application_id,
        owned_text(props.node_name),
        global_id,
    )
    &&& node.source.name@ == spec_source_name(
        kind,
        owned_text(props.application_name),
        owned_text(props.node_description),
        owned_text(props.device_description),
        owned_text(props.node_name),
    )
    &&& node.source.process_id == spec_process_id(owned_text(props.application_process_id))
    &&& owned_text(node.source.app_id) == application_id
    &&& owned_text(node.source.device_uid) == (if kind == SourceKind::Application {
        None
    } else {
        owned_text(props.node_name)
    })
    &&& node.source.state == SourceState::Available
    &&& node.source.sample_rate_hz == spec_sample_rate(
        owned_text(props.audio_rate),
        owned_text(props.node_rate),
    )
    &&& node.source.channels == spec_channel_count(owned_text(props.audio_channels))
    &&& owned_text(node.target_object) == owned_text(props.object_serial)
}

fn optional_str(value: &Option<String>) -> (r: Option<&str>)
    ensures
        text_of(r) == owned_text(*value),
{
    match value {
        Some(text) => Some(text.as_str()),
        None => None,
    }
}

fn optional_owned(value: Option<&str>) -> (r: Option<String>)
    ensures
        owned_text(r) == text_of(value),
{
    match value {
        Some(text) => Some(text.to_owned()),
        None => None,
    }
}

fn media_class_kind(media_class: &str) -> (r: Option<SourceKind>)
    ensures
        r == spec_media_class_kind(media_class@),
{
    proof {
        reveal_strlit("Stream/Output/Audio");
        reveal_strlit("Audio/Source");
        reveal_strlit("Audio/Sink");
    }
    if text_equals(media_class, "Stream/Output/Audio") {
        Some(SourceKind::Application)
    } else if text_equals(media_class, "Audio/Source") {
        Some(SourceKind::InputDevice)
    } else if text_equals(media_class, "Audio/Sink") {
        Some(SourceKind::OutputDevice)
    } else {
        None
    }
}

/// Builds the source of one PipeWire registry node; nodes of any other media
/// class than application streams, sources and sinks are not listed.
pub fn pipewire_discovered_node(props: &PipeWireNodeProperties, global_id: u32) -> (r: Option<
    PipeWireDiscoveredNode,
>)
    ensures
        match owned_text(props.media_class) {
            Some(class) => match spec_media_class_kind(class) {
                Some(kind) => r matches Some(node) && discovered_node_fields(node, *props, kind, global_id),
                None => r is None,
            },
            None => r is None,
        },
{
    let kind = match &props.media_class {
        Some(class) => match media_class_kind(class.as_str()) {
            Some(kind) => kind,
            None => {
                return None;
            },
        },
        None => {
            return None;
        },
    };
    let node_name = optional_str(&props.node_name);
    let name = pipewire_source_name(
        kind,
        optional_str(&props.application_name),
        optional_str(&props.node_description),
        optional_str(&props.device_description),
        node_name,
    );
    let process_id = match &props.application_process_id {
        Some(text) => match parse_unsigned(text.as_str(), 0xffff_ffff) {
            Some(value) => Some(value as u32),
            None => None,
        },
        None => None,
    };
    let application_id = if kind == SourceKind::Application {
        optional_str(&props.application_id)
    } else {
        None
    };
    let stable_key = if kind == SourceKind::Application {
        pipewire_application_identity(application_id, node_name, global_id).0
    } else {
        match node_name {
            Some(value) => {
                let mut key = String::new();
                push_str(&mut key, "pw-node:");
                push_str(&mut key, value);
                key
            },
            None => {
                let mut key = String::new();
                push_str(&mut key, "pw-transient:");
                push_decimal_u64(&mut key, global_id as u64);
                key
            },
        }
    };
    let device_uid = if kind == SourceKind::Application {
        None
    } else {
        optional_owned(node_name)
    };
    let source = CaptureSource {
        stable_id: StableSourceId::new(Platform::Linux, kind, stable_key),
        name,
        process_id,
        app_id: optional_owned(application_id),
        device_uid,
        state: SourceState::Available,
        sample_rate_hz: parse_pipewire_sample_rate(
            optional_str(&props.audio_rate),
            optional_str(&props.node_rate),
        ),
        channels: parse_pipewire_channel_count(optional_str(&props.audio_channels)),
    };
    Some(PipeWireDiscoveredNode { source, target_object: optional_owned(optional_str(&props.object_serial)) })
}

/// The system-wide mix every Linux listing starts with. Its native format is
/// known only once the monitor stream opens, so rate and channels are zero.
pub open spec fn is_linux_system_mix(source: CaptureSource) -> bool {
    &&& source.stable_id@.platform == Platform::Linux
    &&& source.stable_id@.kind == SourceKind::SystemMix
    &&& source.stable_id@.stable_key == "system:mix"@
    &&& source.name@ == "System Mix"@
    &&& source.process_id is None
    &&& source.app_id is None
    &&& source.device_uid is None
    &&& source.state == SourceState::Available
    &&& source.sample_rate_hz == 0
    &&& source.channels == 0
}

/// Lists the Linux capture sources: the system mix first, then the sources of
/// the PipeWire nodes enumerated, in their order. With PipeWire unavailable
/// the caller passes no nodes.
pub fn discover_sources_linux(nodes: Vec<PipeWireDiscoveredNode>) -> (r: Vec<CaptureSource>)
    ensures
        r@.len() == nodes@.len() + 1,
        is_linux_system_mix(r@[0]),
        forall|i: int| 0 <= i < nodes@.len() ==> #[trigger] r@[i + 1] == nodes@[i].source,
{
    let system_mix = CaptureSource {
        stable_id: StableSourceId::new(Platform::Linux, SourceKind::SystemMix, "system:mix".to_owned()),
        name: "System Mix".to_owned(),
        process_id: None,
        app_id: None,
        device_uid: None,
        state: SourceState::Available,
        sample_rate_hz: 0,
        channels: 0,
    };
    proof {
        reveal_strlit("system:mix");
        reveal_strlit("System Mix");
    }
    let mut sources: Vec<CaptureSource> = Vec::new();
    sources.push(system_mix);
    let mut remaining = nodes;
    let ghost all = remaining@;
    let total = remaining.len();
    let mut taken: usize = 0;
    while remaining.len() > 0
        invariant
            sources@.len() == taken + 1,
            all.len() == total,
            taken <= all.len(),
            is_linux_system_mix(sources@[0]),
            taken + remaining@.len() == all.len(),
            forall|i: int| 0 <= i < taken ==> #[trigger] sources@[i + 1] == all[i].source,
            remaining@ == all.skip(taken as int),
        decreases remaining@.len(),
    {
        let node = remaining.remove(0);
        sources.push(node.source);
        taken = taken + 1;
    }
    sources
}


/// How a capture stream's timestamps advance, fixed at its first buffer.
#[derive(Debug, Clone, Copy, PartialEq, Eq, Structural)]
pub enum PipeWireTimelineMode {
    Undecided,
    SourcePosition,
    CumulativeSamples,
}

/// The audio format PipeWire negotiated for a stream.
#[derive(Debug, Clone, Copy, PartialEq, Eq, Structural)]
pub struct NegotiatedPipeWireFormat {
    pub sample_rate_hz: u32,
    pub channel_count: u8,
}

/// The format a negotiated raw audio description stands for: interleaved
/// `f32` little-endian samples at a nonzero rate with 1 to 255 channels.
pub open spec fn spec_negotiated_format(is_f32le: bool, sample_rate_hz: u32, channels: u32) -> Result<
    NegotiatedPipeWireFormat,
    Seq<char>,
> {
    if !is_f32le {
        Err("PipeWire did not negotiate interleaved f32 audio"@)
    } else if sample_rate_hz == 0 {
        Err("PipeWire negotiated a zero sample rate"@)
    } else if channels == 0 || channels > u8::MAX {
        Err("PipeWire negotiated an invalid channel count"@)
    } else {
        Ok(NegotiatedPipeWireFormat { sample_rate_hz, channel_count: channels as u8 })
    }
}

/// Checks the fields of a negotiated raw audio description.
pub fn negotiated_format_from_raw(is_f32le: bool, sample_rate_hz: u32, channels: u32) -> (r: Result<
    NegotiatedPipeWireFormat,
    &'static str,
>)
    ensures
        match spec_negotiated_format(is_f32le, sample_rate_hz, channels) {
            Ok(format) => r == Ok::<NegotiatedPipeWireFormat, &'static str>(format),
            Err(message) => r matches Err(text) && text@ == message,
        },
{
    if !is_f32le {
        return Err("PipeWire did not negotiate interleaved f32 audio");
    }
    if sample_rate_hz == 0 {
        return Err("PipeWire negotiated a zero sample rate");
    }
    if channels == 0 || channels > 255 {
        return Err("PipeWire negotiated an invalid channel count");
    }
    Ok(NegotiatedPipeWireFormat { sample_rate_hz, channel_count: channels as u8 })
}

/// Per-stream state of a PipeWire capture: the format it expects and
/// negotiated, its sample timeline, and whether it reported being open.
#[derive(Debug)]
pub struct PipeWireCaptureState {
    expected_channel_count: u8,
    negotiated_format: Option<NegotiatedPipeWireFormat>,
    sample_timeline: Option<CaptureSampleTimeline>,
    timeline_mode: PipeWireTimelineMode,
    connected: bool,
    open_result_sent: bool,
    format_failed: bool,
}

/// Abstract state of a PipeWire capture.
pub struct PipeWireCaptureStateView {
    pub expected_channel_count: u8,
    pub negotiated_format: Option<NegotiatedPipeWireFormat>,
    pub sample_timeline: Option<CaptureSampleTimelineView>,
    pub timeline_mode: PipeWireTimelineMode,
    pub connected: bool,
    pub open_result_sent: bool,
    pub format_failed: bool,
}

impl View for PipeWireCaptureState {
    type V = PipeWireCaptureStateView;

    closed spec fn view(&self) -> PipeWireCaptureStateView {
        PipeWireCaptureStateView {
            expected_channel_count: self.expected_channel_count,
            negotiated_format: self.negotiated_format,
            sample_timeline: match self.sample_timeline {
                Some(timeline) => Some(timeline@),
                None => None,
            },
            timeline_mode: self.timeline_mode,
            connected: self.connected,
            open_result_sent: self.open_result_sent,
            format_failed: self.format_failed,
        }
    }
}

/// A state is consistent: a negotiated format is the one capture accepts and
/// comes with a timeline.
pub open spec fn capture_state_wf(state: PipeWireCaptureStateView) -> bool {
    state.negotiated_format matches Some(format) ==> {
        &&& format.sample_rate_hz == SAMPLE_RATE_HZ
        &&& format.channel_count == state.expected_channel_count
        &&& state.sample_timeline is Some
    }
}

/// A fresh timeline at `rate_hz` with no anchor.
pub open spec fn fresh_timeline(rate_hz: u32) -> CaptureSampleTimelineView {
    CaptureSampleTimelineView {
        sample_rate_hz: rate_hz,
        origin_timestamp_ns: None,
        elapsed_sample_frames: 0,
        source_origin_sample_frame: None,
        next_source_sample_frame: None,
    }
}

/// A timeline at `rate_hz` whose first frame starts at `origin_ns` (at least one).
pub open spec fn anchored_timeline(rate_hz: u32, origin_ns: u64) -> CaptureSampleTimelineView {
    CaptureSampleTimelineView {
        origin_timestamp_ns: Some(
            if origin_ns == 0 {
                1u64
            } else {
                origin_ns
            },
        ),
        ..fresh_timeline(rate_hz)
    }
}

/// Start and next state of a cumulative advance by `frames`.
pub open spec fn cumulative_advance(
    timeline: CaptureSampleTimelineView,
    frames: u64,
    clock_now_ns: u64,
) -> (u64, CaptureSampleTimelineView) {
    let origin = resolved_origin(timeline.origin_timestamp_ns, clock_now_ns);
    (
        saturating_add_u64(
            origin as int,
            sample_offset_ns(timeline.elapsed_sample_frames as int, timeline.sample_rate_hz as int),
        ) as u64,
        CaptureSampleTimelineView {
            origin_timestamp_ns: Some(origin),
            elapsed_sample_frames: saturating_add_u64(
                timeline.elapsed_sample_frames as int,
                frames as int,
            ) as u64,
            ..timeline
        },
    )
}

/// Result and next state of offering a negotiated format.
pub open spec fn negotiation_outcome(
    state: PipeWireCaptureStateView,
    format: NegotiatedPipeWireFormat,
) -> (Result<(), Seq<char>>, PipeWireCaptureStateView) {
    match state.negotiated_format {
        Some(current) => if current != format {
            (
                Err("PipeWire changed capture format after negotiation"@),
                PipeWireCaptureStateView { format_failed: true, ..state },
            )
        } else {
            (Ok(()), state)
        },
        None => if format.channel_count != state.expected_channel_count {
            (
                Err("PipeWire negotiated an unexpected channel count"@),
                PipeWireCaptureStateView { format_failed: true, ..state },
            )
        } else if format.sample_rate_hz != SAMPLE_RATE_HZ {
            (
                Err("PipeWire negotiated an unexpected sample rate"@),
                PipeWireCaptureStateView { format_failed: true, ..state },
            )
        } else {
            (
                Ok(()),
                PipeWireCaptureStateView {
                    negotiated_format: Some(format),
                    sample_timeline: Some(fresh_timeline(format.sample_rate_hz)),
                    ..state
                },
            )
        },
    }
}

/// Result and next state of timestamping one callback buffer of `frames`
/// frames, whose first sample the callback placed at `first_sample_ns`.
///
/// A failed or missing format yields nothing. The first buffer anchors the
/// timeline at `first_sample_ns` and fixes the mode: by source position when
/// the stream reports one, else by cumulative sample count. A source-position
/// stream that stops reporting positions yields nothing.
pub open spec fn timeline_outcome(
    state: PipeWireCaptureStateView,
    source_sample_frame: Option<u64>,
    frames: u64,
    first_sample_ns: u64,
) -> (Option<(u64, u32, u8)>, PipeWireCaptureStateView) {
    if state.format_failed || state.negotiated_format is None || state.sample_timeline is None {
        (None, state)
    } else {
        let format = state.negotiated_format->0;
        let timeline = if state.timeline_mode == PipeWireTimelineMode::Undecided {
            anchored_timeline(format.sample_rate_hz, first_sample_ns)
        } else {
            state.sample_timeline->0
        };
        if state.timeline_mode == PipeWireTimelineMode::CumulativeSamples || (state.timeline_mode
            == PipeWireTimelineMode::Undecided && source_sample_frame is None) {
            let (start, next) = cumulative_advance(timeline, frames, first_sample_ns);
            (
                Some((start, format.sample_rate_hz, format.channel_count)),
                PipeWireCaptureStateView {
                    timeline_mode: PipeWireTimelineMode::CumulativeSamples,
                    sample_timeline: Some(next),
                    ..state
                },
            )
        } else if source_sample_frame is None {
            (None, state)
        } else {
            let (result, next) = source_position_outcome(
                timeline,
                source_sample_frame->0,
                frames,
                first_sample_ns,
            );
            (
                match result {
                    Ok(start) => Some((start, format.sample_rate_hz, format.channel_count)),
                    Err(_) => None,
                },
                PipeWireCaptureStateView {
                    timeline_mode: PipeWireTimelineMode::SourcePosition,
                    sample_timeline: Some(next),
                    ..state
                },
            )
        }
    }
}

impl PipeWireCaptureState {
    /// A capture expecting `expected_channel_count` channels, before any
    /// negotiation.
    pub fn new(expected_channel_count: u8) -> (r: Self)
        ensures
            capture_state_wf(r@),
            r@ == (PipeWireCaptureStateView {
                expected_channel_count,
                negotiated_format: None,
                sample_timeline: None,
                timeline_mode: PipeWireTimelineMode::Undecided,
                connected: false,
                open_result_sent: false,
                format_failed: false,
            }),
    {
        PipeWireCaptureState {
            expected_channel_count,
            negotiated_format: None,
            sample_timeline: None,
            timeline_mode: PipeWireTimelineMode::Undecided,
            connected: false,
            open_result_sent: false,
            format_failed: false,
        }
    }

    /// Accepts the first negotiated format when it matches the expected
    /// channels and sample rate; a later different format fails the stream.
    pub fn set_negotiated_format(&mut self, negotiated_format: NegotiatedPipeWireFormat) -> (r:
        Result<(), &'static str>)
        requires
            capture_state_wf(old(self)@),
        ensures
            capture_state_wf(final(self)@),
            final(self)@ == negotiation_outcome(old(self)@, negotiated_format).1,
            match negotiation_outcome(old(self)@, negotiated_format).0 {
                Ok(()) => r is Ok,
                Err(message) => r matches Err(text) && text@ == message,
            },
    {
        if let Some(current_format) = self.negotiated_format {
            if current_format != negotiated_format {
                self.format_failed = true;
                return Err("PipeWire changed capture format after negotiation");
            }
            return Ok(());
        }
        if negotiated_format.channel_count != self.expected_channel_count {
            self.format_failed = true;
            return Err("PipeWire negotiated an unexpected channel count");
        }
        if negotiated_format.sample_rate_hz != SAMPLE_RATE_HZ {
            self.format_failed = true;
            return Err("PipeWire negotiated an unexpected sample rate");
        }
        self.sample_timeline = Some(CaptureSampleTimeline::new(negotiated_format.sample_rate_hz));
        self.negotiated_format = Some(negotiated_format);
        Ok(())
    }

    /// Timestamps one callback buffer on the stream's sample timeline and
    /// returns it with the negotiated rate and channel count.
    pub fn advance_sample_timeline(
        &mut self,
        source_sample_frame: Option<u64>,
        sample_frames: u64,
        first_sample_timestamp_ns: u64,
    ) -> (r: Option<(u64, u32, u8)>)
        requires
            capture_state_wf(old(self)@),
        ensures
            capture_state_wf(final(self)@),
            (r, final(self)@) == timeline_outcome(
                old(self)@,
                source_sample_frame,
                sample_frames,
                first_sample_timestamp_ns,
            ),
    {
        if self.format_failed {
            return None;
        }
        let negotiated_format = match self.negotiated_format {
            Some(format) => format,
            None => {
                return None;
            },
        };
        let mut timeline = match self.sample_timeline.take() {
            Some(timeline) => timeline,
            None => {
                return None;
            },
        };
        if self.timeline_mode == PipeWireTimelineMode::Undecided {
            timeline = CaptureSampleTimeline::anchored(
                negotiated_format.sample_rate_hz,
                first_sample_timestamp_ns,
            );
        }
        let cumulative = match self.timeline_mode {
            PipeWireTimelineMode::CumulativeSamples => true,
            PipeWireTimelineMode::Undecided => source_sample_frame.is_none(),
            PipeWireTimelineMode::SourcePosition => false,
        };
        if cumulative {
            self.timeline_mode = PipeWireTimelineMode::CumulativeSamples;
            let start = timeline.advance(sample_frames, first_sample_timestamp_ns);
            self.sample_timeline = Some(timeline);
            return Some((start, negotiated_format.sample_rate_hz, negotiated_format.channel_count));
        }
        let position = match source_sample_frame {
            Some(position) => position,
            None => {
                self.sample_timeline = Some(timeline);
                return None;
            },
        };
        self.timeline_mode = PipeWireTimelineMode::SourcePosition;
        let result = timeline.advance_from_source_position(
            position,
            sample_frames,
            first_sample_timestamp_ns,
        );
        self.sample_timeline = Some(timeline);
        match result {
            Ok(start) => Some((start, negotiated_format.sample_rate_hz, negotiated_format.channel_count)),
            Err(_) => None,
        }
    }

    /// Records that the stream reached the connected state.
    pub fn mark_connected(&mut self)
        ensures
            final(self)@ == (PipeWireCaptureStateView { connected: true, ..old(self)@ }),
    {
        self.connected = true;
    }

    /// The stream is connected with an accepted format and has not reported
    /// being open yet.
    pub fn open_signal_due(&self) -> (r: bool)
        ensures
            r == (self@.connected && self@.negotiated_format is Some && !self@.format_failed
                && !self@.open_result_sent),
    {
        self.connected && self.negotiated_format.is_some() && !self.format_failed
            && !self.open_result_sent
    }

    /// Records that the stream reported being open.
    pub fn mark_open_signalled(&mut self)
        ensures
            final(self)@ == (PipeWireCaptureStateView { open_result_sent: true, ..old(self)@ }),
    {
        self.open_result_sent = true;
    }

    /// Channels the stream expects.
    pub fn expected_channel_count(&self) -> (r: u8)
        ensures
            r == self@.expected_channel_count,
    {
        self.expected_channel_count
    }

    /// The accepted format, if any.
    pub fn negotiated_format(&self) -> (r: Option<NegotiatedPipeWireFormat>)
        ensures
            r == self@.negotiated_format,
    {
        self.negotiated_format
    }

    /// Whether negotiation failed the stream.
    pub fn format_failed(&self) -> (r: bool)
        ensures
            r == self@.format_failed,
    {
        self.format_failed
    }
}

/// Once a stream's format failed, no later negotiation revives it and no
/// buffer is timestamped: capture fails closed.
pub proof fn lemma_failed_format_stays_closed(
    state: PipeWireCaptureStateView,
    format: NegotiatedPipeWireFormat,
    source_sample_frame: Option<u64>,
    frames: u64,
    first_sample_ns: u64,
)
    requires
        state.format_failed,
    ensures
        negotiation_outcome(state, format).1.format_failed,
        timeline_outcome(state, source_sample_frame, frames, first_sample_ns).0 is None,
        timeline_outcome(state, source_sample_frame, frames, first_sample_ns).1 == state,
{
}

/// An accepted format is never replaced: offering any other one fails the
/// stream and keeps the accepted format.
pub proof fn lemma_negotiated_format_is_fixed(
    state: PipeWireCaptureStateView,
    format: NegotiatedPipeWireFormat,
)
    requires
        state.negotiated_format is Some,
    ensures
        negotiation_outcome(state, format).1.negotiated_format == state.negotiated_format,
        format != state.negotiated_format->0 ==> negotiation_outcome(state, format).0 is Err
            && negotiation_outcome(state, format).1.format_failed,
{
}

/// With source positions, a buffer following the previous one without a gap
/// starts exactly that buffer's duration later: dropping a delivered buffer
/// does not shift the cadence of the next.
pub proof fn lemma_source_position_cadence(
    state: PipeWireCaptureStateView,
    position: u64,
    frames: u64,
    first_ns: u64,
    later_first_ns: u64,
)
    requires
        capture_state_wf(state),
        !state.format_failed,
        state.negotiated_format is Some,
        state.timeline_mode == PipeWireTimelineMode::Undecided,
        position + frames + frames <= u64::MAX,
        first_ns > 0,
        first_ns + sample_offset_ns(frames as int, SAMPLE_RATE_HZ as int) <= u64::MAX,
    ensures
        ({
            let (first, mid) = timeline_outcome(state, Some(position), frames, first_ns);
            let (second, _) = timeline_outcome(
                mid,
                Some((position + frames) as u64),
                frames,
                later_first_ns,
            );
            &&& first == Some((first_ns, SAMPLE_RATE_HZ, state.negotiated_format->0.channel_count))
            &&& second matches Some((start, _, _)) && start == first_ns + sample_offset_ns(
                frames as int,
                SAMPLE_RATE_HZ as int,
            )
        }),
{
    assert(sample_offset_ns(0, SAMPLE_RATE_HZ as int) == 0);
    let format = state.negotiated_format->0;
    let anchored = anchored_timeline(format.sample_rate_hz, first_ns);
    let (first, mid) = timeline_outcome(state, Some(position), frames, first_ns);
    assert(source_position_outcome(anchored, position, frames, first_ns).0 == Ok::<
        u64,
        crate::capture::timeline::CaptureSampleTimelineError,
    >(first_ns));
    let mid_timeline = source_position_outcome(anchored, position, frames, first_ns).1;
    assert(mid.sample_timeline == Some(mid_timeline));
    assert(mid.timeline_mode == PipeWireTimelineMode::SourcePosition);
    assert(mid_timeline.next_source_sample_frame == Some((position + frames) as u64));
    assert(mid_timeline.source_origin_sample_frame == Some(position));
    assert(mid_timeline.origin_timestamp_ns == Some(first_ns));
    assert(mid_timeline.elapsed_sample_frames == 0);
}


/// What becomes of one callback buffer.
#[derive(Clone, Copy, Debug, PartialEq, Eq, Structural)]
pub enum PipeWireBufferOutcome {
    /// The buffer is unreadable, or cannot be placed on the timeline.
    InvalidBuffer,
    /// The buffer holds more samples than the callback storage.
    OversizedBuffer,
    /// The buffer's `sample_count` interleaved samples start at
    /// `timestamp_ns` and are framed at the given rate and channel count.
    Frames { timestamp_ns: u64, sample_rate_hz: u32, channel_count: u8, sample_count: usize },
}

/// Outcome and next state of one callback buffer of `sample_count`
/// interleaved samples (none when its planes are unreadable), for callback
/// storage of `capacity_samples`.
///
/// A buffer with a presentation time keeps that time on an accepted format
/// and leaves the timeline as it is; any other buffer is placed on the
/// sample timeline from its first sample, which the callback time less the
/// buffer's duration, delay and report age locate.
pub open spec fn buffer_outcome(
    state: PipeWireCaptureStateView,
    sample_count: Option<usize>,
    capacity_samples: usize,
    stream_time: Option<PipeWireStreamTime>,
    buffer_pts_ns: Option<i64>,
    callback_timestamp_ns: u64,
    monotonic_now_ns: Option<u64>,
) -> (PipeWireBufferOutcome, PipeWireCaptureStateView) {
    match sample_count {
        None => (PipeWireBufferOutcome::InvalidBuffer, state),
        Some(samples) => if samples > capacity_samples {
            (PipeWireBufferOutcome::OversizedBuffer, state)
        } else {
            let frames = samples / (state.expected_channel_count as usize);
            let timing = match state.negotiated_format {
                Some(format) => spec_capture_timing(
                    stream_time,
                    format.sample_rate_hz,
                    buffer_pts_ns,
                    callback_timestamp_ns,
                    monotonic_now_ns,
                ),
                None => no_capture_timing(),
            };
            let rate = match state.negotiated_format {
                Some(format) => format.sample_rate_hz,
                None => SAMPLE_RATE_HZ,
            };
            let first_sample_ns = match timing.buffer_timestamp_ns {
                Some(timestamp_ns) => timestamp_ns,
                None => spec_first_sample_timestamp_ns(
                    callback_timestamp_ns,
                    frames as u64,
                    rate,
                    timing.capture_delay_ns,
                    timing.report_age_ns,
                ),
            };
            if timing.buffer_timestamp_ns is Some && !state.format_failed
                && state.negotiated_format is Some {
                (
                    PipeWireBufferOutcome::Frames {
                        timestamp_ns: timing.buffer_timestamp_ns->0,
                        sample_rate_hz: state.negotiated_format->0.sample_rate_hz,
                        channel_count: state.negotiated_format->0.channel_count,
                        sample_count: samples,
                    },
                    state,
                )
            } else {
                let (placed, next) = timeline_outcome(
                    state,
                    timing.source_sample_frame,
                    frames as u64,
                    first_sample_ns,
                );
                match placed {
                    Some((timestamp_ns, sample_rate_hz, channel_count)) => (
                        PipeWireBufferOutcome::Frames {
                            timestamp_ns,
                            sample_rate_hz,
                            channel_count,
                            sample_count: samples,
                        },
                        next,
                    ),
                    None => (PipeWireBufferOutcome::InvalidBuffer, next),
                }
            }
        },
    }
}

impl PipeWireCaptureState {
    /// Decides what becomes of one callback buffer and advances the sample
    /// timeline when the buffer is placed on it.
    pub fn plan_callback_buffer(
        &mut self,
        sample_count: Option<usize>,
        capacity_samples: usize,
        stream_time: Option<PipeWireStreamTime>,
        buffer_pts_ns: Option<i64>,
        callback_timestamp_ns: u64,
        monotonic_now_ns: Option<u64>,
    ) -> (r: PipeWireBufferOutcome)
        requires
            capture_state_wf(old(self)@),
            old(self)@.expected_channel_count > 0,
        ensures
            capture_state_wf(final(self)@),
            (r, final(self)@) == buffer_outcome(
                old(self)@,
                sample_count,
                capacity_samples,
                stream_time,
                buffer_pts_ns,
                callback_timestamp_ns,
                monotonic_now_ns,
            ),
    {
        let samples = match sample_count {
            Some(samples) => samples,
            None => {
                return PipeWireBufferOutcome::InvalidBuffer;
            },
        };
        if samples > capacity_samples {
            return PipeWireBufferOutcome::OversizedBuffer;
        }
        let frames = (samples / (self.expected_channel_count as usize)) as u64;
        let timing = match self.negotiated_format {
            Some(format) => pipewire_capture_timing(
                stream_time,
                format.sample_rate_hz,
                buffer_pts_ns,
                callback_timestamp_ns,
                monotonic_now_ns,
            ),
            None => PipeWireCaptureTiming {
                source_sample_frame: None,
                capture_delay_ns: 0,
                report_age_ns: 0,
                buffer_timestamp_ns: None,
            },
        };
        let rate = match self.negotiated_format {
            Some(format) => format.sample_rate_hz,
            None => SAMPLE_RATE_HZ,
        };
        let first_sample_ns = match timing.buffer_timestamp_ns {
            Some(timestamp_ns) => timestamp_ns,
            None => pipewire_first_sample_timestamp_ns(
                callback_timestamp_ns,
                frames,
                rate,
                timing.capture_delay_ns,
                timing.report_age_ns,
            ),
        };
        if let Some(timestamp_ns) = timing.buffer_timestamp_ns {
            if !self.format_failed {
                if let Some(format) = self.negotiated_format {
                    return PipeWireBufferOutcome::Frames {
                        timestamp_ns,
                        sample_rate_hz: format.sample_rate_hz,
                        channel_count: format.channel_count,
                        sample_count: samples,
                    };
                }
            }
        }
        match self.advance_sample_timeline(timing.source_sample_frame, frames, first_sample_ns) {
            Some((timestamp_ns, sample_rate_hz, channel_count)) => PipeWireBufferOutcome::Frames {
                timestamp_ns,
                sample_rate_hz,
                channel_count,
                sample_count: samples,
            },
            None => PipeWireBufferOutcome::InvalidBuffer,
        }
    }
}

/// Buffers never change what was negotiated: the expected channels, the
/// accepted format and whether negotiation failed stay as they were, and a
/// buffer yields frames only on an accepted format, at its rate and channel
/// count.
pub proof fn lemma_buffers_keep_negotiation(
    state: PipeWireCaptureStateView,
    sample_count: Option<usize>,
    capacity_samples: usize,
    stream_time: Option<PipeWireStreamTime>,
    buffer_pts_ns: Option<i64>,
    callback_timestamp_ns: u64,
    monotonic_now_ns: Option<u64>,
)
    requires
        capture_state_wf(state),
        state.expected_channel_count > 0,
    ensures
        ({
            let (outcome, next) = buffer_outcome(
                state,
                sample_count,
                capacity_samples,
                stream_time,
                buffer_pts_ns,
                callback_timestamp_ns,
                monotonic_now_ns,
            );
            &&& next.expected_channel_count == state.expected_channel_count
            &&& next.negotiated_format == state.negotiated_format
            &&& next.format_failed == state.format_failed
            &&& outcome matches PipeWireBufferOutcome::Frames {
                sample_rate_hz,
                channel_count,
                ..
            } ==> !state.format_failed && state.negotiated_format == Some(
                NegotiatedPipeWireFormat { sample_rate_hz, channel_count },
            )
        }),
{
}

/// Where a Linux capture reads from.
#[derive(Debug)]
pub enum LinuxCaptureTarget {
    /// The default sink's monitor through PipeWire.
    PipeWireSystemMix,
    /// The ALSA loopback device, when PipeWire is unavailable.
    AlsaSystemMix,
    /// One live PipeWire node, opened by its current object serial.
    PipeWireNode { target_object: String, stable_id: StableSourceId },
}

/// What a mode looks for among the live nodes.
enum NodeCriterion<'a> {
    Process(u32),
    Application(&'a str),
    DefaultInput,
    InputWithUid(&'a str),
}

/// A node a capture of an application by name may open: an application
/// whose display name or application id equals the name, ignoring ASCII case.
pub open spec fn names_application(node: PipeWireDiscoveredNode, name: Seq<char>) -> bool {
    &&& node.source.stable_id@.kind == SourceKind::Application
    &&& (bytes_eq_ignore_ascii_case(encode_utf8(node.source.name@), encode_utf8(name)) || (
    node.source.app_id matches Some(id) && bytes_eq_ignore_ascii_case(
        encode_utf8(id@),
        encode_utf8(name),
    )))
}

spec fn criterion_holds(criterion: NodeCriterion, node: PipeWireDiscoveredNode) -> bool {
    match criterion {
        NodeCriterion::Process(pid) => node.source.process_id == Some(pid),
        NodeCriterion::Application(name) => names_application(node, name@),
        NodeCriterion::DefaultInput => node.source.stable_id@.kind == SourceKind::InputDevice,
        NodeCriterion::InputWithUid(uid) => node.source.stable_id@.kind == SourceKind::InputDevice
            && owned_text(node.source.device_uid) == Some(uid@),
    }
}

/// Index of the first node at or after `from` satisfying `holds`.
pub open spec fn first_match(
    nodes: Seq<PipeWireDiscoveredNode>,
    holds: spec_fn(PipeWireDiscoveredNode) -> bool,
    from: int,
) -> Option<int>
    decreases nodes.len() - from,
{
    if from < 0 || from >= nodes.len() {
        None
    } else if holds(nodes[from]) {
        Some(from)
    } else {
        first_match(nodes, holds, from + 1)
    }
}

proof fn lemma_first_match(
    nodes: Seq<PipeWireDiscoveredNode>,
    holds: spec_fn(PipeWireDiscoveredNode) -> bool,
    from: int,
)
    requires
        0 <= from,
    ensures
        first_match(nodes, holds, from) matches Some(k) ==> from <= k < nodes.len(),
    decreases nodes.len() - from,
{
    if from < nodes.len() && !holds(nodes[from]) {
        lemma_first_match(nodes, holds, from + 1);
    }
}

spec fn criterion_fn(criterion: NodeCriterion) -> spec_fn(PipeWireDiscoveredNode) -> bool {
    |node: PipeWireDiscoveredNode| criterion_holds(criterion, node)
}

fn node_satisfies(criterion: &NodeCriterion, node: &PipeWireDiscoveredNode) -> (r: bool)
    ensures
        r == criterion_holds(*criterion, *node),
{
    match criterion {
        NodeCriterion::Process(pid) => match node.source.process_id {
            Some(node_pid) => node_pid == *pid,
            None => false,
        },
        NodeCriterion::Application(name) => {
            if node.source.stable_id.kind != SourceKind::Application {
                return false;
            }
            if eq_ignore_ascii_case(node.source.name.as_str(), name) {
                return true;
            }
            match &node.source.app_id {
                Some(app_id) => eq_ignore_ascii_case(app_id.as_str(), name),
                None => false,
            }
        },
        NodeCriterion::DefaultInput => node.source.stable_id.kind == SourceKind::InputDevice,
        NodeCriterion::InputWithUid(uid) => {
            if node.source.stable_id.kind != SourceKind::InputDevice {
                return false;
            }
            match &node.source.device_uid {
                Some(device_uid) => text_equals(device_uid.as_str(), uid),
                None => false,
            }
        },
    }
}

fn find_match(nodes: &[PipeWireDiscoveredNode], criterion: &NodeCriterion, from: usize) -> (r:
    Option<usize>)
    requires
        from <= nodes@.len(),
    ensures
        match r {
            Some(k) => k < nodes@.len() && first_match(nodes@, criterion_fn(*criterion), from as int)
                == Some(k as int),
            None => first_match(nodes@, criterion_fn(*criterion), from as int) is None,
        },
{
    let mut index = from;
    while index < nodes.len()
        invariant
            from <= index <= nodes@.len(),
            first_match(nodes@, criterion_fn(*criterion), from as int) == first_match(
                nodes@,
                criterion_fn(*criterion),
                index as int,
            ),
        decreases nodes@.len() - index,
    {
        if node_satisfies(criterion, &nodes[index]) {
            return Some(index);
        }
        index = index + 1;
    }
    None
}

/// `r` opens `node`: by its object serial when it has one.
pub open spec fn opens_node(node: PipeWireDiscoveredNode, r: Result<LinuxCaptureTarget, CaptureError>) -> bool {
    match node.target_object {
        Some(serial) => r matches Ok(LinuxCaptureTarget::PipeWireNode { target_object, stable_id })
            && target_object@ == serial@ && stable_id@ == node.source.stable_id@,
        None => r matches Err(CaptureError::BackendInit(message)) && message@ == no_serial_text(
            node.source.name@,
        ),
    }
}

/// Text refusing a mode no live node matches.
pub open spec fn no_node_text(wanted: Seq<char>) -> Seq<char> {
    "BLOCKED_WITH_EVIDENCE: PipeWire per-app source capture requires PipeWire node enumeration and link; no node found for '"@
        + wanted + "'"@
}

/// Text refusing an application name several live nodes match.
pub open spec fn several_applications_text(name: Seq<char>) -> Seq<char> {
    "application '"@ + name
        + "' matches multiple PipeWire audio nodes \u{2014} select one from source discovery"@
}

/// `r` is what an exact-application selection makes of the live nodes.
pub open spec fn exact_target_outcome(
    nodes: Seq<PipeWireDiscoveredNode>,
    stable_id: StableSourceId,
    process_id: Option<u32>,
    r: Result<LinuxCaptureTarget, CaptureError>,
) -> bool {
    if stable_id.platform != Platform::Linux || stable_id.kind != SourceKind::Application {
        r matches Err(CaptureError::SourceUnavailable { stable_key }) && stable_key@
            == stable_id.stable_key@
    } else {
        match first_node(nodes, stable_id, process_id, 0) {
            None => r matches Err(CaptureError::SourceUnavailable { stable_key }) && stable_key@
                == stable_id.stable_key@,
            Some(k) => if first_node(nodes, stable_id, process_id, k + 1) is Some {
                r matches Err(CaptureError::BackendInit(message)) && message@
                    == ambiguous_selector_text(stable_id.stable_key@)
            } else {
                opens_node(nodes[k], r)
            },
        }
    }
}

fn open_node(node: &PipeWireDiscoveredNode) -> (r: Result<LinuxCaptureTarget, CaptureError>)
    ensures
        opens_node(*node, r),
{
    match pipewire_node_target(node) {
        Ok(target_object) => Ok(
            LinuxCaptureTarget::PipeWireNode {
                target_object,
                stable_id: node.source.stable_id.clone(),
            },
        ),
        Err(error) => Err(error),
    }
}

/// Decides where a Linux capture of `mode` reads from, given whether
/// PipeWire is available and, when it is, the live nodes it enumerated.
///
/// The system mix falls back to ALSA without PipeWire; every other mode is
/// then unsupported rather than weakened to the system mix. A mode that names
/// a process, an application or a device never falls back either: without a
/// matching node it fails.
pub fn resolve_linux_capture_target(
    mode: &CaptureMode,
    pipewire_available: bool,
    nodes: &[PipeWireDiscoveredNode],
) -> (r: Result<LinuxCaptureTarget, CaptureError>)
    ensures
        match *mode {
            CaptureMode::SystemMix => if pipewire_available {
                r matches Ok(LinuxCaptureTarget::PipeWireSystemMix)
            } else {
                r matches Ok(LinuxCaptureTarget::AlsaSystemMix)
            },
            _ => if !pipewire_available {
                r == Err::<LinuxCaptureTarget, CaptureError>(CaptureError::ModeUnsupported(*mode))
            } else {
                match *mode {
                    CaptureMode::Process(pid) => match first_match(
                        nodes@,
                        |node: PipeWireDiscoveredNode| node.source.process_id == Some(pid),
                        0,
                    ) {
                        Some(k) => opens_node(nodes@[k], r),
                        None => r matches Err(CaptureError::BackendInit(message)) && message@
                            == no_node_text(decimal_digits(pid as nat)),
                    },
                    CaptureMode::ExactApplication { process_id, stable_id } => exact_target_outcome(
                        nodes@,
                        stable_id,
                        Some(process_id),
                        r,
                    ),
                    CaptureMode::ExactApplicationStable { stable_id } => exact_target_outcome(
                        nodes@,
                        stable_id,
                        None,
                        r,
                    ),
                    CaptureMode::Application(name) => {
                        let matches = |node: PipeWireDiscoveredNode| names_application(node, name@);
                        match first_match(nodes@, matches, 0) {
                            Some(k) => if first_match(nodes@, matches, k + 1) is Some {
                                r matches Err(CaptureError::BackendInit(message)) && message@
                                    == several_applications_text(name@)
                            } else {
                                opens_node(nodes@[k], r)
                            },
                            None => r matches Err(CaptureError::BackendInit(message)) && message@
                                == no_node_text(name@),
                        }
                    },
                    CaptureMode::InputDevice(InputDeviceSelector::Default) => match first_match(
                        nodes@,
                        |node: PipeWireDiscoveredNode| node.source.stable_id@.kind
                            == SourceKind::InputDevice,
                        0,
                    ) {
                        Some(k) => opens_node(nodes@[k], r),
                        None => r matches Err(CaptureError::BackendInit(message)) && message@
                            == "requested default PipeWire input device is unavailable"@,
                    },
                    CaptureMode::InputDevice(InputDeviceSelector::StableId(uid)) => match first_match(
                        nodes@,
                        |node: PipeWireDiscoveredNode| node.source.stable_id@.kind
                            == SourceKind::InputDevice && owned_text(node.source.device_uid)
                            == Some(uid@),
                        0,
                    ) {
                        Some(k) => opens_node(nodes@[k], r),
                        None => r matches Err(CaptureError::SourceUnavailable { stable_key })
                            && stable_key@ == uid@,
                    },
                    CaptureMode::SystemMix => true,
                }
            },
        },
{
    if let CaptureMode::SystemMix = mode {
        if pipewire_available {
            return Ok(LinuxCaptureTarget::PipeWireSystemMix);
        } else {
            return Ok(LinuxCaptureTarget::AlsaSystemMix);
        }
    }
    if !pipewire_available {
        return Err(CaptureError::ModeUnsupported(mode.clone()));
    }
    match mode {
        CaptureMode::Process(pid) => {
            let criterion = NodeCriterion::Process(*pid);
            assert(criterion_fn(criterion) =~= |node: PipeWireDiscoveredNode|
                node.source.process_id == Some(*pid));
            match find_match(nodes, &criterion, 0) {
                Some(k) => open_node(&nodes[k]),
                None => {
                    let mut message = String::new();
                    push_str(
                        &mut message,
                        "BLOCKED_WITH_EVIDENCE: PipeWire per-app source capture requires PipeWire node enumeration and link; no node found for '",
                    );
                    push_decimal_u64(&mut message, *pid as u64);
                    push_str(&mut message, "'");
                    Err(CaptureError::BackendInit(message))
                },
            }
        },
        CaptureMode::ExactApplication { process_id, stable_id } => {
            match select_unique_exact_application(nodes, stable_id, Some(*process_id)) {
                Ok(node) => open_node(node),
                Err(error) => Err(error),
            }
        },
        CaptureMode::ExactApplicationStable { stable_id } => {
            match select_unique_exact_application(nodes, stable_id, None) {
                Ok(node) => open_node(node),
                Err(error) => Err(error),
            }
        },
        CaptureMode::Application(name) => {
            let criterion = NodeCriterion::Application(name.as_str());
            assert(criterion_fn(criterion) =~= |node: PipeWireDiscoveredNode|
                names_application(node, name@));
            match find_match(nodes, &criterion, 0) {
                Some(k) => {
                    let count = nodes.len();
                    assert(k < count);
                    match find_match(nodes, &criterion, k + 1) {
                        Some(_) => {
                            let mut message = String::new();
                            push_str(&mut message, "application '");
                            push_str(&mut message, name.as_str());
                            push_str(
                                &mut message,
                                "' matches multiple PipeWire audio nodes \u{2014} select one from source discovery",
                            );
                            Err(CaptureError::BackendInit(message))
                        },
                        None => open_node(&nodes[k]),
                    }
                },
                None => {
                    let mut message = String::new();
                    push_str(
                        &mut message,
                        "BLOCKED_WITH_EVIDENCE: PipeWire per-app source capture requires PipeWire node enumeration and link; no node found for '",
                    );
                    push_str(&mut message, name.as_str());
                    push_str(&mut message, "'");
                    Err(CaptureError::BackendInit(message))
                },
            }
        },
        CaptureMode::InputDevice(selector) => {
            match selector {
                InputDeviceSelector::Default => {
                    let criterion = NodeCriterion::DefaultInput;
                    assert(criterion_fn(criterion) =~= |node: PipeWireDiscoveredNode|
                        node.source.stable_id@.kind == SourceKind::InputDevice);
                    match find_match(nodes, &criterion, 0) {
                        Some(k) => open_node(&nodes[k]),
                        None => Err(
                            CaptureError::BackendInit(
                                "requested default PipeWire input device is unavailable".to_owned(),
                            ),
                        ),
                    }
                },
                InputDeviceSelector::StableId(uid) => {
                    let criterion = NodeCriterion::InputWithUid(uid.as_str());
                    assert(criterion_fn(criterion) =~= |node: PipeWireDiscoveredNode|
                        node.source.stable_id@.kind == SourceKind::InputDevice && owned_text(
                            node.source.device_uid,
                        ) == Some(uid@));
                    match find_match(nodes, &criterion, 0) {
                        Some(k) => open_node(&nodes[k]),
                        None => Err(source_unavailable(uid.as_str())),
                    }
                },
            }
        },
        CaptureMode::SystemMix => Ok(LinuxCaptureTarget::PipeWireSystemMix),
    }
}


/// Message refusing ALSA's negotiated channel count.
pub open spec fn alsa_channel_count_text(channel_count: u32) -> Seq<char> {
    "ALSA negotiated "@ + decimal_digits(channel_count as nat) + " channels; expected "@
        + decimal_digits(CAPTURE_CHANNEL_COUNT as nat)
}

/// The sample rate an ALSA loopback capture runs at, from the parameters
/// ALSA reports it negotiated, or why the capture cannot use them: it must
/// capture stereo, as `f32` samples (`sample_format_name` names any other
/// format), at a non-zero rate.
pub fn alsa_negotiated_sample_rate(
    channel_count: u32,
    sample_format_is_f32: bool,
    sample_format_name: &str,
    sample_rate_hz: Option<u32>,
) -> (r: Result<u32, String>)
    ensures
        channel_count != CAPTURE_CHANNEL_COUNT ==> (r matches Err(message) && message@
            == alsa_channel_count_text(channel_count)),
        channel_count == CAPTURE_CHANNEL_COUNT && !sample_format_is_f32 ==> (r matches Err(message)
            && message@ == "ALSA negotiated unsupported sample format: "@ + sample_format_name@),
        channel_count == CAPTURE_CHANNEL_COUNT && sample_format_is_f32 ==> match sample_rate_hz {
            Some(rate) if rate > 0 => r == Ok::<u32, String>(rate),
            _ => r matches Err(message) && message@ == "ALSA negotiated an invalid sample rate"@,
        },
{
    if channel_count != CAPTURE_CHANNEL_COUNT as u32 {
        let mut message = String::new();
        push_str(&mut message, "ALSA negotiated ");
        push_decimal_u64(&mut message, channel_count as u64);
        push_str(&mut message, " channels; expected ");
        push_decimal_u64(&mut message, CAPTURE_CHANNEL_COUNT as u64);
        return Err(message);
    }
    if !sample_format_is_f32 {
        let mut message = String::new();
        push_str(&mut message, "ALSA negotiated unsupported sample format: ");
        push_str(&mut message, sample_format_name);
        return Err(message);
    }
    match sample_rate_hz {
        Some(rate) if rate > 0 => Ok(rate),
        _ => {
            let mut message = String::new();
            push_str(&mut message, "ALSA negotiated an invalid sample rate");
            Err(message)
        },
    }
}

/// What one blocking ALSA read returned.
#[derive(Clone, Copy, Debug, PartialEq, Eq, Structural)]
pub enum AlsaRead {
    /// The read returned no frames.
    NoFrames,
    /// The read failed.
    Failed,
    /// The read returned this many stereo frames.
    Frames(usize),
}

/// What the ALSA reader does after one read.
#[derive(Clone, Copy, Debug, PartialEq, Eq, Structural)]
pub enum AlsaReadStep {
    /// Wait briefly and read again.
    Idle,
    /// Count a stream error; when `report_failure`, also send the reader's
    /// one backend-failure event.
    StreamError { report_failure: bool },
    /// Deliver `sample_count` interleaved samples whose first frame starts at
    /// `timestamp_ns`.
    Deliver { sample_count: usize, timestamp_ns: u64 },
}

/// State of an ALSA loopback reader: its sample timeline, and whether its
/// backend-failure event is still to be sent.
#[derive(Debug)]
pub struct AlsaReaderState {
    sample_timeline: CaptureSampleTimeline,
    failure_pending: bool,
}

/// Abstract state of an ALSA loopback reader.
pub struct AlsaReaderView {
    pub timeline: CaptureSampleTimelineView,
    pub failure_pending: bool,
}

impl View for AlsaReaderState {
    type V = AlsaReaderView;

    closed spec fn view(&self) -> AlsaReaderView {
        AlsaReaderView { timeline: self.sample_timeline@, failure_pending: self.failure_pending }
    }
}

/// Step and next state of the reader after one read at `clock_now_ns`: an
/// empty read idles, a failed read reports the failure event the first time
/// only, and frames are stamped on the cumulative sample timeline.
pub open spec fn alsa_read_outcome(state: AlsaReaderView, read: AlsaRead, clock_now_ns: u64) -> (
    AlsaReadStep,
    AlsaReaderView,
) {
    match read {
        AlsaRead::NoFrames => (AlsaReadStep::Idle, state),
        AlsaRead::Failed => (
            AlsaReadStep::StreamError { report_failure: state.failure_pending },
            AlsaReaderView { failure_pending: false, ..state },
        ),
        AlsaRead::Frames(frames) => {
            let (timestamp_ns, timeline) = cumulative_advance(
                state.timeline,
                frames as u64,
                clock_now_ns,
            );
            (
                AlsaReadStep::Deliver { sample_count: (frames * 2) as usize, timestamp_ns },
                AlsaReaderView { timeline, ..state },
            )
        },
    }
}

impl AlsaReaderState {
    /// A reader at the negotiated rate, with a failure event to send when
    /// `reports_failures` (a runtime event sender is attached).
    pub fn new(sample_rate_hz: u32, reports_failures: bool) -> (r: Self)
        requires
            sample_rate_hz > 0,
        ensures
            r@ == (AlsaReaderView {
                timeline: fresh_timeline(sample_rate_hz),
                failure_pending: reports_failures,
            }),
    {
        AlsaReaderState {
            sample_timeline: CaptureSampleTimeline::new(sample_rate_hz),
            failure_pending: reports_failures,
        }
    }

    /// Decides what follows one read.
    pub fn observe_read(&mut self, read: AlsaRead, clock_now_ns: u64) -> (r: AlsaReadStep)
        requires
            read matches AlsaRead::Frames(frames) ==> frames * 2 <= usize::MAX,
        ensures
            (r, final(self)@) == alsa_read_outcome(old(self)@, read, clock_now_ns),
    {
        match read {
            AlsaRead::NoFrames => AlsaReadStep::Idle,
            AlsaRead::Failed => {
                let report_failure = self.failure_pending;
                self.failure_pending = false;
                AlsaReadStep::StreamError { report_failure }
            },
            AlsaRead::Frames(frames) => {
                let timestamp_ns = self.sample_timeline.advance(frames as u64, clock_now_ns);
                AlsaReadStep::Deliver { sample_count: frames * 2, timestamp_ns }
            },
        }
    }
}

/// An ALSA reader sends its backend-failure event at most once: after any
/// read that reports it, no later failed read reports it again.
pub proof fn lemma_alsa_failure_reported_once(
    state: AlsaReaderView,
    first: AlsaRead,
    first_now_ns: u64,
    second: AlsaRead,
    second_now_ns: u64,
)
    requires
        alsa_read_outcome(state, first, first_now_ns).0 == (AlsaReadStep::StreamError {
            report_failure: true,
        }),
    ensures
        !alsa_read_outcome(alsa_read_outcome(state, first, first_now_ns).1, second, second_now_ns).1.failure_pending,
        alsa_read_outcome(alsa_read_outcome(state, first, first_now_ns).1, second, second_now_ns).0
            != (AlsaReadStep::StreamError { report_failure: true }),
{
}


/// Hands a framed capture buffer to the dispatch ring and counts the
/// outcome: queued, or lost because the ring was full. Whether the ring has
/// room depends on the dispatcher thread; the frame joins the ring's
/// accepted frames exactly when it was queued.
pub fn enqueue_capture_frame<F>(
    producer: &mut FrameRingProducer<F>,
    frame: F,
    counters: &CaptureObservationCounters,
) -> (r: bool)
    ensures
        r <==> final(producer).spec_accepted() == old(producer).spec_accepted().push(frame),
        !r ==> final(producer).spec_accepted() == old(producer).spec_accepted(),
{
    let ghost before = producer.spec_accepted();
    assert(before.len() != before.push(frame).len());
    match producer.push(frame) {
        Ok(()) => {
            counters.observe_enqueued_frame();
            true
        },
        Err(_newest) => {
            counters.observe_dispatch_queue_full();
            false
        },
    }
}

/// A node chosen for an exact-application selector always carries the
/// selector's identity and, when a process is given, runs in that process.
pub proof fn lemma_selected_node_runs_in_process(
    nodes: Seq<PipeWireDiscoveredNode>,
    stable_id: StableSourceId,
    process_id: Option<u32>,
    from: int,
)
    requires
        0 <= from,
    ensures
        first_node(nodes, stable_id, process_id, from) matches Some(k) ==> {
            &&& from <= k < nodes.len()
            &&& nodes[k].source.stable_id@ == stable_id@
            &&& process_id matches Some(pid) ==> nodes[k].source.process_id == Some(pid)
        },
{
    lemma_first_node(nodes, stable_id, process_id, from);
}

proof fn lemma_no_node_in_process_from(
    nodes: Seq<PipeWireDiscoveredNode>,
    stable_id: StableSourceId,
    pid: u32,
    from: int,
    skip: int,
)
    requires
        0 <= from,
        forall|j: int|
            from <= j < nodes.len() && j != skip && (#[trigger] nodes[j]).source.stable_id@
                == stable_id@ ==> nodes[j].source.process_id != Some(pid),
    ensures
        skip < from ==> first_node(nodes, stable_id, Some(pid), from) is None,
        from <= skip < nodes.len() && nodes[skip].source.stable_id@ == stable_id@
            && nodes[skip].source.process_id == Some(pid) ==> first_node(
            nodes,
            stable_id,
            Some(pid),
            from,
        ) == Some(skip),
    decreases nodes.len() - from,
{
    if from < nodes.len() && from != skip {
        lemma_no_node_in_process_from(nodes, stable_id, pid, from + 1, skip);
    }
}

/// With a process id, an exact-application selector picks the one node of
/// that identity running in that process, however many other processes
/// carry the same identity: when exactly node `k` has the identity and the
/// process, it is the first and only match.
pub proof fn lemma_process_picks_its_own_node(
    nodes: Seq<PipeWireDiscoveredNode>,
    stable_id: StableSourceId,
    pid: u32,
    k: int,
)
    requires
        0 <= k < nodes.len(),
        nodes[k].source.stable_id@ == stable_id@,
        nodes[k].source.process_id == Some(pid),
        forall|j: int|
            0 <= j < nodes.len() && j != k && (#[trigger] nodes[j]).source.stable_id@
                == stable_id@ ==> nodes[j].source.process_id != Some(pid),
    ensures
        first_node(nodes, stable_id, Some(pid), 0) == Some(k),
        first_node(nodes, stable_id, Some(pid), k + 1) is None,
{
    lemma_no_node_in_process_from(nodes, stable_id, pid, 0, k);
    lemma_no_node_in_process_from(nodes, stable_id, pid, k + 1, k);
}
} // verus!
