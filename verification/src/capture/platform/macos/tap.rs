//! Decisions of the macOS Core Audio process-tap backend: discovery records,
//! application selection, exact-open audits, tap timing and tap errors.

use vstd::prelude::*;
use vstd::utf8::encode_utf8;

use crate::capture::authorization::CaptureError;
use crate::capture::identity::{CaptureSource, SourceKind, SourceState, StableSourceId};
use crate::capture::selection::CaptureMode;
use crate::capture::timeline::{spec_normalize, TimelineMapping};
use crate::frame::Platform;
use crate::text::{
    bytes_eq_ignore_ascii_case, decimal_text, eq_ignore_ascii_case, insert_sorted_unique,
    push_decimal_i64, push_str, strictly_increasing,
};

verus! {

/// Core Audio status `'!hog'`: the process tap was refused by permission.
pub const CORE_AUDIO_PERMISSION_DENIED_STATUS: i32 = 560492391i32;

/// One discovered source with the start time of its process, used to tell a
/// reused process id from the process that was selected.
#[derive(Debug)]
pub struct AuditedCaptureSource {
    pub source: CaptureSource,
    pub process_start_time_ns: u64,
}

/// The processes a selected application is captured from, sorted without
/// repeats, and its identity.
#[derive(Debug, PartialEq, Eq)]
pub struct ApplicationCaptureSelection {
    pub process_ids: Vec<i32>,
    pub stable_id: StableSourceId,
}

/// `source` is an application source named `application` by display name or
/// application id, ignoring ASCII case.
pub open spec fn matches_application(source: CaptureSource, application: Seq<char>) -> bool {
    source.stable_id.kind == SourceKind::Application && (bytes_eq_ignore_ascii_case(
        encode_utf8(source.name@),
        encode_utf8(application),
    ) || (source.app_id matches Some(app_id) && bytes_eq_ignore_ascii_case(
        encode_utf8(app_id@),
        encode_utf8(application),
    )))
}

/// Index of the first source matching `application` at or after `from`.
pub open spec fn first_match(sources: Seq<CaptureSource>, application: Seq<char>, from: int) -> Option<int>
    decreases sources.len() - from,
{
    if from < 0 || from >= sources.len() {
        None
    } else if matches_application(sources[from], application) {
        Some(from)
    } else {
        first_match(sources, application, from + 1)
    }
}

proof fn lemma_first_match(sources: Seq<CaptureSource>, application: Seq<char>, from: int)
    requires
        0 <= from,
    ensures
        first_match(sources, application, from) matches Some(k) ==> from <= k < sources.len()
            && matches_application(sources[k], application) && forall|j: int|
            from <= j < k ==> !matches_application(#[trigger] sources[j], application),
        first_match(sources, application, from) is None ==> forall|k: int|
            from <= k < sources.len() ==> !matches_application(#[trigger] sources[k], application),
    decreases sources.len() - from,
{
    if from < sources.len() && !matches_application(sources[from], application) {
        lemma_first_match(sources, application, from + 1);
    }
}

/// Text refusing an application nothing matches.
pub open spec fn no_source_text(application: Seq<char>) -> Seq<char> {
    "no running audio source found for application '"@ + application + "'"@
}

/// Text refusing an application several identities match.
pub open spec fn multiple_sources_text(application: Seq<char>) -> Seq<char> {
    "application '"@ + application
        + "' matches multiple running audio sources; select one from source discovery"@
}

/// Text refusing an application whose sources carry no process.
pub open spec fn no_process_text(application: Seq<char>) -> Seq<char> {
    "audio source for application '"@ + application + "' has no process identity"@
}

/// `x` is the process of `source`, taken as a signed process id.
pub open spec fn has_process(source: CaptureSource, x: i32) -> bool {
    match source.process_id {
        Some(p) => x == p as i32,
        None => false,
    }
}

/// `x` is the process of some source among `sources` picked by `picked`.
pub open spec fn is_picked_process(
    sources: Seq<CaptureSource>,
    picked: spec_fn(CaptureSource) -> bool,
    x: i32,
) -> bool {
    exists|j: int|
        0 <= j < sources.len() && picked(#[trigger] sources[j]) && has_process(sources[j], x)
}

/// The sources selecting `application` picks.
pub open spec fn application_picker(application: Seq<char>) -> spec_fn(CaptureSource) -> bool {
    |source: CaptureSource| matches_application(source, application)
}

/// Selects every running process of one application, named by display name
/// or application id. Matches of different identities are ambiguous and a
/// match without any process cannot be captured; both fail closed.
pub fn select_application_capture(sources: &[CaptureSource], application: &str) -> (r: Result<
    ApplicationCaptureSelection,
    CaptureError,
>)
    ensures
        match first_match(sources@, application@, 0) {
            None => r matches Err(CaptureError::BackendInit(message)) && message@ == no_source_text(
                application@,
            ),
            Some(k) => if exists|j: int|
                k < j < sources@.len() && matches_application(#[trigger] sources@[j], application@)
                    && sources@[j].stable_id@ != sources@[k].stable_id@ {
                r matches Err(CaptureError::BackendInit(message)) && message@
                    == multiple_sources_text(application@)
            } else if !(exists|x: i32|
                is_picked_process(sources@, application_picker(application@), x)) {
                r matches Err(CaptureError::BackendInit(message)) && message@ == no_process_text(
                    application@,
                )
            } else {
                r matches Ok(selection) && selection.stable_id == sources@[k].stable_id
                    && strictly_increasing(selection.process_ids@) && forall|x: i32|
                    #[trigger] selection.process_ids@.contains(x) <==> is_picked_process(
                        sources@,
                        application_picker(application@),
                        x,
                    )
            },
        },
{
    let ghost picked = application_picker(application@);
    proof {
        lemma_first_match(sources@, application@, 0);
    }
    let mut index: usize = 0;
    while index < sources.len()
        invariant_except_break
            index <= sources@.len(),
            first_match(sources@, application@, 0) == first_match(
                sources@,
                application@,
                index as int,
            ),
        ensures
            index <= sources@.len(),
            first_match(sources@, application@, 0) == first_match(
                sources@,
                application@,
                index as int,
            ),
            index < sources@.len() ==> matches_application(sources@[index as int], application@),
        decreases sources@.len() - index,
    {
        if application_matches(&sources[index], application) {
            break;
        }
        index = index + 1;
    }
    if index == sources.len() {
        let mut message = String::new();
        push_str(&mut message, "no running audio source found for application '");
        push_str(&mut message, application);
        push_str(&mut message, "'");
        return Err(CaptureError::BackendInit(message));
    }
    let first = index;
    assert(first_match(sources@, application@, 0) == Some(first as int));
    let mut process_ids: Vec<i32> = Vec::new();
    assert forall|x: i32| !is_picked_process(sources@.take(first as int), picked, x) by {
        if is_picked_process(sources@.take(first as int), picked, x) {
            let j = choose|j: int|
                0 <= j < sources@.take(first as int).len() && picked(
                    #[trigger] sources@.take(first as int)[j],
                ) && has_process(sources@.take(first as int)[j], x);
            assert(sources@.take(first as int)[j] == sources@[j]);
        }
    }
    let mut position = first;
    while position < sources.len()
        invariant
            first <= position <= sources@.len(),
            first < sources@.len(),
            picked == application_picker(application@),
            first_match(sources@, application@, 0) == Some(first as int),
            forall|j: int| 0 <= j < first ==> !matches_application(#[trigger] sources@[j], application@),
            forall|j: int|
                first < j < position ==> !(matches_application(#[trigger] sources@[j], application@)
                    && sources@[j].stable_id@ != sources@[first as int].stable_id@),
            strictly_increasing(process_ids@),
            forall|x: i32|
                #[trigger] process_ids@.contains(x) <==> is_picked_process(
                    sources@.take(position as int),
                    picked,
                    x,
                ),
        decreases sources@.len() - position,
    {
        let ghost before = process_ids@;
        if application_matches(&sources[position], application) {
            if !sources[position].stable_id.same_as(&sources[first].stable_id) {
                let mut message = String::new();
                push_str(&mut message, "application '");
                push_str(&mut message, application);
                push_str(
                    &mut message,
                    "' matches multiple running audio sources; select one from source discovery",
                );
                return Err(CaptureError::BackendInit(message));
            }
            if let Some(process_id) = sources[position].process_id {
                insert_sorted_unique(&mut process_ids, process_id as i32);
            }
        }
        proof {
            lemma_picked_prefix_step(sources@, picked, position as int);
        }
        position = position + 1;
    }
    proof {
        assert(sources@.take(sources@.len() as int) =~= sources@);
    }
    if process_ids.len() == 0 {
        proof {
            let x = choose|x: i32| is_picked_process(sources@, picked, x);
            if is_picked_process(sources@, picked, x) {
                assert(process_ids@.contains(x));
            }
        }
        let mut message = String::new();
        push_str(&mut message, "audio source for application '");
        push_str(&mut message, application);
        push_str(&mut message, "' has no process identity");
        return Err(CaptureError::BackendInit(message));
    }
    proof {
        assert(process_ids@.contains(process_ids@[0]));
    }
    Ok(ApplicationCaptureSelection { process_ids, stable_id: sources[first].stable_id.clone() })
}

/// What a picked prefix one longer adds: the process of its last source, if
/// that source is picked and has one.
proof fn lemma_picked_prefix_step(
    sources: Seq<CaptureSource>,
    picked: spec_fn(CaptureSource) -> bool,
    position: int,
)
    requires
        0 <= position < sources.len(),
    ensures
        forall|x: i32|
            #![trigger is_picked_process(sources.take(position + 1), picked, x)]
            is_picked_process(sources.take(position + 1), picked, x) <==> (is_picked_process(
                sources.take(position),
                picked,
                x,
            ) || (picked(sources[position]) && has_process(sources[position], x))),
{
    let longer = sources.take(position + 1);
    let shorter = sources.take(position);
    assert forall|x: i32|
        #![trigger is_picked_process(longer, picked, x)]
        is_picked_process(longer, picked, x) <==> (is_picked_process(shorter, picked, x) || (picked(
            sources[position],
        ) && has_process(sources[position], x))) by {
        if is_picked_process(longer, picked, x) {
            let j = choose|j: int|
                0 <= j < longer.len() && picked(#[trigger] longer[j]) && has_process(longer[j], x);
            if j < position {
                assert(shorter[j] == longer[j]);
            }
        }
        if is_picked_process(shorter, picked, x) {
            let j = choose|j: int|
                0 <= j < shorter.len() && picked(#[trigger] shorter[j]) && has_process(shorter[j], x);
            assert(longer[j] == shorter[j]);
        }
        if picked(sources[position]) && has_process(sources[position], x) {
            assert(longer[position] == sources[position]);
        }
    }
}

fn application_matches(source: &CaptureSource, application: &str) -> (r: bool)
    ensures
        r == matches_application(*source, application@),
{
    if source.stable_id.kind != SourceKind::Application {
        return false;
    }
    if eq_ignore_ascii_case(source.name.as_str(), application) {
        return true;
    }
    match &source.app_id {
        Some(app_id) => eq_ignore_ascii_case(app_id.as_str(), application),
        None => false,
    }
}

/// The sources carrying exactly `stable_id`.
pub open spec fn identity_picker(stable_id: StableSourceId) -> spec_fn(CaptureSource) -> bool {
    |source: CaptureSource| source.stable_id@ == stable_id@
}

/// Selects every running process carrying one exact macOS application
/// identity; a foreign identity or one without any live process fails closed.
pub fn select_stable_application_capture(
    sources: &[CaptureSource],
    stable_id: &StableSourceId,
) -> (r: Result<ApplicationCaptureSelection, CaptureError>)
    ensures
        if stable_id.platform != Platform::Macos || stable_id.kind != SourceKind::Application || !(
        exists|x: i32| is_picked_process(sources@, identity_picker(*stable_id), x)) {
            r == Err::<ApplicationCaptureSelection, CaptureError>(
                CaptureError::SourceUnavailable { stable_key: stable_id.stable_key },
            )
        } else {
            r matches Ok(selection) && selection.stable_id == *stable_id && strictly_increasing(
                selection.process_ids@,
            ) && forall|x: i32|
                #[trigger] selection.process_ids@.contains(x) <==> is_picked_process(
                    sources@,
                    identity_picker(*stable_id),
                    x,
                )
        },
{
    if stable_id.platform != Platform::Macos || stable_id.kind != SourceKind::Application {
        return Err(CaptureError::SourceUnavailable { stable_key: stable_id.stable_key.clone() });
    }
    let ghost picked = identity_picker(*stable_id);
    let mut process_ids: Vec<i32> = Vec::new();
    let mut position: usize = 0;
    proof {
        assert forall|x: i32| !is_picked_process(sources@.take(0), picked, x) by {}
    }
    while position < sources.len()
        invariant
            position <= sources@.len(),
            picked == identity_picker(*stable_id),
            strictly_increasing(process_ids@),
            forall|x: i32|
                #[trigger] process_ids@.contains(x) <==> is_picked_process(
                    sources@.take(position as int),
                    picked,
                    x,
                ),
        decreases sources@.len() - position,
    {
        if sources[position].stable_id.same_as(stable_id) {
            if let Some(process_id) = sources[position].process_id {
                insert_sorted_unique(&mut process_ids, process_id as i32);
            }
        }
        proof {
            lemma_picked_prefix_step(sources@, picked, position as int);
        }
        position = position + 1;
    }
    proof {
        assert(sources@.take(sources@.len() as int) =~= sources@);
    }
    if process_ids.len() == 0 {
        proof {
            if exists|x: i32| is_picked_process(sources@, picked, x) {
                let x = choose|x: i32| is_picked_process(sources@, picked, x);
                assert(process_ids@.contains(x));
            }
        }
        return Err(CaptureError::SourceUnavailable { stable_key: stable_id.stable_key.clone() });
    }
    proof {
        assert(process_ids@.contains(process_ids@[0]));
    }
    Ok(ApplicationCaptureSelection { process_ids, stable_id: stable_id.clone() })
}

/// Evidence captured when an exact application process was opened: the
/// process, its identity and its start time.
#[derive(Clone, Debug, PartialEq, Eq)]
pub struct ExactApplicationOpenAudit {
    pub process_id: u32,
    pub stable_id: StableSourceId,
    pub process_start_time_ns: u64,
}

/// `audited` is the selected application's process with a known start time.
pub open spec fn audits_target(
    audited: AuditedCaptureSource,
    process_id: u32,
    stable_id: StableSourceId,
) -> bool {
    &&& audited.process_start_time_ns != 0
    &&& audited.source.process_id == Some(process_id)
    &&& audited.source.stable_id@ == stable_id@
    &&& audited.source.stable_id.kind == SourceKind::Application
}

/// Index of the first audited source of the target at or after `from`.
pub open spec fn first_audited(
    sources: Seq<AuditedCaptureSource>,
    process_id: u32,
    stable_id: StableSourceId,
    from: int,
) -> Option<int>
    decreases sources.len() - from,
{
    if from < 0 || from >= sources.len() {
        None
    } else if audits_target(sources[from], process_id, stable_id) {
        Some(from)
    } else {
        first_audited(sources, process_id, stable_id, from + 1)
    }
}

proof fn lemma_first_audited(
    sources: Seq<AuditedCaptureSource>,
    process_id: u32,
    stable_id: StableSourceId,
    from: int,
)
    requires
        0 <= from,
    ensures
        first_audited(sources, process_id, stable_id, from) matches Some(k) ==> from <= k
            < sources.len() && audits_target(sources[k], process_id, stable_id),
    decreases sources.len() - from,
{
    if from < sources.len() && !audits_target(sources[from], process_id, stable_id) {
        lemma_first_audited(sources, process_id, stable_id, from + 1);
    }
}

/// Audits the discovered sources for the exact process of the selected
/// application. A reused process id under another identity, or a process
/// whose start time is unknown, yields no audit, so the exact open fails
/// closed.
pub fn exact_application_open_audit(
    sources: &[AuditedCaptureSource],
    process_id: u32,
    stable_id: &StableSourceId,
) -> (r: Option<ExactApplicationOpenAudit>)
    ensures
        match first_audited(sources@, process_id, *stable_id, 0) {
            Some(k) => r == Some(
                ExactApplicationOpenAudit {
                    process_id,
                    stable_id: *stable_id,
                    process_start_time_ns: sources@[k].process_start_time_ns,
                },
            ),
            None => r is None,
        },
{
    proof {
        lemma_first_audited(sources@, process_id, *stable_id, 0);
    }
    let mut index: usize = 0;
    while index < sources.len()
        invariant
            index <= sources@.len(),
            first_audited(sources@, process_id, *stable_id, 0) == first_audited(
                sources@,
                process_id,
                *stable_id,
                index as int,
            ),
        decreases sources@.len() - index,
    {
        let audited = &sources[index];
        let same_process = match audited.source.process_id {
            Some(candidate) => candidate == process_id,
            None => false,
        };
        if audited.process_start_time_ns != 0 && same_process && audited.source.stable_id.same_as(
            stable_id,
        ) && audited.source.stable_id.kind == SourceKind::Application {
            return Some(
                ExactApplicationOpenAudit {
                    process_id,
                    stable_id: stable_id.clone(),
                    process_start_time_ns: audited.process_start_time_ns,
                },
            );
        }
        index = index + 1;
    }
    None
}

/// One read from a process tap: how many frames, where they start in the
/// tap's sample-frame timeline, and the native anchor relating that timeline
/// to host time.
#[derive(Clone, Copy, Debug, PartialEq, Eq, Structural)]
pub struct ProcessTapReadBatch {
    pub frame_count: u32,
    pub source_frame_position_frames: u64,
    pub anchor_frame_position_frames: u64,
    pub anchor_host_time_ns: u64,
}

/// `numerator / denominator` rounded toward zero.
pub open spec fn truncating_div(numerator: int, denominator: int) -> int {
    if numerator >= 0 {
        numerator / denominator
    } else {
        -((-numerator) / denominator)
    }
}

/// Host time of a read's first frame: the anchor's host time moved by the
/// frames between the anchor and the read, in whole nanoseconds rounded
/// toward the anchor; none for an empty read, an unanchored tap, or a time
/// that is not a representable non-zero timestamp.
pub open spec fn spec_source_host_timestamp_ns(batch: ProcessTapReadBatch, sample_rate_hz: u32) -> Option<u64> {
    if batch.frame_count == 0 || batch.anchor_host_time_ns == 0 || sample_rate_hz == 0 {
        None
    } else {
        let delta = batch.source_frame_position_frames - batch.anchor_frame_position_frames;
        let timestamp = batch.anchor_host_time_ns + truncating_div(
            delta * 1_000_000_000,
            sample_rate_hz as int,
        );
        if 0 < timestamp <= u64::MAX {
            Some(timestamp as u64)
        } else {
            None
        }
    }
}

/// The host time of a read's first frame.
pub fn source_host_timestamp_ns(batch: ProcessTapReadBatch, sample_rate_hz: u32) -> (r: Option<u64>)
    ensures
        r == spec_source_host_timestamp_ns(batch, sample_rate_hz),
{
    if batch.frame_count == 0 || batch.anchor_host_time_ns == 0 || sample_rate_hz == 0 {
        return None;
    }
    let anchor = batch.anchor_host_time_ns as u128;
    let rate = sample_rate_hz as u128;
    if batch.source_frame_position_frames >= batch.anchor_frame_position_frames {
        let delta = (batch.source_frame_position_frames - batch.anchor_frame_position_frames) as u128;
        assert(delta * 1_000_000_000 <= u64::MAX * 1_000_000_000) by (nonlinear_arith)
            requires
                delta <= u64::MAX,
        ;
        let offset = delta * 1_000_000_000 / rate;
        assert(offset <= delta * 1_000_000_000) by {
            vstd::arithmetic::div_mod::lemma_div_is_ordered_by_denominator(
                (delta * 1_000_000_000) as int,
                1,
                rate as int,
            );
        }
        let timestamp = anchor + offset;
        if timestamp > u64::MAX as u128 {
            None
        } else {
            Some(timestamp as u64)
        }
    } else {
        let delta = (batch.anchor_frame_position_frames - batch.source_frame_position_frames) as u128;
        assert(delta * 1_000_000_000 <= u64::MAX * 1_000_000_000) by (nonlinear_arith)
            requires
                delta <= u64::MAX,
        ;
        let offset = delta * 1_000_000_000 / rate;
        if offset >= anchor {
            None
        } else {
            Some((anchor - offset) as u64)
        }
    }
}

/// The process-clock time of a read's first frame.
pub fn process_timestamp_ns(
    batch: ProcessTapReadBatch,
    sample_rate_hz: u32,
    host_to_process: TimelineMapping,
) -> (r: Option<u64>)
    ensures
        r == match spec_source_host_timestamp_ns(batch, sample_rate_hz) {
            Some(host) => spec_normalize(host_to_process, host),
            None => None,
        },
{
    match source_host_timestamp_ns(batch, sample_rate_hz) {
        Some(host) => host_to_process.normalize_timestamp_ns(host),
        None => None,
    }
}

/// What the tap was doing at each native stage code.
pub open spec fn spec_tap_operation(stage_code: u8) -> Seq<char> {
    if stage_code == 1 {
        "resolving the selected process"@
    } else if stage_code == 2 {
        "creating the CoreAudio process tap"@
    } else if stage_code == 3 {
        "reading the CoreAudio process tap identifier"@
    } else if stage_code == 4 {
        "creating the CoreAudio aggregate device"@
    } else if stage_code == 5 {
        "allocating the CoreAudio process tap handle"@
    } else if stage_code == 6 {
        "creating the CoreAudio device callback"@
    } else if stage_code == 7 {
        "starting the CoreAudio aggregate device"@
    } else if stage_code == 8 {
        "checking CoreAudio process tap platform support"@
    } else {
        "opening the CoreAudio process tap"@
    }
}

/// Names the operation a native stage code stands for.
pub fn tap_operation(stage_code: u8) -> (r: &'static str)
    ensures
        r@ == spec_tap_operation(stage_code),
{
    match stage_code {
        1 => "resolving the selected process",
        2 => "creating the CoreAudio process tap",
        3 => "reading the CoreAudio process tap identifier",
        4 => "creating the CoreAudio aggregate device",
        5 => "allocating the CoreAudio process tap handle",
        6 => "creating the CoreAudio device callback",
        7 => "starting the CoreAudio aggregate device",
        8 => "checking CoreAudio process tap platform support",
        _ => "opening the CoreAudio process tap",
    }
}

/// The typed error of a failed tap stage: a permission refusal stays a
/// permission error; any other status is kept exactly.
pub fn tap_error(status_code: i32, stage_code: u8) -> (r: CaptureError)
    ensures
        status_code == CORE_AUDIO_PERMISSION_DENIED_STATUS ==> (r matches CaptureError::PermissionDenied {
            operation,
        } && operation@ == spec_tap_operation(stage_code)),
        status_code != CORE_AUDIO_PERMISSION_DENIED_STATUS ==> (r matches CaptureError::BackendStatus {
            operation,
            status_code: code,
        } && operation@ == spec_tap_operation(stage_code) && code == status_code),
{
    let operation = tap_operation(stage_code);
    if status_code == CORE_AUDIO_PERMISSION_DENIED_STATUS {
        CaptureError::PermissionDenied { operation }
    } else {
        CaptureError::BackendStatus { operation, status_code }
    }
}

/// The identity a tap capture of `mode` carries; microphone modes are not
/// captured by a tap.
pub fn stable_source_id(mode: &CaptureMode) -> (r: Result<StableSourceId, CaptureError>)
    ensures
        match *mode {
            CaptureMode::SystemMix => r matches Ok(id) && id@.platform == Platform::Macos
                && id@.kind == SourceKind::SystemMix && id@.stable_key == "system:mix"@,
            CaptureMode::Process(process_id) => r matches Ok(id) && id@.platform == Platform::Macos
                && id@.kind == SourceKind::Application && id@.stable_key == "pid:"@ + decimal_text(
                process_id as int,
            ),
            CaptureMode::ExactApplication { stable_id, .. } => r == Ok::<StableSourceId, CaptureError>(
                stable_id,
            ),
            CaptureMode::ExactApplicationStable { stable_id } => r == Ok::<
                StableSourceId,
                CaptureError,
            >(stable_id),
            CaptureMode::Application(bundle_id) => r matches Ok(id) && id@.platform
                == Platform::Macos && id@.kind == SourceKind::Application && id.stable_key
                == bundle_id,
            CaptureMode::InputDevice(_) => r == Err::<StableSourceId, CaptureError>(
                CaptureError::ModeUnsupported(*mode),
            ),
        },
{
    match mode {
        CaptureMode::SystemMix => Ok(
            StableSourceId::new(Platform::Macos, SourceKind::SystemMix, "system:mix".to_owned()),
        ),
        CaptureMode::Process(process_id) => {
            let mut key = String::new();
            push_str(&mut key, "pid:");
            push_decimal_i64(&mut key, *process_id as i64);
            Ok(StableSourceId::new(Platform::Macos, SourceKind::Application, key))
        },
        CaptureMode::ExactApplication { stable_id, .. } => Ok(stable_id.clone()),
        CaptureMode::ExactApplicationStable { stable_id } => Ok(stable_id.clone()),
        CaptureMode::Application(bundle_id) => Ok(
            StableSourceId::new(Platform::Macos, SourceKind::Application, bundle_id.clone()),
        ),
        CaptureMode::InputDevice(_) => Err(CaptureError::ModeUnsupported(mode.clone())),
    }
}

/// One source record as the native discovery call wrote it; the identity
/// and name fields are the fixed-size, NUL-terminated byte buffers.
#[derive(Clone, Debug)]
pub struct RawSourceInfo {
    pub audio_object_id: u32,
    pub process_id: i32,
    pub bundle_id: Vec<u8>,
    pub name: Vec<u8>,
    pub source_kind_code: u8,
    pub source_state_code: u8,
    pub sample_rate_hz: u32,
    pub channel_count: u16,
    pub process_start_time_ns: u64,
}

/// Text of a byte string decoded as UTF-8 with invalid sequences replaced,
/// as `String::from_utf8_lossy` decodes it.
pub uninterp spec fn lossy_utf8_text(bytes: Seq<u8>) -> Seq<char>;

/// Calls `String::from_utf8_lossy` and takes ownership of the text.
#[verifier::external_body]
fn lossy_text(bytes: &[u8]) -> (r: String)
    ensures
        r@ == lossy_utf8_text(bytes@),
{
    String::from_utf8_lossy(bytes).into_owned()
}

/// Index of the first NUL byte of `buffer`, or its length.
pub open spec fn first_nul(buffer: Seq<u8>, from: int) -> int
    decreases buffer.len() - from,
{
    if from < 0 || from >= buffer.len() {
        buffer.len() as int
    } else if buffer[from] == 0 {
        from
    } else {
        first_nul(buffer, from + 1)
    }
}

/// The text of a NUL-terminated buffer, none when it is empty.
pub open spec fn c_text(buffer: Seq<u8>) -> Option<Seq<char>> {
    let end = first_nul(buffer, 0);
    if end == 0 {
        None
    } else {
        Some(lossy_utf8_text(buffer.take(end)))
    }
}

proof fn lemma_first_nul(buffer: Seq<u8>, from: int)
    requires
        0 <= from <= buffer.len(),
    ensures
        from <= first_nul(buffer, from) <= buffer.len(),
    decreases buffer.len() - from,
{
    if from < buffer.len() && buffer[from] != 0 {
        lemma_first_nul(buffer, from + 1);
    }
}

/// Decodes the text of a NUL-terminated buffer.
pub fn cstr_to_string(buffer: &[u8]) -> (r: Option<String>)
    ensures
        match c_text(buffer@) {
            Some(text) => r matches Some(s) && s@ == text,
            None => r is None,
        },
{
    proof {
        lemma_first_nul(buffer@, 0);
    }
    let mut end: usize = 0;
    let mut prefix: Vec<u8> = Vec::new();
    while end < buffer.len()
        invariant_except_break
            end <= buffer@.len(),
            first_nul(buffer@, 0) == first_nul(buffer@, end as int),
            prefix@ == buffer@.take(end as int),
        ensures
            end <= buffer@.len(),
            first_nul(buffer@, 0) == end,
            prefix@ == buffer@.take(end as int),
        decreases buffer@.len() - end,
    {
        if buffer[end] == 0 {
            break;
        }
        prefix.push(buffer[end]);
        assert(prefix@ =~= buffer@.take(end + 1));
        end = end + 1;
    }
    if end == 0 {
        return None;
    }
    Some(lossy_text(prefix.as_slice()))
}

/// Kind of a native source code.
pub open spec fn kind_of_code(code: u8) -> SourceKind {
    if code == 1 {
        SourceKind::InputDevice
    } else if code == 2 {
        SourceKind::OutputDevice
    } else if code == 3 {
        SourceKind::SystemMix
    } else {
        SourceKind::Application
    }
}

/// State of a native source state code.
pub open spec fn state_of_code(code: u8) -> SourceState {
    if code == 1 {
        SourceState::Playing
    } else if code == 2 {
        SourceState::Silent
    } else if code == 3 {
        SourceState::Unavailable
    } else {
        SourceState::Available
    }
}

/// Text `pid:{process_id}` naming a source by its native process id.
pub open spec fn pid_text(process_id: i32) -> Seq<char> {
    "pid:"@ + decimal_text(process_id as int)
}

/// The audited source a native discovery record describes: its bundle id,
/// when present, is its stable key (and its application id or device uid);
/// otherwise devices are keyed by object id and everything else by process.
pub open spec fn audited_matches_raw(audited: AuditedCaptureSource, raw: RawSourceInfo) -> bool {
    let kind = kind_of_code(raw.source_kind_code);
    let native = c_text(raw.bundle_id@);
    let device = kind == SourceKind::InputDevice || kind == SourceKind::OutputDevice;
    let source = audited.source;
    &&& source.stable_id@.platform == Platform::Macos
    &&& source.stable_id@.kind == kind
    &&& source.stable_id@.stable_key == match native {
        Some(identity) => identity,
        None => if device {
            "coreaudio-object:"@ + decimal_text(raw.audio_object_id as int)
        } else {
            pid_text(raw.process_id)
        },
    }
    &&& source.name@ == match c_text(raw.name@) {
        Some(name) => name,
        None => pid_text(raw.process_id),
    }
    &&& source.process_id == if raw.process_id > 0 {
        Some(raw.process_id as u32)
    } else {
        None::<u32>
    }
    &&& (match source.app_id {
        Some(app_id) => kind == SourceKind::Application && native == Some(app_id@),
        None => kind != SourceKind::Application || native is None,
    })
    &&& (match source.device_uid {
        Some(uid) => device && native == Some(uid@),
        None => !device || native is None,
    })
    &&& source.state == state_of_code(raw.source_state_code)
    &&& source.sample_rate_hz == raw.sample_rate_hz
    &&& source.channels == raw.channel_count
    &&& audited.process_start_time_ns == raw.process_start_time_ns
}

fn pid_key(process_id: i32) -> (r: String)
    ensures
        r@ == pid_text(process_id),
{
    let mut key = String::new();
    push_str(&mut key, "pid:");
    push_decimal_i64(&mut key, process_id as i64);
    key
}

/// Describes one native discovery record as an audited capture source.
pub fn audited_source(raw: &RawSourceInfo) -> (r: AuditedCaptureSource)
    ensures
        audited_matches_raw(r, *raw),
{
    let process_id = if raw.process_id > 0 {
        Some(raw.process_id as u32)
    } else {
        None
    };
    let kind = match raw.source_kind_code {
        1 => SourceKind::InputDevice,
        2 => SourceKind::OutputDevice,
        3 => SourceKind::SystemMix,
        _ => SourceKind::Application,
    };
    let device = match kind {
        SourceKind::InputDevice | SourceKind::OutputDevice => true,
        _ => false,
    };
    let native_for_key = cstr_to_string(raw.bundle_id.as_slice());
    let native_for_app = cstr_to_string(raw.bundle_id.as_slice());
    let native_for_device = cstr_to_string(raw.bundle_id.as_slice());
    let stable_key = match native_for_key {
        Some(identity) => identity,
        None => if device {
            let mut key = String::new();
            push_str(&mut key, "coreaudio-object:");
            push_decimal_i64(&mut key, raw.audio_object_id as i64);
            key
        } else {
            pid_key(raw.process_id)
        },
    };
    let app_id = if kind == SourceKind::Application {
        native_for_app
    } else {
        None
    };
    let device_uid = if device {
        native_for_device
    } else {
        None
    };
    let name = match cstr_to_string(raw.name.as_slice()) {
        Some(name) => name,
        None => pid_key(raw.process_id),
    };
    let state = match raw.source_state_code {
        1 => SourceState::Playing,
        2 => SourceState::Silent,
        3 => SourceState::Unavailable,
        _ => SourceState::Available,
    };
    AuditedCaptureSource {
        source: CaptureSource {
            stable_id: StableSourceId::new(Platform::Macos, kind, stable_key),
            name,
            process_id,
            app_id,
            device_uid,
            state,
            sample_rate_hz: raw.sample_rate_hz,
            channels: raw.channel_count,
        },
        process_start_time_ns: raw.process_start_time_ns,
    }
}

/// Describes every native discovery record as an audited source, in order.
pub fn audited_sources(raw: &[RawSourceInfo]) -> (r: Vec<AuditedCaptureSource>)
    ensures
        r@.len() == raw@.len(),
        forall|i: int| 0 <= i < raw@.len() ==> audited_matches_raw(#[trigger] r@[i], raw@[i]),
{
    let mut sources: Vec<AuditedCaptureSource> = Vec::new();
    let mut index: usize = 0;
    while index < raw.len()
        invariant
            index <= raw@.len(),
            sources@.len() == index,
            forall|i: int| 0 <= i < index ==> audited_matches_raw(#[trigger] sources@[i], raw@[i]),
        decreases raw@.len() - index,
    {
        sources.push(audited_source(&raw[index]));
        index = index + 1;
    }
    sources
}

/// The capture source a native discovery record describes.
pub open spec fn source_matches_raw(source: CaptureSource, raw: RawSourceInfo) -> bool {
    audited_matches_raw(
        AuditedCaptureSource { source, process_start_time_ns: raw.process_start_time_ns },
        raw,
    )
}

/// The capture sources native discovery reported, in order.
pub fn discover_sources_native(raw: &[RawSourceInfo]) -> (r: Vec<CaptureSource>)
    ensures
        r@.len() == raw@.len(),
        forall|i: int| 0 <= i < raw@.len() ==> source_matches_raw(#[trigger] r@[i], raw@[i]),
{
    let mut sources: Vec<CaptureSource> = Vec::new();
    let mut index: usize = 0;
    while index < raw.len()
        invariant
            index <= raw@.len(),
            sources@.len() == index,
            forall|i: int| 0 <= i < index ==> source_matches_raw(#[trigger] sources@[i], raw@[i]),
        decreases raw@.len() - index,
    {
        let audited = audited_source(&raw[index]);
        sources.push(audited.source);
        index = index + 1;
    }
    sources
}


/// The mapping from the Core Audio host clock to the process clock read
/// through host readings taken just before and after a process reading: the
/// midpoint of the host readings corresponds to the process reading. None
/// when the host clock gave no reading or ran backward.
pub open spec fn spec_host_to_process(host_before_ns: u64, process_ns: u64, host_after_ns: u64) -> Option<
    TimelineMapping,
> {
    if host_before_ns == 0 || host_after_ns < host_before_ns {
        None
    } else {
        let midpoint = host_before_ns + (host_after_ns - host_before_ns) / 2;
        Some(TimelineMapping { source_origin_ns: midpoint as u64, target_origin_ns: process_ns })
    }
}

/// Builds the host-to-process clock mapping of a tap from its readings.
pub fn host_to_process_mapping(host_before_ns: u64, process_ns: u64, host_after_ns: u64) -> (r: Result<
    TimelineMapping,
    CaptureError,
>)
    ensures
        match spec_host_to_process(host_before_ns, process_ns, host_after_ns) {
            Some(mapping) => r == Ok::<TimelineMapping, CaptureError>(mapping),
            None => r matches Err(CaptureError::BackendInit(message)) && message@
                == "CoreAudio host-time mapping is unavailable"@,
        },
{
    if host_before_ns == 0 || host_after_ns < host_before_ns {
        return Err(CaptureError::BackendInit("CoreAudio host-time mapping is unavailable".to_owned()));
    }
    let midpoint = host_before_ns + (host_after_ns - host_before_ns) / 2;
    Ok(TimelineMapping::new(midpoint, process_ns))
}

/// How a tap reader sizes its reads: 20 ms of frames per read and the
/// samples that many frames hold.
#[derive(Debug, Clone, Copy, PartialEq, Eq, Structural)]
pub struct TapReadPlan {
    pub sample_rate_hz: u32,
    pub channel_count: u8,
    pub callback_frame_count: u32,
    pub buffer_capacity_samples: usize,
}

/// Sizes a tap reader for the rate and channels the tap reports; a zero rate
/// is refused. The channel count is kept in its low eight bits.
pub fn tap_read_plan(sample_rate_hz: u32, reported_channel_count: u32) -> (r: Result<
    TapReadPlan,
    CaptureError,
>)
    requires
        (sample_rate_hz / 50) * (reported_channel_count % 256) <= usize::MAX,
    ensures
        sample_rate_hz == 0 ==> (r matches Err(CaptureError::BackendInit(message)) && message@
            == "tap reported a zero sample rate"@),
        sample_rate_hz != 0 ==> r == Ok::<TapReadPlan, CaptureError>(
            TapReadPlan {
                sample_rate_hz,
                channel_count: (reported_channel_count % 256) as u8,
                callback_frame_count: sample_rate_hz / 50,
                buffer_capacity_samples: ((sample_rate_hz / 50) * (reported_channel_count % 256)) as usize,
            },
        ),
{
    if sample_rate_hz == 0 {
        return Err(CaptureError::BackendInit("tap reported a zero sample rate".to_owned()));
    }
    let channel_count = (reported_channel_count % 256) as u8;
    let callback_frame_count: u32 = sample_rate_hz / 50;
    assert(callback_frame_count * channel_count <= 85_899_345 * 255) by (nonlinear_arith)
        requires
            callback_frame_count <= 85_899_345,
            channel_count <= 255,
    ;
    let buffer_capacity_samples: u64 = (callback_frame_count as u64) * (channel_count as u64);
    Ok(
        TapReadPlan {
            sample_rate_hz,
            channel_count,
            callback_frame_count,
            buffer_capacity_samples: buffer_capacity_samples as usize,
        },
    )
}

} // verus!
