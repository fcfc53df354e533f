//! Resolution of an application or process selector to one exact WASAPI
//! process instance. Ambiguity and missing identity fail closed.

use vstd::prelude::*;
use vstd::utf8::encode_utf8;

use crate::capture::authorization::CaptureError;
use crate::capture::identity::{
    derived_source_id, CaptureSource, SourceKind, StableSourceId, StableSourceIdView,
};
use crate::capture::platform::windows::process_identity::{
    fingerprint_key, ProcessInstanceFingerprint,
};
use crate::capture::selection::{CaptureMode, InputDeviceSelector};
use crate::frame::{Platform, SourceId};
use crate::text::{
    bytes_eq_ignore_ascii_case, decimal_digits, eq_ignore_ascii_case, push_decimal_u64, push_str,
};

verus! {

/// `source` is an application source of process `process_id`.
pub open spec fn is_process_candidate(source: CaptureSource, process_id: u32) -> bool {
    source.stable_id.kind == SourceKind::Application && source.process_id == Some(process_id)
}

/// Index of the first application source of `process_id` at or after `from`.
pub open spec fn first_process_candidate(sources: Seq<CaptureSource>, process_id: u32, from: int) -> Option<int>
    decreases sources.len() - from,
{
    if from < 0 || from >= sources.len() {
        None
    } else if is_process_candidate(sources[from], process_id) {
        Some(from)
    } else {
        first_process_candidate(sources, process_id, from + 1)
    }
}

/// Some later candidate names another identity than candidate `first`.
pub open spec fn process_ambiguous(sources: Seq<CaptureSource>, process_id: u32, first: int) -> bool {
    exists|j: int|
        first < j < sources.len() && is_process_candidate(#[trigger] sources[j], process_id)
            && sources[j].stable_id@ != sources[first].stable_id@
}

/// Text naming a process that has no source: `wasapi:pid:{process_id}`.
pub open spec fn missing_process_key(process_id: u32) -> Seq<char> {
    "wasapi:pid:"@ + decimal_digits(process_id as nat)
}

/// Text refusing a process with more than one source identity.
pub open spec fn ambiguous_process_text(process_id: u32) -> Seq<char> {
    "process '"@ + decimal_digits(process_id as nat) + "' exposes more than one audio source identity"@
}

proof fn lemma_first_process_candidate(sources: Seq<CaptureSource>, process_id: u32, from: int)
    requires
        0 <= from,
    ensures
        first_process_candidate(sources, process_id, from) matches Some(k) ==> from <= k
            < sources.len() && is_process_candidate(sources[k], process_id),
        first_process_candidate(sources, process_id, from) is None ==> forall|k: int|
            from <= k < sources.len() ==> !is_process_candidate(#[trigger] sources[k], process_id),
    decreases sources.len() - from,
{
    if from < sources.len() && !is_process_candidate(sources[from], process_id) {
        lemma_first_process_candidate(sources, process_id, from + 1);
    }
}

/// The identity of the one application source of a process, or why there
/// is none.
pub fn select_process_source(sources: &[CaptureSource], process_id: u32) -> (r: Result<
    StableSourceId,
    CaptureError,
>)
    ensures
        match first_process_candidate(sources@, process_id, 0) {
            None => r matches Err(CaptureError::SourceUnavailable { stable_key }) && stable_key@
                == missing_process_key(process_id),
            Some(k) => if process_ambiguous(sources@, process_id, k) {
                r matches Err(CaptureError::BackendInit(message)) && message@
                    == ambiguous_process_text(process_id)
            } else {
                r == Ok::<StableSourceId, CaptureError>(sources@[k].stable_id)
            },
        },
{
    proof {
        lemma_first_process_candidate(sources@, process_id, 0);
    }
    let mut index: usize = 0;
    while index < sources.len()
        invariant_except_break
            index <= sources@.len(),
            first_process_candidate(sources@, process_id, 0) == first_process_candidate(
                sources@,
                process_id,
                index as int,
            ),
        ensures
            index <= sources@.len(),
            first_process_candidate(sources@, process_id, 0) == first_process_candidate(
                sources@,
                process_id,
                index as int,
            ),
            index < sources@.len() ==> is_process_candidate(sources@[index as int], process_id),
        decreases sources@.len() - index,
    {
        if sources[index].stable_id.kind == SourceKind::Application && sources[index].process_id
            == Some(process_id) {
            break;
        }
        index = index + 1;
    }
    if index == sources.len() {
        let mut key = String::new();
        push_str(&mut key, "wasapi:pid:");
        push_decimal_u64(&mut key, process_id as u64);
        return Err(CaptureError::SourceUnavailable { stable_key: key });
    }
    let first = index;
    assert(first_process_candidate(sources@, process_id, 0) == Some(first as int));
    let mut later = first + 1;
    while later < sources.len()
        invariant
            first < later <= sources@.len(),
            first_process_candidate(sources@, process_id, 0) == Some(first as int),
            forall|j: int|
                first < j < later ==> !(is_process_candidate(#[trigger] sources@[j], process_id)
                    && sources@[j].stable_id@ != sources@[first as int].stable_id@),
        decreases sources@.len() - later,
    {
        if sources[later].stable_id.kind == SourceKind::Application && sources[later].process_id
            == Some(process_id) && !sources[later].stable_id.same_as(&sources[first].stable_id) {
            let mut message = String::new();
            push_str(&mut message, "process '");
            push_decimal_u64(&mut message, process_id as u64);
            push_str(&mut message, "' exposes more than one audio source identity");
            return Err(CaptureError::BackendInit(message));
        }
        later = later + 1;
    }
    Ok(sources[first].stable_id.clone())
}

/// `source` matches an application name, ignoring ASCII case, by display
/// name or application id.
pub open spec fn is_application_candidate(source: CaptureSource, name: Seq<char>) -> bool {
    bytes_eq_ignore_ascii_case(encode_utf8(source.name@), encode_utf8(name)) || (source.app_id matches Some(
        app_id,
    ) && bytes_eq_ignore_ascii_case(encode_utf8(app_id@), encode_utf8(name)))
}

/// Index of the first source matching an application name at or after `from`.
pub open spec fn first_application_candidate(sources: Seq<CaptureSource>, name: Seq<char>, from: int) -> Option<int>
    decreases sources.len() - from,
{
    if from < 0 || from >= sources.len() {
        None
    } else if is_application_candidate(sources[from], name) {
        Some(from)
    } else {
        first_application_candidate(sources, name, from + 1)
    }
}

/// Some later match names another identity than match `first`.
pub open spec fn application_ambiguous(sources: Seq<CaptureSource>, name: Seq<char>, first: int) -> bool {
    exists|j: int|
        first < j < sources.len() && is_application_candidate(#[trigger] sources[j], name)
            && sources[j].stable_id@ != sources[first].stable_id@
}

/// Text refusing an application name nothing matches.
pub open spec fn no_application_text(name: Seq<char>) -> Seq<char> {
    "no running audio source matches application '"@ + name + "'"@
}

/// Text refusing an application name several identities match.
pub open spec fn ambiguous_application_text(name: Seq<char>) -> Seq<char> {
    "application '"@ + name
        + "' matches multiple audio sessions \u{2014} select one from source discovery"@
}

/// Text refusing an application source without a process.
pub open spec fn no_process_identity_text(name: Seq<char>) -> Seq<char> {
    "audio source for application '"@ + name + "' has no process identity"@
}

proof fn lemma_first_application_candidate(sources: Seq<CaptureSource>, name: Seq<char>, from: int)
    requires
        0 <= from,
    ensures
        first_application_candidate(sources, name, from) matches Some(k) ==> from <= k
            < sources.len() && is_application_candidate(sources[k], name),
    decreases sources.len() - from,
{
    if from < sources.len() && !is_application_candidate(sources[from], name) {
        lemma_first_application_candidate(sources, name, from + 1);
    }
}

fn application_candidate(source: &CaptureSource, name: &str) -> (r: bool)
    ensures
        r == is_application_candidate(*source, name@),
{
    if eq_ignore_ascii_case(source.name.as_str(), name) {
        return true;
    }
    match &source.app_id {
        Some(app_id) => eq_ignore_ascii_case(app_id.as_str(), name),
        None => false,
    }
}

fn select_application(sources: &[CaptureSource], name: &String) -> (r: Result<
    CaptureMode,
    CaptureError,
>)
    ensures
        match first_application_candidate(sources@, name@, 0) {
            None => r matches Err(CaptureError::BackendInit(message)) && message@
                == no_application_text(name@),
            Some(k) => if application_ambiguous(sources@, name@, k) {
                r matches Err(CaptureError::BackendInit(message)) && message@
                    == ambiguous_application_text(name@)
            } else {
                match sources@[k].process_id {
                    None => r matches Err(CaptureError::BackendInit(message)) && message@
                        == no_process_identity_text(name@),
                    Some(process_id) => r == Ok::<CaptureMode, CaptureError>(
                        CaptureMode::ExactApplication {
                            process_id,
                            stable_id: sources@[k].stable_id,
                        },
                    ),
                }
            },
        },
{
    proof {
        lemma_first_application_candidate(sources@, name@, 0);
    }
    let mut index: usize = 0;
    while index < sources.len()
        invariant_except_break
            index <= sources@.len(),
            first_application_candidate(sources@, name@, 0) == first_application_candidate(
                sources@,
                name@,
                index as int,
            ),
        ensures
            index <= sources@.len(),
            first_application_candidate(sources@, name@, 0) == first_application_candidate(
                sources@,
                name@,
                index as int,
            ),
            index < sources@.len() ==> is_application_candidate(sources@[index as int], name@),
        decreases sources@.len() - index,
    {
        if application_candidate(&sources[index], name.as_str()) {
            break;
        }
        index = index + 1;
    }
    if index == sources.len() {
        let mut message = String::new();
        push_str(&mut message, "no running audio source matches application '");
        push_str(&mut message, name.as_str());
        push_str(&mut message, "'");
        return Err(CaptureError::BackendInit(message));
    }
    let first = index;
    assert(first_application_candidate(sources@, name@, 0) == Some(first as int));
    let mut later = first + 1;
    while later < sources.len()
        invariant
            first < later <= sources@.len(),
            first_application_candidate(sources@, name@, 0) == Some(first as int),
            forall|j: int|
                first < j < later ==> !(is_application_candidate(#[trigger] sources@[j], name@)
                    && sources@[j].stable_id@ != sources@[first as int].stable_id@),
        decreases sources@.len() - later,
    {
        if application_candidate(&sources[later], name.as_str()) && !sources[later].stable_id.same_as(
            &sources[first].stable_id,
        ) {
            let mut message = String::new();
            push_str(&mut message, "application '");
            push_str(&mut message, name.as_str());
            push_str(
                &mut message,
                "' matches multiple audio sessions \u{2014} select one from source discovery",
            );
            return Err(CaptureError::BackendInit(message));
        }
        later = later + 1;
    }
    match sources[first].process_id {
        Some(process_id) => Ok(
            CaptureMode::ExactApplication {
                process_id,
                stable_id: sources[first].stable_id.clone(),
            },
        ),
        None => {
            let mut message = String::new();
            push_str(&mut message, "audio source for application '");
            push_str(&mut message, name.as_str());
            push_str(&mut message, "' has no process identity");
            Err(CaptureError::BackendInit(message))
        },
    }
}

/// The process instance a stable key names, if it names one.
pub open spec fn named_instance(key: Seq<char>) -> Option<(u32, u64)> {
    if exists|process_id: u32, creation_time_100ns: u64|
        key == fingerprint_key(process_id as nat, creation_time_100ns as nat) {
        Some(
            choose|process_id: u32, creation_time_100ns: u64|
                key == fingerprint_key(process_id as nat, creation_time_100ns as nat),
        )
    } else {
        None
    }
}

/// Resolves an exact stable application selector to its process: only a
/// Windows application identity naming a live-looking process instance (a
/// non-zero process id and creation time) is accepted.
pub open spec fn stable_selector_outcome(stable_id: StableSourceId) -> Option<u32> {
    if stable_id.platform != Platform::Windows || stable_id.kind != SourceKind::Application {
        None
    } else {
        match named_instance(stable_id.stable_key@) {
            Some((process_id, creation_time_100ns)) => if process_id == 0 || creation_time_100ns
                == 0 {
                None
            } else {
                Some(process_id)
            },
            None => None,
        }
    }
}

/// Resolves a capture mode to one exact process instance where the mode
/// names an application or a process; other modes pass through. `sources`
/// are the currently discovered sources, consulted for application and
/// process selectors.
pub fn resolve_application_mode(mode: CaptureMode, sources: &[CaptureSource]) -> (r: Result<
    CaptureMode,
    CaptureError,
>)
    ensures
        match mode {
            CaptureMode::Application(name) => match first_application_candidate(
                sources@,
                name@,
                0,
            ) {
                None => r matches Err(CaptureError::BackendInit(message)) && message@
                    == no_application_text(name@),
                Some(k) => if application_ambiguous(sources@, name@, k) {
                    r matches Err(CaptureError::BackendInit(message)) && message@
                        == ambiguous_application_text(name@)
                } else {
                    match sources@[k].process_id {
                        None => r matches Err(CaptureError::BackendInit(message)) && message@
                            == no_process_identity_text(name@),
                        Some(process_id) => r == Ok::<CaptureMode, CaptureError>(
                            CaptureMode::ExactApplication {
                                process_id,
                                stable_id: sources@[k].stable_id,
                            },
                        ),
                    }
                },
            },
            CaptureMode::Process(process_id) => match first_process_candidate(
                sources@,
                process_id,
                0,
            ) {
                None => r matches Err(CaptureError::SourceUnavailable { stable_key }) && stable_key@
                    == missing_process_key(process_id),
                Some(k) => if process_ambiguous(sources@, process_id, k) {
                    r matches Err(CaptureError::BackendInit(message)) && message@
                        == ambiguous_process_text(process_id)
                } else {
                    r == Ok::<CaptureMode, CaptureError>(
                        CaptureMode::ExactApplication {
                            process_id,
                            stable_id: sources@[k].stable_id,
                        },
                    )
                },
            },
            CaptureMode::ExactApplicationStable { stable_id } => match stable_selector_outcome(
                stable_id,
            ) {
                Some(process_id) => r == Ok::<CaptureMode, CaptureError>(
                    CaptureMode::ExactApplication { process_id, stable_id },
                ),
                None => r == Err::<CaptureMode, CaptureError>(
                    CaptureError::SourceUnavailable { stable_key: stable_id.stable_key },
                ),
            },
            other => r == Ok::<CaptureMode, CaptureError>(other),
        },
{
    match mode {
        CaptureMode::Application(name) => select_application(sources, &name),
        CaptureMode::Process(process_id) => {
            let stable_id = select_process_source(sources, process_id)?;
            Ok(CaptureMode::ExactApplication { process_id, stable_id })
        },
        CaptureMode::ExactApplicationStable { stable_id } => {
            if stable_id.platform != Platform::Windows || stable_id.kind != SourceKind::Application {
                return Err(CaptureError::SourceUnavailable { stable_key: stable_id.stable_key });
            }
            let parsed = ProcessInstanceFingerprint::parse(stable_id.stable_key.as_str());
            match parsed {
                Some(instance) => {
                    if instance.process_id == 0 || instance.creation_time_100ns == 0 {
                        return Err(
                            CaptureError::SourceUnavailable { stable_key: stable_id.stable_key },
                        );
                    }
                    Ok(CaptureMode::ExactApplication { process_id: instance.process_id, stable_id })
                },
                None => Err(CaptureError::SourceUnavailable { stable_key: stable_id.stable_key }),
            }
        },
        other => Ok(other),
    }
}


/// What a Windows capture worker opens once its mode is resolved.
#[derive(Debug)]
pub enum WindowsCapturePlan {
    /// Loopback of the default render endpoint.
    SystemLoopback,
    /// Process loopback of one process, checked against an expected instance
    /// when the selector named one.
    ProcessLoopback {
        process_id: u32,
        expected_instance: Option<ProcessInstanceFingerprint>,
        stable_key: String,
        source_id: SourceId,
    },
    /// A capture endpoint.
    Input(InputDeviceSelector),
}

/// The key of a process selected by id alone.
pub open spec fn process_key(process_id: u32) -> Seq<char> {
    "wasapi:pid:"@ + decimal_digits(process_id as nat)
}

/// Text refusing an exact identity that names no process instance.
pub open spec fn no_fingerprint_text(key: Seq<char>) -> Seq<char> {
    "exact Windows application identity '"@ + key + "' has no process-instance fingerprint"@
}

/// Decides what a worker opens for a resolved mode. An application selector
/// must have been resolved to a process instance first; any mode left
/// unresolved is unsupported.
pub fn windows_capture_plan(mode: CaptureMode) -> (r: Result<WindowsCapturePlan, CaptureError>)
    ensures
        match mode {
            CaptureMode::SystemMix => r matches Ok(WindowsCapturePlan::SystemLoopback),
            CaptureMode::Process(process_id) => r matches Ok(
                WindowsCapturePlan::ProcessLoopback {
                    process_id: pid,
                    expected_instance: None,
                    stable_key,
                    source_id,
                },
            ) && pid == process_id && stable_key@ == process_key(process_id) && source_id.0
                == derived_source_id(
                StableSourceIdView {
                    platform: Platform::Windows,
                    kind: SourceKind::Application,
                    stable_key: process_key(process_id),
                },
            ),
            CaptureMode::ExactApplication { process_id, stable_id } => match named_instance(
                stable_id.stable_key@,
            ) {
                Some((instance_process_id, creation_time_100ns)) => r matches Ok(
                    WindowsCapturePlan::ProcessLoopback {
                        process_id: pid,
                        expected_instance: Some(expected),
                        stable_key,
                        source_id,
                    },
                ) && pid == process_id && expected == (ProcessInstanceFingerprint {
                    process_id: instance_process_id,
                    creation_time_100ns,
                }) && stable_key@ == stable_id.stable_key@ && source_id.0 == derived_source_id(
                    stable_id@,
                ),
                None => r matches Err(CaptureError::BackendInit(message)) && message@
                    == no_fingerprint_text(stable_id.stable_key@),
            },
            CaptureMode::InputDevice(selector) => r == Ok::<WindowsCapturePlan, CaptureError>(
                WindowsCapturePlan::Input(selector),
            ),
            other => r == Err::<WindowsCapturePlan, CaptureError>(CaptureError::ModeUnsupported(other)),
        },
{
    match mode {
        CaptureMode::SystemMix => Ok(WindowsCapturePlan::SystemLoopback),
        CaptureMode::Process(process_id) => {
            let mut stable_key = String::new();
            push_str(&mut stable_key, "wasapi:pid:");
            push_decimal_u64(&mut stable_key, process_id as u64);
            let source_id = StableSourceId::new(
                Platform::Windows,
                SourceKind::Application,
                stable_key.clone(),
            ).source_id();
            Ok(
                WindowsCapturePlan::ProcessLoopback {
                    process_id,
                    expected_instance: None,
                    stable_key,
                    source_id,
                },
            )
        },
        CaptureMode::ExactApplication { process_id, stable_id } => {
            let source_id = stable_id.source_id();
            match ProcessInstanceFingerprint::parse(stable_id.stable_key.as_str()) {
                Some(expected_instance) => {
                    proof {
                        let key = stable_id.stable_key@;
                        assert(key == fingerprint_key(
                            expected_instance.process_id as nat,
                            expected_instance.creation_time_100ns as nat,
                        ));
                        let (p, c) = choose|p: u32, c: u64| key == fingerprint_key(p as nat, c as nat);
                        assert(named_instance(key) == Some((p, c)));
                    }
                    Ok(
                        WindowsCapturePlan::ProcessLoopback {
                            process_id,
                            expected_instance: Some(expected_instance),
                            stable_key: stable_id.stable_key,
                            source_id,
                        },
                    )
                },
                None => {
                    let mut message = String::new();
                    push_str(&mut message, "exact Windows application identity '");
                    push_str(&mut message, stable_id.stable_key.as_str());
                    push_str(&mut message, "' has no process-instance fingerprint");
                    Err(CaptureError::BackendInit(message))
                },
            }
        },
        CaptureMode::InputDevice(selector) => Ok(WindowsCapturePlan::Input(selector)),
        other => Err(CaptureError::ModeUnsupported(other)),
    }
}


proof fn lemma_unique_application_from(
    sources: Seq<CaptureSource>,
    name: Seq<char>,
    from: int,
    k: int,
)
    requires
        0 <= from <= k < sources.len(),
        bytes_eq_ignore_ascii_case(encode_utf8(sources[k].name@), encode_utf8(name)),
        forall|j: int|
            0 <= j < sources.len() && j != k ==> !bytes_eq_ignore_ascii_case(
                encode_utf8((#[trigger] sources[j]).name@),
                encode_utf8(name),
            ) && !(sources[j].app_id matches Some(app_id) && bytes_eq_ignore_ascii_case(
                encode_utf8(app_id@),
                encode_utf8(name),
            )),
    ensures
        first_application_candidate(sources, name, from) == Some(k),
    decreases k - from,
{
    if from < k {
        lemma_unique_application_from(sources, name, from + 1, k);
    }
}

/// An application selector matches a source whose display name equals it
/// up to ASCII case (or whose application id does). So when exactly one
/// source's display name equals the selector up to ASCII case, and no other
/// source's name or application id does, that source is the selector's one
/// match: it is chosen and nothing makes the choice ambiguous.
pub proof fn lemma_application_name_matches_ignoring_ascii_case(
    sources: Seq<CaptureSource>,
    name: Seq<char>,
    k: int,
)
    requires
        0 <= k < sources.len(),
        bytes_eq_ignore_ascii_case(encode_utf8(sources[k].name@), encode_utf8(name)),
    ensures
        is_application_candidate(sources[k], name),
        (forall|j: int|
            0 <= j < sources.len() && j != k ==> !bytes_eq_ignore_ascii_case(
                encode_utf8((#[trigger] sources[j]).name@),
                encode_utf8(name),
            ) && !(sources[j].app_id matches Some(app_id) && bytes_eq_ignore_ascii_case(
                encode_utf8(app_id@),
                encode_utf8(name),
            ))) ==> first_application_candidate(sources, name, 0) == Some(k)
            && !application_ambiguous(sources, name, k),
{
    if forall|j: int|
        0 <= j < sources.len() && j != k ==> !bytes_eq_ignore_ascii_case(
            encode_utf8((#[trigger] sources[j]).name@),
            encode_utf8(name),
        ) && !(sources[j].app_id matches Some(app_id) && bytes_eq_ignore_ascii_case(
            encode_utf8(app_id@),
            encode_utf8(name),
        )) {
        lemma_unique_application_from(sources, name, 0, k);
    }
}

/// An application selector also matches a source whose application id
/// equals it up to ASCII case, whatever the source's display name.
pub proof fn lemma_application_id_matches_ignoring_ascii_case(source: CaptureSource, name: Seq<char>)
    requires
        source.app_id matches Some(app_id) && bytes_eq_ignore_ascii_case(
            encode_utf8(app_id@),
            encode_utf8(name),
        ),
    ensures
        is_application_candidate(source, name),
{
}
} // verus!
