//! What a failed WASAPI capture loop reports: the runtime event delivered to
//! the session and the error returned to the caller.

use vstd::prelude::*;

use crate::capture::authorization::CaptureError;
use crate::capture::events::{
    CaptureRuntimeFailure, CaptureRuntimeFailureClass, SourceGeneration,
    SourceRecoveryRequirement, SourceRuntimeEvent,
};
use crate::capture::identity::StableSourceId;
use crate::capture::platform::windows::runtime_lifecycle::{
    classify_platform_status, WindowsRuntimeFailureDisposition,
};
use crate::text::push_str;

verus! {

/// Why a capture loop stopped. A WASAPI error that wraps a Windows error is
/// held by its HRESULT; any other WASAPI error by its debug text.
#[derive(Debug)]
pub enum CaptureLoopFailure {
    ProcessExited,
    ProcessWatchFailed { status_code: i32 },
    WasapiStatus { operation: &'static str, status_code: i32 },
    WasapiOther { operation: &'static str, debug_text: String },
    Windows { operation: &'static str, status_code: i32 },
    BackendClass { operation: &'static str, class: &'static str },
}

/// The operation a failure interrupted.
pub open spec fn failure_operation(failure: CaptureLoopFailure) -> Seq<char> {
    match failure {
        CaptureLoopFailure::ProcessExited => "observe selected process lifetime"@,
        CaptureLoopFailure::ProcessWatchFailed { .. } => "observe selected process lifetime"@,
        CaptureLoopFailure::WasapiStatus { operation, .. } => operation@,
        CaptureLoopFailure::WasapiOther { operation, .. } => operation@,
        CaptureLoopFailure::Windows { operation, .. } => operation@,
        CaptureLoopFailure::BackendClass { operation, .. } => operation@,
    }
}

/// `class` is the classification of `failure`.
pub open spec fn classifies(failure: CaptureLoopFailure, class: CaptureRuntimeFailureClass) -> bool {
    match failure {
        CaptureLoopFailure::ProcessExited => class == CaptureRuntimeFailureClass::SourceInstanceExited,
        CaptureLoopFailure::ProcessWatchFailed { status_code } => class
            == CaptureRuntimeFailureClass::PlatformStatus { status_code },
        CaptureLoopFailure::WasapiStatus { status_code, .. } => class
            == CaptureRuntimeFailureClass::PlatformStatus { status_code },
        CaptureLoopFailure::Windows { status_code, .. } => class
            == CaptureRuntimeFailureClass::PlatformStatus { status_code },
        CaptureLoopFailure::WasapiOther { debug_text, .. } => class matches CaptureRuntimeFailureClass::BackendClass {
            class: text,
        } && text@ == debug_text@,
        CaptureLoopFailure::BackendClass { class: name, .. } => class matches CaptureRuntimeFailureClass::BackendClass {
            class: text,
        } && text@ == name@,
    }
}

/// What a failure means for the source: the process exiting or device
/// invalidation means it is gone; anything else is a backend failure.
pub open spec fn failure_disposition(failure: CaptureLoopFailure) -> WindowsRuntimeFailureDisposition {
    match failure {
        CaptureLoopFailure::ProcessExited => WindowsRuntimeFailureDisposition::SourceUnavailable,
        CaptureLoopFailure::WasapiStatus { status_code, .. } => disposition_of_status(status_code),
        CaptureLoopFailure::Windows { status_code, .. } => disposition_of_status(status_code),
        _ => WindowsRuntimeFailureDisposition::BackendFailure,
    }
}

/// The disposition `classify_platform_status` gives a status.
pub open spec fn disposition_of_status(status_code: i32) -> WindowsRuntimeFailureDisposition {
    if status_code == crate::capture::platform::windows::runtime_lifecycle::AUDCLNT_E_DEVICE_INVALIDATED_STATUS_CODE {
        WindowsRuntimeFailureDisposition::SourceUnavailable
    } else {
        WindowsRuntimeFailureDisposition::BackendFailure
    }
}

/// `operation: detail`.
pub open spec fn detailed_text(operation: Seq<char>, detail: Seq<char>) -> Seq<char> {
    operation + ": "@ + detail
}

/// The error a failure ends capture with.
pub open spec fn failure_error_matches(
    failure: CaptureLoopFailure,
    stable_key: Seq<char>,
    error: CaptureError,
) -> bool {
    if failure_disposition(failure) == WindowsRuntimeFailureDisposition::SourceUnavailable {
        error matches CaptureError::SourceUnavailable { stable_key: key } && key@ == stable_key
    } else {
        match failure {
            CaptureLoopFailure::ProcessWatchFailed { status_code } => error matches CaptureError::BackendStatus {
                operation,
                status_code: code,
            } && operation@ == "observe selected process lifetime"@ && code == status_code,
            CaptureLoopFailure::WasapiStatus { operation: op, status_code } => error matches CaptureError::BackendStatus {
                operation,
                status_code: code,
            } && operation@ == op@ && code == status_code,
            CaptureLoopFailure::Windows { operation: op, status_code } => error matches CaptureError::BackendStatus {
                operation,
                status_code: code,
            } && operation@ == op@ && code == status_code,
            CaptureLoopFailure::WasapiOther { operation, debug_text } => error matches CaptureError::BackendInit(
                message,
            ) && message@ == detailed_text(operation@, debug_text@),
            CaptureLoopFailure::BackendClass { operation, class } => error matches CaptureError::BackendInit(
                message,
            ) && message@ == detailed_text(operation@, class@),
            CaptureLoopFailure::ProcessExited => false,
        }
    }
}

impl CaptureLoopFailure {
    /// The operation this failure interrupted.
    pub fn operation(&self) -> (r: &'static str)
        ensures
            r@ == failure_operation(*self),
    {
        match self {
            CaptureLoopFailure::ProcessExited => "observe selected process lifetime",
            CaptureLoopFailure::ProcessWatchFailed { .. } => "observe selected process lifetime",
            CaptureLoopFailure::WasapiStatus { operation, .. } => operation,
            CaptureLoopFailure::WasapiOther { operation, .. } => operation,
            CaptureLoopFailure::Windows { operation, .. } => operation,
            CaptureLoopFailure::BackendClass { operation, .. } => operation,
        }
    }

    /// How this failure is classified in runtime events.
    pub fn error_class(&self) -> (r: CaptureRuntimeFailureClass)
        ensures
            classifies(*self, r),
    {
        match self {
            CaptureLoopFailure::ProcessExited => CaptureRuntimeFailureClass::SourceInstanceExited,
            CaptureLoopFailure::ProcessWatchFailed { status_code } => {
                CaptureRuntimeFailureClass::PlatformStatus { status_code: *status_code }
            },
            CaptureLoopFailure::WasapiStatus { status_code, .. } => {
                CaptureRuntimeFailureClass::PlatformStatus { status_code: *status_code }
            },
            CaptureLoopFailure::Windows { status_code, .. } => {
                CaptureRuntimeFailureClass::PlatformStatus { status_code: *status_code }
            },
            CaptureLoopFailure::WasapiOther { debug_text, .. } => {
                CaptureRuntimeFailureClass::BackendClass { class: debug_text.clone() }
            },
            CaptureLoopFailure::BackendClass { class, .. } => {
                CaptureRuntimeFailureClass::BackendClass { class: (*class).to_owned() }
            },
        }
    }

    /// What this failure means for the source.
    pub fn disposition(&self) -> (r: WindowsRuntimeFailureDisposition)
        ensures
            r == failure_disposition(*self),
    {
        match self {
            CaptureLoopFailure::ProcessExited => WindowsRuntimeFailureDisposition::SourceUnavailable,
            CaptureLoopFailure::WasapiStatus { status_code, .. } => classify_platform_status(
                *status_code,
            ),
            CaptureLoopFailure::Windows { status_code, .. } => classify_platform_status(
                *status_code,
            ),
            CaptureLoopFailure::ProcessWatchFailed { .. }
            | CaptureLoopFailure::WasapiOther { .. }
            | CaptureLoopFailure::BackendClass { .. } => {
                WindowsRuntimeFailureDisposition::BackendFailure
            },
        }
    }

    /// The runtime event reporting this failure of the source `stable_id`:
    /// source unavailable, needing rediscovery and a new session, when the
    /// source is gone; a backend failure otherwise.
    pub fn runtime_event(&self, stable_id: &StableSourceId) -> (r: SourceRuntimeEvent)
        ensures
            match r {
                SourceRuntimeEvent::SourceUnavailable {
                    stable_id: id,
                    generation,
                    recovery_requirement,
                    failure,
                } => failure_disposition(*self) == WindowsRuntimeFailureDisposition::SourceUnavailable
                    && id@ == stable_id@ && generation == SourceGeneration(1) && recovery_requirement
                    == SourceRecoveryRequirement::ExplicitRediscoveryAndNewSession
                    && failure.operation@ == failure_operation(*self) && classifies(
                    *self,
                    failure.error_class,
                ),
                SourceRuntimeEvent::BackendFailure { stable_id: id, generation, failure } =>
                    failure_disposition(*self) == WindowsRuntimeFailureDisposition::BackendFailure
                    && id@ == stable_id@ && generation == SourceGeneration(1)
                    && failure.operation@ == failure_operation(*self) && classifies(
                    *self,
                    failure.error_class,
                ),
            },
    {
        let failure = CaptureRuntimeFailure {
            operation: self.operation(),
            error_class: self.error_class(),
        };
        match self.disposition() {
            WindowsRuntimeFailureDisposition::SourceUnavailable => {
                SourceRuntimeEvent::SourceUnavailable {
                    stable_id: stable_id.clone(),
                    generation: SourceGeneration::initial(),
                    recovery_requirement: SourceRecoveryRequirement::ExplicitRediscoveryAndNewSession,
                    failure,
                }
            },
            WindowsRuntimeFailureDisposition::BackendFailure => {
                SourceRuntimeEvent::BackendFailure {
                    stable_id: stable_id.clone(),
                    generation: SourceGeneration::initial(),
                    failure,
                }
            },
        }
    }

    /// The error capture ends with for the source keyed `stable_key`.
    pub fn into_capture_error(self, stable_key: String) -> (r: CaptureError)
        ensures
            failure_error_matches(self, stable_key@, r),
    {
        if self.disposition() == WindowsRuntimeFailureDisposition::SourceUnavailable {
            return CaptureError::SourceUnavailable { stable_key };
        }
        match self {
            CaptureLoopFailure::ProcessWatchFailed { status_code } => CaptureError::BackendStatus {
                operation: "observe selected process lifetime",
                status_code,
            },
            CaptureLoopFailure::WasapiStatus { operation, status_code } => {
                CaptureError::BackendStatus { operation, status_code }
            },
            CaptureLoopFailure::WasapiOther { operation, debug_text } => {
                let mut message = String::new();
                push_str(&mut message, operation);
                push_str(&mut message, ": ");
                push_str(&mut message, debug_text.as_str());
                CaptureError::BackendInit(message)
            },
            CaptureLoopFailure::Windows { operation, status_code } => {
                CaptureError::BackendStatus { operation, status_code }
            },
            CaptureLoopFailure::BackendClass { operation, class } => {
                let mut message = String::new();
                push_str(&mut message, operation);
                push_str(&mut message, ": ");
                push_str(&mut message, class);
                CaptureError::BackendInit(message)
            },
            CaptureLoopFailure::ProcessExited => CaptureError::SourceUnavailable { stable_key },
        }
    }
}

/// The event and the error of one failure agree: the event reports the
/// source unavailable exactly when the error does.
pub proof fn lemma_event_and_error_agree(
    failure: CaptureLoopFailure,
    stable_key: Seq<char>,
    error: CaptureError,
)
    requires
        failure_error_matches(failure, stable_key, error),
    ensures
        (failure_disposition(failure) == WindowsRuntimeFailureDisposition::SourceUnavailable) == (
        error is SourceUnavailable),
{
}

/// Maps WASAPI performance-counter timestamps onto the process monotonic
/// clock through one pair of simultaneous readings.
#[derive(Debug, Clone, Copy)]
pub struct WasapiTimestampMapping {
    pub qpc_origin_ns: u64,
    pub monotonic_origin_ns: u64,
}

/// A performance-counter reading in nanoseconds, saturating at `u64::MAX`.
pub open spec fn spec_qpc_ns(counter: u64, frequency_hz: u64) -> u64 {
    let ns = counter * 1_000_000_000 / (frequency_hz as int);
    if ns > u64::MAX {
        u64::MAX
    } else {
        ns as u64
    }
}

/// The monotonic reading midway between two, rounded down.
pub open spec fn spec_midpoint(before_ns: u64, after_ns: u64) -> u64 {
    let gap = if after_ns >= before_ns {
        after_ns - before_ns
    } else {
        0
    };
    let mid = before_ns + gap / 2;
    if mid > u64::MAX {
        u64::MAX
    } else {
        mid as u64
    }
}

/// The monotonic time of a performance-counter time, if it is positive and
/// fits in a `u64`.
pub open spec fn spec_to_monotonic(mapping: WasapiTimestampMapping, qpc_timestamp_ns: u64) -> Option<u64> {
    let t = mapping.monotonic_origin_ns + qpc_timestamp_ns - mapping.qpc_origin_ns;
    if 0 < t <= u64::MAX {
        Some(t as u64)
    } else {
        None
    }
}

impl WasapiTimestampMapping {
    /// The mapping from a counter reading taken between two monotonic
    /// readings; a negative counter or frequency gives none, a zero frequency
    /// counts as one.
    pub fn from_readings(
        monotonic_before_ns: u64,
        counter: i64,
        frequency_hz: i64,
        monotonic_after_ns: u64,
    ) -> (r: Option<Self>)
        ensures
            match r {
                Some(mapping) => counter >= 0 && frequency_hz >= 0 && mapping.qpc_origin_ns
                    == spec_qpc_ns(
                    counter as u64,
                    if frequency_hz == 0 {
                        1u64
                    } else {
                        frequency_hz as u64
                    },
                ) && mapping.monotonic_origin_ns == spec_midpoint(
                    monotonic_before_ns,
                    monotonic_after_ns,
                ),
                None => counter < 0 || frequency_hz < 0,
            },
    {
        if counter < 0 || frequency_hz < 0 {
            return None;
        }
        let counter = counter as u64;
        let frequency_hz: u64 = if frequency_hz == 0 {
            1
        } else {
            frequency_hz as u64
        };
        assert(counter * 1_000_000_000 <= u64::MAX * 1_000_000_000) by (nonlinear_arith)
            requires
                counter <= u64::MAX,
        ;
        let scaled: u128 = (counter as u128) * 1_000_000_000;
        let qpc: u128 = scaled / (frequency_hz as u128);
        let qpc_origin_ns: u64 = if qpc > u64::MAX as u128 {
            u64::MAX
        } else {
            qpc as u64
        };
        let gap = monotonic_after_ns.saturating_sub(monotonic_before_ns);
        let monotonic_origin_ns = monotonic_before_ns.saturating_add(gap / 2);
        Some(WasapiTimestampMapping { qpc_origin_ns, monotonic_origin_ns })
    }

    /// The monotonic time of a performance-counter time in nanoseconds.
    pub fn to_monotonic_ns(self, qpc_timestamp_ns: u64) -> (r: Option<u64>)
        ensures
            r == spec_to_monotonic(self, qpc_timestamp_ns),
    {
        if qpc_timestamp_ns >= self.qpc_origin_ns {
            let delta_ns = qpc_timestamp_ns - self.qpc_origin_ns;
            match self.monotonic_origin_ns.checked_add(delta_ns) {
                Some(t) => if t > 0 {
                    Some(t)
                } else {
                    None
                },
                None => None,
            }
        } else {
            let delta_ns = self.qpc_origin_ns - qpc_timestamp_ns;
            match self.monotonic_origin_ns.checked_sub(delta_ns) {
                Some(t) => if t > 0 {
                    Some(t)
                } else {
                    None
                },
                None => None,
            }
        }
    }
}

/// A WASAPI QPC position, in 100 ns units, in nanoseconds; none on overflow.
pub fn wasapi_qpc_100ns_to_ns(qpc_position: u64) -> (r: Option<u64>)
    ensures
        r == (if qpc_position * 100 <= u64::MAX {
            Some((qpc_position * 100) as u64)
        } else {
            None::<u64>
        }),
{
    qpc_position.checked_mul(100)
}

/// Two counter times keep their distance on the monotonic clock.
pub proof fn lemma_mapping_keeps_distance(mapping: WasapiTimestampMapping, a: u64, b: u64)
    requires
        spec_to_monotonic(mapping, a) is Some,
        spec_to_monotonic(mapping, b) is Some,
    ensures
        spec_to_monotonic(mapping, b)->0 - spec_to_monotonic(mapping, a)->0 == b - a,
{
}

} // verus!
