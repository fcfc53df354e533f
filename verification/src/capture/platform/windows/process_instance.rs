//! Decisions about the exact process instance a process-loopback capture
//! opens: reading its creation time, checking it against the instance a
//! selector named, and observing the instance's lifetime.

use vstd::prelude::*;

use crate::capture::authorization::CaptureError;
use crate::capture::platform::windows::process_identity::ProcessInstanceFingerprint;
use crate::text::{decimal_digits, push_decimal_u64, push_str};

verus! {

/// Win32 `ERROR_INVALID_PARAMETER`, which opening a process that no longer
/// exists reports.
pub const ERROR_INVALID_PARAMETER: u32 = 87;

/// A Win32 error code as an HRESULT: zero and values that read as negative
/// stay as they are; others keep their low 16 bits under the Win32 facility
/// with the failure bit set.
pub open spec fn spec_hresult_from_win32(error: u32) -> i32 {
    if error == 0 || error >= 0x8000_0000 {
        if error >= 0x8000_0000 {
            (error - 0x1_0000_0000) as i32
        } else {
            0
        }
    } else {
        ((error % 0x1_0000) + 0x0007_0000 + 0x8000_0000 - 0x1_0000_0000) as i32
    }
}

/// Converts a Win32 error code to an HRESULT (`HRESULT_FROM_WIN32`).
pub fn hresult_from_win32(error: u32) -> (r: i32)
    ensures
        r == spec_hresult_from_win32(error),
{
    if error == 0 {
        0
    } else if error >= 0x8000_0000 {
        (error as i64 - 0x1_0000_0000i64) as i32
    } else {
        ((error % 0x1_0000) as i64 + 0x0007_0000i64 + 0x8000_0000i64 - 0x1_0000_0000i64) as i32
    }
}

/// The status a vanished process's handle query reports.
pub open spec fn process_gone_status() -> i32 {
    spec_hresult_from_win32(ERROR_INVALID_PARAMETER)
}

/// What reading a process's creation time returned: the time, or the
/// failure's status and text.
#[derive(Debug)]
pub enum CreationTimeQuery {
    Created(u64),
    Failed { status_code: i32, message: String },
}

/// Text refusing a process that exists but cannot be queried.
pub open spec fn inaccessible_text(process_id: u32, message: Seq<char>) -> Seq<char> {
    "process "@ + decimal_digits(process_id as nat)
        + " is inaccessible for exact-application capture: "@ + message
}

/// The instance of `process_id` from a creation-time query, and the retry a
/// failure other than a vanished process asks for. A vanished process, on
/// either query, is an unavailable source; another failure means the
/// process cannot be inspected.
pub open spec fn instance_query_matches(
    process_id: u32,
    stable_key: Seq<char>,
    first: CreationTimeQuery,
    retry: Option<CreationTimeQuery>,
    r: Result<ProcessInstanceFingerprint, CaptureError>,
) -> bool {
    match first {
        CreationTimeQuery::Created(creation_time_100ns) => r == Ok::<
            ProcessInstanceFingerprint,
            CaptureError,
        >(ProcessInstanceFingerprint { process_id, creation_time_100ns }),
        CreationTimeQuery::Failed { status_code, message } => if status_code
            == process_gone_status() || (retry matches Some(
            CreationTimeQuery::Failed { status_code: retry_status, .. },
        ) && retry_status == process_gone_status()) {
            r matches Err(CaptureError::SourceUnavailable { stable_key: key }) && key@ == stable_key
        } else {
            r matches Err(CaptureError::BackendInit(text)) && text@ == inaccessible_text(
                process_id,
                message@,
            )
        },
    }
}

/// Whether a failed first query calls for a second one: only a failure
/// other than a vanished process is retried.
pub fn instance_query_needs_retry(first: &CreationTimeQuery) -> (r: bool)
    ensures
        r == (first matches CreationTimeQuery::Failed { status_code, .. } && status_code
            != process_gone_status()),
{
    match first {
        CreationTimeQuery::Created(_) => false,
        CreationTimeQuery::Failed { status_code, .. } => *status_code != hresult_from_win32(
            ERROR_INVALID_PARAMETER,
        ),
    }
}

/// The instance of `process_id` that the queries found, or why there is
/// none. `retry` is the second query, when the first asked for one.
pub fn process_instance_from_query(
    process_id: u32,
    stable_key: &str,
    first: CreationTimeQuery,
    retry: Option<CreationTimeQuery>,
) -> (r: Result<ProcessInstanceFingerprint, CaptureError>)
    ensures
        instance_query_matches(process_id, stable_key@, first, retry, r),
{
    let gone = hresult_from_win32(ERROR_INVALID_PARAMETER);
    match first {
        CreationTimeQuery::Created(creation_time_100ns) => Ok(
            ProcessInstanceFingerprint::new(process_id, creation_time_100ns),
        ),
        CreationTimeQuery::Failed { status_code, message } => {
            if status_code == gone {
                return Err(CaptureError::SourceUnavailable { stable_key: stable_key.to_owned() });
            }
            let retry_gone = match &retry {
                Some(CreationTimeQuery::Failed { status_code: retry_status, .. }) => *retry_status
                    == gone,
                _ => false,
            };
            if retry_gone {
                return Err(CaptureError::SourceUnavailable { stable_key: stable_key.to_owned() });
            }
            let mut text = String::new();
            push_str(&mut text, "process ");
            push_decimal_u64(&mut text, process_id as u64);
            push_str(&mut text, " is inaccessible for exact-application capture: ");
            push_str(&mut text, message.as_str());
            Err(CaptureError::BackendInit(text))
        },
    }
}

/// Checks the instance now running as the process against the one a
/// selector named: a different instance means the selected source is gone.
pub fn verify_process_instance(
    expected_instance: Option<ProcessInstanceFingerprint>,
    current_instance: Result<ProcessInstanceFingerprint, CaptureError>,
    stable_key: &str,
) -> (r: Result<ProcessInstanceFingerprint, CaptureError>)
    ensures
        match current_instance {
            Err(error) => r == Err::<ProcessInstanceFingerprint, CaptureError>(error),
            Ok(current) => match expected_instance {
                Some(expected) => if expected == current {
                    r == Ok::<ProcessInstanceFingerprint, CaptureError>(current)
                } else {
                    r matches Err(CaptureError::SourceUnavailable { stable_key: key }) && key@
                        == stable_key@
                },
                None => r == Ok::<ProcessInstanceFingerprint, CaptureError>(current),
            },
        },
{
    let current = match current_instance {
        Ok(current) => current,
        Err(error) => {
            return Err(error);
        },
    };
    if let Some(expected) = expected_instance {
        if !expected.matches(current.process_id, current.creation_time_100ns) {
            return Err(CaptureError::SourceUnavailable { stable_key: stable_key.to_owned() });
        }
    }
    Ok(current)
}

/// The error a failed process-loopback activation ends the open with: when
/// the open was cancelled, the activation's own text; otherwise the process
/// is checked again, and a process found gone wins over the activation's
/// text.
pub fn activation_failure(
    cancelled: bool,
    recheck: Option<Result<ProcessInstanceFingerprint, CaptureError>>,
    activation_text: String,
) -> (r: CaptureError)
    ensures
        if !cancelled && recheck matches Some(Err(CaptureError::SourceUnavailable { .. })) {
            r == recheck->0->Err_0
        } else {
            r == CaptureError::BackendInit(activation_text)
        },
{
    if !cancelled {
        if let Some(Err(error)) = recheck {
            if let CaptureError::SourceUnavailable { .. } = error {
                return error;
            }
        }
    }
    CaptureError::BackendInit(activation_text)
}

/// What a nonblocking wait on a selected process's handle showed.
#[derive(Debug, Clone, Copy, PartialEq, Eq, Structural)]
pub enum ProcessInstanceWatchObservation {
    Running,
    Exited,
    Failed { status_code: i32 },
}

/// `WaitForSingleObject` results.
pub const WAIT_OBJECT_0: u32 = 0;
pub const WAIT_TIMEOUT: u32 = 258;
pub const WAIT_FAILED: u32 = 0xFFFF_FFFF;

/// Reads a zero-timeout wait on the process handle: signalled means the
/// process exited, a timeout that it runs; a failed wait reports the thread's
/// last error as an HRESULT, and any other result itself.
pub fn watch_observation(wait_result: u32, last_error: u32) -> (r: ProcessInstanceWatchObservation)
    ensures
        r == (if wait_result == WAIT_OBJECT_0 {
            ProcessInstanceWatchObservation::Exited
        } else if wait_result == WAIT_TIMEOUT {
            ProcessInstanceWatchObservation::Running
        } else if wait_result == WAIT_FAILED {
            ProcessInstanceWatchObservation::Failed {
                status_code: spec_hresult_from_win32(last_error),
            }
        } else {
            ProcessInstanceWatchObservation::Failed { status_code: wait_result as i32 }
        }),
{
    if wait_result == WAIT_OBJECT_0 {
        ProcessInstanceWatchObservation::Exited
    } else if wait_result == WAIT_TIMEOUT {
        ProcessInstanceWatchObservation::Running
    } else if wait_result == WAIT_FAILED {
        ProcessInstanceWatchObservation::Failed { status_code: hresult_from_win32(last_error) }
    } else {
        ProcessInstanceWatchObservation::Failed { status_code: wait_result as i32 }
    }
}

} // verus!
