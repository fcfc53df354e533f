//! Classification of WASAPI runtime failures.

use vstd::prelude::*;

verus! {

/// HRESULT returned when the audio endpoint backing an active WASAPI stream
/// is invalidated (0x88890004). This is the only WASAPI status classified as
/// authoritative source disappearance.
pub const AUDCLNT_E_DEVICE_INVALIDATED_STATUS_CODE: i32 = -2004287484i32;

/// A related but distinct WASAPI status (0x88890026). Resource invalidation
/// does not prove that the selected source disappeared, so it remains a
/// backend failure.
pub const AUDCLNT_E_RESOURCES_INVALIDATED_STATUS_CODE: i32 = -2004287450i32;

/// What a runtime failure means for the captured source.
#[derive(Debug, Clone, Copy, PartialEq, Eq, Structural)]
pub enum WindowsRuntimeFailureDisposition {
    SourceUnavailable,
    BackendFailure,
}

/// Classifies a WASAPI status: only device invalidation means the source is
/// gone; every other status is an exact backend failure.
pub fn classify_platform_status(status_code: i32) -> (r: WindowsRuntimeFailureDisposition)
    ensures
        r == (if status_code == AUDCLNT_E_DEVICE_INVALIDATED_STATUS_CODE {
            WindowsRuntimeFailureDisposition::SourceUnavailable
        } else {
            WindowsRuntimeFailureDisposition::BackendFailure
        }),
{
    if status_code == AUDCLNT_E_DEVICE_INVALIDATED_STATUS_CODE {
        WindowsRuntimeFailureDisposition::SourceUnavailable
    } else {
        WindowsRuntimeFailureDisposition::BackendFailure
    }
}

} // verus!
