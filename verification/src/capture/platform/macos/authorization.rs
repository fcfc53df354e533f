//! Classification of the macOS microphone authorization status.

use vstd::prelude::*;

use crate::capture::authorization::PermissionObservation;

verus! {

/// AVFoundation status: the user has not been asked yet.
pub const NOT_DETERMINED: i32 = 0;

/// AVFoundation status: capture is restricted by policy.
pub const RESTRICTED: i32 = 1;

/// AVFoundation status: the user denied capture.
pub const DENIED: i32 = 2;

/// AVFoundation status: the user authorized capture.
pub const AUTHORIZED: i32 = 3;

/// The permission observation each authorization status means; any other
/// value is not an observation.
pub open spec fn spec_permission_observation(status: i32) -> PermissionObservation {
    if status == NOT_DETERMINED {
        PermissionObservation::NotDetermined
    } else if status == RESTRICTED {
        PermissionObservation::Restricted
    } else if status == DENIED {
        PermissionObservation::Denied
    } else if status == AUTHORIZED {
        PermissionObservation::Allowed
    } else {
        PermissionObservation::NotObservable
    }
}

/// Maps a macOS microphone authorization status to a permission observation.
pub fn permission_observation(status: i32) -> (r: PermissionObservation)
    ensures
        r == spec_permission_observation(status),
{
    if status == NOT_DETERMINED {
        PermissionObservation::NotDetermined
    } else if status == RESTRICTED {
        PermissionObservation::Restricted
    } else if status == DENIED {
        PermissionObservation::Denied
    } else if status == AUTHORIZED {
        PermissionObservation::Allowed
    } else {
        PermissionObservation::NotObservable
    }
}

/// Each known status keeps its own meaning: distinct known statuses never
/// map to the same observation, and none is mistaken for an unknown one.
pub proof fn lemma_statuses_stay_distinct(a: i32, b: i32)
    requires
        0 <= a <= 3,
        0 <= b <= 3,
        a != b,
    ensures
        spec_permission_observation(a) != spec_permission_observation(b),
        spec_permission_observation(a) != PermissionObservation::NotObservable,
{
}

} // verus!
