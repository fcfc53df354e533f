//! Setup gate of the macOS Audio Server Plug-in loopback backend.

use vstd::prelude::*;

use crate::capture::authorization::CaptureError;

verus! {

/// Name of the Audio Server Plug-in backend.
pub const ASP_BACKEND_NAME: &'static str = "PocketStation macOS Audio Server Plug-in";

/// What a host must do before the Audio Server Plug-in backend can open.
pub const ASP_SETUP_ACTION: &'static str = "provision PocketStationLoopback.driver outside the SDK, verify its shared-memory ABI is active, then retry; macOS 14.4+ can use the built-in Core Audio process-tap backend";

/// Accepts an externally provisioned, active plug-in; otherwise tells the
/// host exactly what setup is missing.
pub fn require_asp_driver_active(active: bool) -> (r: Result<(), CaptureError>)
    ensures
        active ==> r is Ok,
        !active ==> r == Err::<(), CaptureError>(
            CaptureError::BackendSetupRequired { backend: ASP_BACKEND_NAME, action: ASP_SETUP_ACTION },
        ),
{
    if active {
        Ok(())
    } else {
        Err(CaptureError::BackendSetupRequired { backend: ASP_BACKEND_NAME, action: ASP_SETUP_ACTION })
    }
}

} // verus!
