//! Records read from the Audio Server Plug-in shared-memory ring.

use vstd::prelude::*;

verus! {

/// How many frames one read returned and where they start in the plug-in's
/// own sample-frame timeline.
#[derive(Clone, Copy, Debug, PartialEq, Eq, Structural)]
pub struct AspReadBatch {
    pub frame_count: u32,
    pub source_frame_position_frames: u64,
}

} // verus!
