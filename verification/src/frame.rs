//! Identity values carried by captured frames.

use vstd::prelude::*;

verus! {

/// Operating-system family that produced a capture identity.
#[derive(Debug, Clone, Copy, PartialEq, Eq, Hash, Structural)]
pub enum Platform {
    Macos,
    Windows,
    Linux,
    Ios,
    Android,
    Web,
    Unknown,
}

/// Immutable identity stamped on every frame captured from one resolved source.
#[derive(Debug, Clone, Copy, PartialEq, Eq, Hash, Structural)]
pub struct SourceId(pub u64);

} // verus!
