//! Opus encoder configuration values.

use vstd::prelude::*;

verus! {

/// Channel layout of an Opus stream.
#[derive(Debug, Clone, Copy, PartialEq, Eq, Structural)]
pub enum OpusChannels {
    Mono,
    Stereo,
}

/// Duration of one Opus frame.
#[derive(Debug, Clone, Copy, PartialEq, Eq, Structural)]
pub enum OpusFrameDuration {
    Ms10,
    Ms20,
    Ms40,
    Ms60,
}

/// Opus encoder application mode.
#[derive(Debug, Clone, Copy, PartialEq, Eq, Structural)]
pub enum OpusApplication {
    Voip,
    Audio,
    LowDelay,
}

/// Sample rate of an Opus stream.
#[derive(Debug, Clone, Copy, PartialEq, Eq, Structural)]
pub enum OpusSampleRate {
    Hz48000,
}

/// A complete Opus encoder configuration.
#[derive(Debug, Clone, Copy, PartialEq, Eq, Structural)]
pub struct OpusConfig {
    pub sample_rate: OpusSampleRate,
    pub channels: OpusChannels,
    pub frame_duration: OpusFrameDuration,
    pub application: OpusApplication,
    pub bitrate_kbps: Option<u32>,
    pub complexity: u8,
    pub dtx: bool,
    pub fec: bool,
}

} // verus!
