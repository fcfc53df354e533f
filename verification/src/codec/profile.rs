//! Named transport encoding profiles resolved to concrete Opus configuration.

use vstd::prelude::*;

use crate::codec::config::{
    OpusApplication, OpusChannels, OpusConfig, OpusFrameDuration, OpusSampleRate,
};

verus! {

/// Bitrate of the voice profiles.
pub const VOICE_BITRATE_KBPS: u32 = 48;

/// Bitrate of the 20 ms stereo music and broadcast profiles.
pub const MUSIC_STEREO_BITRATE_KBPS: u32 = 160;

/// Bitrate of the 10 ms stereo music profile.
pub const MUSIC_STEREO_10MS_BITRATE_KBPS: u32 = 192;

/// Bitrate of the high-fidelity stereo profile.
pub const HIFI_STEREO_BITRATE_KBPS: u32 = 224;

/// A named transport encoding profile.
#[derive(Debug, Clone, Copy, PartialEq, Eq, Structural)]
pub enum StreamProfile {
    VoiceMono20ms,
    VoiceAgentMono10ms,
    MusicStereo20ms,
    MusicStereo10ms,
    BroadcastStereo20ms,
    HifiStereo20ms,
}

/// Channel layout of a profile.
pub open spec fn profile_channels(profile: StreamProfile) -> OpusChannels {
    match profile {
        StreamProfile::VoiceMono20ms | StreamProfile::VoiceAgentMono10ms => OpusChannels::Mono,
        _ => OpusChannels::Stereo,
    }
}

/// Frame duration of a profile.
pub open spec fn profile_frame_duration(profile: StreamProfile) -> OpusFrameDuration {
    match profile {
        StreamProfile::VoiceAgentMono10ms | StreamProfile::MusicStereo10ms => OpusFrameDuration::Ms10,
        _ => OpusFrameDuration::Ms20,
    }
}

/// Encoder application of a profile.
pub open spec fn profile_application(profile: StreamProfile) -> OpusApplication {
    match profile {
        StreamProfile::VoiceMono20ms => OpusApplication::Voip,
        StreamProfile::VoiceAgentMono10ms | StreamProfile::MusicStereo10ms => OpusApplication::LowDelay,
        _ => OpusApplication::Audio,
    }
}

/// Bitrate of a profile in kbit/s.
pub open spec fn profile_bitrate_kbps(profile: StreamProfile) -> u32 {
    match profile {
        StreamProfile::VoiceMono20ms | StreamProfile::VoiceAgentMono10ms => VOICE_BITRATE_KBPS,
        StreamProfile::MusicStereo20ms | StreamProfile::BroadcastStereo20ms => MUSIC_STEREO_BITRATE_KBPS,
        StreamProfile::MusicStereo10ms => MUSIC_STEREO_10MS_BITRATE_KBPS,
        StreamProfile::HifiStereo20ms => HIFI_STEREO_BITRATE_KBPS,
    }
}

/// Milliseconds of a frame duration.
pub open spec fn frame_duration_ms(duration: OpusFrameDuration) -> u16 {
    match duration {
        OpusFrameDuration::Ms10 => 10,
        OpusFrameDuration::Ms20 => 20,
        OpusFrameDuration::Ms40 => 40,
        OpusFrameDuration::Ms60 => 60,
    }
}

/// The complete encoder configuration of a profile.
pub open spec fn profile_config(profile: StreamProfile) -> OpusConfig {
    OpusConfig {
        sample_rate: OpusSampleRate::Hz48000,
        channels: profile_channels(profile),
        frame_duration: profile_frame_duration(profile),
        application: profile_application(profile),
        bitrate_kbps: Some(profile_bitrate_kbps(profile)),
        complexity: match profile {
            StreamProfile::VoiceAgentMono10ms => 5,
            StreamProfile::VoiceMono20ms => 9,
            _ => 10,
        },
        dtx: false,
        fec: profile == StreamProfile::VoiceMono20ms,
    }
}

impl StreamProfile {
    /// Channel layout of this profile.
    pub fn channels(self) -> (r: OpusChannels)
        ensures
            r == profile_channels(self),
    {
        match self {
            StreamProfile::VoiceMono20ms | StreamProfile::VoiceAgentMono10ms => OpusChannels::Mono,
            StreamProfile::MusicStereo20ms
            | StreamProfile::MusicStereo10ms
            | StreamProfile::BroadcastStereo20ms
            | StreamProfile::HifiStereo20ms => OpusChannels::Stereo,
        }
    }

    /// Frame duration of this profile.
    pub fn frame_duration(self) -> (r: OpusFrameDuration)
        ensures
            r == profile_frame_duration(self),
    {
        match self {
            StreamProfile::VoiceAgentMono10ms | StreamProfile::MusicStereo10ms => {
                OpusFrameDuration::Ms10
            },
            StreamProfile::VoiceMono20ms
            | StreamProfile::MusicStereo20ms
            | StreamProfile::BroadcastStereo20ms
            | StreamProfile::HifiStereo20ms => OpusFrameDuration::Ms20,
        }
    }

    /// Encoder application of this profile.
    pub fn application(self) -> (r: OpusApplication)
        ensures
            r == profile_application(self),
    {
        match self {
            StreamProfile::VoiceMono20ms => OpusApplication::Voip,
            StreamProfile::VoiceAgentMono10ms | StreamProfile::MusicStereo10ms => {
                OpusApplication::LowDelay
            },
            StreamProfile::MusicStereo20ms
            | StreamProfile::BroadcastStereo20ms
            | StreamProfile::HifiStereo20ms => OpusApplication::Audio,
        }
    }

    /// Bitrate of this profile in kbit/s.
    pub fn bitrate_kbps(self) -> (r: u32)
        ensures
            r == profile_bitrate_kbps(self),
    {
        match self {
            StreamProfile::VoiceMono20ms | StreamProfile::VoiceAgentMono10ms => VOICE_BITRATE_KBPS,
            StreamProfile::MusicStereo20ms | StreamProfile::BroadcastStereo20ms => {
                MUSIC_STEREO_BITRATE_KBPS
            },
            StreamProfile::MusicStereo10ms => MUSIC_STEREO_10MS_BITRATE_KBPS,
            StreamProfile::HifiStereo20ms => HIFI_STEREO_BITRATE_KBPS,
        }
    }

    /// Frame length of this profile in milliseconds.
    pub fn frame_ms(self) -> (r: u16)
        ensures
            r == frame_duration_ms(profile_frame_duration(self)),
    {
        match self.frame_duration() {
            OpusFrameDuration::Ms10 => 10,
            OpusFrameDuration::Ms20 => 20,
            OpusFrameDuration::Ms40 => 40,
            OpusFrameDuration::Ms60 => 60,
        }
    }

    /// Whether this profile carries two channels.
    pub fn is_stereo(self) -> (r: bool)
        ensures
            r == (profile_channels(self) == OpusChannels::Stereo),
    {
        match self.channels() {
            OpusChannels::Stereo => true,
            OpusChannels::Mono => false,
        }
    }

    /// The complete encoder configuration of this profile.
    pub fn opus_config(self) -> (r: OpusConfig)
        ensures
            r == profile_config(self),
    {
        OpusConfig {
            sample_rate: OpusSampleRate::Hz48000,
            channels: self.channels(),
            frame_duration: self.frame_duration(),
            application: self.application(),
            bitrate_kbps: Some(self.bitrate_kbps()),
            complexity: match self {
                StreamProfile::VoiceAgentMono10ms => 5,
                StreamProfile::VoiceMono20ms => 9,
                _ => 10,
            },
            dtx: false,
            fec: match self {
                StreamProfile::VoiceMono20ms => true,
                _ => false,
            },
        }
    }
}

/// A profile's configuration agrees with each of its accessors, and a
/// profile's name says how many channels it carries: the stereo profiles
/// resolve to two channels and the voice profiles to one.
pub proof fn lemma_config_agrees_with_profile(profile: StreamProfile)
    ensures
        profile_config(profile).channels == profile_channels(profile),
        profile_config(profile).frame_duration == profile_frame_duration(profile),
        profile_config(profile).application == profile_application(profile),
        profile_config(profile).bitrate_kbps == Some(profile_bitrate_kbps(profile)),
        profile_config(profile).sample_rate == OpusSampleRate::Hz48000,
        (profile_channels(profile) == OpusChannels::Stereo) <==> !(profile
            == StreamProfile::VoiceMono20ms || profile == StreamProfile::VoiceAgentMono10ms),
{
}


/// The frame length in milliseconds that a profile's name carries.
pub open spec fn profile_name_ms(profile: StreamProfile) -> u16 {
    match profile {
        StreamProfile::VoiceMono20ms => 20,
        StreamProfile::VoiceAgentMono10ms => 10,
        StreamProfile::MusicStereo20ms => 20,
        StreamProfile::MusicStereo10ms => 10,
        StreamProfile::BroadcastStereo20ms => 20,
        StreamProfile::HifiStereo20ms => 20,
    }
}

/// Every profile encodes frames of the length its name says: the 10 ms
/// profiles use 10 ms Opus frames and the 20 ms profiles 20 ms frames, in
/// the accessor and in the full configuration alike.
pub proof fn lemma_profile_frames_match_their_names(profile: StreamProfile)
    ensures
        frame_duration_ms(profile_frame_duration(profile)) == profile_name_ms(profile),
        frame_duration_ms(profile_config(profile).frame_duration) == profile_name_ms(profile),
        profile_name_ms(profile) == 10 <==> profile_frame_duration(profile)
            == OpusFrameDuration::Ms10,
        profile_name_ms(profile) == 20 <==> profile_frame_duration(profile)
            == OpusFrameDuration::Ms20,
{
}
} // verus!
