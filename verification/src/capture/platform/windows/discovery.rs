//! Source discovery on Windows: the system mix, capture endpoints, and one
//! application source per audio session of a still-running process
//! incarnation.

use vstd::prelude::*;

use crate::capture::identity::{CaptureSource, SourceKind, SourceState, StableSourceId};
use crate::capture::platform::windows::capture_loop::CAPTURE_CHANNEL_COUNT;
use crate::capture::platform::windows::process_identity::{fingerprint_key, ProcessInstanceFingerprint};
use crate::frame::Platform;
use crate::text::{decimal_digits, push_decimal_u64, push_str};

verus! {

/// Sample rate reported for sources whose format is not read.
pub const SAMPLE_RATE_HZ: u32 = 48_000;

/// The system mix source every Windows discovery lists first.
pub fn windows_system_mix_source() -> (r: CaptureSource)
    ensures
        r.stable_id.platform == Platform::Windows,
        r.stable_id.kind == SourceKind::SystemMix,
        r.stable_id.stable_key@ == "system:mix"@,
        r.name@ == "System Mix"@,
        r.process_id is None,
        r.app_id is None,
        r.device_uid is None,
        r.state == SourceState::Available,
        r.sample_rate_hz == SAMPLE_RATE_HZ,
        r.channels == CAPTURE_CHANNEL_COUNT as u16,
{
    let mut key = String::new();
    push_str(&mut key, "system:mix");
    let mut name = String::new();
    push_str(&mut name, "System Mix");
    CaptureSource {
        stable_id: StableSourceId::new(Platform::Windows, SourceKind::SystemMix, key),
        name,
        process_id: None,
        app_id: None,
        device_uid: None,
        state: SourceState::Available,
        sample_rate_hz: SAMPLE_RATE_HZ,
        channels: CAPTURE_CHANNEL_COUNT as u16,
    }
}

/// The source of one capture endpoint, keyed by its device identifier and
/// named by its friendly name (else its identifier), at its mix format when
/// that was read (else 48 kHz stereo).
pub fn wasapi_input_source(
    device_id: String,
    friendly_name: Option<String>,
    format: Option<(u32, u16)>,
) -> (r: CaptureSource)
    ensures
        r.stable_id.platform == Platform::Windows,
        r.stable_id.kind == SourceKind::InputDevice,
        r.stable_id.stable_key@ == device_id@,
        r.name@ == (match friendly_name {
            Some(name) => name@,
            None => device_id@,
        }),
        r.process_id is None,
        r.app_id is None,
        r.device_uid matches Some(uid) && uid@ == device_id@,
        r.state == SourceState::Available,
        r.sample_rate_hz == (match format {
            Some((rate, _)) => rate,
            None => SAMPLE_RATE_HZ,
        }),
        r.channels == (match format {
            Some((_, channels)) => channels,
            None => CAPTURE_CHANNEL_COUNT as u16,
        }),
{
    let name = match friendly_name {
        Some(name) => name,
        None => device_id.clone(),
    };
    let (sample_rate_hz, channels) = match format {
        Some((rate, channels)) => (rate, channels),
        None => (SAMPLE_RATE_HZ, CAPTURE_CHANNEL_COUNT as u16),
    };
    let uid = device_id.clone();
    CaptureSource {
        stable_id: StableSourceId::new(Platform::Windows, SourceKind::InputDevice, device_id),
        name,
        process_id: None,
        app_id: None,
        device_uid: Some(uid),
        state: SourceState::Available,
        sample_rate_hz,
        channels,
    }
}

/// What the host read of one audio session, in the order it reads it: the
/// owning process, its creation time, whether the session is active, the
/// stem of its image path and its package application identifier when the
/// process could be opened, and its creation time read again afterwards.
/// A reading that failed is `None`.
#[derive(Debug)]
pub struct WasapiSessionReading {
    pub process_id: u32,
    pub creation_time_100ns: Option<u64>,
    pub active: Option<bool>,
    pub image_stem: Option<String>,
    pub application_id: Option<String>,
    pub confirmed_creation_time_100ns: Option<u64>,
}

/// Display name of a process whose image name could not be read.
pub open spec fn unnamed_process_text(process_id: u32) -> Seq<char> {
    "pid-"@ + decimal_digits(process_id as nat)
}

/// Whether a session yields an application source: it belongs to a real
/// process other than the host's, whose creation time was read, whose
/// state was read, and whose creation time reads the same afterwards (the
/// name and identifier came from that same incarnation).
pub open spec fn session_listed(reading: WasapiSessionReading, current_process_id: u32) -> bool {
    &&& reading.process_id != 0
    &&& reading.process_id != current_process_id
    &&& reading.creation_time_100ns is Some
    &&& reading.active is Some
    &&& reading.confirmed_creation_time_100ns == reading.creation_time_100ns
}

/// The application source of one audio session, when it is listed: keyed by
/// the process incarnation, playing when the session is active and silent
/// otherwise, named by its image stem (else `pid-{pid}`), at 48 kHz stereo.
pub fn wasapi_session_source(reading: WasapiSessionReading, current_process_id: u32) -> (r: Option<
    CaptureSource,
>)
    ensures
        session_listed(reading, current_process_id) <==> r is Some,
        r matches Some(source) ==> {
            &&& source.stable_id.platform == Platform::Windows
            &&& source.stable_id.kind == SourceKind::Application
            &&& source.stable_id.stable_key@ == fingerprint_key(
                reading.process_id as nat,
                reading.creation_time_100ns->0 as nat,
            )
            &&& source.name@ == (match reading.image_stem {
                Some(stem) => stem@,
                None => unnamed_process_text(reading.process_id),
            })
            &&& source.process_id == Some(reading.process_id)
            &&& source.app_id == reading.application_id
            &&& source.device_uid is None
            &&& source.state == (if reading.active == Some(true) {
                SourceState::Playing
            } else {
                SourceState::Silent
            })
            &&& source.sample_rate_hz == SAMPLE_RATE_HZ
            &&& source.channels == CAPTURE_CHANNEL_COUNT as u16
        },
{
    let process_id = reading.process_id;
    if process_id == 0 || process_id == current_process_id {
        return None;
    }
    let creation_time_100ns = match reading.creation_time_100ns {
        Some(time) => time,
        None => {
            return None;
        },
    };
    let fingerprint = ProcessInstanceFingerprint::new(process_id, creation_time_100ns);
    let active = match reading.active {
        Some(active) => active,
        None => {
            return None;
        },
    };
    let state = if active {
        SourceState::Playing
    } else {
        SourceState::Silent
    };
    match reading.confirmed_creation_time_100ns {
        Some(time) => {
            if time != creation_time_100ns {
                return None;
            }
        },
        None => {
            return None;
        },
    }
    let name = match reading.image_stem {
        Some(stem) => stem,
        None => {
            let mut text = String::new();
            push_str(&mut text, "pid-");
            push_decimal_u64(&mut text, process_id as u64);
            text
        },
    };
    Some(
        CaptureSource {
            stable_id: StableSourceId::new(
                Platform::Windows,
                SourceKind::Application,
                fingerprint.stable_key(),
            ),
            name,
            process_id: Some(process_id),
            app_id: reading.application_id,
            device_uid: None,
            state,
            sample_rate_hz: SAMPLE_RATE_HZ,
            channels: CAPTURE_CHANNEL_COUNT as u16,
        },
    )
}

/// The sources Windows discovery lists: the system mix first, then, when
/// COM could be initialised, the capture endpoints and the application
/// sessions.
pub fn discover_sources_windows(
    com_available: bool,
    input_sources: Vec<CaptureSource>,
    session_sources: Vec<CaptureSource>,
) -> (r: Vec<CaptureSource>)
    ensures
        r@.len() >= 1,
        r@[0].stable_id.kind == SourceKind::SystemMix,
        r@[0].stable_id.stable_key@ == "system:mix"@,
        com_available ==> r@ == seq![r@[0]] + input_sources@ + session_sources@,
        !com_available ==> r@.len() == 1,
{
    let mut sources: Vec<CaptureSource> = Vec::new();
    sources.push(windows_system_mix_source());
    if !com_available {
        return sources;
    }
    let ghost mix = sources@[0];
    let mut inputs = input_sources;
    let mut sessions = session_sources;
    sources.append(&mut inputs);
    sources.append(&mut sessions);
    assert(sources@ =~= seq![mix] + input_sources@ + session_sources@);
    sources
}

} // verus!
