//! Stable source identity and source discovery state.

use vstd::prelude::*;

use crate::capture::authorization::SourceIdentityStrength;
use crate::capture::selection::{ProcessTreeScope, SelectorPersistenceScope};
use crate::frame::{Platform, SourceId};
use crate::text::{bytes_start_with, starts_with};
use vstd::utf8::encode_utf8;

verus! {

/// The kind of thing a capture source is.
#[derive(Debug, Clone, Copy, PartialEq, Eq, Hash, Structural)]
pub enum SourceKind {
    Application,
    OutputDevice,
    InputDevice,
    SystemMix,
}

/// Observed activity of a discovered source.
#[derive(Debug, Clone, Copy, PartialEq, Eq, Hash, Structural)]
pub enum SourceState {
    Available,
    Playing,
    Silent,
    Unavailable,
    PermissionBlocked,
}

/// Platform-scoped stable identity of one capture source.
#[derive(Debug, PartialEq, Eq, Hash)]
pub struct StableSourceId {
    pub platform: Platform,
    pub kind: SourceKind,
    pub stable_key: String,
}

/// Value of a stable identity: platform, kind and the characters of the key.
pub struct StableSourceIdView {
    pub platform: Platform,
    pub kind: SourceKind,
    pub stable_key: Seq<char>,
}

impl View for StableSourceId {
    type V = StableSourceIdView;

    open spec fn view(&self) -> StableSourceIdView {
        StableSourceIdView { platform: self.platform, kind: self.kind, stable_key: self.stable_key@ }
    }
}

impl Clone for StableSourceId {
    fn clone(&self) -> (r: Self)
        ensures
            r == *self,
    {
        StableSourceId {
            platform: self.platform,
            kind: self.kind,
            stable_key: self.stable_key.clone(),
        }
    }
}

/// FNV-1a 64-bit offset basis.
pub const FNV1A_OFFSET_BASIS: u64 = 0xcbf2_9ce4_8422_2325;

/// FNV-1a 64-bit prime.
pub const FNV1A_PRIME: u64 = 0x0000_0100_0000_01b3;

/// One FNV-1a round: xor the byte in, then multiply modulo 2^64.
pub open spec fn fnv1a_round(hash: u64, byte: u8) -> u64 {
    vstd::wrapping::u64_specs::wrapping_mul(hash ^ (byte as u64), FNV1A_PRIME)
}

/// FNV-1a continued from `hash` over every byte of `bytes`, first to last.
pub open spec fn fnv1a(hash: u64, bytes: Seq<u8>) -> u64
    decreases bytes.len(),
{
    if bytes.len() == 0 {
        hash
    } else {
        fnv1a_round(fnv1a(hash, bytes.drop_last()), bytes.last())
    }
}

/// Label hashed for each platform.
pub open spec fn platform_label(platform: Platform) -> Seq<char> {
    match platform {
        Platform::Macos => "macos"@,
        Platform::Windows => "windows"@,
        Platform::Linux => "linux"@,
        Platform::Ios => "ios"@,
        Platform::Android => "android"@,
        Platform::Web => "web"@,
        Platform::Unknown => "unknown"@,
    }
}

/// Label hashed for each source kind.
pub open spec fn kind_label(kind: SourceKind) -> Seq<char> {
    match kind {
        SourceKind::Application => "application"@,
        SourceKind::OutputDevice => "output-device"@,
        SourceKind::InputDevice => "input-device"@,
        SourceKind::SystemMix => "system-mix"@,
    }
}

/// The captured-frame identity derived from a stable identity: FNV-1a over
/// the platform label, a zero byte, the kind label, a zero byte and the key.
pub open spec fn derived_source_id(id: StableSourceIdView) -> u64 {
    fnv1a(
        fnv1a(
            fnv1a(
                fnv1a(
                    fnv1a(FNV1A_OFFSET_BASIS, encode_utf8(platform_label(id.platform))),
                    seq![0u8],
                ),
                encode_utf8(kind_label(id.kind)),
            ),
            seq![0u8],
        ),
        encode_utf8(id.stable_key),
    )
}

fn hash_bytes(hash: u64, bytes: &[u8]) -> (r: u64)
    ensures
        r == fnv1a(hash, bytes@),
{
    let mut current = hash;
    let mut index: usize = 0;
    while index < bytes.len()
        invariant
            index <= bytes.len(),
            current == fnv1a(hash, bytes@.subrange(0, index as int)),
        decreases bytes.len() - index,
    {
        assert(bytes@.subrange(0, index + 1).drop_last() =~= bytes@.subrange(0, index as int));
        current = (current ^ (bytes[index] as u64)).wrapping_mul(FNV1A_PRIME);
        index = index + 1;
    }
    assert(bytes@.subrange(0, bytes.len() as int) =~= bytes@);
    current
}

fn platform_label_text(platform: Platform) -> (r: &'static str)
    ensures
        r@ == platform_label(platform),
{
    match platform {
        Platform::Macos => "macos",
        Platform::Windows => "windows",
        Platform::Linux => "linux",
        Platform::Ios => "ios",
        Platform::Android => "android",
        Platform::Web => "web",
        Platform::Unknown => "unknown",
    }
}

fn kind_label_text(kind: SourceKind) -> (r: &'static str)
    ensures
        r@ == kind_label(kind),
{
    match kind {
        SourceKind::Application => "application",
        SourceKind::OutputDevice => "output-device",
        SourceKind::InputDevice => "input-device",
        SourceKind::SystemMix => "system-mix",
    }
}

impl StableSourceId {
    /// Creates a stable identity from its three parts.
    pub fn new(platform: Platform, kind: SourceKind, stable_key: String) -> (r: Self)
        ensures
            r.platform == platform,
            r.kind == kind,
            r.stable_key == stable_key,
    {
        StableSourceId { platform, kind, stable_key }
    }

    /// Whether two identities name the same source (same platform, kind and key).
    pub fn same_as(&self, other: &StableSourceId) -> (r: bool)
        ensures
            r == (self@ == other@),
    {
        self.platform == other.platform && self.kind == other.kind && self.stable_key
            == other.stable_key
    }

    /// Derives the immutable captured-frame identity for this resolved source.
    ///
    /// The algorithm is explicit and version-stable; it does not depend on
    /// Rust's implementation-defined default hasher.
    pub fn source_id(&self) -> (r: SourceId)
        ensures
            r.0 == derived_source_id(self@),
    {
        let zero: [u8; 1] = [0u8];
        assert(zero@ =~= seq![0u8]);
        let hash = hash_bytes(FNV1A_OFFSET_BASIS, platform_label_text(self.platform).as_bytes());
        let hash = hash_bytes(hash, zero.as_slice());
        let hash = hash_bytes(hash, kind_label_text(self.kind).as_bytes());
        let hash = hash_bytes(hash, zero.as_slice());
        SourceId(hash_bytes(hash, self.stable_key.as_str().as_bytes()))
    }
}

/// One discovered capture source.
#[derive(Debug)]
pub struct CaptureSource {
    pub stable_id: StableSourceId,
    pub name: String,
    pub process_id: Option<u32>,
    pub app_id: Option<String>,
    pub device_uid: Option<String>,
    pub state: SourceState,
    pub sample_rate_hz: u32,
    pub channels: u16,
}

fn clone_optional_text(value: &Option<String>) -> (r: Option<String>)
    ensures
        r == *value,
{
    match value {
        Some(text) => Some(text.clone()),
        None => None,
    }
}

impl Clone for CaptureSource {
    fn clone(&self) -> (r: Self)
        ensures
            r == *self,
    {
        CaptureSource {
            stable_id: self.stable_id.clone(),
            name: self.name.clone(),
            process_id: self.process_id,
            app_id: clone_optional_text(&self.app_id),
            device_uid: clone_optional_text(&self.device_uid),
            state: self.state,
            sample_rate_hz: self.sample_rate_hz,
            channels: self.channels,
        }
    }
}

/// Whether a Linux application identity was derived from persistent PipeWire
/// metadata (`pw-app:` or `pw-node:` keys).
pub open spec fn is_persistent_pipewire_application(id: StableSourceIdView) -> bool {
    id.platform == Platform::Linux && (bytes_start_with(encode_utf8(id.stable_key), encode_utf8("pw-app:"@))
        || bytes_start_with(encode_utf8(id.stable_key), encode_utf8("pw-node:"@)))
}

/// Identity strength of a discovered source.
pub open spec fn spec_identity_strength(source: CaptureSource) -> SourceIdentityStrength {
    match source.stable_id.kind {
        SourceKind::Application => if source.app_id.is_some() && source.process_id.is_some() {
            SourceIdentityStrength::ApplicationIdAndProcessId
        } else if source.app_id.is_some() {
            SourceIdentityStrength::StableApplicationId
        } else if source.process_id.is_some() {
            SourceIdentityStrength::ProcessId
        } else {
            SourceIdentityStrength::PlatformStableId
        },
        SourceKind::InputDevice | SourceKind::OutputDevice => if source.device_uid.is_some() {
            SourceIdentityStrength::StableDeviceUid
        } else {
            SourceIdentityStrength::PlatformStableId
        },
        SourceKind::SystemMix => SourceIdentityStrength::PlatformStableId,
    }
}

/// How long a discovered selector stays valid without rediscovery.
pub open spec fn spec_source_persistence_scope(source: CaptureSource) -> Option<SelectorPersistenceScope> {
    match source.stable_id.kind {
        SourceKind::SystemMix => Some(SelectorPersistenceScope::PlatformIdentity),
        SourceKind::InputDevice => if source.device_uid.is_some() {
            Some(SelectorPersistenceScope::DeviceIdentity)
        } else {
            Some(SelectorPersistenceScope::SessionDefaultDevice)
        },
        SourceKind::Application => if source.app_id.is_some() || is_persistent_pipewire_application(
            source.stable_id@,
        ) {
            Some(SelectorPersistenceScope::ApplicationIdentity)
        } else if source.process_id.is_some() {
            Some(SelectorPersistenceScope::ProcessLifetime)
        } else {
            None
        },
        SourceKind::OutputDevice => None,
    }
}

/// The native process boundary a discovered source represents.
pub open spec fn spec_source_process_tree_scope(source: CaptureSource) -> Option<ProcessTreeScope> {
    match source.stable_id.kind {
        SourceKind::Application => if source.app_id.is_some() || is_persistent_pipewire_application(
            source.stable_id@,
        ) {
            Some(ProcessTreeScope::ApplicationIdentity)
        } else if source.process_id.is_some() {
            if source.stable_id.platform == Platform::Windows {
                Some(ProcessTreeScope::SelectedProcessAndDescendants)
            } else {
                Some(ProcessTreeScope::SelectedProcessOnly)
            }
        } else {
            None
        },
        _ => Some(ProcessTreeScope::NotApplicable),
    }
}

fn persistent_pipewire_application(id: &StableSourceId) -> (r: bool)
    ensures
        r == is_persistent_pipewire_application(id@),
{
    if id.platform != Platform::Linux {
        return false;
    }
    let key = id.stable_key.as_str();
    starts_with(key, "pw-app:") || starts_with(key, "pw-node:")
}

impl CaptureSource {
    /// Returns how strongly this source's identity pins one application,
    /// process or device.
    pub fn identity_strength(&self) -> (r: SourceIdentityStrength)
        ensures
            r == spec_identity_strength(*self),
    {
        match self.stable_id.kind {
            SourceKind::Application => {
                if self.app_id.is_some() && self.process_id.is_some() {
                    SourceIdentityStrength::ApplicationIdAndProcessId
                } else if self.app_id.is_some() {
                    SourceIdentityStrength::StableApplicationId
                } else if self.process_id.is_some() {
                    SourceIdentityStrength::ProcessId
                } else {
                    SourceIdentityStrength::PlatformStableId
                }
            },
            SourceKind::InputDevice | SourceKind::OutputDevice => {
                if self.device_uid.is_some() {
                    SourceIdentityStrength::StableDeviceUid
                } else {
                    SourceIdentityStrength::PlatformStableId
                }
            },
            SourceKind::SystemMix => SourceIdentityStrength::PlatformStableId,
        }
    }

    /// Reports how long this discovered selector can be reused without
    /// rediscovery. The capture owner remains authoritative for opening it.
    pub fn selector_persistence_scope(&self) -> (r: Option<SelectorPersistenceScope>)
        ensures
            r == spec_source_persistence_scope(*self),
    {
        match self.stable_id.kind {
            SourceKind::SystemMix => Some(SelectorPersistenceScope::PlatformIdentity),
            SourceKind::InputDevice => {
                if self.device_uid.is_some() {
                    Some(SelectorPersistenceScope::DeviceIdentity)
                } else {
                    Some(SelectorPersistenceScope::SessionDefaultDevice)
                }
            },
            SourceKind::Application => {
                if self.app_id.is_some() || persistent_pipewire_application(&self.stable_id) {
                    Some(SelectorPersistenceScope::ApplicationIdentity)
                } else if self.process_id.is_some() {
                    Some(SelectorPersistenceScope::ProcessLifetime)
                } else {
                    None
                }
            },
            SourceKind::OutputDevice => None,
        }
    }

    /// Reports the native process boundary represented by this discovery result.
    pub fn process_tree_scope(&self) -> (r: Option<ProcessTreeScope>)
        ensures
            r == spec_source_process_tree_scope(*self),
    {
        match self.stable_id.kind {
            SourceKind::Application => {
                if self.app_id.is_some() || persistent_pipewire_application(&self.stable_id) {
                    Some(ProcessTreeScope::ApplicationIdentity)
                } else if self.process_id.is_some() {
                    if self.stable_id.platform == Platform::Windows {
                        Some(ProcessTreeScope::SelectedProcessAndDescendants)
                    } else {
                        Some(ProcessTreeScope::SelectedProcessOnly)
                    }
                } else {
                    None
                }
            },
            _ => Some(ProcessTreeScope::NotApplicable),
        }
    }
}


/// An application source that carries an application id, or a persistent
/// PipeWire key, may be reused by that identity whatever process it was seen
/// in: its scope is the application identity and does not change with the
/// process id. A selector is bound to one process's lifetime only when the
/// source has a process and neither an application id nor a persistent key.
pub proof fn lemma_application_id_outlives_the_process(source: CaptureSource, other: Option<u32>)
    requires
        source.stable_id.kind == SourceKind::Application,
    ensures
        source.app_id.is_some() ==> spec_source_persistence_scope(source) == Some(
            SelectorPersistenceScope::ApplicationIdentity,
        ),
        is_persistent_pipewire_application(source.stable_id@) ==> spec_source_persistence_scope(
            source,
        ) == Some(SelectorPersistenceScope::ApplicationIdentity),
        source.app_id.is_some() || is_persistent_pipewire_application(source.stable_id@)
            ==> spec_source_persistence_scope(CaptureSource { process_id: other, ..source })
            == spec_source_persistence_scope(source),
        spec_source_persistence_scope(source) == Some(SelectorPersistenceScope::ProcessLifetime)
            <==> (source.process_id.is_some() && source.app_id.is_none()
            && !is_persistent_pipewire_application(source.stable_id@)),
{
}
} // verus!
