//! Capture selection semantics; control-plane only.

use vstd::prelude::*;

use crate::capture::identity::StableSourceId;
use crate::frame::Platform;

verus! {

/// Selects a physical input device.
#[derive(Debug, Default, PartialEq, Eq)]
pub enum InputDeviceSelector {
    #[default]
    Default,
    StableId(String),
}

/// What a capture backend is asked to open.
#[derive(Debug, Default, PartialEq, Eq)]
pub enum CaptureMode {
    #[default]
    SystemMix,
    Application(String),
    Process(u32),
    ExactApplication { process_id: u32, stable_id: StableSourceId },
    ExactApplicationStable { stable_id: StableSourceId },
    InputDevice(InputDeviceSelector),
}

impl Clone for InputDeviceSelector {
    fn clone(&self) -> (r: Self)
        ensures
            r == *self,
    {
        match self {
            InputDeviceSelector::Default => InputDeviceSelector::Default,
            InputDeviceSelector::StableId(id) => InputDeviceSelector::StableId(id.clone()),
        }
    }
}

impl Clone for CaptureMode {
    fn clone(&self) -> (r: Self)
        ensures
            r == *self,
    {
        match self {
            CaptureMode::SystemMix => CaptureMode::SystemMix,
            CaptureMode::Application(name) => CaptureMode::Application(name.clone()),
            CaptureMode::Process(process_id) => CaptureMode::Process(*process_id),
            CaptureMode::ExactApplication { process_id, stable_id } => CaptureMode::ExactApplication {
                process_id: *process_id,
                stable_id: stable_id.clone(),
            },
            CaptureMode::ExactApplicationStable { stable_id } => CaptureMode::ExactApplicationStable {
                stable_id: stable_id.clone(),
            },
            CaptureMode::InputDevice(selector) => CaptureMode::InputDevice(selector.clone()),
        }
    }
}

/// How long a discovered selector may be reused without rediscovery.
#[derive(Debug, Clone, Copy, PartialEq, Eq, Structural)]
pub enum SelectorPersistenceScope {
    ProcessLifetime,
    ApplicationIdentity,
    DeviceIdentity,
    SessionDefaultDevice,
    PlatformIdentity,
}

/// The native process boundary a selector represents.
#[derive(Debug, Clone, Copy, PartialEq, Eq, Structural)]
pub enum ProcessTreeScope {
    SelectedProcessOnly,
    SelectedProcessAndDescendants,
    ApplicationIdentity,
    NotApplicable,
}

/// Reuse scope of a capture mode.
pub open spec fn mode_persistence_scope(mode: CaptureMode) -> SelectorPersistenceScope {
    match mode {
        CaptureMode::SystemMix => SelectorPersistenceScope::PlatformIdentity,
        CaptureMode::Application(_) | CaptureMode::ExactApplicationStable { .. } =>
            SelectorPersistenceScope::ApplicationIdentity,
        CaptureMode::Process(_) | CaptureMode::ExactApplication { .. } =>
            SelectorPersistenceScope::ProcessLifetime,
        CaptureMode::InputDevice(InputDeviceSelector::Default) =>
            SelectorPersistenceScope::SessionDefaultDevice,
        CaptureMode::InputDevice(InputDeviceSelector::StableId(_)) =>
            SelectorPersistenceScope::DeviceIdentity,
    }
}

/// Process scope a capture mode requests from the native backend of `platform`.
pub open spec fn mode_process_tree_scope(mode: CaptureMode, platform: Platform) -> ProcessTreeScope {
    match mode {
        CaptureMode::Process(_) | CaptureMode::ExactApplication { .. } => if platform
            == Platform::Windows {
            ProcessTreeScope::SelectedProcessAndDescendants
        } else {
            ProcessTreeScope::SelectedProcessOnly
        },
        CaptureMode::Application(_) | CaptureMode::ExactApplicationStable { .. } =>
            ProcessTreeScope::ApplicationIdentity,
        CaptureMode::SystemMix | CaptureMode::InputDevice(_) => ProcessTreeScope::NotApplicable,
    }
}

impl CaptureMode {
    /// Describes how long the selector may be reused without rediscovery.
    ///
    /// This is control-plane metadata. It never authorizes a backend to follow
    /// a replacement process or substitute a default device.
    pub fn selector_persistence_scope(&self) -> (r: SelectorPersistenceScope)
        ensures
            r == mode_persistence_scope(*self),
    {
        match self {
            CaptureMode::SystemMix => SelectorPersistenceScope::PlatformIdentity,
            CaptureMode::Application(_) | CaptureMode::ExactApplicationStable { .. } => {
                SelectorPersistenceScope::ApplicationIdentity
            },
            CaptureMode::Process(_) | CaptureMode::ExactApplication { .. } => {
                SelectorPersistenceScope::ProcessLifetime
            },
            CaptureMode::InputDevice(InputDeviceSelector::Default) => {
                SelectorPersistenceScope::SessionDefaultDevice
            },
            CaptureMode::InputDevice(InputDeviceSelector::StableId(_)) => {
                SelectorPersistenceScope::DeviceIdentity
            },
        }
    }

    /// Reports the process scope requested from the native backend.
    pub fn process_tree_scope(&self, platform: Platform) -> (r: ProcessTreeScope)
        ensures
            r == mode_process_tree_scope(*self, platform),
    {
        match self {
            CaptureMode::Process(_) | CaptureMode::ExactApplication { .. } => {
                if platform == Platform::Windows {
                    ProcessTreeScope::SelectedProcessAndDescendants
                } else {
                    ProcessTreeScope::SelectedProcessOnly
                }
            },
            CaptureMode::Application(_) | CaptureMode::ExactApplicationStable { .. } => {
                ProcessTreeScope::ApplicationIdentity
            },
            CaptureMode::SystemMix | CaptureMode::InputDevice(_) => ProcessTreeScope::NotApplicable,
        }
    }
}

} // verus!
