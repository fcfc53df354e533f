//! Explicit capture authorization evidence and open outcomes.

use vstd::prelude::*;

use crate::capture::events::SourceLifecycleEventKind;
use crate::capture::identity::{
    spec_identity_strength, CaptureSource, SourceKind, SourceState, StableSourceId,
    StableSourceIdView,
};
use crate::capture::selection::{CaptureMode, InputDeviceSelector};
use crate::frame::Platform;
use crate::text::{debug_quoted, debug_quoted_text, decimal_text, push_decimal_i64, push_str};

verus! {

/// How strongly a source identity pins what it names.
#[derive(Debug, Clone, Copy, PartialEq, Eq, Structural)]
pub enum SourceIdentityStrength {
    ApplicationIdAndProcessId,
    StableApplicationId,
    ProcessId,
    StableDeviceUid,
    PlatformStableId,
}

/// Availability of a capture class at snapshot time.
#[derive(Debug, Clone, Copy, PartialEq, Eq, Structural)]
pub enum CaptureCapabilityState {
    Available,
    Unavailable,
    Unsupported,
}

/// An operating-system permission state, as the platform reported it.
#[derive(Debug, Clone, Copy, PartialEq, Eq, Structural)]
pub enum PermissionObservation {
    Allowed,
    Denied,
    Restricted,
    NotDetermined,
    Revoked,
    NotObservable,
    NotApplicable,
}

/// An application capture policy, as the platform reported it.
#[derive(Debug, Clone, Copy, PartialEq, Eq, Structural)]
pub enum ApplicationPolicyObservation {
    Allowed,
    Denied,
    NotObservable,
    NotApplicable,
}

/// Whether the session granted capture of the source.
#[derive(Debug, Clone, Copy, PartialEq, Eq, Structural)]
pub enum CaptureSessionGrant {
    GrantedByExplicitSelection,
    Denied,
    NotEvaluated,
}

/// What exactly a capture covers.
#[derive(Debug, Clone, PartialEq, Eq)]
pub enum CaptureScope {
    ExactApplication { stable_id: String },
    ExactInputDevice { stable_id: String },
    ExactOutputDevice { stable_id: String },
    SystemMix,
}

/// The permission-observation generation attached to captured lineage.
#[derive(Debug, Clone, Copy, PartialEq, Eq, Structural)]
pub struct PermissionEpoch(pub u64);

impl PermissionEpoch {
    /// The first epoch.
    pub fn initial() -> (r: Self)
        ensures
            r.0 == 1,
    {
        PermissionEpoch(1)
    }

    /// Advances the local evidence epoch after an observed authorization change
    /// or an explicit source reopen; saturates at the maximum.
    pub fn next(self) -> (r: Self)
        ensures
            r.0 == (if self.0 == u64::MAX {
                u64::MAX
            } else {
                (self.0 + 1) as u64
            }),
    {
        PermissionEpoch(self.0.saturating_add(1))
    }
}

/// How an open attempt ended.
#[derive(Debug, Clone, Copy, PartialEq, Eq, Structural)]
pub enum CaptureOpenOutcome {
    NotAttempted,
    Succeeded,
    PermissionDenied,
    SourceUnavailable,
    BackendFailed,
}

/// Point-in-time authorization evidence for opening one exact capture source.
///
/// This is control-plane evidence, not callback state. Backends use
/// `NotObservable` when the operating system does not expose an authoritative
/// permission or policy result; a successful stream open is recorded
/// separately and is never relabeled as an OS permission preflight.
#[derive(Debug, Clone, PartialEq, Eq)]
pub struct CaptureAuthorizationSnapshot {
    pub capability: CaptureCapabilityState,
    pub os_permission: PermissionObservation,
    pub application_policy: ApplicationPolicyObservation,
    pub session_grant: CaptureSessionGrant,
    pub capture_scope: CaptureScope,
    pub identity_strength: SourceIdentityStrength,
    pub permission_epoch: PermissionEpoch,
    pub observed_at_ns: u64,
    pub open_outcome: CaptureOpenOutcome,
}

/// The scope a snapshot records for a source: exactly its stable key, by kind.
pub open spec fn spec_capture_scope(source: CaptureSource) -> CaptureScope {
    match source.stable_id.kind {
        SourceKind::Application => CaptureScope::ExactApplication {
            stable_id: source.stable_id.stable_key,
        },
        SourceKind::InputDevice => CaptureScope::ExactInputDevice {
            stable_id: source.stable_id.stable_key,
        },
        SourceKind::OutputDevice => CaptureScope::ExactOutputDevice {
            stable_id: source.stable_id.stable_key,
        },
        SourceKind::SystemMix => CaptureScope::SystemMix,
    }
}

/// The application policy a snapshot records when none was observed.
pub open spec fn spec_default_application_policy(kind: SourceKind) -> ApplicationPolicyObservation {
    match kind {
        SourceKind::Application => ApplicationPolicyObservation::NotObservable,
        _ => ApplicationPolicyObservation::NotApplicable,
    }
}

/// The snapshot recorded for `source` with the given observations.
pub open spec fn spec_snapshot(
    source: CaptureSource,
    session_grant: CaptureSessionGrant,
    permission_epoch: PermissionEpoch,
    os_permission: PermissionObservation,
    application_policy: ApplicationPolicyObservation,
    open_outcome: CaptureOpenOutcome,
    observed_at_ns: u64,
) -> CaptureAuthorizationSnapshot {
    CaptureAuthorizationSnapshot {
        capability: if source.state == SourceState::Unavailable {
            CaptureCapabilityState::Unavailable
        } else {
            CaptureCapabilityState::Available
        },
        os_permission,
        application_policy,
        session_grant,
        capture_scope: spec_capture_scope(source),
        identity_strength: spec_identity_strength(source),
        permission_epoch,
        observed_at_ns,
        open_outcome,
    }
}

impl CaptureAuthorizationSnapshot {
    /// Records the evidence available after an explicitly selected source
    /// opens. `observed_at_ns` is the monotonic clock reading of the snapshot.
    pub fn after_successful_open(
        source: &CaptureSource,
        session_grant: CaptureSessionGrant,
        permission_epoch: PermissionEpoch,
        observed_at_ns: u64,
    ) -> (r: Self)
        ensures
            r == spec_snapshot(
                *source,
                session_grant,
                permission_epoch,
                PermissionObservation::NotObservable,
                spec_default_application_policy(source.stable_id.kind),
                CaptureOpenOutcome::Succeeded,
                observed_at_ns,
            ),
    {
        Self::from_open_outcome(
            source,
            session_grant,
            permission_epoch,
            CaptureOpenOutcome::Succeeded,
            observed_at_ns,
        )
    }

    /// Records a backend open failure without guessing that permission was denied.
    pub fn after_failed_open(
        source: &CaptureSource,
        session_grant: CaptureSessionGrant,
        permission_epoch: PermissionEpoch,
        observed_at_ns: u64,
    ) -> (r: Self)
        ensures
            r == spec_snapshot(
                *source,
                session_grant,
                permission_epoch,
                PermissionObservation::NotObservable,
                spec_default_application_policy(source.stable_id.kind),
                CaptureOpenOutcome::BackendFailed,
                observed_at_ns,
            ),
    {
        Self::from_open_outcome(
            source,
            session_grant,
            permission_epoch,
            CaptureOpenOutcome::BackendFailed,
            observed_at_ns,
        )
    }

    /// Records a source that was resolved but not opened because another
    /// required source failed first.
    pub fn before_open(
        source: &CaptureSource,
        session_grant: CaptureSessionGrant,
        permission_epoch: PermissionEpoch,
        observed_at_ns: u64,
    ) -> (r: Self)
        ensures
            r == spec_snapshot(
                *source,
                session_grant,
                permission_epoch,
                PermissionObservation::NotObservable,
                spec_default_application_policy(source.stable_id.kind),
                CaptureOpenOutcome::NotAttempted,
                observed_at_ns,
            ),
    {
        Self::from_open_outcome(
            source,
            session_grant,
            permission_epoch,
            CaptureOpenOutcome::NotAttempted,
            observed_at_ns,
        )
    }

    /// Records platform authorization observations without inferring them from
    /// a generic backend result. Callers pass `NotObservable` when their
    /// platform has no authoritative query for the requested capture class.
    pub fn from_open_observations(
        source: &CaptureSource,
        session_grant: CaptureSessionGrant,
        permission_epoch: PermissionEpoch,
        os_permission: PermissionObservation,
        application_policy: ApplicationPolicyObservation,
        open_outcome: CaptureOpenOutcome,
        observed_at_ns: u64,
    ) -> (r: Self)
        ensures
            r == spec_snapshot(
                *source,
                session_grant,
                permission_epoch,
                os_permission,
                application_policy,
                open_outcome,
                observed_at_ns,
            ),
    {
        let mut snapshot = Self::from_open_outcome(
            source,
            session_grant,
            permission_epoch,
            open_outcome,
            observed_at_ns,
        );
        snapshot.os_permission = os_permission;
        snapshot.application_policy = application_policy;
        snapshot
    }

    fn from_open_outcome(
        source: &CaptureSource,
        session_grant: CaptureSessionGrant,
        permission_epoch: PermissionEpoch,
        open_outcome: CaptureOpenOutcome,
        observed_at_ns: u64,
    ) -> (r: Self)
        ensures
            r == spec_snapshot(
                *source,
                session_grant,
                permission_epoch,
                PermissionObservation::NotObservable,
                spec_default_application_policy(source.stable_id.kind),
                open_outcome,
                observed_at_ns,
            ),
    {
        let (capture_scope, identity_strength, application_policy) = match source.stable_id.kind {
            SourceKind::Application => (
                CaptureScope::ExactApplication { stable_id: source.stable_id.stable_key.clone() },
                source.identity_strength(),
                ApplicationPolicyObservation::NotObservable,
            ),
            SourceKind::InputDevice => (
                CaptureScope::ExactInputDevice { stable_id: source.stable_id.stable_key.clone() },
                source.identity_strength(),
                ApplicationPolicyObservation::NotApplicable,
            ),
            SourceKind::OutputDevice => (
                CaptureScope::ExactOutputDevice { stable_id: source.stable_id.stable_key.clone() },
                source.identity_strength(),
                ApplicationPolicyObservation::NotApplicable,
            ),
            SourceKind::SystemMix => (
                CaptureScope::SystemMix,
                SourceIdentityStrength::PlatformStableId,
                ApplicationPolicyObservation::NotApplicable,
            ),
        };
        CaptureAuthorizationSnapshot {
            capability: if source.state == SourceState::Unavailable {
                CaptureCapabilityState::Unavailable
            } else {
                CaptureCapabilityState::Available
            },
            os_permission: PermissionObservation::NotObservable,
            application_policy,
            session_grant,
            capture_scope,
            identity_strength,
            permission_epoch,
            observed_at_ns,
            open_outcome,
        }
    }
}

/// One authoritative authorization-state transition observed by the host.
///
/// Only observations supplied by the platform owner are classified; a generic
/// backend error is never converted into permission state.
#[derive(Debug, Clone, Copy, PartialEq, Eq, Structural)]
pub struct CapturePermissionTransition {
    pub kind: SourceLifecycleEventKind,
    pub previous: PermissionObservation,
    pub current: PermissionObservation,
    pub permission_epoch: PermissionEpoch,
}

/// Control-plane owner for one source's observed authorization epoch.
///
/// Hosts poll the platform at their preferred cadence and feed the
/// authoritative result here. Equal observations produce no event; leaving
/// `Allowed` is a revocation and every other change is a permission change.
/// This type performs no OS query and is never used on an audio callback.
#[derive(Debug, Clone, Copy, PartialEq, Eq, Structural)]
pub struct CapturePermissionLifecycle {
    current: PermissionObservation,
    permission_epoch: PermissionEpoch,
}

/// Result of observing `current` in a lifecycle holding `previous` at
/// `epoch`: the transition, if any, and the observation and epoch held after.
pub open spec fn spec_observe(
    previous: PermissionObservation,
    epoch: PermissionEpoch,
    current: PermissionObservation,
) -> (Option<CapturePermissionTransition>, PermissionObservation, PermissionEpoch) {
    if previous == current {
        (None, previous, epoch)
    } else {
        let next = PermissionEpoch(
            if epoch.0 == u64::MAX {
                u64::MAX
            } else {
                (epoch.0 + 1) as u64
            },
        );
        (
            Some(
                CapturePermissionTransition {
                    kind: if previous == PermissionObservation::Allowed {
                        SourceLifecycleEventKind::PermissionRevoked
                    } else {
                        SourceLifecycleEventKind::PermissionChanged
                    },
                    previous,
                    current,
                    permission_epoch: next,
                },
            ),
            current,
            next,
        )
    }
}

impl CapturePermissionLifecycle {
    /// The observation the lifecycle currently holds.
    pub closed spec fn spec_current(self) -> PermissionObservation {
        self.current
    }

    /// The epoch the lifecycle currently holds.
    pub closed spec fn spec_epoch(self) -> PermissionEpoch {
        self.permission_epoch
    }

    /// A lifecycle at the initial epoch holding `current`.
    pub fn new(current: PermissionObservation) -> (r: Self)
        ensures
            r.spec_current() == current,
            r.spec_epoch() == PermissionEpoch(1),
    {
        CapturePermissionLifecycle { current, permission_epoch: PermissionEpoch::initial() }
    }

    /// The observation the lifecycle currently holds.
    pub fn current(self) -> (r: PermissionObservation)
        ensures
            r == self.spec_current(),
    {
        self.current
    }

    /// The epoch the lifecycle currently holds.
    pub fn permission_epoch(self) -> (r: PermissionEpoch)
        ensures
            r == self.spec_epoch(),
    {
        self.permission_epoch
    }

    /// Feeds one authoritative observation; returns the transition it causes,
    /// if any.
    pub fn observe(&mut self, current: PermissionObservation) -> (r: Option<
        CapturePermissionTransition,
    >)
        ensures
            (r, final(self).spec_current(), final(self).spec_epoch()) == spec_observe(
                old(self).spec_current(),
                old(self).spec_epoch(),
                current,
            ),
    {
        let previous = self.current;
        if previous == current {
            return None;
        }
        self.current = current;
        self.permission_epoch = self.permission_epoch.next();
        Some(
            CapturePermissionTransition {
                kind: if previous == PermissionObservation::Allowed && current
                    != PermissionObservation::Allowed {
                    SourceLifecycleEventKind::PermissionRevoked
                } else {
                    SourceLifecycleEventKind::PermissionChanged
                },
                previous,
                current,
                permission_epoch: self.permission_epoch,
            },
        )
    }
}

/// Repeating an observation is idempotent: it produces no transition and
/// leaves the observation and the epoch unchanged.
pub proof fn lemma_equal_observation_is_silent(
    previous: PermissionObservation,
    epoch: PermissionEpoch,
)
    ensures
        spec_observe(previous, epoch, previous) == (
            None::<CapturePermissionTransition>,
            previous,
            epoch,
        ),
{
}

/// Every change advances the epoch by one (below the maximum), so evidence
/// gathered under an earlier epoch is never reused; the transition carries the
/// previous and new observations and the new epoch.
pub proof fn lemma_change_advances_epoch(
    previous: PermissionObservation,
    epoch: PermissionEpoch,
    current: PermissionObservation,
)
    requires
        current != previous,
        epoch.0 < u64::MAX,
    ensures
        ({
            let (transition, held, next) = spec_observe(previous, epoch, current);
            &&& next.0 == epoch.0 + 1
            &&& held == current
            &&& transition is Some
            &&& transition->0.previous == previous
            &&& transition->0.current == current
            &&& transition->0.permission_epoch == next
        }),
{
}

/// A transition is a revocation exactly when it leaves `Allowed`.
pub proof fn lemma_revocation_is_leaving_allowed(
    previous: PermissionObservation,
    epoch: PermissionEpoch,
    current: PermissionObservation,
)
    requires
        current != previous,
    ensures
        (spec_observe(previous, epoch, current).0->0.kind
            == SourceLifecycleEventKind::PermissionRevoked) <==> previous
            == PermissionObservation::Allowed,
{
}

/// Epochs never move backward: observing anything keeps or raises the epoch.
pub proof fn lemma_epoch_is_monotonic(
    previous: PermissionObservation,
    epoch: PermissionEpoch,
    current: PermissionObservation,
)
    ensures
        spec_observe(previous, epoch, current).2.0 >= epoch.0,
{
}

/// Typed failures of capture setup and control.
#[derive(Debug, PartialEq, Eq)]
pub enum CaptureError {
    NotSupported,
    BackendInit(String),
    BackendSetupRequired { backend: &'static str, action: &'static str },
    PermissionDenied { operation: &'static str },
    BackendStatus { operation: &'static str, status_code: i32 },
    SourceUnavailable { stable_key: String },
    ModeUnsupported(CaptureMode),
    InvalidStreamCapacity,
    InvalidRuntimeEventCapacity,
    CaptureWorkerPanicked { worker: &'static str },
}

/// Name of a platform as it reads in a capture mode's text.
pub open spec fn platform_name(platform: Platform) -> Seq<char> {
    match platform {
        Platform::Macos => "Macos"@,
        Platform::Windows => "Windows"@,
        Platform::Linux => "Linux"@,
        Platform::Ios => "Ios"@,
        Platform::Android => "Android"@,
        Platform::Web => "Web"@,
        Platform::Unknown => "Unknown"@,
    }
}

/// Name of a source kind as it reads in a capture mode's text.
pub open spec fn source_kind_name(kind: SourceKind) -> Seq<char> {
    match kind {
        SourceKind::Application => "Application"@,
        SourceKind::OutputDevice => "OutputDevice"@,
        SourceKind::InputDevice => "InputDevice"@,
        SourceKind::SystemMix => "SystemMix"@,
    }
}

/// A stable identity written out field by field, in Rust's `Debug` form.
pub open spec fn stable_id_text(id: StableSourceIdView) -> Seq<char> {
    "StableSourceId { platform: "@ + platform_name(id.platform) + ", kind: "@
        + source_kind_name(id.kind) + ", stable_key: "@ + debug_quoted_text(id.stable_key)
        + " }"@
}

/// A capture mode written out variant and fields, in Rust's `Debug` form.
pub open spec fn capture_mode_text(mode: CaptureMode) -> Seq<char> {
    match mode {
        CaptureMode::SystemMix => "SystemMix"@,
        CaptureMode::Application(name) => "Application("@ + debug_quoted_text(name@) + ")"@,
        CaptureMode::Process(process_id) => "Process("@ + decimal_text(process_id as int) + ")"@,
        CaptureMode::ExactApplication { process_id, stable_id } => "ExactApplication { process_id: "@
            + decimal_text(process_id as int) + ", stable_id: "@ + stable_id_text(stable_id@)
            + " }"@,
        CaptureMode::ExactApplicationStable { stable_id } =>
            "ExactApplicationStable { stable_id: "@ + stable_id_text(stable_id@) + " }"@,
        CaptureMode::InputDevice(InputDeviceSelector::Default) => "InputDevice(Default)"@,
        CaptureMode::InputDevice(InputDeviceSelector::StableId(id)) => "InputDevice(StableId("@
            + debug_quoted_text(id@) + "))"@,
    }
}

fn push_platform_name(text: &mut String, platform: Platform)
    ensures
        final(text)@ == old(text)@ + platform_name(platform),
{
    let name = match platform {
        Platform::Macos => "Macos",
        Platform::Windows => "Windows",
        Platform::Linux => "Linux",
        Platform::Ios => "Ios",
        Platform::Android => "Android",
        Platform::Web => "Web",
        Platform::Unknown => "Unknown",
    };
    push_str(text, name);
}

fn push_source_kind_name(text: &mut String, kind: SourceKind)
    ensures
        final(text)@ == old(text)@ + source_kind_name(kind),
{
    let name = match kind {
        SourceKind::Application => "Application",
        SourceKind::OutputDevice => "OutputDevice",
        SourceKind::InputDevice => "InputDevice",
        SourceKind::SystemMix => "SystemMix",
    };
    push_str(text, name);
}

fn push_quoted(text: &mut String, value: &str)
    ensures
        final(text)@ == old(text)@ + debug_quoted_text(value@),
{
    let quoted = debug_quoted(value);
    push_str(text, quoted.as_str());
}

fn push_stable_id_text(text: &mut String, id: &StableSourceId)
    ensures
        final(text)@ == old(text)@ + stable_id_text(id@),
{
    push_str(text, "StableSourceId { platform: ");
    push_platform_name(text, id.platform);
    push_str(text, ", kind: ");
    push_source_kind_name(text, id.kind);
    push_str(text, ", stable_key: ");
    push_quoted(text, id.stable_key.as_str());
    push_str(text, " }");
}

/// Appends the text of `mode`: its variant and fields as Rust's `Debug`
/// writes them.
pub fn push_capture_mode_text(text: &mut String, mode: &CaptureMode)
    ensures
        final(text)@ == old(text)@ + capture_mode_text(*mode),
{
    match mode {
        CaptureMode::SystemMix => push_str(text, "SystemMix"),
        CaptureMode::Application(name) => {
            push_str(text, "Application(");
            push_quoted(text, name.as_str());
            push_str(text, ")");
        },
        CaptureMode::Process(process_id) => {
            push_str(text, "Process(");
            push_decimal_i64(text, *process_id as i64);
            push_str(text, ")");
        },
        CaptureMode::ExactApplication { process_id, stable_id } => {
            push_str(text, "ExactApplication { process_id: ");
            push_decimal_i64(text, *process_id as i64);
            push_str(text, ", stable_id: ");
            push_stable_id_text(text, stable_id);
            push_str(text, " }");
        },
        CaptureMode::ExactApplicationStable { stable_id } => {
            push_str(text, "ExactApplicationStable { stable_id: ");
            push_stable_id_text(text, stable_id);
            push_str(text, " }");
        },
        CaptureMode::InputDevice(InputDeviceSelector::Default) => {
            push_str(text, "InputDevice(Default)");
        },
        CaptureMode::InputDevice(InputDeviceSelector::StableId(id)) => {
            push_str(text, "InputDevice(StableId(");
            push_quoted(text, id.as_str());
            push_str(text, "))");
        },
    }
}

/// The human-readable text of a capture error.
pub open spec fn capture_error_text(error: CaptureError) -> Seq<char> {
    match error {
        CaptureError::NotSupported => "system audio loopback is not supported on this platform"@,
        CaptureError::BackendInit(detail) => "loopback backend error: "@ + detail@,
        CaptureError::BackendSetupRequired { backend, action } => "capture backend setup required for "@
            + backend@ + ": "@ + action@,
        CaptureError::PermissionDenied { operation } => "capture permission denied while "@
            + operation@,
        CaptureError::BackendStatus { operation, status_code } => "capture backend failed while "@
            + operation@ + ": status "@ + decimal_text(status_code as int),
        CaptureError::SourceUnavailable { stable_key } => "selected capture source is unavailable: "@
            + stable_key@,
        CaptureError::ModeUnsupported(mode) => "capture mode not supported on this backend: "@
            + capture_mode_text(mode),
        CaptureError::InvalidStreamCapacity =>
            "captured-frame stream capacity must be greater than zero"@,
        CaptureError::InvalidRuntimeEventCapacity =>
            "source-runtime event channel capacity must be greater than zero"@,
        CaptureError::CaptureWorkerPanicked { worker } => "capture worker panicked while joining: "@
            + worker@,
    }
}

impl CaptureError {
    /// The human-readable text of this error.
    pub fn message(&self) -> (r: String)
        ensures
            r@ == capture_error_text(*self),
    {
        let mut text = String::new();
        match self {
            CaptureError::NotSupported => {
                push_str(&mut text, "system audio loopback is not supported on this platform");
            },
            CaptureError::BackendInit(detail) => {
                push_str(&mut text, "loopback backend error: ");
                push_str(&mut text, detail.as_str());
            },
            CaptureError::BackendSetupRequired { backend, action } => {
                push_str(&mut text, "capture backend setup required for ");
                push_str(&mut text, backend);
                push_str(&mut text, ": ");
                push_str(&mut text, action);
            },
            CaptureError::PermissionDenied { operation } => {
                push_str(&mut text, "capture permission denied while ");
                push_str(&mut text, operation);
            },
            CaptureError::BackendStatus { operation, status_code } => {
                push_str(&mut text, "capture backend failed while ");
                push_str(&mut text, operation);
                push_str(&mut text, ": status ");
                push_decimal_i64(&mut text, *status_code as i64);
            },
            CaptureError::SourceUnavailable { stable_key } => {
                push_str(&mut text, "selected capture source is unavailable: ");
                push_str(&mut text, stable_key.as_str());
            },
            CaptureError::ModeUnsupported(mode) => {
                push_str(&mut text, "capture mode not supported on this backend: ");
                push_capture_mode_text(&mut text, mode);
            },
            CaptureError::InvalidStreamCapacity => {
                push_str(&mut text, "captured-frame stream capacity must be greater than zero");
            },
            CaptureError::InvalidRuntimeEventCapacity => {
                push_str(
                    &mut text,
                    "source-runtime event channel capacity must be greater than zero",
                );
            },
            CaptureError::CaptureWorkerPanicked { worker } => {
                push_str(&mut text, "capture worker panicked while joining: ");
                push_str(&mut text, worker);
            },
        }
        text
    }
}

} // verus!
