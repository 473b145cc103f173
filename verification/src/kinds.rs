//! The public Runtime vocabulary shared by every module: stable error kinds, app scopes,
//! lifecycle states and the method table.

use vstd::prelude::*;

use crate::text::str_eq;

verus! {

/// The stable error category a client branches on.
#[derive(Clone, Copy, Debug, PartialEq, Eq, Structural)]
pub enum ErrorKind {
    InvalidRequest,
    Unauthenticated,
    Internal,
    IntegrationRevoked,
    IdempotencyConflict,
    ResourceExhausted,
    OutcomeUnknown,
    SessionConflict,
    ControlConflict,
    LeaseExpired,
    SessionNotFound,
    WorkspaceConflict,
    ProviderUnavailable,
    PresenceRequired,
    RateLimited,
    CapabilityUnavailable,
    ApprovalExpired,
    ApprovalOptionInvalid,
    ScopeDenied,
    NotInitialized,
    EnrollmentPending,
    RuntimeUnavailable,
    ProtocolIncompatible,
    MethodNotFound,
    ModelUnavailable,
    NativeConversationBusy,
    RootDenied,
}

/// One unit of authority an integration can be granted.
#[derive(Clone, Copy, Debug, PartialEq, Eq, Structural)]
pub enum AppScope {
    ProviderRead,
    ModelRead,
    SessionNativeDiscover,
    SessionList,
    SessionStart,
    SessionResume,
    SessionInputWrite,
    SessionOutputRead,
    SessionStop,
    SessionDelete,
    ApprovalRespondLow,
    ApprovalRespondHigh,
}

/// How many distinct scopes exist.
pub const APP_SCOPE_COUNT: usize = 12;

/// The wire name under which a scope is stored and transported.
pub open spec fn scope_name(scope: AppScope) -> Seq<char> {
    match scope {
        AppScope::ProviderRead => "providers.read"@,
        AppScope::ModelRead => "models.read"@,
        AppScope::SessionNativeDiscover => "sessions.nativeDiscover"@,
        AppScope::SessionList => "sessions.list"@,
        AppScope::SessionStart => "sessions.start"@,
        AppScope::SessionResume => "sessions.resume"@,
        AppScope::SessionInputWrite => "sessions.inputWrite"@,
        AppScope::SessionOutputRead => "sessions.outputRead"@,
        AppScope::SessionStop => "sessions.stop"@,
        AppScope::SessionDelete => "sessions.delete"@,
        AppScope::ApprovalRespondLow => "approvals.respondLow"@,
        AppScope::ApprovalRespondHigh => "approvals.respondHigh"@,
    }
}

impl AppScope {
    /// The wire name of this scope.
    pub fn as_str(&self) -> (r: &'static str)
        ensures
            r@ == scope_name(*self),
    {
        match self {
            AppScope::ProviderRead => "providers.read",
            AppScope::ModelRead => "models.read",
            AppScope::SessionNativeDiscover => "sessions.nativeDiscover",
            AppScope::SessionList => "sessions.list",
            AppScope::SessionStart => "sessions.start",
            AppScope::SessionResume => "sessions.resume",
            AppScope::SessionInputWrite => "sessions.inputWrite",
            AppScope::SessionOutputRead => "sessions.outputRead",
            AppScope::SessionStop => "sessions.stop",
            AppScope::SessionDelete => "sessions.delete",
            AppScope::ApprovalRespondLow => "approvals.respondLow",
            AppScope::ApprovalRespondHigh => "approvals.respondHigh",
        }
    }
}

/// The public lifecycle of a managed session.
#[derive(Clone, Copy, Debug, PartialEq, Eq, Structural)]
pub enum LifecycleState {
    HotIdle,
    HotRunning,
    Cold,
    Failed,
}

/// One method of the public Runtime protocol.
#[derive(Clone, Copy, Debug, PartialEq, Eq, Structural)]
pub enum RuntimeMethod {
    Initialize,
    Initialized,
    Challenge,
    IntegrationsRequestEnrollment,
    IntegrationsWatchEnrollment,
    IntegrationsGetGrant,
    IntegrationsRotateKey,
    ProvidersList,
    ProvidersWatch,
    ProvidersUsage,
    ProvidersGetCapabilities,
    ProvidersListModels,
    ProvidersListNativeSessions,
    ProvidersNativeActivity,
    ProvidersFocusNative,
    ProvidersChanged,
    ProvidersWatchEnded,
    ProvidersUsageChanged,
    SessionsList,
    SessionsWatchIndex,
    SessionsGet,
    SessionsStart,
    SessionsAdoptNative,
    SessionsResume,
    SessionsAcquireControl,
    SessionsRenewControl,
    SessionsReleaseControl,
    SessionsSubmitInput,
    SessionsSubmitBlocks,
    SessionsSetModel,
    SessionsSetMode,
    SessionsInterrupt,
    SessionsCool,
    SessionsForget,
    SessionsDeleteNative,
    SessionsArchiveNative,
    SessionsWatchEvents,
    SessionsEvent,
    SessionsLagged,
    SessionsIndexChanged,
    SessionsIndexEnded,
    ApprovalsListPending,
    ApprovalsRespond,
    PanicStop,
    TerminalsAcquireControl,
    TerminalsAttach,
    TerminalsDetach,
    TerminalsExited,
    TerminalsIndexChanged,
    TerminalsIndexEnded,
    TerminalsLagged,
    TerminalsList,
    TerminalsOpen,
    TerminalsOutput,
    TerminalsReleaseControl,
    TerminalsRenewControl,
    TerminalsResize,
    TerminalsSetDialogue,
    TerminalsStop,
    TerminalsWatchIndex,
    TerminalsWrite,
    WindowsIndexChanged,
    WindowsIndexEnded,
    WindowsList,
    WindowsMirrorEnd,
    WindowsMirrorOpen,
    WindowsMirrorOutput,
    WindowsRegister,
    WindowsReveal,
    WindowsRevealRequested,
    WindowsRevealsEnded,
    WindowsUpdate,
    WindowsWatchIndex,
    WindowsWatchReveals,
}

/// The wire name of a method.
pub open spec fn method_name(method: RuntimeMethod) -> Seq<char> {
    match method {
        RuntimeMethod::Initialize => "initialize"@,
        RuntimeMethod::Initialized => "initialized"@,
        RuntimeMethod::Challenge => "challenge"@,
        RuntimeMethod::IntegrationsRequestEnrollment => "integrations/requestEnrollment"@,
        RuntimeMethod::IntegrationsWatchEnrollment => "integrations/watchEnrollment"@,
        RuntimeMethod::IntegrationsGetGrant => "integrations/getGrant"@,
        RuntimeMethod::IntegrationsRotateKey => "integrations/rotateKey"@,
        RuntimeMethod::ProvidersList => "providers/list"@,
        RuntimeMethod::ProvidersWatch => "providers/watch"@,
        RuntimeMethod::ProvidersUsage => "providers/usage"@,
        RuntimeMethod::ProvidersGetCapabilities => "providers/getCapabilities"@,
        RuntimeMethod::ProvidersListModels => "providers/listModels"@,
        RuntimeMethod::ProvidersListNativeSessions => "providers/listNativeSessions"@,
        RuntimeMethod::ProvidersNativeActivity => "providers/nativeActivity"@,
        RuntimeMethod::ProvidersFocusNative => "providers/focusNative"@,
        RuntimeMethod::ProvidersChanged => "providers/changed"@,
        RuntimeMethod::ProvidersWatchEnded => "providers/watchEnded"@,
        RuntimeMethod::ProvidersUsageChanged => "providers/usageChanged"@,
        RuntimeMethod::SessionsList => "sessions/list"@,
        RuntimeMethod::SessionsWatchIndex => "sessions/watchIndex"@,
        RuntimeMethod::SessionsGet => "sessions/get"@,
        RuntimeMethod::SessionsStart => "sessions/start"@,
        RuntimeMethod::SessionsAdoptNative => "sessions/adoptNative"@,
        RuntimeMethod::SessionsResume => "sessions/resume"@,
        RuntimeMethod::SessionsAcquireControl => "sessions/acquireControl"@,
        RuntimeMethod::SessionsRenewControl => "sessions/renewControl"@,
        RuntimeMethod::SessionsReleaseControl => "sessions/releaseControl"@,
        RuntimeMethod::SessionsSubmitInput => "sessions/submitInput"@,
        RuntimeMethod::SessionsSubmitBlocks => "sessions/submitBlocks"@,
        RuntimeMethod::SessionsSetModel => "sessions/setModel"@,
        RuntimeMethod::SessionsSetMode => "sessions/setMode"@,
        RuntimeMethod::SessionsInterrupt => "sessions/interrupt"@,
        RuntimeMethod::SessionsCool => "sessions/cool"@,
        RuntimeMethod::SessionsForget => "sessions/forget"@,
        RuntimeMethod::SessionsDeleteNative => "sessions/deleteNative"@,
        RuntimeMethod::SessionsArchiveNative => "sessions/archiveNative"@,
        RuntimeMethod::SessionsWatchEvents => "sessions/watchEvents"@,
        RuntimeMethod::SessionsEvent => "sessions/event"@,
        RuntimeMethod::SessionsLagged => "sessions/lagged"@,
        RuntimeMethod::SessionsIndexChanged => "sessions/indexChanged"@,
        RuntimeMethod::SessionsIndexEnded => "sessions/indexEnded"@,
        RuntimeMethod::ApprovalsListPending => "approvals/listPending"@,
        RuntimeMethod::ApprovalsRespond => "approvals/respond"@,
        RuntimeMethod::PanicStop => "panicStop"@,
        RuntimeMethod::TerminalsAcquireControl => "terminals/acquireControl"@,
        RuntimeMethod::TerminalsAttach => "terminals/attach"@,
        RuntimeMethod::TerminalsDetach => "terminals/detach"@,
        RuntimeMethod::TerminalsExited => "terminals/exited"@,
        RuntimeMethod::TerminalsIndexChanged => "terminals/indexChanged"@,
        RuntimeMethod::TerminalsIndexEnded => "terminals/indexEnded"@,
        RuntimeMethod::TerminalsLagged => "terminals/lagged"@,
        RuntimeMethod::TerminalsList => "terminals/list"@,
        RuntimeMethod::TerminalsOpen => "terminals/open"@,
        RuntimeMethod::TerminalsOutput => "terminals/output"@,
        RuntimeMethod::TerminalsReleaseControl => "terminals/releaseControl"@,
        RuntimeMethod::TerminalsRenewControl => "terminals/renewControl"@,
        RuntimeMethod::TerminalsResize => "terminals/resize"@,
        RuntimeMethod::TerminalsSetDialogue => "terminals/setDialogue"@,
        RuntimeMethod::TerminalsStop => "terminals/stop"@,
        RuntimeMethod::TerminalsWatchIndex => "terminals/watchIndex"@,
        RuntimeMethod::TerminalsWrite => "terminals/write"@,
        RuntimeMethod::WindowsIndexChanged => "windows/indexChanged"@,
        RuntimeMethod::WindowsIndexEnded => "windows/indexEnded"@,
        RuntimeMethod::WindowsList => "windows/list"@,
        RuntimeMethod::WindowsMirrorEnd => "windows/mirrorEnd"@,
        RuntimeMethod::WindowsMirrorOpen => "windows/mirrorOpen"@,
        RuntimeMethod::WindowsMirrorOutput => "windows/mirrorOutput"@,
        RuntimeMethod::WindowsRegister => "windows/register"@,
        RuntimeMethod::WindowsReveal => "windows/reveal"@,
        RuntimeMethod::WindowsRevealRequested => "windows/revealRequested"@,
        RuntimeMethod::WindowsRevealsEnded => "windows/revealsEnded"@,
        RuntimeMethod::WindowsUpdate => "windows/update"@,
        RuntimeMethod::WindowsWatchIndex => "windows/watchIndex"@,
        RuntimeMethod::WindowsWatchReveals => "windows/watchReveals"@,
    }
}

impl RuntimeMethod {
    /// The wire name of this method.
    pub fn as_str(&self) -> (r: &'static str)
        ensures
            r@ == method_name(*self),
    {
        match self {
            RuntimeMethod::Initialize => "initialize",
            RuntimeMethod::Initialized => "initialized",
            RuntimeMethod::Challenge => "challenge",
            RuntimeMethod::IntegrationsRequestEnrollment => "integrations/requestEnrollment",
            RuntimeMethod::IntegrationsWatchEnrollment => "integrations/watchEnrollment",
            RuntimeMethod::IntegrationsGetGrant => "integrations/getGrant",
            RuntimeMethod::IntegrationsRotateKey => "integrations/rotateKey",
            RuntimeMethod::ProvidersList => "providers/list",
            RuntimeMethod::ProvidersWatch => "providers/watch",
            RuntimeMethod::ProvidersUsage => "providers/usage",
            RuntimeMethod::ProvidersGetCapabilities => "providers/getCapabilities",
            RuntimeMethod::ProvidersListModels => "providers/listModels",
            RuntimeMethod::ProvidersListNativeSessions => "providers/listNativeSessions",
            RuntimeMethod::ProvidersNativeActivity => "providers/nativeActivity",
            RuntimeMethod::ProvidersFocusNative => "providers/focusNative",
            RuntimeMethod::ProvidersChanged => "providers/changed",
            RuntimeMethod::ProvidersWatchEnded => "providers/watchEnded",
            RuntimeMethod::ProvidersUsageChanged => "providers/usageChanged",
            RuntimeMethod::SessionsList => "sessions/list",
            RuntimeMethod::SessionsWatchIndex => "sessions/watchIndex",
            RuntimeMethod::SessionsGet => "sessions/get",
            RuntimeMethod::SessionsStart => "sessions/start",
            RuntimeMethod::SessionsAdoptNative => "sessions/adoptNative",
            RuntimeMethod::SessionsResume => "sessions/resume",
            RuntimeMethod::SessionsAcquireControl => "sessions/acquireControl",
            RuntimeMethod::SessionsRenewControl => "sessions/renewControl",
            RuntimeMethod::SessionsReleaseControl => "sessions/releaseControl",
            RuntimeMethod::SessionsSubmitInput => "sessions/submitInput",
            RuntimeMethod::SessionsSubmitBlocks => "sessions/submitBlocks",
            RuntimeMethod::SessionsSetModel => "sessions/setModel",
            RuntimeMethod::SessionsSetMode => "sessions/setMode",
            RuntimeMethod::SessionsInterrupt => "sessions/interrupt",
            RuntimeMethod::SessionsCool => "sessions/cool",
            RuntimeMethod::SessionsForget => "sessions/forget",
            RuntimeMethod::SessionsDeleteNative => "sessions/deleteNative",
            RuntimeMethod::SessionsArchiveNative => "sessions/archiveNative",
            RuntimeMethod::SessionsWatchEvents => "sessions/watchEvents",
            RuntimeMethod::SessionsEvent => "sessions/event",
            RuntimeMethod::SessionsLagged => "sessions/lagged",
            RuntimeMethod::SessionsIndexChanged => "sessions/indexChanged",
            RuntimeMethod::SessionsIndexEnded => "sessions/indexEnded",
            RuntimeMethod::ApprovalsListPending => "approvals/listPending",
            RuntimeMethod::ApprovalsRespond => "approvals/respond",
            RuntimeMethod::PanicStop => "panicStop",
            RuntimeMethod::TerminalsAcquireControl => "terminals/acquireControl",
            RuntimeMethod::TerminalsAttach => "terminals/attach",
            RuntimeMethod::TerminalsDetach => "terminals/detach",
            RuntimeMethod::TerminalsExited => "terminals/exited",
            RuntimeMethod::TerminalsIndexChanged => "terminals/indexChanged",
            RuntimeMethod::TerminalsIndexEnded => "terminals/indexEnded",
            RuntimeMethod::TerminalsLagged => "terminals/lagged",
            RuntimeMethod::TerminalsList => "terminals/list",
            RuntimeMethod::TerminalsOpen => "terminals/open",
            RuntimeMethod::TerminalsOutput => "terminals/output",
            RuntimeMethod::TerminalsReleaseControl => "terminals/releaseControl",
            RuntimeMethod::TerminalsRenewControl => "terminals/renewControl",
            RuntimeMethod::TerminalsResize => "terminals/resize",
            RuntimeMethod::TerminalsSetDialogue => "terminals/setDialogue",
            RuntimeMethod::TerminalsStop => "terminals/stop",
            RuntimeMethod::TerminalsWatchIndex => "terminals/watchIndex",
            RuntimeMethod::TerminalsWrite => "terminals/write",
            RuntimeMethod::WindowsIndexChanged => "windows/indexChanged",
            RuntimeMethod::WindowsIndexEnded => "windows/indexEnded",
            RuntimeMethod::WindowsList => "windows/list",
            RuntimeMethod::WindowsMirrorEnd => "windows/mirrorEnd",
            RuntimeMethod::WindowsMirrorOpen => "windows/mirrorOpen",
            RuntimeMethod::WindowsMirrorOutput => "windows/mirrorOutput",
            RuntimeMethod::WindowsRegister => "windows/register",
            RuntimeMethod::WindowsReveal => "windows/reveal",
            RuntimeMethod::WindowsRevealRequested => "windows/revealRequested",
            RuntimeMethod::WindowsRevealsEnded => "windows/revealsEnded",
            RuntimeMethod::WindowsUpdate => "windows/update",
            RuntimeMethod::WindowsWatchIndex => "windows/watchIndex",
            RuntimeMethod::WindowsWatchReveals => "windows/watchReveals",
        }
    }
}

impl RuntimeMethod {
    /// The method a wire name names; no other text names a method.
    pub fn from_name(name: &str) -> (r: Option<RuntimeMethod>)
        ensures
            match r {
                Some(m) => method_name(m) == name@,
                None => forall|m: RuntimeMethod| method_name(m) != name@,
            },
    {
        if str_eq(name, RuntimeMethod::Initialize.as_str()) {
            return Some(RuntimeMethod::Initialize);
        }
        if str_eq(name, RuntimeMethod::Initialized.as_str()) {
            return Some(RuntimeMethod::Initialized);
        }
        if str_eq(name, RuntimeMethod::Challenge.as_str()) {
            return Some(RuntimeMethod::Challenge);
        }
        if str_eq(name, RuntimeMethod::IntegrationsRequestEnrollment.as_str()) {
            return Some(RuntimeMethod::IntegrationsRequestEnrollment);
        }
        if str_eq(name, RuntimeMethod::IntegrationsWatchEnrollment.as_str()) {
            return Some(RuntimeMethod::IntegrationsWatchEnrollment);
        }
        if str_eq(name, RuntimeMethod::IntegrationsGetGrant.as_str()) {
            return Some(RuntimeMethod::IntegrationsGetGrant);
        }
        if str_eq(name, RuntimeMethod::IntegrationsRotateKey.as_str()) {
            return Some(RuntimeMethod::IntegrationsRotateKey);
        }
        if str_eq(name, RuntimeMethod::ProvidersList.as_str()) {
            return Some(RuntimeMethod::ProvidersList);
        }
        if str_eq(name, RuntimeMethod::ProvidersWatch.as_str()) {
            return Some(RuntimeMethod::ProvidersWatch);
        }
        if str_eq(name, RuntimeMethod::ProvidersUsage.as_str()) {
            return Some(RuntimeMethod::ProvidersUsage);
        }
        if str_eq(name, RuntimeMethod::ProvidersGetCapabilities.as_str()) {
            return Some(RuntimeMethod::ProvidersGetCapabilities);
        }
        if str_eq(name, RuntimeMethod::ProvidersListModels.as_str()) {
            return Some(RuntimeMethod::ProvidersListModels);
        }
        if str_eq(name, RuntimeMethod::ProvidersListNativeSessions.as_str()) {
            return Some(RuntimeMethod::ProvidersListNativeSessions);
        }
        if str_eq(name, RuntimeMethod::ProvidersNativeActivity.as_str()) {
            return Some(RuntimeMethod::ProvidersNativeActivity);
        }
        if str_eq(name, RuntimeMethod::ProvidersFocusNative.as_str()) {
            return Some(RuntimeMethod::ProvidersFocusNative);
        }
        if str_eq(name, RuntimeMethod::ProvidersChanged.as_str()) {
            return Some(RuntimeMethod::ProvidersChanged);
        }
        if str_eq(name, RuntimeMethod::ProvidersWatchEnded.as_str()) {
            return Some(RuntimeMethod::ProvidersWatchEnded);
        }
        if str_eq(name, RuntimeMethod::ProvidersUsageChanged.as_str()) {
            return Some(RuntimeMethod::ProvidersUsageChanged);
        }
        if str_eq(name, RuntimeMethod::SessionsList.as_str()) {
            return Some(RuntimeMethod::SessionsList);
        }
        if str_eq(name, RuntimeMethod::SessionsWatchIndex.as_str()) {
            return Some(RuntimeMethod::SessionsWatchIndex);
        }
        if str_eq(name, RuntimeMethod::SessionsGet.as_str()) {
            return Some(RuntimeMethod::SessionsGet);
        }
        if str_eq(name, RuntimeMethod::SessionsStart.as_str()) {
            return Some(RuntimeMethod::SessionsStart);
        }
        if str_eq(name, RuntimeMethod::SessionsAdoptNative.as_str()) {
            return Some(RuntimeMethod::SessionsAdoptNative);
        }
        if str_eq(name, RuntimeMethod::SessionsResume.as_str()) {
            return Some(RuntimeMethod::SessionsResume);
        }
        if str_eq(name, RuntimeMethod::SessionsAcquireControl.as_str()) {
            return Some(RuntimeMethod::SessionsAcquireControl);
        }
        if str_eq(name, RuntimeMethod::SessionsRenewControl.as_str()) {
            return Some(RuntimeMethod::SessionsRenewControl);
        }
        if str_eq(name, RuntimeMethod::SessionsReleaseControl.as_str()) {
            return Some(RuntimeMethod::SessionsReleaseControl);
        }
        if str_eq(name, RuntimeMethod::SessionsSubmitInput.as_str()) {
            return Some(RuntimeMethod::SessionsSubmitInput);
        }
        if str_eq(name, RuntimeMethod::SessionsSubmitBlocks.as_str()) {
            return Some(RuntimeMethod::SessionsSubmitBlocks);
        }
        if str_eq(name, RuntimeMethod::SessionsSetModel.as_str()) {
            return Some(RuntimeMethod::SessionsSetModel);
        }
        if str_eq(name, RuntimeMethod::SessionsSetMode.as_str()) {
            return Some(RuntimeMethod::SessionsSetMode);
        }
        if str_eq(name, RuntimeMethod::SessionsInterrupt.as_str()) {
            return Some(RuntimeMethod::SessionsInterrupt);
        }
        if str_eq(name, RuntimeMethod::SessionsCool.as_str()) {
            return Some(RuntimeMethod::SessionsCool);
        }
        if str_eq(name, RuntimeMethod::SessionsForget.as_str()) {
            return Some(RuntimeMethod::SessionsForget);
        }
        if str_eq(name, RuntimeMethod::SessionsDeleteNative.as_str()) {
            return Some(RuntimeMethod::SessionsDeleteNative);
        }
        if str_eq(name, RuntimeMethod::SessionsArchiveNative.as_str()) {
            return Some(RuntimeMethod::SessionsArchiveNative);
        }
        if str_eq(name, RuntimeMethod::SessionsWatchEvents.as_str()) {
            return Some(RuntimeMethod::SessionsWatchEvents);
        }
        if str_eq(name, RuntimeMethod::SessionsEvent.as_str()) {
            return Some(RuntimeMethod::SessionsEvent);
        }
        if str_eq(name, RuntimeMethod::SessionsLagged.as_str()) {
            return Some(RuntimeMethod::SessionsLagged);
        }
        if str_eq(name, RuntimeMethod::SessionsIndexChanged.as_str()) {
            return Some(RuntimeMethod::SessionsIndexChanged);
        }
        if str_eq(name, RuntimeMethod::SessionsIndexEnded.as_str()) {
            return Some(RuntimeMethod::SessionsIndexEnded);
        }
        if str_eq(name, RuntimeMethod::ApprovalsListPending.as_str()) {
            return Some(RuntimeMethod::ApprovalsListPending);
        }
        if str_eq(name, RuntimeMethod::ApprovalsRespond.as_str()) {
            return Some(RuntimeMethod::ApprovalsRespond);
        }
        if str_eq(name, RuntimeMethod::PanicStop.as_str()) {
            return Some(RuntimeMethod::PanicStop);
        }
        if str_eq(name, RuntimeMethod::TerminalsAcquireControl.as_str()) {
            return Some(RuntimeMethod::TerminalsAcquireControl);
        }
        if str_eq(name, RuntimeMethod::TerminalsAttach.as_str()) {
            return Some(RuntimeMethod::TerminalsAttach);
        }
        if str_eq(name, RuntimeMethod::TerminalsDetach.as_str()) {
            return Some(RuntimeMethod::TerminalsDetach);
        }
        if str_eq(name, RuntimeMethod::TerminalsExited.as_str()) {
            return Some(RuntimeMethod::TerminalsExited);
        }
        if str_eq(name, RuntimeMethod::TerminalsIndexChanged.as_str()) {
            return Some(RuntimeMethod::TerminalsIndexChanged);
        }
        if str_eq(name, RuntimeMethod::TerminalsIndexEnded.as_str()) {
            return Some(RuntimeMethod::TerminalsIndexEnded);
        }
        if str_eq(name, RuntimeMethod::TerminalsLagged.as_str()) {
            return Some(RuntimeMethod::TerminalsLagged);
        }
        if str_eq(name, RuntimeMethod::TerminalsList.as_str()) {
            return Some(RuntimeMethod::TerminalsList);
        }
        if str_eq(name, RuntimeMethod::TerminalsOpen.as_str()) {
            return Some(RuntimeMethod::TerminalsOpen);
        }
        if str_eq(name, RuntimeMethod::TerminalsOutput.as_str()) {
            return Some(RuntimeMethod::TerminalsOutput);
        }
        if str_eq(name, RuntimeMethod::TerminalsReleaseControl.as_str()) {
            return Some(RuntimeMethod::TerminalsReleaseControl);
        }
        if str_eq(name, RuntimeMethod::TerminalsRenewControl.as_str()) {
            return Some(RuntimeMethod::TerminalsRenewControl);
        }
        if str_eq(name, RuntimeMethod::TerminalsResize.as_str()) {
            return Some(RuntimeMethod::TerminalsResize);
        }
        if str_eq(name, RuntimeMethod::TerminalsSetDialogue.as_str()) {
            return Some(RuntimeMethod::TerminalsSetDialogue);
        }
        if str_eq(name, RuntimeMethod::TerminalsStop.as_str()) {
            return Some(RuntimeMethod::TerminalsStop);
        }
        if str_eq(name, RuntimeMethod::TerminalsWatchIndex.as_str()) {
            return Some(RuntimeMethod::TerminalsWatchIndex);
        }
        if str_eq(name, RuntimeMethod::TerminalsWrite.as_str()) {
            return Some(RuntimeMethod::TerminalsWrite);
        }
        if str_eq(name, RuntimeMethod::WindowsIndexChanged.as_str()) {
            return Some(RuntimeMethod::WindowsIndexChanged);
        }
        if str_eq(name, RuntimeMethod::WindowsIndexEnded.as_str()) {
            return Some(RuntimeMethod::WindowsIndexEnded);
        }
        if str_eq(name, RuntimeMethod::WindowsList.as_str()) {
            return Some(RuntimeMethod::WindowsList);
        }
        if str_eq(name, RuntimeMethod::WindowsMirrorEnd.as_str()) {
            return Some(RuntimeMethod::WindowsMirrorEnd);
        }
        if str_eq(name, RuntimeMethod::WindowsMirrorOpen.as_str()) {
            return Some(RuntimeMethod::WindowsMirrorOpen);
        }
        if str_eq(name, RuntimeMethod::WindowsMirrorOutput.as_str()) {
            return Some(RuntimeMethod::WindowsMirrorOutput);
        }
        if str_eq(name, RuntimeMethod::WindowsRegister.as_str()) {
            return Some(RuntimeMethod::WindowsRegister);
        }
        if str_eq(name, RuntimeMethod::WindowsReveal.as_str()) {
            return Some(RuntimeMethod::WindowsReveal);
        }
        if str_eq(name, RuntimeMethod::WindowsRevealRequested.as_str()) {
            return Some(RuntimeMethod::WindowsRevealRequested);
        }
        if str_eq(name, RuntimeMethod::WindowsRevealsEnded.as_str()) {
            return Some(RuntimeMethod::WindowsRevealsEnded);
        }
        if str_eq(name, RuntimeMethod::WindowsUpdate.as_str()) {
            return Some(RuntimeMethod::WindowsUpdate);
        }
        if str_eq(name, RuntimeMethod::WindowsWatchIndex.as_str()) {
            return Some(RuntimeMethod::WindowsWatchIndex);
        }
        if str_eq(name, RuntimeMethod::WindowsWatchReveals.as_str()) {
            return Some(RuntimeMethod::WindowsWatchReveals);
        }
        None
    }
}

/// How a session shares its working tree with other writers.
#[derive(Clone, Copy, Debug, PartialEq, Eq, Structural)]
pub enum WorkspaceAccess {
    Exclusive,
    Shared,
}

/// The byte a lifecycle contributes to a mutation authenticator.
pub open spec fn lifecycle_code(lifecycle: LifecycleState) -> u8 {
    match lifecycle {
        LifecycleState::HotIdle => 0,
        LifecycleState::HotRunning => 1,
        LifecycleState::Cold => 2,
        LifecycleState::Failed => 3,
    }
}

/// The byte a lifecycle contributes to a mutation authenticator.
pub fn lifecycle_byte(lifecycle: LifecycleState) -> (r: u8)
    ensures
        r == lifecycle_code(lifecycle),
{
    match lifecycle {
        LifecycleState::HotIdle => 0,
        LifecycleState::HotRunning => 1,
        LifecycleState::Cold => 2,
        LifecycleState::Failed => 3,
    }
}

/// The byte a workspace access contributes to a mutation authenticator.
pub fn workspace_access_byte(access: WorkspaceAccess) -> (r: u8)
    ensures
        r == (if access == WorkspaceAccess::Exclusive { 0u8 } else { 1u8 }),
{
    match access {
        WorkspaceAccess::Exclusive => 0,
        WorkspaceAccess::Shared => 1,
    }
}

} // verus!

verus! {

/// How long a connection challenge stays fresh.
pub const CHALLENGE_LIFETIME_MS: u64 = 60_000;
/// How long a pending enrollment waits for a local decision.
pub const ENROLLMENT_LIFETIME_MS: u64 = 600_000;
/// How long a mutation identity may be replayed.
pub const IDEMPOTENCY_WINDOW_MS: u64 = 86_400_000;
/// How far ahead of this clock a mutation identity may be stamped.
pub const MUTATION_CLOCK_SKEW_MS: u64 = 30_000;
/// How many enrollments may wait for local approval at once.
pub const MAX_PENDING_ENROLLMENTS: u8 = 16;
/// How long a control lease lasts before it must be renewed.
pub const CONTROL_LEASE_LIFETIME_MS: u64 = 30_000;
/// How long a native catalogue cursor or adoption proof stays valid.
pub const NATIVE_CURSOR_LIFETIME_MS: u64 = 300_000;

/// The facts a mutation request identity carries: when it was minted, and its sixteen bytes.
#[derive(Clone, Copy, Debug, PartialEq, Eq)]
pub struct MutationRequestId {
    pub unix_millis: Option<u64>,
    pub bytes: Option<[u8; 16]>,
}

} // verus!
