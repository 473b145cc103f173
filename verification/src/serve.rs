//! The request boundary of the public endpoint: which scope and handler each method needs,
//! how parameters and owner answers become public refusals, and the decisions of opening a
//! session, listing native conversations and mutating them.

use vstd::prelude::*;

use vstd::utf8::encode_utf8;

use crate::auth::{
    grant, grant_missing_message, grant_of_row, hex, hex_chars, internal_message, is_failure,
    refresh_against_row, refresh_outcome, refresh_verdict, revoked_message, scopes_readable, AuthorityView,
    AuthorizationFailure, AuthorizedIntegration, EnrollmentKey, IntegrationGrant, IntegrationId,
    IntegrationRow,
};
use crate::crypto::random_fill;
use crate::control::{provider_failure, provider_refusal, ProviderError, RuntimeControlFailure};
use crate::cursor::NativeCursorFailure;
use crate::inventory::RuntimeInventoryFailure;
use crate::kinds::{method_name, AppScope, ErrorKind, RuntimeMethod};
use crate::text::string_push_str;

verus! {

/// The scope a method needs, or none for a method every connection may call.
pub open spec fn scope_for(method: RuntimeMethod) -> Option<AppScope> {
    match method {
        RuntimeMethod::ProvidersList
        | RuntimeMethod::ProvidersWatch
        | RuntimeMethod::ProvidersUsage
        | RuntimeMethod::ProvidersGetCapabilities => Some(AppScope::ProviderRead),
        RuntimeMethod::ProvidersListModels => Some(AppScope::ModelRead),
        RuntimeMethod::ProvidersListNativeSessions
        | RuntimeMethod::ProvidersNativeActivity
        | RuntimeMethod::ProvidersFocusNative => Some(AppScope::SessionNativeDiscover),
        RuntimeMethod::SessionsList
        | RuntimeMethod::SessionsWatchIndex
        | RuntimeMethod::SessionsGet
        | RuntimeMethod::TerminalsList
        | RuntimeMethod::TerminalsWatchIndex
        | RuntimeMethod::WindowsRegister
        | RuntimeMethod::WindowsUpdate
        | RuntimeMethod::WindowsList
        | RuntimeMethod::WindowsWatchIndex
        | RuntimeMethod::WindowsMirrorOpen
        | RuntimeMethod::WindowsMirrorOutput
        | RuntimeMethod::WindowsMirrorEnd
        | RuntimeMethod::WindowsReveal
        | RuntimeMethod::WindowsWatchReveals => Some(AppScope::SessionList),
        RuntimeMethod::SessionsStart => Some(AppScope::SessionStart),
        RuntimeMethod::SessionsAdoptNative
        | RuntimeMethod::SessionsResume => Some(AppScope::SessionResume),
        RuntimeMethod::SessionsAcquireControl
        | RuntimeMethod::SessionsSubmitInput
        | RuntimeMethod::SessionsSubmitBlocks
        | RuntimeMethod::SessionsSetModel
        | RuntimeMethod::SessionsSetMode
        | RuntimeMethod::TerminalsAcquireControl
        | RuntimeMethod::TerminalsRenewControl
        | RuntimeMethod::TerminalsReleaseControl
        | RuntimeMethod::TerminalsWrite
        | RuntimeMethod::TerminalsResize
        | RuntimeMethod::TerminalsSetDialogue
        | RuntimeMethod::TerminalsStop => Some(AppScope::SessionInputWrite),
        RuntimeMethod::SessionsWatchEvents
        | RuntimeMethod::ApprovalsListPending
        | RuntimeMethod::TerminalsOpen
        | RuntimeMethod::TerminalsAttach
        | RuntimeMethod::TerminalsDetach => Some(AppScope::SessionOutputRead),
        RuntimeMethod::SessionsInterrupt
        | RuntimeMethod::SessionsCool => Some(AppScope::SessionStop),
        RuntimeMethod::SessionsForget
        | RuntimeMethod::SessionsDeleteNative
        | RuntimeMethod::SessionsArchiveNative => Some(AppScope::SessionDelete),
        RuntimeMethod::Initialize
        | RuntimeMethod::Initialized
        | RuntimeMethod::Challenge
        | RuntimeMethod::IntegrationsRequestEnrollment
        | RuntimeMethod::IntegrationsWatchEnrollment
        | RuntimeMethod::IntegrationsGetGrant
        | RuntimeMethod::IntegrationsRotateKey
        | RuntimeMethod::ProvidersChanged
        | RuntimeMethod::ProvidersWatchEnded
        | RuntimeMethod::ProvidersUsageChanged
        | RuntimeMethod::SessionsRenewControl
        | RuntimeMethod::SessionsReleaseControl
        | RuntimeMethod::SessionsEvent
        | RuntimeMethod::SessionsLagged
        | RuntimeMethod::SessionsIndexChanged
        | RuntimeMethod::SessionsIndexEnded
        | RuntimeMethod::ApprovalsRespond
        | RuntimeMethod::PanicStop
        | RuntimeMethod::TerminalsExited
        | RuntimeMethod::TerminalsIndexChanged
        | RuntimeMethod::TerminalsIndexEnded
        | RuntimeMethod::TerminalsLagged
        | RuntimeMethod::TerminalsOutput
        | RuntimeMethod::WindowsIndexChanged
        | RuntimeMethod::WindowsIndexEnded
        | RuntimeMethod::WindowsRevealRequested
        | RuntimeMethod::WindowsRevealsEnded => None,
    }
}

/// The app scope a public method requires.
pub fn required_scope(method: RuntimeMethod) -> (r: Option<AppScope>)
    ensures
        r == scope_for(method),
{
    match method {
        RuntimeMethod::ProvidersList
        | RuntimeMethod::ProvidersWatch
        | RuntimeMethod::ProvidersUsage
        | RuntimeMethod::ProvidersGetCapabilities => Some(AppScope::ProviderRead),
        RuntimeMethod::ProvidersListModels => Some(AppScope::ModelRead),
        RuntimeMethod::ProvidersListNativeSessions
        | RuntimeMethod::ProvidersNativeActivity
        | RuntimeMethod::ProvidersFocusNative => Some(AppScope::SessionNativeDiscover),
        RuntimeMethod::SessionsList
        | RuntimeMethod::SessionsWatchIndex
        | RuntimeMethod::SessionsGet
        | RuntimeMethod::TerminalsList
        | RuntimeMethod::TerminalsWatchIndex
        | RuntimeMethod::WindowsRegister
        | RuntimeMethod::WindowsUpdate
        | RuntimeMethod::WindowsList
        | RuntimeMethod::WindowsWatchIndex
        | RuntimeMethod::WindowsMirrorOpen
        | RuntimeMethod::WindowsMirrorOutput
        | RuntimeMethod::WindowsMirrorEnd
        | RuntimeMethod::WindowsReveal
        | RuntimeMethod::WindowsWatchReveals => Some(AppScope::SessionList),
        RuntimeMethod::SessionsStart => Some(AppScope::SessionStart),
        RuntimeMethod::SessionsAdoptNative
        | RuntimeMethod::SessionsResume => Some(AppScope::SessionResume),
        RuntimeMethod::SessionsAcquireControl
        | RuntimeMethod::SessionsSubmitInput
        | RuntimeMethod::SessionsSubmitBlocks
        | RuntimeMethod::SessionsSetModel
        | RuntimeMethod::SessionsSetMode
        | RuntimeMethod::TerminalsAcquireControl
        | RuntimeMethod::TerminalsRenewControl
        | RuntimeMethod::TerminalsReleaseControl
        | RuntimeMethod::TerminalsWrite
        | RuntimeMethod::TerminalsResize
        | RuntimeMethod::TerminalsSetDialogue
        | RuntimeMethod::TerminalsStop => Some(AppScope::SessionInputWrite),
        RuntimeMethod::SessionsWatchEvents
        | RuntimeMethod::ApprovalsListPending
        | RuntimeMethod::TerminalsOpen
        | RuntimeMethod::TerminalsAttach
        | RuntimeMethod::TerminalsDetach => Some(AppScope::SessionOutputRead),
        RuntimeMethod::SessionsInterrupt
        | RuntimeMethod::SessionsCool => Some(AppScope::SessionStop),
        RuntimeMethod::SessionsForget
        | RuntimeMethod::SessionsDeleteNative
        | RuntimeMethod::SessionsArchiveNative => Some(AppScope::SessionDelete),
        RuntimeMethod::Initialize
        | RuntimeMethod::Initialized
        | RuntimeMethod::Challenge
        | RuntimeMethod::IntegrationsRequestEnrollment
        | RuntimeMethod::IntegrationsWatchEnrollment
        | RuntimeMethod::IntegrationsGetGrant
        | RuntimeMethod::IntegrationsRotateKey
        | RuntimeMethod::ProvidersChanged
        | RuntimeMethod::ProvidersWatchEnded
        | RuntimeMethod::ProvidersUsageChanged
        | RuntimeMethod::SessionsRenewControl
        | RuntimeMethod::SessionsReleaseControl
        | RuntimeMethod::SessionsEvent
        | RuntimeMethod::SessionsLagged
        | RuntimeMethod::SessionsIndexChanged
        | RuntimeMethod::SessionsIndexEnded
        | RuntimeMethod::ApprovalsRespond
        | RuntimeMethod::PanicStop
        | RuntimeMethod::TerminalsExited
        | RuntimeMethod::TerminalsIndexChanged
        | RuntimeMethod::TerminalsIndexEnded
        | RuntimeMethod::TerminalsLagged
        | RuntimeMethod::TerminalsOutput
        | RuntimeMethod::WindowsIndexChanged
        | RuntimeMethod::WindowsIndexEnded
        | RuntimeMethod::WindowsRevealRequested
        | RuntimeMethod::WindowsRevealsEnded => None,
    }
}

/// The handler lane one public request is answered by.
#[derive(Clone, Copy, Debug, PartialEq, Eq, Structural)]
pub enum Route {
    Initialize,
    RequestEnrollment,
    WatchEnrollment,
    Grant,
    RotateKey,
    ProvidersList,
    ProvidersUsage,
    ProvidersWatch,
    ProviderCapabilities,
    ListModels,
    ListNativeSessions,
    NativeActivity,
    FocusNative,
    SessionsList,
    SessionsWatchIndex,
    SessionsGet,
    OpenSession,
    SessionOperation,
    ForgetSession,
    MutateNative,
    Terminal,
    Window,
    PanicStop,
    /// A notification or server-sent method, never a client request.
    NotARequest,
}
/// The handler lane of a method.
pub open spec fn route_of(method: RuntimeMethod) -> Route {
    match method {
        RuntimeMethod::Initialize => Route::Initialize,
        RuntimeMethod::IntegrationsRequestEnrollment => Route::RequestEnrollment,
        RuntimeMethod::IntegrationsWatchEnrollment => Route::WatchEnrollment,
        RuntimeMethod::IntegrationsGetGrant => Route::Grant,
        RuntimeMethod::IntegrationsRotateKey => Route::RotateKey,
        RuntimeMethod::ProvidersList => Route::ProvidersList,
        RuntimeMethod::ProvidersUsage => Route::ProvidersUsage,
        RuntimeMethod::ProvidersWatch => Route::ProvidersWatch,
        RuntimeMethod::ProvidersGetCapabilities => Route::ProviderCapabilities,
        RuntimeMethod::ProvidersListModels => Route::ListModels,
        RuntimeMethod::ProvidersListNativeSessions => Route::ListNativeSessions,
        RuntimeMethod::ProvidersNativeActivity => Route::NativeActivity,
        RuntimeMethod::ProvidersFocusNative => Route::FocusNative,
        RuntimeMethod::SessionsList => Route::SessionsList,
        RuntimeMethod::SessionsWatchIndex => Route::SessionsWatchIndex,
        RuntimeMethod::SessionsGet => Route::SessionsGet,
        RuntimeMethod::SessionsStart
        | RuntimeMethod::SessionsAdoptNative
        | RuntimeMethod::SessionsResume => Route::OpenSession,
        RuntimeMethod::SessionsAcquireControl
        | RuntimeMethod::SessionsRenewControl
        | RuntimeMethod::SessionsReleaseControl
        | RuntimeMethod::SessionsSubmitInput
        | RuntimeMethod::SessionsSubmitBlocks
        | RuntimeMethod::SessionsSetModel
        | RuntimeMethod::SessionsSetMode
        | RuntimeMethod::SessionsWatchEvents
        | RuntimeMethod::SessionsInterrupt
        | RuntimeMethod::SessionsCool
        | RuntimeMethod::ApprovalsListPending
        | RuntimeMethod::ApprovalsRespond => Route::SessionOperation,
        RuntimeMethod::SessionsForget => Route::ForgetSession,
        RuntimeMethod::SessionsDeleteNative
        | RuntimeMethod::SessionsArchiveNative => Route::MutateNative,
        RuntimeMethod::TerminalsList
        | RuntimeMethod::TerminalsWatchIndex
        | RuntimeMethod::TerminalsOpen
        | RuntimeMethod::TerminalsAttach
        | RuntimeMethod::TerminalsAcquireControl
        | RuntimeMethod::TerminalsRenewControl
        | RuntimeMethod::TerminalsReleaseControl
        | RuntimeMethod::TerminalsWrite
        | RuntimeMethod::TerminalsResize
        | RuntimeMethod::TerminalsDetach
        | RuntimeMethod::TerminalsStop
        | RuntimeMethod::TerminalsSetDialogue => Route::Terminal,
        RuntimeMethod::WindowsRegister
        | RuntimeMethod::WindowsUpdate
        | RuntimeMethod::WindowsList
        | RuntimeMethod::WindowsWatchIndex
        | RuntimeMethod::WindowsMirrorOpen
        | RuntimeMethod::WindowsMirrorOutput
        | RuntimeMethod::WindowsMirrorEnd
        | RuntimeMethod::WindowsReveal
        | RuntimeMethod::WindowsWatchReveals => Route::Window,
        RuntimeMethod::PanicStop => Route::PanicStop,
        RuntimeMethod::Initialized
        | RuntimeMethod::Challenge
        | RuntimeMethod::ProvidersChanged
        | RuntimeMethod::ProvidersWatchEnded
        | RuntimeMethod::ProvidersUsageChanged
        | RuntimeMethod::SessionsEvent
        | RuntimeMethod::SessionsLagged
        | RuntimeMethod::SessionsIndexChanged
        | RuntimeMethod::SessionsIndexEnded
        | RuntimeMethod::TerminalsExited
        | RuntimeMethod::TerminalsIndexChanged
        | RuntimeMethod::TerminalsIndexEnded
        | RuntimeMethod::TerminalsLagged
        | RuntimeMethod::TerminalsOutput
        | RuntimeMethod::WindowsIndexChanged
        | RuntimeMethod::WindowsIndexEnded
        | RuntimeMethod::WindowsRevealRequested
        | RuntimeMethod::WindowsRevealsEnded => Route::NotARequest,
    }
}

/// Which handler lane answers a public method.
pub fn route(method: RuntimeMethod) -> (r: Route)
    ensures
        r == route_of(method),
{
    match method {
        RuntimeMethod::Initialize => Route::Initialize,
        RuntimeMethod::IntegrationsRequestEnrollment => Route::RequestEnrollment,
        RuntimeMethod::IntegrationsWatchEnrollment => Route::WatchEnrollment,
        RuntimeMethod::IntegrationsGetGrant => Route::Grant,
        RuntimeMethod::IntegrationsRotateKey => Route::RotateKey,
        RuntimeMethod::ProvidersList => Route::ProvidersList,
        RuntimeMethod::ProvidersUsage => Route::ProvidersUsage,
        RuntimeMethod::ProvidersWatch => Route::ProvidersWatch,
        RuntimeMethod::ProvidersGetCapabilities => Route::ProviderCapabilities,
        RuntimeMethod::ProvidersListModels => Route::ListModels,
        RuntimeMethod::ProvidersListNativeSessions => Route::ListNativeSessions,
        RuntimeMethod::ProvidersNativeActivity => Route::NativeActivity,
        RuntimeMethod::ProvidersFocusNative => Route::FocusNative,
        RuntimeMethod::SessionsList => Route::SessionsList,
        RuntimeMethod::SessionsWatchIndex => Route::SessionsWatchIndex,
        RuntimeMethod::SessionsGet => Route::SessionsGet,
        RuntimeMethod::SessionsStart
        | RuntimeMethod::SessionsAdoptNative
        | RuntimeMethod::SessionsResume => Route::OpenSession,
        RuntimeMethod::SessionsAcquireControl
        | RuntimeMethod::SessionsRenewControl
        | RuntimeMethod::SessionsReleaseControl
        | RuntimeMethod::SessionsSubmitInput
        | RuntimeMethod::SessionsSubmitBlocks
        | RuntimeMethod::SessionsSetModel
        | RuntimeMethod::SessionsSetMode
        | RuntimeMethod::SessionsWatchEvents
        | RuntimeMethod::SessionsInterrupt
        | RuntimeMethod::SessionsCool
        | RuntimeMethod::ApprovalsListPending
        | RuntimeMethod::ApprovalsRespond => Route::SessionOperation,
        RuntimeMethod::SessionsForget => Route::ForgetSession,
        RuntimeMethod::SessionsDeleteNative
        | RuntimeMethod::SessionsArchiveNative => Route::MutateNative,
        RuntimeMethod::TerminalsList
        | RuntimeMethod::TerminalsWatchIndex
        | RuntimeMethod::TerminalsOpen
        | RuntimeMethod::TerminalsAttach
        | RuntimeMethod::TerminalsAcquireControl
        | RuntimeMethod::TerminalsRenewControl
        | RuntimeMethod::TerminalsReleaseControl
        | RuntimeMethod::TerminalsWrite
        | RuntimeMethod::TerminalsResize
        | RuntimeMethod::TerminalsDetach
        | RuntimeMethod::TerminalsStop
        | RuntimeMethod::TerminalsSetDialogue => Route::Terminal,
        RuntimeMethod::WindowsRegister
        | RuntimeMethod::WindowsUpdate
        | RuntimeMethod::WindowsList
        | RuntimeMethod::WindowsWatchIndex
        | RuntimeMethod::WindowsMirrorOpen
        | RuntimeMethod::WindowsMirrorOutput
        | RuntimeMethod::WindowsMirrorEnd
        | RuntimeMethod::WindowsReveal
        | RuntimeMethod::WindowsWatchReveals => Route::Window,
        RuntimeMethod::PanicStop => Route::PanicStop,
        RuntimeMethod::Initialized
        | RuntimeMethod::Challenge
        | RuntimeMethod::ProvidersChanged
        | RuntimeMethod::ProvidersWatchEnded
        | RuntimeMethod::ProvidersUsageChanged
        | RuntimeMethod::SessionsEvent
        | RuntimeMethod::SessionsLagged
        | RuntimeMethod::SessionsIndexChanged
        | RuntimeMethod::SessionsIndexEnded
        | RuntimeMethod::TerminalsExited
        | RuntimeMethod::TerminalsIndexChanged
        | RuntimeMethod::TerminalsIndexEnded
        | RuntimeMethod::TerminalsLagged
        | RuntimeMethod::TerminalsOutput
        | RuntimeMethod::WindowsIndexChanged
        | RuntimeMethod::WindowsIndexEnded
        | RuntimeMethod::WindowsRevealRequested
        | RuntimeMethod::WindowsRevealsEnded => Route::NotARequest,
    }
}

pub open spec fn terminal_unavailable_text() -> Seq<char> {
    "the public terminal surface is not available in this Runtime generation"@
}

pub open spec fn not_a_request_text() -> Seq<char> {
    "the method is not a client request in the current state"@
}

/// The refusal a lane answers with outright, without reading the request's parameters: the
/// terminal lane is not offered by this Runtime, and a notification is never a client request.
/// `None` for a lane that handles the request.
pub fn lane_refusal(route: Route) -> (r: Option<PublicFailure>)
    ensures
        match route {
            Route::Terminal => r matches Some(f) && says(
                f,
                ErrorKind::CapabilityUnavailable,
                terminal_unavailable_text(),
            ),
            Route::NotARequest => r matches Some(f) && says(
                f,
                ErrorKind::InvalidRequest,
                not_a_request_text(),
            ),
            _ => r is None,
        },
{
    match route {
        Route::Terminal => Some(
            plain(
                ErrorKind::CapabilityUnavailable,
                "the public terminal surface is not available in this Runtime generation",
            ),
        ),
        Route::NotARequest => Some(
            plain(ErrorKind::InvalidRequest, "the method is not a client request in the current state"),
        ),
        _ => None,
    }
}

pub open spec fn panic_stop_params_text() -> Seq<char> {
    "panic stop parameters are invalid"@
}

pub open spec fn panic_stop_incomplete_text() -> Seq<char> {
    "Runtime could not stop every supervised process"@
}

/// What a panic stop answers: its parameters must be empty, and then success only when every
/// supervised process was stopped. `stopped` is what stopping them reported; it is not asked
/// when the parameters are invalid.
pub fn panic_stop_answer(params_valid: bool, stopped: bool) -> (r: Result<(), PublicFailure>)
    ensures
        !params_valid ==> (r matches Err(f) && says(f, ErrorKind::InvalidRequest, panic_stop_params_text())),
        params_valid && stopped ==> r is Ok,
        params_valid && !stopped ==> (r matches Err(f) && says(
            f,
            ErrorKind::Internal,
            panic_stop_incomplete_text(),
        )),
{
    if !params_valid {
        return Err(plain(ErrorKind::InvalidRequest, "panic stop parameters are invalid"));
    }
    if stopped {
        Ok(())
    } else {
        Err(plain(ErrorKind::Internal, "Runtime could not stop every supervised process"))
    }
}

/// Whether answering a method may discover an executable and so refreshes the provider
/// inventory first. The frequent activity observation is deliberately not one of them.
pub open spec fn refreshes_providers(method: RuntimeMethod) -> bool {
    method == RuntimeMethod::ProvidersList || method == RuntimeMethod::ProvidersWatch || method
        == RuntimeMethod::ProvidersGetCapabilities || method == RuntimeMethod::ProvidersListModels
        || method == RuntimeMethod::ProvidersListNativeSessions || method
        == RuntimeMethod::SessionsStart || method == RuntimeMethod::SessionsAdoptNative || method
        == RuntimeMethod::SessionsResume || method == RuntimeMethod::TerminalsOpen
}

/// Whether a method refreshes the provider inventory before it is answered.
pub fn method_needs_provider_refresh(method: RuntimeMethod) -> (r: bool)
    ensures
        r == refreshes_providers(method),
{
    match method {
        RuntimeMethod::ProvidersList
        | RuntimeMethod::ProvidersWatch
        | RuntimeMethod::ProvidersGetCapabilities
        | RuntimeMethod::ProvidersListModels
        | RuntimeMethod::ProvidersListNativeSessions
        | RuntimeMethod::SessionsStart
        | RuntimeMethod::SessionsAdoptNative
        | RuntimeMethod::SessionsResume
        | RuntimeMethod::TerminalsOpen => true,
        _ => false,
    }
}

/// The operating system Runtime was built for.
#[derive(Clone, Copy, Debug, PartialEq, Eq, Structural)]
pub enum HostOs {
    Windows,
    MacOs,
    /// Any other Unix.
    Linux,
}

/// The processor architecture Runtime was built for.
#[derive(Clone, Copy, Debug, PartialEq, Eq, Structural)]
pub enum HostArch {
    X86_64,
    /// Any other architecture, reported as the other supported one.
    Aarch64,
}

/// The platform name Runtime reports for itself.
pub fn platform_name(os: HostOs, arch: HostArch) -> (r: &'static str)
    ensures
        r@ == match (os, arch) {
            (HostOs::Windows, HostArch::X86_64) => "windows-x86_64"@,
            (HostOs::Windows, HostArch::Aarch64) => "windows-aarch64"@,
            (HostOs::MacOs, HostArch::X86_64) => "macos-x86_64"@,
            (HostOs::MacOs, HostArch::Aarch64) => "macos-aarch64"@,
            (HostOs::Linux, HostArch::X86_64) => "linux-x86_64"@,
            (HostOs::Linux, HostArch::Aarch64) => "linux-aarch64"@,
        },
{
    match os {
        HostOs::Windows => if arch == HostArch::X86_64 {
            "windows-x86_64"
        } else {
            "windows-aarch64"
        },
        HostOs::MacOs => if arch == HostArch::X86_64 {
            "macos-x86_64"
        } else {
            "macos-aarch64"
        },
        HostOs::Linux => if arch == HostArch::X86_64 {
            "linux-x86_64"
        } else {
            "linux-aarch64"
        },
    }
}

// ---------------------------------------------------------------------------------------------
// Public refusals
// ---------------------------------------------------------------------------------------------
/// A refusal answered on the public envelope.
#[derive(Debug)]
pub struct PublicFailure {
    pub kind: ErrorKind,
    pub message: String,
}

/// A public refusal of this kind with this sentence.
pub open spec fn says(f: PublicFailure, kind: ErrorKind, message: Seq<char>) -> bool {
    f.kind == kind && f.message@ == message
}

/// A plain public refusal.
pub fn plain(kind: ErrorKind, message: &str) -> (r: PublicFailure)
    ensures
        says(r, kind, message@),
{
    PublicFailure { kind, message: message.to_owned() }
}

/// The public refusal of an authorization failure.
pub fn authorization_answer(failure: AuthorizationFailure) -> (r: PublicFailure)
    ensures
        says(r, failure.kind, failure.message@),
{
    plain(failure.kind, failure.message)
}


// ---------------------------------------------------------------------------------------------
// The session lane
// ---------------------------------------------------------------------------------------------
/// One operation the session lane hands to the session owner.
#[derive(Clone, Copy, Debug, PartialEq, Eq, Structural)]
pub enum SessionOperation {
    Acquire,
    Renew,
    Release,
    Submit,
    SubmitBlocks,
    SetModel,
    SetMode,
    Watch,
    Interrupt,
    Cool,
    ListApprovals,
    RespondApproval,
}

/// The session-lane operation of a method, none for every other method.
pub open spec fn operation_of(method: RuntimeMethod) -> Option<SessionOperation> {
    match method {
        RuntimeMethod::SessionsAcquireControl => Some(SessionOperation::Acquire),
        RuntimeMethod::SessionsRenewControl => Some(SessionOperation::Renew),
        RuntimeMethod::SessionsReleaseControl => Some(SessionOperation::Release),
        RuntimeMethod::SessionsSubmitInput => Some(SessionOperation::Submit),
        RuntimeMethod::SessionsSubmitBlocks => Some(SessionOperation::SubmitBlocks),
        RuntimeMethod::SessionsSetModel => Some(SessionOperation::SetModel),
        RuntimeMethod::SessionsSetMode => Some(SessionOperation::SetMode),
        RuntimeMethod::SessionsWatchEvents => Some(SessionOperation::Watch),
        RuntimeMethod::SessionsInterrupt => Some(SessionOperation::Interrupt),
        RuntimeMethod::SessionsCool => Some(SessionOperation::Cool),
        RuntimeMethod::ApprovalsListPending => Some(SessionOperation::ListApprovals),
        RuntimeMethod::ApprovalsRespond => Some(SessionOperation::RespondApproval),
        _ => None,
    }
}

pub open spec fn not_session_operation_text() -> Seq<char> {
    "the method is not a session operation"@
}

/// Which session-lane operation a method names; every other method is refused by name, so a
/// new method cannot fall through to the session lane by omission.
pub fn parse_session_operation(method: RuntimeMethod) -> (r: Result<SessionOperation, &'static str>)
    ensures
        match operation_of(method) {
            Some(op) => r == Ok::<SessionOperation, &'static str>(op),
            None => r matches Err(m) && m@ == not_session_operation_text(),
        },
{
    match method {
        RuntimeMethod::SessionsAcquireControl => Ok(SessionOperation::Acquire),
        RuntimeMethod::SessionsRenewControl => Ok(SessionOperation::Renew),
        RuntimeMethod::SessionsReleaseControl => Ok(SessionOperation::Release),
        RuntimeMethod::SessionsSubmitInput => Ok(SessionOperation::Submit),
        RuntimeMethod::SessionsSubmitBlocks => Ok(SessionOperation::SubmitBlocks),
        RuntimeMethod::SessionsSetModel => Ok(SessionOperation::SetModel),
        RuntimeMethod::SessionsSetMode => Ok(SessionOperation::SetMode),
        RuntimeMethod::SessionsWatchEvents => Ok(SessionOperation::Watch),
        RuntimeMethod::SessionsInterrupt => Ok(SessionOperation::Interrupt),
        RuntimeMethod::SessionsCool => Ok(SessionOperation::Cool),
        RuntimeMethod::ApprovalsListPending => Ok(SessionOperation::ListApprovals),
        RuntimeMethod::ApprovalsRespond => Ok(SessionOperation::RespondApproval),
        _ => Err("the method is not a session operation"),
    }
}

/// The refusal for parameters that do not read as the operation's parameters.
pub fn invalid_operation_parameters(op: SessionOperation) -> (r: &'static str)
    ensures
        r@ == match op {
            SessionOperation::Acquire => "session control acquisition parameters are invalid"@,
            SessionOperation::Renew => "session control renewal parameters are invalid"@,
            SessionOperation::Release => "session control release parameters are invalid"@,
            SessionOperation::Submit => "session input parameters are invalid"@,
            SessionOperation::SubmitBlocks => "session block parameters are invalid"@,
            SessionOperation::SetModel => "model switch parameters are invalid"@,
            SessionOperation::SetMode => "mode switch parameters are invalid"@,
            SessionOperation::Watch => "session event watch parameters are invalid"@,
            SessionOperation::Interrupt => "session interrupt parameters are invalid"@,
            SessionOperation::Cool => "session cooling parameters are invalid"@,
            SessionOperation::ListApprovals => "pending approval list parameters are invalid"@,
            SessionOperation::RespondApproval => "approval response parameters are invalid"@,
        },
{
    match op {
        SessionOperation::Acquire => "session control acquisition parameters are invalid",
        SessionOperation::Renew => "session control renewal parameters are invalid",
        SessionOperation::Release => "session control release parameters are invalid",
        SessionOperation::Submit => "session input parameters are invalid",
        SessionOperation::SubmitBlocks => "session block parameters are invalid",
        SessionOperation::SetModel => "model switch parameters are invalid",
        SessionOperation::SetMode => "mode switch parameters are invalid",
        SessionOperation::Watch => "session event watch parameters are invalid",
        SessionOperation::Interrupt => "session interrupt parameters are invalid",
        SessionOperation::Cool => "session cooling parameters are invalid",
        SessionOperation::ListApprovals => "pending approval list parameters are invalid",
        SessionOperation::RespondApproval => "approval response parameters are invalid",
    }
}

pub open spec fn subscription_prefix() -> Seq<char> {
    "sub_"@
}

/// A fresh unpredictable subscription identity.
pub fn random_subscription_id() -> (r: Result<String, ()>)
    ensures
        r matches Ok(id) ==> exists|b: Seq<u8>| b.len() == 16 && id@ == subscription_prefix() + hex_chars(b),
{
    let mut bytes = [0u8; 16];
    if random_fill(&mut bytes).is_err() {
        return Err(());
    }
    let mut output = "sub_".to_owned();
    let digits = hex(&bytes);
    string_push_str(&mut output, digits.as_str());
    Ok(output)
}

/// Which approval responses an integration may give.
#[derive(Clone, Copy, Debug, PartialEq, Eq, Structural)]
pub struct ApprovalScopes {
    pub low: bool,
    pub high: bool,
}

/// The approval response scopes a grant holds.
pub fn approval_scopes(scopes: &Vec<AppScope>) -> (r: ApprovalScopes)
    ensures
        r.low == scopes@.contains(AppScope::ApprovalRespondLow),
        r.high == scopes@.contains(AppScope::ApprovalRespondHigh),
{
    let mut low = false;
    let mut high = false;
    let mut i: usize = 0;
    while i < scopes.len()
        invariant
            0 <= i <= scopes@.len(),
            low == exists|j: int| 0 <= j < i && scopes@[j] == AppScope::ApprovalRespondLow,
            high == exists|j: int| 0 <= j < i && scopes@[j] == AppScope::ApprovalRespondHigh,
        decreases scopes@.len() - i,
    {
        let scope = scopes[i];
        if scope == AppScope::ApprovalRespondLow {
            low = true;
        }
        if scope == AppScope::ApprovalRespondHigh {
            high = true;
        }
        i = i + 1;
    }
    ApprovalScopes { low, high }
}

pub open spec fn no_approval_scope_text() -> Seq<char> {
    "the integration lacks an approval response scope"@
}

/// An approval response needs at least one approval response scope.
pub fn check_approval_scope(method: RuntimeMethod, scopes: ApprovalScopes) -> (r: Result<(), PublicFailure>)
    ensures
        r is Ok <==> !(method == RuntimeMethod::ApprovalsRespond && !scopes.low && !scopes.high),
        r matches Err(f) ==> says(f, ErrorKind::ScopeDenied, no_approval_scope_text()),
{
    if method == RuntimeMethod::ApprovalsRespond && !scopes.low && !scopes.high {
        return Err(plain(ErrorKind::ScopeDenied, "the integration lacks an approval response scope"));
    }
    Ok(())
}

/// The approval authority an answer is given with: high when the grant holds it.
pub fn approval_authority(scopes: ApprovalScopes) -> (r: bool)
    ensures
        r == scopes.high,
{
    scopes.high
}

// ---------------------------------------------------------------------------------------------
// Native conversation mutation
// ---------------------------------------------------------------------------------------------
/// A change to one provider-native conversation through the provider's own surface.
#[derive(Clone, Copy, Debug, PartialEq, Eq, Structural)]
pub enum NativeSessionMutation {
    Delete,
    Archive,
}

impl NativeSessionMutation {
    /// The mutation a method names.
    pub fn from_method(method: RuntimeMethod) -> (r: Option<Self>)
        ensures
            r == match method {
                RuntimeMethod::SessionsDeleteNative => Some(NativeSessionMutation::Delete),
                RuntimeMethod::SessionsArchiveNative => Some(NativeSessionMutation::Archive),
                _ => None,
            },
    {
        match method {
            RuntimeMethod::SessionsDeleteNative => Some(NativeSessionMutation::Delete),
            RuntimeMethod::SessionsArchiveNative => Some(NativeSessionMutation::Archive),
            _ => None,
        }
    }

    /// What the caller is told when the provider does not answer in time.
    pub fn timeout_message(self) -> (r: &'static str)
        ensures
            r@ == match self {
                NativeSessionMutation::Delete => "the provider did not answer the deletion within its bounded deadline"@,
                NativeSessionMutation::Archive => "the provider did not answer the archival within its bounded deadline"@,
            },
    {
        match self {
            NativeSessionMutation::Delete => "the provider did not answer the deletion within its bounded deadline",
            NativeSessionMutation::Archive => "the provider did not answer the archival within its bounded deadline",
        }
    }

    /// The refusal for parameters that do not read as this mutation's parameters.
    pub fn invalid_parameters(self) -> (r: &'static str)
        ensures
            r@ == match self {
                NativeSessionMutation::Delete => "native session deletion parameters are invalid"@,
                NativeSessionMutation::Archive => "native session archival parameters are invalid"@,
            },
    {
        match self {
            NativeSessionMutation::Delete => "native session deletion parameters are invalid",
            NativeSessionMutation::Archive => "native session archival parameters are invalid",
        }
    }
}

/// The mutation a method names, or the refusal for any other method.
pub fn parse_native_session_mutation(method: RuntimeMethod) -> (r: Result<NativeSessionMutation, &'static str>)
    ensures
        match method {
            RuntimeMethod::SessionsDeleteNative => r == Ok::<NativeSessionMutation, &'static str>(
                NativeSessionMutation::Delete,
            ),
            RuntimeMethod::SessionsArchiveNative => r == Ok::<NativeSessionMutation, &'static str>(
                NativeSessionMutation::Archive,
            ),
            _ => r matches Err(m) && m@ == "native session mutation method is invalid"@,
        },
{
    match NativeSessionMutation::from_method(method) {
        Some(mutation) => Ok(mutation),
        None => Err("native session mutation method is invalid"),
    }
}

/// What the live-claim registry answered about a native conversation.
#[derive(Clone, Copy, Debug, PartialEq, Eq, Structural)]
pub enum ClaimCheck {
    Free,
    Claimed,
    Unavailable,
}

/// A provider process or unresolved launch owns the mutation boundary until it stops.
pub fn refuse_live_native_claim(claim: ClaimCheck) -> (r: Option<PublicFailure>)
    ensures
        match claim {
            ClaimCheck::Free => r is None,
            ClaimCheck::Claimed => r matches Some(f) && says(
                f,
                ErrorKind::NativeConversationBusy,
                "the provider-native conversation has a live process claim; stop its original session before mutating it"@,
            ),
            ClaimCheck::Unavailable => r matches Some(f) && says(
                f,
                ErrorKind::RuntimeUnavailable,
                "the native live-claim registry is unavailable"@,
            ),
        },
{
    match claim {
        ClaimCheck::Free => None,
        ClaimCheck::Claimed => Some(
            plain(
                ErrorKind::NativeConversationBusy,
                "the provider-native conversation has a live process claim; stop its original session before mutating it",
            ),
        ),
        ClaimCheck::Unavailable => Some(
            plain(ErrorKind::RuntimeUnavailable, "the native live-claim registry is unavailable"),
        ),
    }
}

/// Refuse to change a conversation Runtime supervises: its process would answer to a store that
/// moved under it.
pub fn refuse_supervised(managed: Result<Option<String>, RuntimeInventoryFailure>) -> (r: Option<PublicFailure>)
    ensures
        match managed {
            Ok(None) => r is None,
            Ok(Some(_)) => r matches Some(f) && says(
                f,
                ErrorKind::SessionConflict,
                "Runtime supervises this conversation; forget the supervised session first"@,
            ),
            Err(failure) => r matches Some(f) && says(
                f,
                inventory_refusal(failure).0,
                inventory_refusal(failure).1,
            ),
        },
{
    match managed {
        Ok(None) => None,
        Ok(Some(_)) => Some(
            plain(
                ErrorKind::SessionConflict,
                "Runtime supervises this conversation; forget the supervised session first",
            ),
        ),
        Err(failure) => Some(inventory_failure(failure)),
    }
}

/// How a bounded provider step ended.
#[derive(Debug)]
pub enum Bounded<T> {
    Answered(T),
    TimedOut,
}

/// The answer to a native conversation mutation once the provider was asked.
///
/// `prepared` is whether preparing the provider succeeded within its deadline; `mutated` is the
/// provider's answer within its deadline; `forgotten` is whether, after a deletion, Runtime could
/// forget its own pointers to the conversation, or what the store said when it could not.
pub fn mutation_answer(
    mutation: NativeSessionMutation,
    prepared: Bounded<bool>,
    mutated: Bounded<Result<(), ProviderError>>,
    forgotten: Result<(), String>,
) -> (r: Result<(), PublicFailure>)
    ensures
        match prepared {
            Bounded::TimedOut => r matches Err(f) && says(
                f,
                ErrorKind::RuntimeUnavailable,
                "provider preparation exceeded its bounded deadline"@,
            ),
            Bounded::Answered(false) => r matches Err(f) && says(
                f,
                ErrorKind::ProviderUnavailable,
                "the selected provider could not be prepared"@,
            ),
            Bounded::Answered(true) => match mutated {
                Bounded::TimedOut => r matches Err(f) && f.kind == ErrorKind::RuntimeUnavailable
                    && f.message@ == (match mutation {
                    NativeSessionMutation::Delete => "the provider did not answer the deletion within its bounded deadline"@,
                    NativeSessionMutation::Archive => "the provider did not answer the archival within its bounded deadline"@,
                }),
                Bounded::Answered(Err(e)) => r matches Err(f) && says(
                    f,
                    provider_refusal(e).0,
                    provider_refusal(e).1,
                ),
                Bounded::Answered(Ok(())) => match forgotten {
                    Err(detail) if mutation == NativeSessionMutation::Delete => r matches Err(f) && says(
                        f,
                        ErrorKind::RuntimeUnavailable,
                        "the coding service deleted the conversation, but Runtrol could not forget its own pointer to it: "@
                            + detail@,
                    ),
                    _ => r is Ok,
                },
            },
        },
{
    match prepared {
        Bounded::TimedOut => {
            return Err(
                plain(ErrorKind::RuntimeUnavailable, "provider preparation exceeded its bounded deadline"),
            );
        },
        Bounded::Answered(false) => {
            return Err(
                plain(ErrorKind::ProviderUnavailable, "the selected provider could not be prepared"),
            );
        },
        Bounded::Answered(true) => {},
    }
    match mutated {
        Bounded::TimedOut => Err(plain(ErrorKind::RuntimeUnavailable, mutation.timeout_message())),
        Bounded::Answered(Err(error)) => {
            let failure = provider_failure(error);
            Err(plain(failure.kind, failure.message))
        },
        Bounded::Answered(Ok(())) => {
            if mutation == NativeSessionMutation::Delete {
                if let Err(detail) = forgotten {
                    let mut message = "the coding service deleted the conversation, but Runtrol could not forget its own pointer to it: ".to_owned();
                    string_push_str(&mut message, detail.as_str());
                    return Err(PublicFailure { kind: ErrorKind::RuntimeUnavailable, message });
                }
            }
            Ok(())
        },
    }
}

/// One stored session pointer: the session, and the provider conversation it names.
#[derive(Debug)]
pub struct StoredPointer {
    pub session: [u8; 16],
    pub provider: String,
    pub native: String,
}

/// The sessions of the pointers, in stored order, that name this provider's conversation.
pub open spec fn pointers_naming(listed: Seq<StoredPointer>, provider: Seq<char>, native: Seq<char>) -> Seq<Seq<u8>>
    decreases listed.len(),
{
    if listed.len() == 0 {
        Seq::empty()
    } else {
        let rest = pointers_naming(listed.drop_last(), provider, native);
        if listed.last().provider@ == provider && listed.last().native@ == native {
            rest.push(listed.last().session@)
        } else {
            rest
        }
    }
}

/// The stored pointers to forget after the provider deleted one conversation: every pointer
/// that named it, and nothing else, not even a pointer of another provider with the same native
/// identity.
pub fn pointers_of(listed: &Vec<StoredPointer>, provider: &str, native: &str) -> (r: Vec<[u8; 16]>)
    ensures
        r@.map_values(|s: [u8; 16]| s@) == pointers_naming(listed@, provider@, native@),
{
    let mut out: Vec<[u8; 16]> = Vec::new();
    let mut i: usize = 0;
    while i < listed.len()
        invariant
            i <= listed@.len(),
            out@.map_values(|s: [u8; 16]| s@) == pointers_naming(listed@.take(i as int), provider@, native@),
        decreases listed@.len() - i,
    {
        let entry = &listed[i];
        proof {
            assert(listed@.take(i + 1).drop_last() =~= listed@.take(i as int));
            assert(listed@.take(i + 1).last() == listed@[i as int]);
        }
        if crate::text::str_eq(entry.provider.as_str(), provider) && crate::text::str_eq(entry.native.as_str(), native) {
            let ghost before = out@;
            out.push(entry.session);
            proof {
                assert(out@.map_values(|s: [u8; 16]| s@) =~= before.map_values(|s: [u8; 16]| s@).push(entry.session@));
            }
        }
        i = i + 1;
    }
    proof {
        assert(listed@.take(listed@.len() as int) =~= listed@);
    }
    out
}

/// The placeholder an event notification is encoded around: `"event":null`.
pub open spec fn event_placeholder() -> Seq<u8> {
    seq![34u8, 101u8, 118u8, 101u8, 110u8, 116u8, 34u8, 58u8, 110u8, 117u8, 108u8, 108u8]
}

/// Whether the placeholder starts at byte `i` of an encoding.
pub open spec fn placeholder_at(encoded: Seq<u8>, i: int) -> bool {
    0 <= i && i + 12 <= encoded.len() && encoded.subrange(i, i + 12) == event_placeholder()
}

/// Split an event notification, encoded with the placeholder, around the placeholder's `null`:
/// the event's own bytes go between the two edges unchanged. `None` when the encoding holds no
/// placeholder.
pub fn event_notification_edges(encoded: Vec<u8>) -> (r: Option<(Vec<u8>, Vec<u8>)>)
    ensures
        match r {
            None => forall|i: int| !placeholder_at(encoded@, i),
            Some((prefix, suffix)) => exists|i: int|
                placeholder_at(encoded@, i) && (forall|j: int| 0 <= j < i ==> !placeholder_at(encoded@, j))
                    && prefix@ == encoded@.take(i + 8) && suffix@ == encoded@.skip(i + 12),
        },
        r matches Some((prefix, suffix)) ==> prefix@ + seq![110u8, 117u8, 108u8, 108u8] + suffix@ == encoded@,
{
    let needle: [u8; 12] = [34, 101, 118, 101, 110, 116, 34, 58, 110, 117, 108, 108];
    proof {
        assert(needle@ =~= event_placeholder());
    }
    let n: usize = encoded.len();
    if n < 12 {
        return None;
    }
    let last: usize = n - 12;
    let mut i: usize = 0;
    while i <= last
        invariant
            n == encoded@.len(),
            encoded@.len() >= 12,
            last == encoded@.len() - 12,
            i <= last + 1,
            needle@ == event_placeholder(),
            forall|j: int| 0 <= j < i ==> !placeholder_at(encoded@, j),
        decreases last + 1 - i,
    {
        let mut k: usize = 0;
        let mut matched = true;
        while k < 12
            invariant
                n == encoded@.len(),
                i <= last,
                last == encoded@.len() - 12,
                k <= 12,
                needle@ == event_placeholder(),
                matched == forall|m: int| 0 <= m < k ==> encoded@[i + m] == needle@[m],
            decreases 12 - k,
        {
            if encoded[i + k] != needle[k] {
                matched = false;
            }
            k = k + 1;
        }
        if matched {
            proof {
                assert(encoded@.subrange(i as int, i + 12) =~= event_placeholder());
            }
            let mut prefix: Vec<u8> = Vec::new();
            let mut p: usize = 0;
            while p < i + 8
                invariant
                    n == encoded@.len(),
                    i <= last,
                    last == encoded@.len() - 12,
                    p <= i + 8,
                    prefix@ == encoded@.take(p as int),
                decreases i + 8 - p,
            {
                prefix.push(encoded[p]);
                proof {
                    assert(encoded@.take(p + 1) =~= encoded@.take(p as int).push(encoded@[p as int]));
                }
                p = p + 1;
            }
            let mut suffix: Vec<u8> = Vec::new();
            let mut q: usize = i + 12;
            while q < encoded.len()
                invariant
                    n == encoded@.len(),
                    i <= last,
                    last == encoded@.len() - 12,
                    i + 12 <= q <= encoded@.len(),
                    suffix@ == encoded@.subrange(i + 12, q as int),
                decreases encoded@.len() - q,
            {
                suffix.push(encoded[q]);
                proof {
                    assert(encoded@.subrange(i + 12, q + 1) =~= encoded@.subrange(i + 12, q as int).push(
                        encoded@[q as int],
                    ));
                }
                q = q + 1;
            }
            proof {
                assert(suffix@ =~= encoded@.skip(i + 12));
                assert(forall|j: int| 0 <= j < i ==> !placeholder_at(encoded@, j));
                assert(placeholder_at(encoded@, i as int));
                assert(prefix@ == encoded@.take(i + 8));
                let null = seq![110u8, 117u8, 108u8, 108u8];
                assert(encoded@.subrange(i + 8, i + 12) =~= null) by {
                    assert(encoded@.subrange(i as int, i + 12)[8] == 110u8);
                    assert(encoded@.subrange(i as int, i + 12)[9] == 117u8);
                    assert(encoded@.subrange(i as int, i + 12)[10] == 108u8);
                    assert(encoded@.subrange(i as int, i + 12)[11] == 108u8);
                }
                assert(prefix@ + null + suffix@ =~= encoded@);
            }
            return Some((prefix, suffix));
        }
        proof {
            assert(!placeholder_at(encoded@, i as int)) by {
                if placeholder_at(encoded@, i as int) {
                    let m = choose|m: int| 0 <= m < 12 && encoded@[i + m] != needle@[m];
                    assert(encoded@.subrange(i as int, i + 12)[m] == encoded@[i + m]);
                }
            }
        }
        i = i + 1;
    }
    None
}

// ---------------------------------------------------------------------------------------------
// Failure translation
// ---------------------------------------------------------------------------------------------
/// The public refusal of a catalogue failure.
pub open spec fn inventory_refusal(failure: RuntimeInventoryFailure) -> (ErrorKind, Seq<char>) {
    match failure {
        RuntimeInventoryFailure::Unavailable => (
            ErrorKind::Internal,
            "the managed session catalogue is temporarily unavailable"@,
        ),
        RuntimeInventoryFailure::RootAuthorityChanged => (
            ErrorKind::RootDenied,
            "an approved project root no longer names the directory approved locally"@,
        ),
        RuntimeInventoryFailure::SessionNotFound => (
            ErrorKind::SessionNotFound,
            "the Runtime session does not exist in the integration grant"@,
        ),
    }
}

/// Answer a catalogue failure.
pub fn inventory_failure(failure: RuntimeInventoryFailure) -> (r: PublicFailure)
    ensures
        says(r, inventory_refusal(failure).0, inventory_refusal(failure).1),
{
    match failure {
        RuntimeInventoryFailure::Unavailable => plain(
            ErrorKind::Internal,
            "the managed session catalogue is temporarily unavailable",
        ),
        RuntimeInventoryFailure::RootAuthorityChanged => plain(
            ErrorKind::RootDenied,
            "an approved project root no longer names the directory approved locally",
        ),
        RuntimeInventoryFailure::SessionNotFound => plain(
            ErrorKind::SessionNotFound,
            "the Runtime session does not exist in the integration grant",
        ),
    }
}

/// The public refusal of a cursor failure: an invalid and an expired cursor read alike.
pub open spec fn cursor_refusal(failure: NativeCursorFailure) -> (ErrorKind, Seq<char>) {
    match failure {
        NativeCursorFailure::Invalid | NativeCursorFailure::Expired => (
            ErrorKind::InvalidRequest,
            "the native session catalogue cursor is invalid, expired, or outside this context"@,
        ),
        NativeCursorFailure::TooManyPages => (
            ErrorKind::ResourceExhausted,
            "the native session catalogue exceeded its bounded page walk"@,
        ),
        NativeCursorFailure::Internal => (
            ErrorKind::Internal,
            "Runtime could not protect the native session catalogue cursor"@,
        ),
    }
}

/// Answer a cursor failure.
pub fn cursor_failure(failure: NativeCursorFailure) -> (r: PublicFailure)
    ensures
        says(r, cursor_refusal(failure).0, cursor_refusal(failure).1),
{
    match failure {
        NativeCursorFailure::Invalid | NativeCursorFailure::Expired => plain(
            ErrorKind::InvalidRequest,
            "the native session catalogue cursor is invalid, expired, or outside this context",
        ),
        NativeCursorFailure::TooManyPages => plain(
            ErrorKind::ResourceExhausted,
            "the native session catalogue exceeded its bounded page walk",
        ),
        NativeCursorFailure::Internal => plain(
            ErrorKind::Internal,
            "Runtime could not protect the native session catalogue cursor",
        ),
    }
}

/// Answer a control refusal.
pub fn control_failure(failure: &RuntimeControlFailure) -> (r: PublicFailure)
    ensures
        says(r, failure.kind, failure.message@),
{
    plain(failure.kind, failure.message)
}

/// Why a local-presence confirmation could not be recorded.
#[derive(Clone, Copy, Debug, PartialEq, Eq, Structural)]
pub enum ConfirmationError {
    InvalidRequestId,
    IdempotencyConflict,
    ResourceExhausted,
    StateUnavailable,
}

/// The public refusal of a confirmation failure, in the caller's vocabulary for `what`.
pub open spec fn confirmation_refusal(failure: ConfirmationError, what: Seq<char>) -> (ErrorKind, Seq<char>) {
    match failure {
        ConfirmationError::InvalidRequestId => (
            ErrorKind::InvalidRequest,
            "the "@ + what + " request identity is invalid or outside its bounded lifetime"@,
        ),
        ConfirmationError::IdempotencyConflict => (
            ErrorKind::IdempotencyConflict,
            "the "@ + what + " request identity was already bound to different parameters"@,
        ),
        ConfirmationError::ResourceExhausted => (
            ErrorKind::ResourceExhausted,
            "too many "@ + what + " requests are awaiting local confirmation"@,
        ),
        ConfirmationError::StateUnavailable => (
            ErrorKind::Internal,
            "Runtime could not verify local "@ + what + " confirmation state"@,
        ),
    }
}

fn sentence(head: &str, what: &str, tail: &str) -> (r: String)
    ensures
        r@ == head@ + what@ + tail@,
{
    let mut text = head.to_owned();
    string_push_str(&mut text, what);
    string_push_str(&mut text, tail);
    text
}

/// Answer a local-presence confirmation failure in the caller's operation vocabulary.
pub fn confirmation_failure(failure: ConfirmationError, what: &str) -> (r: PublicFailure)
    ensures
        says(r, confirmation_refusal(failure, what@).0, confirmation_refusal(failure, what@).1),
{
    match failure {
        ConfirmationError::InvalidRequestId => PublicFailure {
            kind: ErrorKind::InvalidRequest,
            message: sentence("the ", what, " request identity is invalid or outside its bounded lifetime"),
        },
        ConfirmationError::IdempotencyConflict => PublicFailure {
            kind: ErrorKind::IdempotencyConflict,
            message: sentence("the ", what, " request identity was already bound to different parameters"),
        },
        ConfirmationError::ResourceExhausted => PublicFailure {
            kind: ErrorKind::ResourceExhausted,
            message: sentence("too many ", what, " requests are awaiting local confirmation"),
        },
        ConfirmationError::StateUnavailable => PublicFailure {
            kind: ErrorKind::Internal,
            message: sentence("Runtime could not verify local ", what, " confirmation state"),
        },
    }
}


// ---------------------------------------------------------------------------------------------
// Connection authority
// ---------------------------------------------------------------------------------------------
/// Why the successor generation's authority relay could not answer.
#[derive(Clone, Copy, Debug, PartialEq, Eq, Structural)]
pub enum RelayFailure {
    Missing,
    State,
    Unavailable,
}

/// The authorization refusal of a relay failure.
pub fn relay_authorization_failure(failure: RelayFailure) -> (r: AuthorizationFailure)
    ensures
        failure == RelayFailure::Missing ==> is_failure(
            r,
            ErrorKind::IntegrationRevoked,
            "the integration is not in the draining generation's frozen authority"@,
        ),
        failure != RelayFailure::Missing ==> is_failure(
            r,
            ErrorKind::RuntimeUnavailable,
            "the successor authority relay is unavailable"@,
        ),
{
    match failure {
        RelayFailure::Missing => AuthorizationFailure {
            kind: ErrorKind::IntegrationRevoked,
            message: "the integration is not in the draining generation's frozen authority",
        },
        RelayFailure::State | RelayFailure::Unavailable => AuthorizationFailure {
            kind: ErrorKind::RuntimeUnavailable,
            message: "the successor authority relay is unavailable",
        },
    }
}

/// How many times a draining generation waits for its successor's relay before refusing.
pub const RELAY_PATIENCE_TRIES: u32 = 6;

/// Whether a draining generation should wait one more relay round before answering an
/// authentication that found the relay unavailable.
pub fn relay_retry(failure_kind: ErrorKind, draining: bool, attempt: u32) -> (r: bool)
    ensures
        r == (failure_kind == ErrorKind::RuntimeUnavailable && draining && attempt
            < RELAY_PATIENCE_TRIES),
{
    failure_kind == ErrorKind::RuntimeUnavailable && draining && attempt < RELAY_PATIENCE_TRIES
}

/// What looking up an integration's current authority row found.
#[derive(Debug)]
pub enum RowLookup {
    Row(IntegrationRow),
    /// The integration was revoked and its row removed.
    Revoked,
    /// No row, and no revocation on record.
    Missing,
    /// While draining, the successor's relay could not answer.
    Relay(RelayFailure),
}

/// The current authority row, or why there is none.
pub fn current_authority_row(lookup: RowLookup) -> (r: Result<IntegrationRow, AuthorizationFailure>)
    ensures
        match lookup {
            RowLookup::Row(row) => r == Ok::<IntegrationRow, AuthorizationFailure>(row),
            RowLookup::Revoked => r matches Err(f) && is_failure(
                f,
                ErrorKind::IntegrationRevoked,
                revoked_message(),
            ),
            RowLookup::Missing => r matches Err(f) && is_failure(
                f,
                ErrorKind::Unauthenticated,
                grant_missing_message(),
            ),
            RowLookup::Relay(failure) => r matches Err(f) && (if failure == RelayFailure::Missing {
                is_failure(
                    f,
                    ErrorKind::IntegrationRevoked,
                    "the integration is not in the draining generation's frozen authority"@,
                )
            } else {
                is_failure(f, ErrorKind::RuntimeUnavailable, "the successor authority relay is unavailable"@)
            }),
        },
{
    match lookup {
        RowLookup::Row(row) => Ok(row),
        RowLookup::Revoked => Err(
            AuthorizationFailure {
                kind: ErrorKind::IntegrationRevoked,
                message: "the integration grant was revoked",
            },
        ),
        RowLookup::Missing => Err(
            AuthorizationFailure {
                kind: ErrorKind::Unauthenticated,
                message: "the integration grant no longer exists",
            },
        ),
        RowLookup::Relay(failure) => Err(relay_authorization_failure(failure)),
    }
}

/// Where a connection stands in the handshake.
#[derive(Clone, Copy, Debug, PartialEq, Eq, Structural)]
pub enum ConnectionPhase {
    Fresh,
    Negotiated,
    Ready,
}

/// Who a connection speaks for.
#[derive(Debug)]
pub enum PublicAuthority {
    Anonymous,
    Pending(EnrollmentKey),
    Authorized(AuthorizedIntegration),
}

/// Whether a grant holds every needed scope.
pub open spec fn holds_scopes(granted: Seq<AppScope>, needed: Seq<AppScope>) -> bool {
    forall|i: int| 0 <= i < needed.len() ==> granted.contains(#[trigger] needed[i])
}

fn has_scopes(granted: &Vec<AppScope>, needed: &[AppScope]) -> (r: bool)
    ensures
        r == holds_scopes(granted@, needed@),
{
    let mut i: usize = 0;
    while i < needed.len()
        invariant
            0 <= i <= needed@.len(),
            forall|k: int| 0 <= k < i ==> granted@.contains(#[trigger] needed@[k]),
        decreases needed@.len() - i,
    {
        let wanted = needed[i];
        let mut found = false;
        let mut j: usize = 0;
        while j < granted.len()
            invariant
                0 <= j <= granted@.len(),
                found ==> granted@.contains(wanted),
                !found ==> forall|m: int| 0 <= m < j ==> granted@[m] != wanted,
            decreases granted@.len() - j,
        {
            if granted[j] == wanted {
                found = true;
            }
            j = j + 1;
        }
        if !found {
            return false;
        }
        i = i + 1;
    }
    true
}

pub open spec fn not_initialized_text() -> Seq<char> {
    "Runtime initialization is not complete"@
}

pub open spec fn approval_required_text() -> Seq<char> {
    "local integration approval and authenticated reconnect are required"@
}

pub open spec fn scope_missing_text() -> Seq<char> {
    "the integration grant lacks the required app scope"@
}

/// The live authority of a connection for a request needing `needed`.
///
/// Only a ready, authorized connection has authority. Its grant is revalidated against the
/// current authority row `lookup`, and the refreshed grant must hold every needed scope.
pub fn authorized_scopes(
    phase: ConnectionPhase,
    authority: &PublicAuthority,
    lookup: RowLookup,
    needed: &[AppScope],
) -> (r: Result<AuthorizedIntegration, AuthorizationFailure>)
    ensures
        phase != ConnectionPhase::Ready ==> (r matches Err(f) && is_failure(
            f,
            ErrorKind::NotInitialized,
            not_initialized_text(),
        )),
        phase == ConnectionPhase::Ready ==> match authority {
            PublicAuthority::Anonymous => r matches Err(f) && is_failure(
                f,
                ErrorKind::Unauthenticated,
                approval_required_text(),
            ),
            PublicAuthority::Pending(_) => r matches Err(f) && is_failure(
                f,
                ErrorKind::EnrollmentPending,
                approval_required_text(),
            ),
            PublicAuthority::Authorized(current) => match lookup {
                RowLookup::Row(row) => match refresh_verdict(current@, row@) {
                    Err((kind, message)) => r matches Err(f) && is_failure(f, kind, message),
                    Ok(a) => if holds_scopes(a.grant.scopes, needed@) {
                        r matches Ok(x) && x@ == a
                    } else {
                        r matches Err(f) && is_failure(f, ErrorKind::ScopeDenied, scope_missing_text())
                    },
                },
                RowLookup::Revoked => r matches Err(f) && is_failure(f, ErrorKind::IntegrationRevoked, revoked_message()),
                RowLookup::Missing => r matches Err(f) && is_failure(f, ErrorKind::Unauthenticated, grant_missing_message()),
                RowLookup::Relay(failure) => r matches Err(f) && (if failure == RelayFailure::Missing {
                    is_failure(
                        f,
                        ErrorKind::IntegrationRevoked,
                        "the integration is not in the draining generation's frozen authority"@,
                    )
                } else {
                    is_failure(f, ErrorKind::RuntimeUnavailable, "the successor authority relay is unavailable"@)
                }),
            },
        },
{
    if phase != ConnectionPhase::Ready {
        return Err(
            AuthorizationFailure {
                kind: ErrorKind::NotInitialized,
                message: "Runtime initialization is not complete",
            },
        );
    }
    let current = match authority {
        PublicAuthority::Authorized(current) => current,
        PublicAuthority::Pending(_) => {
            return Err(
                AuthorizationFailure {
                    kind: ErrorKind::EnrollmentPending,
                    message: "local integration approval and authenticated reconnect are required",
                },
            );
        },
        PublicAuthority::Anonymous => {
            return Err(
                AuthorizationFailure {
                    kind: ErrorKind::Unauthenticated,
                    message: "local integration approval and authenticated reconnect are required",
                },
            );
        },
    };
    let row = current_authority_row(lookup)?;
    let refreshed = refresh_against_row(current, &row)?;
    if !has_scopes(&refreshed.grant.scopes, needed) {
        return Err(
            AuthorizationFailure {
                kind: ErrorKind::ScopeDenied,
                message: "the integration grant lacks the required app scope",
            },
        );
    }
    Ok(refreshed)
}

/// How a key rotation ended in the durable store.
#[derive(Debug)]
pub enum IntegrationKeyRotation {
    Rotated(IntegrationRow),
    /// The same rotation had already committed.
    Replayed(IntegrationRow),
    Conflict,
    Missing,
    Revoked,
    StoreFailed,
}

/// What a successful rotation answers: the refreshed grant, and whether the connection closes
/// so the integration reconnects with its new key.
#[derive(Debug)]
pub struct RotationAnswer {
    pub grant: IntegrationGrant,
    pub close_connection: bool,
}

/// Answer a key rotation from the store's outcome.
///
/// A fresh rotation answers the new grant and closes the connection; a replayed one answers the
/// same grant and keeps it open.
pub fn key_rotation_answer(integration_id: IntegrationId, outcome: IntegrationKeyRotation) -> (r: Result<
    RotationAnswer,
    PublicFailure,
>)
    ensures
        match outcome {
            IntegrationKeyRotation::Rotated(row) => if scopes_readable(row@.scopes) {
                r matches Ok(a) && a.close_connection && a.grant@ == grant_of_row(
                    integration_id.value@,
                    row@,
                )
            } else {
                r matches Err(f) && says(f, ErrorKind::Internal, internal_message())
            },
            IntegrationKeyRotation::Replayed(row) => if scopes_readable(row@.scopes) {
                r matches Ok(a) && !a.close_connection && a.grant@ == grant_of_row(
                    integration_id.value@,
                    row@,
                )
            } else {
                r matches Err(f) && says(f, ErrorKind::Internal, internal_message())
            },
            IntegrationKeyRotation::Conflict => r matches Err(f) && says(
                f,
                ErrorKind::IdempotencyConflict,
                "the integration key generation changed before this rotation committed"@,
            ),
            IntegrationKeyRotation::Missing => r matches Err(f) && says(
                f,
                ErrorKind::Unauthenticated,
                grant_missing_message(),
            ),
            IntegrationKeyRotation::Revoked => r matches Err(f) && says(
                f,
                ErrorKind::IntegrationRevoked,
                revoked_message(),
            ),
            IntegrationKeyRotation::StoreFailed => r matches Err(f) && says(
                f,
                ErrorKind::Internal,
                "Runtime could not rotate the integration key"@,
            ),
        },
{
    match outcome {
        IntegrationKeyRotation::Rotated(row) => match grant(integration_id, &row) {
            Ok(g) => Ok(RotationAnswer { grant: g, close_connection: true }),
            Err(f) => Err(authorization_answer(f)),
        },
        IntegrationKeyRotation::Replayed(row) => match grant(integration_id, &row) {
            Ok(g) => Ok(RotationAnswer { grant: g, close_connection: false }),
            Err(f) => Err(authorization_answer(f)),
        },
        IntegrationKeyRotation::Conflict => Err(
            plain(
                ErrorKind::IdempotencyConflict,
                "the integration key generation changed before this rotation committed",
            ),
        ),
        IntegrationKeyRotation::Missing => Err(
            plain(ErrorKind::Unauthenticated, "the integration grant no longer exists"),
        ),
        IntegrationKeyRotation::Revoked => Err(
            plain(ErrorKind::IntegrationRevoked, "the integration grant was revoked"),
        ),
        IntegrationKeyRotation::StoreFailed => Err(
            plain(ErrorKind::Internal, "Runtime could not rotate the integration key"),
        ),
    }
}

/// The scope a method needs follows from what it does to a session: every operation that writes
/// into a session (taking control, submitting input or blocks, switching model or mode) needs the
/// input-write scope; interrupting and cooling need the stop scope; watching events and listing
/// approvals need the output-read scope; opening needs the start or resume scope; forgetting or
/// deleting needs the delete scope. No read-only scope admits a method that opens, drives,
/// forgets or deletes a session.
pub proof fn lemma_scope_follows_effect(m: RuntimeMethod)
    ensures
        (operation_of(m) == Some(SessionOperation::Acquire) || operation_of(m) == Some(
            SessionOperation::Submit,
        ) || operation_of(m) == Some(SessionOperation::SubmitBlocks) || operation_of(m) == Some(
            SessionOperation::SetModel,
        ) || operation_of(m) == Some(SessionOperation::SetMode)) ==> scope_for(m) == Some(
            AppScope::SessionInputWrite,
        ),
        (operation_of(m) == Some(SessionOperation::Interrupt) || operation_of(m) == Some(
            SessionOperation::Cool,
        )) ==> scope_for(m) == Some(AppScope::SessionStop),
        (operation_of(m) == Some(SessionOperation::Watch) || operation_of(m) == Some(
            SessionOperation::ListApprovals,
        )) ==> scope_for(m) == Some(AppScope::SessionOutputRead),
        route_of(m) == Route::OpenSession ==> (scope_for(m) == Some(AppScope::SessionStart)
            || scope_for(m) == Some(AppScope::SessionResume)),
        (route_of(m) == Route::ForgetSession || route_of(m) == Route::MutateNative) ==> scope_for(m)
            == Some(AppScope::SessionDelete),
        (scope_for(m) == Some(AppScope::ProviderRead) || scope_for(m) == Some(AppScope::ModelRead)
            || scope_for(m) == Some(AppScope::SessionNativeDiscover) || scope_for(m) == Some(
            AppScope::SessionList,
        )) ==> !(route_of(m) == Route::OpenSession || route_of(m) == Route::SessionOperation
            || route_of(m) == Route::ForgetSession || route_of(m) == Route::MutateNative),
{
}

/// Which lane a method is answered by decides the scope it needs: reading providers needs the
/// provider-read scope, listing models the model-read scope, discovering native conversations
/// the native-discover scope, listing sessions and the window lane the session-list scope; the
/// handshake, enrollment, grant and key lanes, panic stop and notifications need none. Starting
/// is admitted by exactly the start scope and resuming or adopting by exactly the resume scope.
pub proof fn lemma_scope_follows_lane(m: RuntimeMethod)
    ensures
        (route_of(m) == Route::ProvidersList || route_of(m) == Route::ProvidersUsage || route_of(m)
            == Route::ProvidersWatch || route_of(m) == Route::ProviderCapabilities) ==> scope_for(m)
            == Some(AppScope::ProviderRead),
        route_of(m) == Route::ListModels ==> scope_for(m) == Some(AppScope::ModelRead),
        (route_of(m) == Route::ListNativeSessions || route_of(m) == Route::NativeActivity || route_of(m)
            == Route::FocusNative) ==> scope_for(m) == Some(AppScope::SessionNativeDiscover),
        (route_of(m) == Route::SessionsList || route_of(m) == Route::SessionsWatchIndex || route_of(m)
            == Route::SessionsGet || route_of(m) == Route::Window) ==> scope_for(m) == Some(
            AppScope::SessionList,
        ),
        (route_of(m) == Route::Initialize || route_of(m) == Route::RequestEnrollment || route_of(m)
            == Route::WatchEnrollment || route_of(m) == Route::Grant || route_of(m) == Route::RotateKey
            || route_of(m) == Route::PanicStop || route_of(m) == Route::NotARequest) ==> scope_for(m)
            is None,
        (scope_for(m) == Some(AppScope::SessionStart)) == (m == RuntimeMethod::SessionsStart),
        (scope_for(m) == Some(AppScope::SessionResume)) == (m == RuntimeMethod::SessionsResume || m
            == RuntimeMethod::SessionsAdoptNative),
        (scope_for(m) == Some(AppScope::SessionDelete)) == (route_of(m) == Route::ForgetSession
            || route_of(m) == Route::MutateNative),
        (scope_for(m) == Some(AppScope::SessionStop)) == (operation_of(m) == Some(SessionOperation::Interrupt)
            || operation_of(m) == Some(SessionOperation::Cool)),
        !(scope_for(m) == Some(AppScope::ApprovalRespondLow) || scope_for(m) == Some(
            AppScope::ApprovalRespondHigh,
        )),
{
}

/// A session-lane method parses to the operation of its own wire name, exactly the methods the
/// router sends to the session lane parse at all, and no two methods parse to one operation.
pub proof fn lemma_operation_follows_method(m: RuntimeMethod, other: RuntimeMethod)
    ensures
        (operation_of(m) is Some) == (route_of(m) == Route::SessionOperation),
        operation_of(m) is Some && operation_of(m) == operation_of(other) ==> m == other,
        operation_of(m) == Some(SessionOperation::Acquire) ==> method_name(m) == "sessions/acquireControl"@,
        operation_of(m) == Some(SessionOperation::Renew) ==> method_name(m) == "sessions/renewControl"@,
        operation_of(m) == Some(SessionOperation::Release) ==> method_name(m) == "sessions/releaseControl"@,
        operation_of(m) == Some(SessionOperation::Submit) ==> method_name(m) == "sessions/submitInput"@,
        operation_of(m) == Some(SessionOperation::SubmitBlocks) ==> method_name(m) == "sessions/submitBlocks"@,
        operation_of(m) == Some(SessionOperation::SetModel) ==> method_name(m) == "sessions/setModel"@,
        operation_of(m) == Some(SessionOperation::SetMode) ==> method_name(m) == "sessions/setMode"@,
        operation_of(m) == Some(SessionOperation::Watch) ==> method_name(m) == "sessions/watchEvents"@,
        operation_of(m) == Some(SessionOperation::Interrupt) ==> method_name(m) == "sessions/interrupt"@,
        operation_of(m) == Some(SessionOperation::Cool) ==> method_name(m) == "sessions/cool"@,
        operation_of(m) == Some(SessionOperation::ListApprovals) ==> method_name(m) == "approvals/listPending"@,
        operation_of(m) == Some(SessionOperation::RespondApproval) ==> method_name(m) == "approvals/respond"@,
{
}

} // verus!
