//! The single-owner control ledger: idempotent mutation memory, control leases, mutation
//! authenticators, and the public translation of session and provider failures.

use vstd::prelude::*;

use vstd::utf8::encode_utf8;

use crate::auth::{copy_string, hex, hex_chars};
use crate::crypto::{
    authenticator_clone, authenticator_finalize, authenticator_input, authenticator_key,
    authenticator_new, authenticator_update, hmac_sha256, random_fill, Authenticator,
};
use crate::auth::sat_add;
use crate::kinds::{
    lifecycle_byte, lifecycle_code, method_name, workspace_access_byte, WorkspaceAccess, ErrorKind, LifecycleState, MutationRequestId, RuntimeMethod, IDEMPOTENCY_WINDOW_MS,
    CONTROL_LEASE_LIFETIME_MS, MUTATION_CLOCK_SKEW_MS,
};
use crate::serve::ApprovalScopes;
use crate::text::{bytes_eq, str_eq, string_push_str};

verus! {

/// Stable safe refusal returned through the public error envelope.
#[derive(Clone, Copy, Debug, PartialEq, Eq)]
pub struct RuntimeControlFailure {
    pub kind: ErrorKind,
    pub message: &'static str,
}

/// A refusal of this kind with this message.
pub open spec fn refusal(f: RuntimeControlFailure, kind: ErrorKind, message: Seq<char>) -> bool {
    f.kind == kind && f.message@ == message
}

pub open spec fn internal_text() -> Seq<char> {
    "Runtime could not preserve the session control boundary"@
}

pub open spec fn outcome_unknown_text() -> Seq<char> {
    "the mutation may have happened and cannot be repeated safely"@
}

pub open spec fn not_live_text() -> Seq<char> {
    "the authorized Runtime session is not live"@
}

pub open spec fn session_conflict_text() -> Seq<char> {
    "the session or native pointer changed after the caller observed it"@
}

pub open spec fn control_conflict_text() -> Seq<char> {
    "another control lease or generation is current"@
}

pub open spec fn lease_expired_text() -> Seq<char> {
    "the control lease expired or no longer exists"@
}

pub open spec fn idempotency_conflict_text() -> Seq<char> {
    "the mutation identity was reused with different parameters"@
}

pub open spec fn invalid_request_id_text() -> Seq<char> {
    "the mutation identity timestamp is outside the accepted window"@
}

impl RuntimeControlFailure {
    pub fn new(kind: ErrorKind, message: &'static str) -> (r: Self)
        ensures
            r.kind == kind,
            r.message == message,
    {
        RuntimeControlFailure { kind, message }
    }

    pub fn internal() -> (r: Self)
        ensures
            refusal(r, ErrorKind::Internal, internal_text()),
    {
        Self::new(ErrorKind::Internal, "Runtime could not preserve the session control boundary")
    }

    pub fn outcome_unknown() -> (r: Self)
        ensures
            refusal(r, ErrorKind::OutcomeUnknown, outcome_unknown_text()),
    {
        Self::new(
            ErrorKind::OutcomeUnknown,
            "the mutation may have happened and cannot be repeated safely",
        )
    }
}

pub fn not_live() -> (r: RuntimeControlFailure)
    ensures
        refusal(r, ErrorKind::SessionNotFound, not_live_text()),
{
    RuntimeControlFailure::new(
        ErrorKind::SessionNotFound,
        "the authorized Runtime session is not live",
    )
}

pub fn session_conflict() -> (r: RuntimeControlFailure)
    ensures
        refusal(r, ErrorKind::SessionConflict, session_conflict_text()),
{
    RuntimeControlFailure::new(
        ErrorKind::SessionConflict,
        "the session or native pointer changed after the caller observed it",
    )
}

pub fn control_conflict() -> (r: RuntimeControlFailure)
    ensures
        refusal(r, ErrorKind::ControlConflict, control_conflict_text()),
{
    RuntimeControlFailure::new(
        ErrorKind::ControlConflict,
        "another control lease or generation is current",
    )
}

pub fn lease_expired() -> (r: RuntimeControlFailure)
    ensures
        refusal(r, ErrorKind::LeaseExpired, lease_expired_text()),
{
    RuntimeControlFailure::new(ErrorKind::LeaseExpired, "the control lease expired or no longer exists")
}

pub fn idempotency_conflict() -> (r: RuntimeControlFailure)
    ensures
        refusal(r, ErrorKind::IdempotencyConflict, idempotency_conflict_text()),
{
    RuntimeControlFailure::new(
        ErrorKind::IdempotencyConflict,
        "the mutation identity was reused with different parameters",
    )
}

pub fn invalid_request_id() -> (r: RuntimeControlFailure)
    ensures
        refusal(r, ErrorKind::InvalidRequest, invalid_request_id_text()),
{
    RuntimeControlFailure::new(
        ErrorKind::InvalidRequest,
        "the mutation identity timestamp is outside the accepted window",
    )
}

// ---------------------------------------------------------------------------------------------
// Failure translation
// ---------------------------------------------------------------------------------------------
/// Why a coding service could not do what was asked of it.
#[derive(Clone, Copy, Debug, PartialEq, Eq, Structural)]
pub enum ProviderError {
    BinNotFound,
    BinAmbiguous,
    Spawn,
    Protocol,
    Timeout,
    AuthRequired,
    Quota,
    Unsupported,
    NativeRefused,
    Io,
    /// A failure this build has no name for.
    Other,
}

/// Why the session owner refused a session operation.
#[derive(Clone, Copy, Debug, PartialEq, Eq, Structural)]
pub enum SessionError {
    WorkspaceOccupied,
    NoRoom,
    OpeningCapacityReserved,
    ProviderUpdating,
    ProviderBusyForUpdate,
    Provider(ProviderError),
    ApprovalExpired,
    ApprovalNotPending,
    ApprovalSubjectChanged,
    ApprovalOptionNotOffered,
    ApprovalOptionUnavailable,
    NotLive,
    AgentInFlight,
    Security,
    /// Any other refusal: the session moved on.
    Other,
}

/// The public kind and sentence for a coding-service failure.
///
/// Installing, signing in, waiting out a limit, a missing capability and an unreadable answer are
/// different next moves, so each keeps its own kind or sentence.
pub open spec fn provider_refusal(error: ProviderError) -> (ErrorKind, Seq<char>) {
    match error {
        ProviderError::BinNotFound | ProviderError::BinAmbiguous => (
            ErrorKind::ProviderUnavailable,
            "this coding service is not installed where Runtrol can run it"@,
        ),
        ProviderError::AuthRequired => (
            ErrorKind::PresenceRequired,
            "this coding service needs you to sign in to it at your own machine"@,
        ),
        ProviderError::Quota => (
            ErrorKind::RateLimited,
            "the coding service account has reached its limit"@,
        ),
        ProviderError::Unsupported | ProviderError::NativeRefused => (
            ErrorKind::CapabilityUnavailable,
            "this coding service does not offer what the request needs"@,
        ),
        ProviderError::Protocol => (
            ErrorKind::ProviderUnavailable,
            "this coding service answered in a shape Runtrol cannot read"@,
        ),
        ProviderError::Spawn | ProviderError::Io | ProviderError::Timeout => (
            ErrorKind::ProviderUnavailable,
            "this coding service could not be started"@,
        ),
        ProviderError::Other => (
            ErrorKind::ProviderUnavailable,
            "this coding service could not open a session"@,
        ),
    }
}

/// Why the coding service itself could not do what the request needs.
///
/// No coding-service failure is ever reported as a changed session or an internal fault.
pub fn provider_failure(error: ProviderError) -> (r: RuntimeControlFailure)
    ensures
        r.kind == provider_refusal(error).0,
        r.message@ == provider_refusal(error).1,
        r.kind != ErrorKind::SessionConflict,
        r.kind != ErrorKind::Internal,
{
    match error {
        ProviderError::BinNotFound | ProviderError::BinAmbiguous => RuntimeControlFailure::new(
            ErrorKind::ProviderUnavailable,
            "this coding service is not installed where Runtrol can run it",
        ),
        ProviderError::AuthRequired => RuntimeControlFailure::new(
            ErrorKind::PresenceRequired,
            "this coding service needs you to sign in to it at your own machine",
        ),
        ProviderError::Quota => RuntimeControlFailure::new(
            ErrorKind::RateLimited,
            "the coding service account has reached its limit",
        ),
        ProviderError::Unsupported | ProviderError::NativeRefused => RuntimeControlFailure::new(
            ErrorKind::CapabilityUnavailable,
            "this coding service does not offer what the request needs",
        ),
        ProviderError::Protocol => RuntimeControlFailure::new(
            ErrorKind::ProviderUnavailable,
            "this coding service answered in a shape Runtrol cannot read",
        ),
        ProviderError::Spawn | ProviderError::Io | ProviderError::Timeout => RuntimeControlFailure::new(
            ErrorKind::ProviderUnavailable,
            "this coding service could not be started",
        ),
        ProviderError::Other => RuntimeControlFailure::new(
            ErrorKind::ProviderUnavailable,
            "this coding service could not open a session",
        ),
    }
}

/// The public refusal for a session owner's refusal to open.
pub open spec fn open_refusal(error: SessionError) -> (ErrorKind, Seq<char>) {
    match error {
        SessionError::WorkspaceOccupied => (
            ErrorKind::WorkspaceConflict,
            "the working tree already has an incompatible writer"@,
        ),
        SessionError::NoRoom | SessionError::OpeningCapacityReserved => (
            ErrorKind::ResourceExhausted,
            "the bounded hot session capacity is busy"@,
        ),
        SessionError::ProviderUpdating | SessionError::ProviderBusyForUpdate => (
            ErrorKind::ProviderUnavailable,
            "the selected provider is changing and cannot open a session"@,
        ),
        SessionError::Provider(provider) => provider_refusal(provider),
        _ => (ErrorKind::SessionConflict, session_conflict_text()),
    }
}

/// Translate the session owner's refusal to open.
pub fn open_failure(error: SessionError) -> (r: RuntimeControlFailure)
    ensures
        r.kind == open_refusal(error).0,
        r.message@ == open_refusal(error).1,
{
    match error {
        SessionError::WorkspaceOccupied => RuntimeControlFailure::new(
            ErrorKind::WorkspaceConflict,
            "the working tree already has an incompatible writer",
        ),
        SessionError::NoRoom | SessionError::OpeningCapacityReserved => RuntimeControlFailure::new(
            ErrorKind::ResourceExhausted,
            "the bounded hot session capacity is busy",
        ),
        SessionError::ProviderUpdating | SessionError::ProviderBusyForUpdate => RuntimeControlFailure::new(
            ErrorKind::ProviderUnavailable,
            "the selected provider is changing and cannot open a session",
        ),
        SessionError::Provider(provider) => provider_failure(provider),
        _ => session_conflict(),
    }
}

/// The public refusal for a session owner's refusal to take an approval response.
pub open spec fn approval_refusal(error: SessionError) -> (ErrorKind, Seq<char>) {
    match error {
        SessionError::ApprovalExpired => (
            ErrorKind::ApprovalExpired,
            "the pending approval expired before the response was accepted"@,
        ),
        SessionError::ApprovalNotPending | SessionError::ApprovalSubjectChanged
        | SessionError::ApprovalOptionNotOffered | SessionError::ApprovalOptionUnavailable => (
            ErrorKind::ApprovalOptionInvalid,
            "the approval, subject, or option is no longer an available exact choice"@,
        ),
        SessionError::NotLive => (ErrorKind::SessionNotFound, not_live_text()),
        SessionError::AgentInFlight => (
            ErrorKind::SessionConflict,
            "another provider command is already in flight for the session"@,
        ),
        SessionError::Security => (
            ErrorKind::ScopeDenied,
            "the integration lacks the approval authority required by the pending request"@,
        ),
        SessionError::Provider(provider) => provider_refusal(provider),
        _ => (ErrorKind::SessionConflict, session_conflict_text()),
    }
}

/// Translate the session owner's refusal to take an approval response.
pub fn approval_failure(error: SessionError) -> (r: RuntimeControlFailure)
    ensures
        r.kind == approval_refusal(error).0,
        r.message@ == approval_refusal(error).1,
{
    match error {
        SessionError::ApprovalExpired => RuntimeControlFailure::new(
            ErrorKind::ApprovalExpired,
            "the pending approval expired before the response was accepted",
        ),
        SessionError::ApprovalNotPending | SessionError::ApprovalSubjectChanged
        | SessionError::ApprovalOptionNotOffered | SessionError::ApprovalOptionUnavailable => RuntimeControlFailure::new(
            ErrorKind::ApprovalOptionInvalid,
            "the approval, subject, or option is no longer an available exact choice",
        ),
        SessionError::NotLive => not_live(),
        SessionError::AgentInFlight => RuntimeControlFailure::new(
            ErrorKind::SessionConflict,
            "another provider command is already in flight for the session",
        ),
        SessionError::Security => RuntimeControlFailure::new(
            ErrorKind::ScopeDenied,
            "the integration lacks the approval authority required by the pending request",
        ),
        SessionError::Provider(provider) => provider_failure(provider),
        _ => session_conflict(),
    }
}

/// Opening and answering an approval translate a coding-service failure the same way as the
/// direct translation.
pub proof fn lemma_provider_failure_translates_alike(error: ProviderError)
    ensures
        open_refusal(SessionError::Provider(error)) == provider_refusal(error),
        approval_refusal(SessionError::Provider(error)) == provider_refusal(error),
{
}

/// Installing, signing in, waiting out a limit and a missing capability stay four distinct kinds.
pub proof fn lemma_four_errands_stay_apart()
    ensures
        provider_refusal(ProviderError::BinNotFound).0 != provider_refusal(
            ProviderError::AuthRequired,
        ).0,
        provider_refusal(ProviderError::BinNotFound).0 != provider_refusal(ProviderError::Quota).0,
        provider_refusal(ProviderError::BinNotFound).0 != provider_refusal(
            ProviderError::Unsupported,
        ).0,
        provider_refusal(ProviderError::AuthRequired).0 != provider_refusal(ProviderError::Quota).0,
        provider_refusal(ProviderError::AuthRequired).0 != provider_refusal(
            ProviderError::Unsupported,
        ).0,
        provider_refusal(ProviderError::Quota).0 != provider_refusal(ProviderError::Unsupported).0,
{
}

// ---------------------------------------------------------------------------------------------
// Public vocabulary
// ---------------------------------------------------------------------------------------------
/// Core's lifecycle of a live session.
#[derive(Clone, Copy, Debug, PartialEq, Eq, Structural)]
pub enum Lifecycle {
    Idle,
    Busy,
    Failed,
    Detached,
    Starting,
    Closed,
}

/// The public lifecycle of a Core lifecycle.
pub fn public_lifecycle(lifecycle: Lifecycle) -> (r: LifecycleState)
    ensures
        r == match lifecycle {
            Lifecycle::Idle => LifecycleState::HotIdle,
            Lifecycle::Busy => LifecycleState::HotRunning,
            Lifecycle::Failed => LifecycleState::Failed,
            _ => LifecycleState::Cold,
        },
{
    match lifecycle {
        Lifecycle::Idle => LifecycleState::HotIdle,
        Lifecycle::Busy => LifecycleState::HotRunning,
        Lifecycle::Failed => LifecycleState::Failed,
        Lifecycle::Detached | Lifecycle::Starting | Lifecycle::Closed => LifecycleState::Cold,
    }
}

/// What a live session is waiting on.
#[derive(Clone, Copy, Debug, PartialEq, Eq, Structural)]
pub enum Waiting {
    Person,
    Quota,
}

/// The public name of what a session is waiting on.
#[derive(Clone, Copy, Debug, PartialEq, Eq, Structural)]
pub enum WaitingOn {
    Person,
    Quota,
}

/// The one place Core's waiting vocabulary becomes the public one.
pub fn public_waiting(waiting: Waiting) -> (r: WaitingOn)
    ensures
        (waiting == Waiting::Person) == (r == WaitingOn::Person),
{
    match waiting {
        Waiting::Person => WaitingOn::Person,
        Waiting::Quota => WaitingOn::Quota,
    }
}

/// Core's kind of approval request.
#[derive(Clone, Copy, Debug, PartialEq, Eq, Structural)]
pub enum ApprovalKind {
    Command,
    FileChange,
    Permissions,
    Elicitation,
    Network,
    Other,
}

/// The public kind of approval request.
#[derive(Clone, Copy, Debug, PartialEq, Eq, Structural)]
pub enum RuntimeApprovalKind {
    Command,
    FileChange,
    Permissions,
    Elicitation,
    Network,
    Other,
}

/// The public kind of an approval request.
pub fn public_approval_kind(kind: ApprovalKind) -> (r: RuntimeApprovalKind)
    ensures
        r == match kind {
            ApprovalKind::Command => RuntimeApprovalKind::Command,
            ApprovalKind::FileChange => RuntimeApprovalKind::FileChange,
            ApprovalKind::Permissions => RuntimeApprovalKind::Permissions,
            ApprovalKind::Elicitation => RuntimeApprovalKind::Elicitation,
            ApprovalKind::Network => RuntimeApprovalKind::Network,
            ApprovalKind::Other => RuntimeApprovalKind::Other,
        },
{
    match kind {
        ApprovalKind::Command => RuntimeApprovalKind::Command,
        ApprovalKind::FileChange => RuntimeApprovalKind::FileChange,
        ApprovalKind::Permissions => RuntimeApprovalKind::Permissions,
        ApprovalKind::Elicitation => RuntimeApprovalKind::Elicitation,
        ApprovalKind::Network => RuntimeApprovalKind::Network,
        ApprovalKind::Other => RuntimeApprovalKind::Other,
    }
}

/// Core's kind of approval option.
#[derive(Clone, Copy, Debug, PartialEq, Eq, Structural)]
pub enum PermissionOptionKind {
    AllowOnce,
    AllowAlways,
    RejectOnce,
    RejectAlways,
}

/// The public kind of approval option.
#[derive(Clone, Copy, Debug, PartialEq, Eq, Structural)]
pub enum RuntimeApprovalOptionKind {
    AllowOnce,
    AllowAlways,
    RejectOnce,
    RejectAlways,
}

/// The public kind of an approval option.
pub fn public_approval_option_kind(kind: PermissionOptionKind) -> (r: RuntimeApprovalOptionKind)
    ensures
        r == match kind {
            PermissionOptionKind::AllowOnce => RuntimeApprovalOptionKind::AllowOnce,
            PermissionOptionKind::AllowAlways => RuntimeApprovalOptionKind::AllowAlways,
            PermissionOptionKind::RejectOnce => RuntimeApprovalOptionKind::RejectOnce,
            PermissionOptionKind::RejectAlways => RuntimeApprovalOptionKind::RejectAlways,
        },
{
    match kind {
        PermissionOptionKind::AllowOnce => RuntimeApprovalOptionKind::AllowOnce,
        PermissionOptionKind::AllowAlways => RuntimeApprovalOptionKind::AllowAlways,
        PermissionOptionKind::RejectOnce => RuntimeApprovalOptionKind::RejectOnce,
        PermissionOptionKind::RejectAlways => RuntimeApprovalOptionKind::RejectAlways,
    }
}


/// How risky Core judges an approval.
#[derive(Clone, Copy, Debug, PartialEq, Eq, Structural)]
pub enum RiskClass {
    Low,
    High,
}

/// The public risk of an approval.
#[derive(Clone, Copy, Debug, PartialEq, Eq, Structural)]
pub enum RuntimeApprovalRisk {
    Low,
    High,
}

/// One pending approval request as Core holds it.
#[derive(Debug)]
pub struct ApprovalRequest {
    pub id: String,
    pub kind: ApprovalKind,
    pub risk: RiskClass,
    pub subject_incomplete: bool,
    pub subject_digest: [u8; 32],
    pub expires_at_ms: u64,
}

/// One option Core offers for a pending approval under the caller's authority.
#[derive(Debug)]
pub struct OfferedOption {
    pub option_id: u64,
    pub label: String,
    pub kind: PermissionOptionKind,
    /// Why the option cannot be chosen, when it cannot.
    pub unavailable: Option<String>,
}

/// One approval option as a client reads it.
#[derive(Debug)]
pub struct RuntimeApprovalOption {
    pub option_id: u64,
    pub label: String,
    pub kind: RuntimeApprovalOptionKind,
    pub unavailable: Option<String>,
}

/// One pending approval as a client reads it; `subject` is the normalized subject's encoding.
#[derive(Debug)]
pub struct PendingApproval {
    pub approval_id: String,
    pub kind: RuntimeApprovalKind,
    pub risk: RuntimeApprovalRisk,
    pub options: Vec<RuntimeApprovalOption>,
    pub subject: Vec<u8>,
    pub subject_incomplete: bool,
    pub subject_digest: [u8; 32],
    pub expires_at_ms: u64,
}

pub open spec fn no_response_scope_text() -> Seq<char> {
    "the integration has no approval response scope"@
}

pub open spec fn subject_untransportable_text() -> Seq<char> {
    "the normalized approval subject could not be transported"@
}

/// Whether a public option shows an offered one, and why it cannot be chosen: an integration
/// with no approval response scope can choose none.
pub open spec fn shows_option(o: RuntimeApprovalOption, offered: OfferedOption, low: bool, high: bool) -> bool {
    &&& o.option_id == offered.option_id
    &&& o.label@ == offered.label@
    &&& o.kind == public_approval_option_kind_of(offered.kind)
    &&& if !low && !high {
        o.unavailable matches Some(u) && u@ == no_response_scope_text()
    } else {
        o.unavailable == offered.unavailable
    }
}

pub open spec fn public_approval_option_kind_of(kind: PermissionOptionKind) -> RuntimeApprovalOptionKind {
    match kind {
        PermissionOptionKind::AllowOnce => RuntimeApprovalOptionKind::AllowOnce,
        PermissionOptionKind::AllowAlways => RuntimeApprovalOptionKind::AllowAlways,
        PermissionOptionKind::RejectOnce => RuntimeApprovalOptionKind::RejectOnce,
        PermissionOptionKind::RejectAlways => RuntimeApprovalOptionKind::RejectAlways,
    }
}

/// One pending approval in the public vocabulary, with every option Core offers the caller.
///
/// `offered` is what Core offers under the caller's high-risk authority, `scopes` the approval
/// response scopes the caller holds; `subject` the encoded
/// normalized subject, `None` when it could not be encoded.
pub fn pending_approval(
    request: &ApprovalRequest,
    offered: Vec<OfferedOption>,
    scopes: ApprovalScopes,
    subject: Option<Vec<u8>>,
) -> (r: Result<PendingApproval, RuntimeControlFailure>)
    ensures
        match subject {
            None => r matches Err(f) && refusal(f, ErrorKind::Internal, subject_untransportable_text()),
            Some(bytes) => r matches Ok(p) && {
                &&& p.approval_id@ == request.id@
                &&& p.kind == public_approval_kind_of(request.kind)
                &&& (p.risk == RuntimeApprovalRisk::High <==> request.risk == RiskClass::High)
                &&& p.subject == bytes
                &&& p.subject_incomplete == request.subject_incomplete
                &&& p.subject_digest == request.subject_digest
                &&& p.expires_at_ms == request.expires_at_ms
                &&& p.options@.len() == offered@.len()
                &&& forall|i: int| 0 <= i < offered@.len() ==> shows_option(
                    #[trigger] p.options@[i],
                    offered@[i],
                    scopes.low,
                    scopes.high,
                )
            },
        },
{
    let mut options: Vec<RuntimeApprovalOption> = Vec::new();
    let mut i: usize = 0;
    while i < offered.len()
        invariant
            i <= offered@.len(),
            options@.len() == i,
            forall|j: int| 0 <= j < i ==> shows_option(#[trigger] options@[j], offered@[j], scopes.low, scopes.high),
        decreases offered@.len() - i,
    {
        let o = &offered[i];
        let unavailable = if !scopes.low && !scopes.high {
            Some("the integration has no approval response scope".to_owned())
        } else {
            match &o.unavailable {
                Some(u) => Some(copy_string(u)),
                None => None,
            }
        };
        options.push(
            RuntimeApprovalOption {
                option_id: o.option_id,
                label: copy_string(&o.label),
                kind: public_approval_option_kind(o.kind),
                unavailable,
            },
        );
        i = i + 1;
    }
    let subject = match subject {
        Some(bytes) => bytes,
        None => {
            return Err(
                RuntimeControlFailure::new(
                    ErrorKind::Internal,
                    "the normalized approval subject could not be transported",
                ),
            );
        },
    };
    Ok(
        PendingApproval {
            approval_id: copy_string(&request.id),
            kind: public_approval_kind(request.kind),
            risk: match request.risk {
                RiskClass::Low => RuntimeApprovalRisk::Low,
                RiskClass::High => RuntimeApprovalRisk::High,
            },
            options,
            subject,
            subject_incomplete: request.subject_incomplete,
            subject_digest: request.subject_digest,
            expires_at_ms: request.expires_at_ms,
        },
    )
}

pub open spec fn public_approval_kind_of(kind: ApprovalKind) -> RuntimeApprovalKind {
    match kind {
        ApprovalKind::Command => RuntimeApprovalKind::Command,
        ApprovalKind::FileChange => RuntimeApprovalKind::FileChange,
        ApprovalKind::Permissions => RuntimeApprovalKind::Permissions,
        ApprovalKind::Elicitation => RuntimeApprovalKind::Elicitation,
        ApprovalKind::Network => RuntimeApprovalKind::Network,
        ApprovalKind::Other => RuntimeApprovalKind::Other,
    }
}

// ---------------------------------------------------------------------------------------------
// Leases, results and replies
// ---------------------------------------------------------------------------------------------
/// The public control lease one integration holds over one live session.
#[derive(Debug)]
pub struct ControlLease {
    pub lease_id: String,
    pub session_id: String,
    pub session_generation: u64,
    pub lease_generation: u64,
    pub expires_at_ms: u64,
}

/// A copy of a lease.
pub fn copy_lease(lease: &ControlLease) -> (r: ControlLease)
    ensures
        r == *lease,
{
    ControlLease {
        lease_id: copy_string(&lease.lease_id),
        session_id: copy_string(&lease.session_id),
        session_generation: lease.session_generation,
        lease_generation: lease.lease_generation,
        expires_at_ms: lease.expires_at_ms,
    }
}

/// The public description of one managed session.
#[derive(Debug)]
pub struct SessionDescriptor {
    pub session_id: String,
    pub provider_id: String,
    pub native_session_id: Option<String>,
    pub workspace: String,
    pub hot: bool,
    pub lifecycle: LifecycleState,
    pub looks_stuck: bool,
    pub waiting_on: Option<WaitingOn>,
    pub session_generation: u64,
    pub label: Option<String>,
}

fn copy_optional_string(value: &Option<String>) -> (r: Option<String>)
    ensures
        r == *value,
{
    match value {
        Some(text) => Some(copy_string(text)),
        None => None,
    }
}

/// A copy of a session description.
pub fn copy_descriptor(d: &SessionDescriptor) -> (r: SessionDescriptor)
    ensures
        r == *d,
{
    SessionDescriptor {
        session_id: copy_string(&d.session_id),
        provider_id: copy_string(&d.provider_id),
        native_session_id: copy_optional_string(&d.native_session_id),
        workspace: copy_string(&d.workspace),
        hot: d.hot,
        lifecycle: d.lifecycle,
        looks_stuck: d.looks_stuck,
        waiting_on: d.waiting_on,
        session_generation: d.session_generation,
        label: copy_optional_string(&d.label),
    }
}

/// What a successful open answers: the session and the lease its opener holds.
#[derive(Debug)]
pub struct SessionOpenResult {
    pub session: SessionDescriptor,
    pub control: ControlLease,
}

/// A copy of an open result.
pub fn copy_open_result(result: &SessionOpenResult) -> (r: SessionOpenResult)
    ensures
        r == *result,
{
    SessionOpenResult {
        session: copy_descriptor(&result.session),
        control: copy_lease(&result.control),
    }
}

/// What a mutation produced, as far as its ledger remembers it.
#[derive(Debug)]
pub enum MutationOutcome {
    Pending,
    Lease(ControlLease),
    Done,
    Open(SessionOpenResult),
    Failed(RuntimeControlFailure),
}

/// The settled answer of a control mutation.
#[derive(Debug)]
pub enum RuntimeControlReply {
    Lease(ControlLease),
    Done,
    Opened(SessionOpenResult),
    Failed(RuntimeControlFailure),
}

/// The reply a settled outcome gives; a pending outcome gives none.
pub open spec fn reply_of(outcome: MutationOutcome) -> Option<RuntimeControlReply> {
    match outcome {
        MutationOutcome::Pending => None,
        MutationOutcome::Lease(lease) => Some(RuntimeControlReply::Lease(lease)),
        MutationOutcome::Done => Some(RuntimeControlReply::Done),
        MutationOutcome::Open(result) => Some(RuntimeControlReply::Opened(result)),
        MutationOutcome::Failed(failure) => Some(RuntimeControlReply::Failed(failure)),
    }
}

/// A control answer: a reply, or a refusal of a kind with a sentence.
pub enum Verdict {
    Reply(RuntimeControlReply),
    Refuse(ErrorKind, Seq<char>),
}

/// Whether an executable answer is the verdict.
pub open spec fn answers(r: Result<RuntimeControlReply, RuntimeControlFailure>, v: Verdict) -> bool {
    match v {
        Verdict::Reply(reply) => r == Ok::<RuntimeControlReply, RuntimeControlFailure>(reply),
        Verdict::Refuse(kind, message) => r matches Err(f) && refusal(f, kind, message),
    }
}

/// What the ledger remembers of one mutation identity.
#[derive(Debug)]
pub struct MutationMemory {
    pub method: RuntimeMethod,
    pub authenticator: [u8; 32],
    pub outcome: MutationOutcome,
}

/// A mutation memory with its authenticator as bytes.
pub struct MemoryView {
    pub method: RuntimeMethod,
    pub authenticator: Seq<u8>,
    pub outcome: MutationOutcome,
}

impl View for MutationMemory {
    type V = MemoryView;

    open spec fn view(&self) -> MemoryView {
        MemoryView { method: self.method, authenticator: self.authenticator@, outcome: self.outcome }
    }
}

/// A ledger identity: the integration and the request's sixteen bytes.
pub type LedgerKey = (Seq<u8>, Seq<u8>);

/// The identity of one integration's mutation.
#[derive(Clone, Copy, Debug)]
pub struct MutationKey {
    pub integration: [u8; 16],
    pub request: [u8; 16],
}

impl View for MutationKey {
    type V = LedgerKey;

    open spec fn view(&self) -> LedgerKey {
        (self.integration@, self.request@)
    }
}

/// What replaying a remembered mutation answers.
///
/// The same method and authenticator get the remembered reply; a pending mutation may have
/// happened and is never repeated; anything else reusing the identity is a conflict.
pub open spec fn replay_verdict(existing: MemoryView, method: RuntimeMethod, authenticator: Seq<u8>) -> Verdict {
    if existing.method != method || existing.authenticator != authenticator {
        Verdict::Refuse(ErrorKind::IdempotencyConflict, idempotency_conflict_text())
    } else {
        match reply_of(existing.outcome) {
            Some(reply) => Verdict::Reply(reply),
            None => Verdict::Refuse(ErrorKind::OutcomeUnknown, outcome_unknown_text()),
        }
    }
}

/// Replay a remembered mutation.
pub fn compare_replay(existing: &MutationMemory, method: RuntimeMethod, authenticator: &[u8; 32]) -> (r: Result<
    RuntimeControlReply,
    RuntimeControlFailure,
>)
    ensures
        answers(r, replay_verdict(existing@, method, authenticator@)),
{
    if existing.method != method || !bytes_eq(&existing.authenticator, authenticator) {
        return Err(idempotency_conflict());
    }
    match &existing.outcome {
        MutationOutcome::Pending => Err(RuntimeControlFailure::outcome_unknown()),
        MutationOutcome::Lease(lease) => Ok(RuntimeControlReply::Lease(copy_lease(lease))),
        MutationOutcome::Done => Ok(RuntimeControlReply::Done),
        MutationOutcome::Open(result) => Ok(RuntimeControlReply::Opened(copy_open_result(result))),
        MutationOutcome::Failed(failure) => Ok(RuntimeControlReply::Failed(*failure)),
    }
}


// ---------------------------------------------------------------------------------------------
// The ledger
// ---------------------------------------------------------------------------------------------
/// One remembered mutation.
#[derive(Debug)]
pub struct MutationRecord {
    pub key: MutationKey,
    pub memory: MutationMemory,
}

/// One live control lease and the stream it was granted on.
#[derive(Debug)]
pub struct LeaseState {
    pub session: [u8; 16],
    pub integration: [u8; 16],
    pub public: ControlLease,
    pub stream: u64,
}

/// A lease as the ledger sees it.
pub struct LeaseView {
    pub integration: Seq<u8>,
    pub public: ControlLease,
    pub stream: u64,
}

/// What the session owner reports of one live session.
#[derive(Clone, Copy, Debug)]
pub struct LiveSession {
    pub stream: u64,
    pub lifecycle: LifecycleState,
    pub generation: u64,
}

/// Whether a mutation ledger names each identity at most once.
pub open spec fn distinct_keys(recs: Seq<MutationRecord>) -> bool {
    forall|i: int, j: int|
        0 <= i < recs.len() && 0 <= j < recs.len() && i != j ==> #[trigger] recs[i].key@
            != #[trigger] recs[j].key@
}

/// Whether a lease table holds at most one lease per session.
pub open spec fn distinct_sessions(leases: Seq<LeaseState>) -> bool {
    forall|i: int, j: int|
        0 <= i < leases.len() && 0 <= j < leases.len() && i != j ==> #[trigger] leases[i].session@
            != #[trigger] leases[j].session@
}

/// The ledger as a map from identity to memory.
pub open spec fn ledger_of(recs: Seq<MutationRecord>) -> Map<LedgerKey, MemoryView> {
    Map::new(
        |k: LedgerKey| exists|i: int| 0 <= i < recs.len() && recs[i].key@ == k,
        |k: LedgerKey| recs[choose|i: int| 0 <= i < recs.len() && recs[i].key@ == k].memory@,
    )
}

/// The lease table as a map from session to lease.
pub open spec fn leases_of(leases: Seq<LeaseState>) -> Map<Seq<u8>, LeaseView> {
    Map::new(
        |k: Seq<u8>| exists|i: int| 0 <= i < leases.len() && leases[i].session@ == k,
        |k: Seq<u8>|
            {
                let l = leases[choose|i: int| 0 <= i < leases.len() && leases[i].session@ == k];
                LeaseView { integration: l.integration@, public: l.public, stream: l.stream }
            },
    )
}

/// In a ledger without repeated identities, each record is what its identity maps to.
pub proof fn lemma_ledger_entry(recs: Seq<MutationRecord>, i: int)
    requires
        distinct_keys(recs),
        0 <= i < recs.len(),
    ensures
        ledger_of(recs).contains_key(recs[i].key@),
        ledger_of(recs)[recs[i].key@] == recs[i].memory@,
{
    let k = recs[i].key@;
    assert(exists|j: int| 0 <= j < recs.len() && recs[j].key@ == k);
    let c = choose|j: int| 0 <= j < recs.len() && recs[j].key@ == k;
    assert(c == i);
}

/// In a lease table without repeated sessions, each lease is what its session maps to.
pub proof fn lemma_lease_entry(leases: Seq<LeaseState>, i: int)
    requires
        distinct_sessions(leases),
        0 <= i < leases.len(),
    ensures
        leases_of(leases).contains_key(leases[i].session@),
        leases_of(leases)[leases[i].session@] == (LeaseView {
            integration: leases[i].integration@,
            public: leases[i].public,
            stream: leases[i].stream,
        }),
{
    let k = leases[i].session@;
    assert(exists|j: int| 0 <= j < leases.len() && leases[j].session@ == k);
    let c = choose|j: int| 0 <= j < leases.len() && leases[j].session@ == k;
    assert(c == i);
}

/// Content-free authority state owned beside the session owner.
pub struct RuntimeControl {
    leases: Vec<LeaseState>,
    mutations: Vec<MutationRecord>,
    boot_id: [u8; 16],
    authenticator: Authenticator,
    next_lease_generation: u64,
}

impl RuntimeControl {
    /// Identities are unique, leases are one per session and never ahead of the generation
    /// counter, and the authenticator has absorbed nothing.
    #[verifier::type_invariant]
    spec fn well_formed(&self) -> bool {
        &&& distinct_keys(self.mutations@)
        &&& distinct_sessions(self.leases@)
        &&& authenticator_input(self.authenticator) == Seq::<u8>::empty()
        &&& forall|i: int|
            0 <= i < self.leases@.len() ==> #[trigger] self.leases@[i].public.lease_generation
                <= self.next_lease_generation
    }

    /// Every remembered mutation identity and what became of it.
    pub closed spec fn ledger(&self) -> Map<LedgerKey, MemoryView> {
        ledger_of(self.mutations@)
    }

    /// Every current control lease by session.
    pub closed spec fn lease_table(&self) -> Map<Seq<u8>, LeaseView> {
        leases_of(self.leases@)
    }

    /// The last lease generation handed out.
    pub closed spec fn lease_generation(&self) -> u64 {
        self.next_lease_generation
    }

    /// The boot-local identity stamped on every durable mutation row.
    pub closed spec fn boot(&self) -> Seq<u8> {
        self.boot_id@
    }

    /// The boot-local authenticator key.
    pub closed spec fn mac_key(&self) -> Seq<u8> {
        authenticator_key(self.authenticator)
    }

    /// Mint one boot-local authenticator key and recovery identity, with nothing remembered.
    pub fn new() -> (r: Result<Self, RuntimeControlFailure>)
        ensures
            match r {
                Ok(control) => {
                    &&& control.ledger() == Map::<LedgerKey, MemoryView>::empty()
                    &&& control.lease_table() == Map::<Seq<u8>, LeaseView>::empty()
                    &&& control.lease_generation() == 0
                    &&& control.mac_key().len() == 32
                },
                Err(f) => refusal(f, ErrorKind::Internal, internal_text()),
            },
    {
        let mut boot_id = [0u8; 16];
        let mut key = [0u8; 32];
        if random_fill(&mut boot_id).is_err() || random_fill(&mut key).is_err() {
            return Err(RuntimeControlFailure::internal());
        }
        let authenticator = match authenticator_new(&key) {
            Ok(authenticator) => authenticator,
            Err(_) => return Err(RuntimeControlFailure::internal()),
        };
        let control = RuntimeControl {
            leases: Vec::new(),
            mutations: Vec::new(),
            boot_id,
            authenticator,
            next_lease_generation: 0,
        };
        assert(control.ledger() =~= Map::<LedgerKey, MemoryView>::empty());
        assert(control.lease_table() =~= Map::<Seq<u8>, LeaseView>::empty());
        Ok(control)
    }

    /// Whether the ledger already remembers a mutation identity.
    pub fn remembers(&self, key: &MutationKey) -> (r: bool)
        ensures
            r == self.ledger().contains_key(key@),
    {
        proof {
            use_type_invariant(self);
        }
        match self.find_mutation(key) {
            Some(i) => {
                proof {
                    lemma_ledger_entry(self.mutations@, i as int);
                }
                true
            },
            None => false,
        }
    }

    /// Where a mutation identity sits in the ledger.
    fn find_mutation(&self, key: &MutationKey) -> (r: Option<usize>)
        ensures
            match r {
                Some(i) => i < self.mutations@.len() && self.mutations@[i as int].key@ == key@,
                None => !self.ledger().contains_key(key@),
            },
    {
        let mut i: usize = 0;
        while i < self.mutations.len()
            invariant
                0 <= i <= self.mutations@.len(),
                forall|j: int| 0 <= j < i ==> #[trigger] self.mutations@[j].key@ != key@,
            decreases self.mutations@.len() - i,
        {
            let rec = &self.mutations[i];
            if bytes_eq(&rec.key.integration, &key.integration) && bytes_eq(
                &rec.key.request,
                &key.request,
            ) {
                return Some(i);
            }
            i = i + 1;
        }
        None
    }

    /// Where a session's lease sits in the lease table.
    fn find_lease(&self, session: &[u8; 16]) -> (r: Option<usize>)
        ensures
            match r {
                Some(i) => i < self.leases@.len() && self.leases@[i as int].session@ == session@,
                None => !self.lease_table().contains_key(session@),
            },
    {
        let mut i: usize = 0;
        while i < self.leases.len()
            invariant
                0 <= i <= self.leases@.len(),
                forall|j: int| 0 <= j < i ==> #[trigger] self.leases@[j].session@ != session@,
            decreases self.leases@.len() - i,
        {
            if bytes_eq(&self.leases[i].session, session) {
                return Some(i);
            }
            i = i + 1;
        }
        None
    }
}


/// Whether a mutation identity was minted within the accepted window around `now`.
pub open spec fn request_window(request: MutationRequestId, now: u64) -> Option<(ErrorKind, Seq<char>)> {
    match request.unix_millis {
        None => Some((ErrorKind::InvalidRequest, invalid_request_id_text())),
        Some(created_at) => if created_at > sat_add(now, MUTATION_CLOCK_SKEW_MS) {
            Some((ErrorKind::InvalidRequest, invalid_request_id_text()))
        } else if sat_add(created_at, IDEMPOTENCY_WINDOW_MS) < now {
            Some((ErrorKind::OutcomeUnknown, outcome_unknown_text()))
        } else if request.bytes is None {
            Some((ErrorKind::InvalidRequest, invalid_request_id_text()))
        } else {
            None
        },
    }
}

/// What starting a mutation answers.
pub enum BeginVerdict {
    /// The identity is new to memory; the durable ledger decides next.
    Fresh(LedgerKey),
    Replay(RuntimeControlReply),
    Refuse(ErrorKind, Seq<char>),
}

/// A mutation either begins fresh under its identity, replays what that identity already
/// settled, or is refused.
pub open spec fn begin_verdict(
    ledger: Map<LedgerKey, MemoryView>,
    integration: Seq<u8>,
    method: RuntimeMethod,
    request: MutationRequestId,
    authenticator: Seq<u8>,
    now: u64,
) -> BeginVerdict {
    match request_window(request, now) {
        Some((kind, message)) => BeginVerdict::Refuse(kind, message),
        None => {
            let key = (integration, request.bytes->Some_0@);
            if ledger.contains_key(key) {
                match replay_verdict(ledger[key], method, authenticator) {
                    Verdict::Reply(reply) => BeginVerdict::Replay(reply),
                    Verdict::Refuse(kind, message) => BeginVerdict::Refuse(kind, message),
                }
            } else {
                BeginVerdict::Fresh(key)
            }
        },
    }
}

/// How a mutation began.
#[derive(Debug)]
pub enum Begun {
    New(MutationKey),
    Replay(RuntimeControlReply),
}

/// Whether an executable start is the verdict.
pub open spec fn begins(r: Result<Begun, RuntimeControlFailure>, v: BeginVerdict) -> bool {
    match v {
        BeginVerdict::Fresh(key) => r matches Ok(Begun::New(k)) && k@ == key,
        BeginVerdict::Replay(reply) => r matches Ok(Begun::Replay(x)) && x == reply,
        BeginVerdict::Refuse(kind, message) => r matches Err(f) && refusal(f, kind, message),
    }
}

/// What the durable mutation ledger already holds under an identity.
#[derive(Debug)]
pub struct StoredMutation {
    pub boot_id: [u8; 16],
    pub method: String,
    pub authenticator: [u8; 32],
}

/// What consulting the durable ledger for a fresh identity found.
#[derive(Debug)]
pub enum DurableCheck {
    /// Purging expired rows, reading, or creating failed.
    Failed,
    /// A row already exists under the identity.
    Found(StoredMutation),
    /// The bounded ledger had no room for a new pending row.
    Full,
    /// A new pending row was created.
    Created,
}

/// The refusal for an identity the durable ledger already holds: an earlier boot's mutation, or
/// this boot's with other parameters, or this boot's still unsettled one.
pub open spec fn stored_refusal(stored: StoredMutation, boot: Seq<u8>, method: RuntimeMethod, authenticator: Seq<u8>) -> (ErrorKind, Seq<char>) {
    if stored.boot_id@ != boot {
        (ErrorKind::OutcomeUnknown, outcome_unknown_text())
    } else if stored.method@ != method_name(method) || stored.authenticator@ != authenticator {
        (ErrorKind::IdempotencyConflict, idempotency_conflict_text())
    } else {
        (ErrorKind::OutcomeUnknown, outcome_unknown_text())
    }
}

pub open spec fn ledger_full_text() -> Seq<char> {
    "the bounded Runtime mutation ledger is full"@
}

/// What the durable ledger wrote when a mutation settled.
#[derive(Clone, Copy, Debug, PartialEq, Eq, Structural)]
pub enum DurableWrite {
    Failed,
    /// The durable row was missing or not pending under this boot.
    Refused,
    Written,
}

/// The durable state a settled outcome is recorded as.
#[derive(Clone, Copy, Debug, PartialEq, Eq, Structural)]
pub enum DurableState {
    Completed,
    Denied,
}

/// The durable state of an outcome, none for a pending one.
pub fn durable_state(outcome: &MutationOutcome) -> (r: Option<DurableState>)
    ensures
        r == match *outcome {
            MutationOutcome::Pending => None,
            MutationOutcome::Failed(_) => Some(DurableState::Denied),
            _ => Some(DurableState::Completed),
        },
{
    match outcome {
        MutationOutcome::Pending => None,
        MutationOutcome::Lease(_) | MutationOutcome::Done | MutationOutcome::Open(_) => Some(
            DurableState::Completed,
        ),
        MutationOutcome::Failed(_) => Some(DurableState::Denied),
    }
}

/// A copy of an outcome.
pub fn copy_outcome(outcome: &MutationOutcome) -> (r: MutationOutcome)
    ensures
        r == *outcome,
{
    match outcome {
        MutationOutcome::Pending => MutationOutcome::Pending,
        MutationOutcome::Lease(lease) => MutationOutcome::Lease(copy_lease(lease)),
        MutationOutcome::Done => MutationOutcome::Done,
        MutationOutcome::Open(result) => MutationOutcome::Open(copy_open_result(result)),
        MutationOutcome::Failed(failure) => MutationOutcome::Failed(*failure),
    }
}

/// The ledger with a mutation's outcome replaced.
pub open spec fn settled(ledger: Map<LedgerKey, MemoryView>, key: LedgerKey, outcome: MutationOutcome) -> Map<
    LedgerKey,
    MemoryView,
> {
    ledger.insert(
        key,
        MemoryView { method: ledger[key].method, authenticator: ledger[key].authenticator, outcome },
    )
}

impl RuntimeControl {
    /// Start one idempotent mutation, or replay what its identity already settled.
    pub fn begin(
        &self,
        integration: &[u8; 16],
        method: RuntimeMethod,
        request_id: &MutationRequestId,
        authenticator: &[u8; 32],
        now: u64,
    ) -> (r: Result<Begun, RuntimeControlFailure>)
        ensures
            begins(
                r,
                begin_verdict(self.ledger(), integration@, method, *request_id, authenticator@, now),
            ),
    {
        proof {
            use_type_invariant(self);
        }
        let created_at = match request_id.unix_millis {
            Some(created_at) => created_at,
            None => return Err(invalid_request_id()),
        };
        if created_at > now.saturating_add(MUTATION_CLOCK_SKEW_MS) {
            return Err(invalid_request_id());
        }
        if created_at.saturating_add(IDEMPOTENCY_WINDOW_MS) < now {
            return Err(RuntimeControlFailure::outcome_unknown());
        }
        let request = match request_id.bytes {
            Some(bytes) => bytes,
            None => return Err(invalid_request_id()),
        };
        let key = MutationKey { integration: *integration, request };
        match self.find_mutation(&key) {
            Some(i) => {
                proof {
                    lemma_ledger_entry(self.mutations@, i as int);
                }
                match compare_replay(&self.mutations[i].memory, method, authenticator) {
                    Ok(reply) => Ok(Begun::Replay(reply)),
                    Err(failure) => Err(failure),
                }
            },
            None => Ok(Begun::New(key)),
        }
    }

    /// Record a fresh mutation as pending once the durable ledger was consulted.
    pub fn record_pending(
        &mut self,
        key: MutationKey,
        method: RuntimeMethod,
        authenticator: [u8; 32],
        check: DurableCheck,
    ) -> (r: Result<MutationKey, RuntimeControlFailure>)
        requires
            !old(self).ledger().contains_key(key@),
        ensures
            final(self).lease_table() == old(self).lease_table(),
            final(self).lease_generation() == old(self).lease_generation(),
            final(self).boot() == old(self).boot(),
            final(self).mac_key() == old(self).mac_key(),
            match check {
                DurableCheck::Created => {
                    &&& r matches Ok(k) && k@ == key@
                    &&& final(self).ledger() == old(self).ledger().insert(
                        key@,
                        MemoryView {
                            method,
                            authenticator: authenticator@,
                            outcome: MutationOutcome::Pending,
                        },
                    )
                },
                DurableCheck::Failed => r matches Err(f) && refusal(
                    f,
                    ErrorKind::Internal,
                    internal_text(),
                ) && final(self).ledger() == old(self).ledger(),
                DurableCheck::Full => r matches Err(f) && refusal(
                    f,
                    ErrorKind::ResourceExhausted,
                    ledger_full_text(),
                ) && final(self).ledger() == old(self).ledger(),
                DurableCheck::Found(stored) => r matches Err(f) && refusal(
                    f,
                    stored_refusal(stored, old(self).boot(), method, authenticator@).0,
                    stored_refusal(stored, old(self).boot(), method, authenticator@).1,
                ) && final(self).ledger() == old(self).ledger(),
            },
    {
        proof {
            use_type_invariant(&*self);
        }
        match check {
            DurableCheck::Failed => Err(RuntimeControlFailure::internal()),
            DurableCheck::Full => Err(
                RuntimeControlFailure::new(
                    ErrorKind::ResourceExhausted,
                    "the bounded Runtime mutation ledger is full",
                ),
            ),
            DurableCheck::Found(stored) => {
                if !bytes_eq(&stored.boot_id, &self.boot_id) {
                    return Err(RuntimeControlFailure::outcome_unknown());
                }
                if !str_eq(stored.method.as_str(), method.as_str()) || !bytes_eq(
                    &stored.authenticator,
                    &authenticator,
                ) {
                    return Err(idempotency_conflict());
                }
                Err(RuntimeControlFailure::outcome_unknown())
            },
            DurableCheck::Created => {
                let ghost before = self.mutations@;
                let record = MutationRecord {
                    key,
                    memory: MutationMemory {
                        method,
                        authenticator,
                        outcome: MutationOutcome::Pending,
                    },
                };
                let mut recs: Vec<MutationRecord> = Vec::new();
                std::mem::swap(&mut recs, &mut self.mutations);
                recs.push(record);
                proof {
                    let after = recs@;
                    assert(after.len() == before.len() + 1);
                    assert forall|i: int| 0 <= i < before.len() implies #[trigger] after[i] == before[i] by {}
                    assert(!ledger_of(before).contains_key(key@));
                    assert forall|i: int| 0 <= i < before.len() implies #[trigger] before[i].key@ != key@ by {
                        if before[i].key@ == key@ {
                            assert(ledger_of(before).contains_key(key@));
                        }
                    }
                    assert(distinct_keys(before));
                    assert(distinct_keys(after)) by {
                        assert forall|a: int, b: int|
                            0 <= a < after.len() && 0 <= b < after.len() && a != b implies #[trigger] after[a].key@
                            != #[trigger] after[b].key@ by {
                            if a < before.len() && b < before.len() {
                                assert(after[a] == before[a]);
                                assert(after[b] == before[b]);
                            } else if a < before.len() {
                                assert(after[a] == before[a]);
                            } else {
                                assert(after[b] == before[b]);
                            }
                        }
                    }
                    let expected = ledger_of(before).insert(
                        key@,
                        MemoryView { method, authenticator: authenticator@, outcome: MutationOutcome::Pending },
                    );
                    assert forall|k: LedgerKey| #[trigger] ledger_of(after).contains_key(k) == expected.contains_key(k) by {
                        if expected.contains_key(k) && k != key@ {
                            let i = choose|i: int| 0 <= i < before.len() && before[i].key@ == k;
                            assert(after[i].key@ == k);
                        }
                        if k == key@ {
                            assert(after[before.len() as int].key@ == k);
                        }
                        if ledger_of(after).contains_key(k) && k != key@ {
                            let i = choose|i: int| 0 <= i < after.len() && after[i].key@ == k;
                            assert(i < before.len());
                            assert(before[i].key@ == k);
                        }
                    }
                    assert forall|k: LedgerKey| #[trigger] ledger_of(after).contains_key(k) implies ledger_of(after)[k] == expected[k] by {
                        let i = choose|i: int| 0 <= i < after.len() && after[i].key@ == k;
                        lemma_ledger_entry(after, i);
                        if i < before.len() {
                            lemma_ledger_entry(before, i);
                        }
                    }
                    assert(ledger_of(after) =~= expected);
                }
                std::mem::swap(&mut recs, &mut self.mutations);
                Ok(key)
            },
        }
    }

    /// Settle a pending mutation with its outcome once the durable ledger recorded it.
    pub fn finish(&mut self, key: &MutationKey, outcome: MutationOutcome, written: DurableWrite) -> (r: Result<
        (),
        RuntimeControlFailure,
    >)
        ensures
            final(self).lease_table() == old(self).lease_table(),
            final(self).lease_generation() == old(self).lease_generation(),
            final(self).boot() == old(self).boot(),
            final(self).mac_key() == old(self).mac_key(),
            outcome is Pending ==> (r matches Err(f) && refusal(f, ErrorKind::Internal, internal_text())
                && final(self).ledger() == old(self).ledger()),
            !(outcome is Pending) ==> match written {
                DurableWrite::Failed => r matches Err(f) && refusal(
                    f,
                    ErrorKind::Internal,
                    internal_text(),
                ) && final(self).ledger() == old(self).ledger(),
                DurableWrite::Refused => r matches Err(f) && refusal(
                    f,
                    ErrorKind::OutcomeUnknown,
                    outcome_unknown_text(),
                ) && final(self).ledger() == old(self).ledger(),
                DurableWrite::Written => if old(self).ledger().contains_key(key@) {
                    r is Ok && final(self).ledger() == settled(old(self).ledger(), key@, outcome)
                } else {
                    r matches Err(f) && refusal(f, ErrorKind::OutcomeUnknown, outcome_unknown_text())
                        && final(self).ledger() == old(self).ledger()
                },
            },
    {
        proof {
            use_type_invariant(&*self);
        }
        if let MutationOutcome::Pending = outcome {
            return Err(RuntimeControlFailure::internal());
        }
        match written {
            DurableWrite::Failed => return Err(RuntimeControlFailure::internal()),
            DurableWrite::Refused => return Err(RuntimeControlFailure::outcome_unknown()),
            DurableWrite::Written => {},
        }
        let i = match self.find_mutation(key) {
            Some(i) => i,
            None => return Err(RuntimeControlFailure::outcome_unknown()),
        };
        let ghost before = self.mutations@;
        let ghost old_ledger = ledger_of(before);
        proof {
            lemma_ledger_entry(before, i as int);
        }
        let method = self.mutations[i].memory.method;
        let authenticator = self.mutations[i].memory.authenticator;
        let record = MutationRecord {
            key: *key,
            memory: MutationMemory { method, authenticator, outcome },
        };
        let mut recs: Vec<MutationRecord> = Vec::new();
        std::mem::swap(&mut recs, &mut self.mutations);
        recs.set(i, record);
        proof {
            let after = recs@;
            assert forall|j: int| 0 <= j < after.len() implies #[trigger] after[j].key@ == before[j].key@ by {}
            assert(distinct_keys(after)) by {
                assert forall|a: int, b: int|
                    0 <= a < after.len() && 0 <= b < after.len() && a != b implies #[trigger] after[a].key@
                    != #[trigger] after[b].key@ by {
                    assert(after[a].key@ == before[a].key@);
                    assert(after[b].key@ == before[b].key@);
                }
            }
            let expected = settled(old_ledger, key@, outcome);
            assert forall|k: LedgerKey| #[trigger] ledger_of(after).contains_key(k) == expected.contains_key(k) by {
                if ledger_of(after).contains_key(k) {
                    let j = choose|j: int| 0 <= j < after.len() && after[j].key@ == k;
                    assert(before[j].key@ == k);
                }
                if old_ledger.contains_key(k) {
                    let j = choose|j: int| 0 <= j < before.len() && before[j].key@ == k;
                    assert(after[j].key@ == k);
                }
            }
            assert forall|k: LedgerKey| #[trigger] ledger_of(after).contains_key(k) implies ledger_of(after)[k] == expected[k] by {
                let j = choose|j: int| 0 <= j < after.len() && after[j].key@ == k;
                lemma_ledger_entry(after, j);
                lemma_ledger_entry(before, j);
            }
            assert(ledger_of(after) =~= expected);
        }
        std::mem::swap(&mut recs, &mut self.mutations);
        Ok(())
    }

    /// Settle a mutation with a refusal and answer it.
    pub fn deny(&mut self, key: &MutationKey, failure: RuntimeControlFailure, written: DurableWrite) -> (r: RuntimeControlReply)
        ensures
            final(self).lease_table() == old(self).lease_table(),
            final(self).lease_generation() == old(self).lease_generation(),
            written == DurableWrite::Written && old(self).ledger().contains_key(key@) ==> {
                &&& r == RuntimeControlReply::Failed(failure)
                &&& final(self).ledger() == settled(
                    old(self).ledger(),
                    key@,
                    MutationOutcome::Failed(failure),
                )
            },
            !(written == DurableWrite::Written && old(self).ledger().contains_key(key@)) ==> {
                &&& final(self).ledger() == old(self).ledger()
                &&& r matches RuntimeControlReply::Failed(f) && (if written == DurableWrite::Failed {
                    refusal(f, ErrorKind::Internal, internal_text())
                } else {
                    refusal(f, ErrorKind::OutcomeUnknown, outcome_unknown_text())
                })
            },
    {
        match self.finish(key, MutationOutcome::Failed(failure), written) {
            Ok(()) => RuntimeControlReply::Failed(failure),
            Err(storage) => RuntimeControlReply::Failed(storage),
        }
    }

    /// Settle a mutation with its outcome and answer it: the outcome's reply once recorded, or
    /// why it could not be recorded.
    pub fn complete(&mut self, key: &MutationKey, outcome: MutationOutcome, written: DurableWrite) -> (r: RuntimeControlReply)
        ensures
            final(self).lease_table() == old(self).lease_table(),
            final(self).lease_generation() == old(self).lease_generation(),
            final(self).boot() == old(self).boot(),
            final(self).mac_key() == old(self).mac_key(),
            !(outcome is Pending) && written == DurableWrite::Written && old(self).ledger().contains_key(key@) ==> {
                &&& Some(r) == reply_of(outcome)
                &&& final(self).ledger() == settled(old(self).ledger(), key@, outcome)
            },
            !(!(outcome is Pending) && written == DurableWrite::Written && old(self).ledger().contains_key(key@)) ==> {
                &&& final(self).ledger() == old(self).ledger()
                &&& r is Failed
            },
    {
        let reply = match &outcome {
            MutationOutcome::Pending => RuntimeControlReply::Failed(RuntimeControlFailure::internal()),
            MutationOutcome::Lease(lease) => RuntimeControlReply::Lease(copy_lease(lease)),
            MutationOutcome::Done => RuntimeControlReply::Done,
            MutationOutcome::Open(result) => RuntimeControlReply::Opened(copy_open_result(result)),
            MutationOutcome::Failed(failure) => RuntimeControlReply::Failed(*failure),
        };
        match self.finish(key, outcome, written) {
            Ok(()) => reply,
            Err(storage) => RuntimeControlReply::Failed(storage),
        }
    }
}

impl RuntimeControl {
    /// Settle an accepted provider command once the provider answered and the agent came back.
    ///
    /// `returned` is whether the session owner took its agent back; `outcome` what the provider
    /// answered; `written` whether the durable ledger recorded the settled mutation. Unless the
    /// agent came back and the provider succeeded, the mutation stays pending and the caller is
    /// told the outcome is unknown.
    pub fn finish_command(
        &mut self,
        key: &MutationKey,
        returned: bool,
        outcome: Result<(), ProviderError>,
        written: DurableWrite,
    ) -> (r: Result<(), RuntimeControlFailure>)
        ensures
            final(self).lease_table() == old(self).lease_table(),
            final(self).lease_generation() == old(self).lease_generation(),
            !(returned && outcome is Ok) ==> (r matches Err(f) && refusal(
                f,
                ErrorKind::OutcomeUnknown,
                outcome_unknown_text(),
            ) && final(self).ledger() == old(self).ledger()),
            returned && outcome is Ok ==> match written {
                DurableWrite::Written => if old(self).ledger().contains_key(key@) {
                    r is Ok && final(self).ledger() == settled(old(self).ledger(), key@, MutationOutcome::Done)
                } else {
                    r matches Err(f) && refusal(f, ErrorKind::OutcomeUnknown, outcome_unknown_text())
                        && final(self).ledger() == old(self).ledger()
                },
                DurableWrite::Failed => r matches Err(f) && refusal(f, ErrorKind::Internal, internal_text())
                    && final(self).ledger() == old(self).ledger(),
                DurableWrite::Refused => r matches Err(f) && refusal(
                    f,
                    ErrorKind::OutcomeUnknown,
                    outcome_unknown_text(),
                ) && final(self).ledger() == old(self).ledger(),
            },
    {
        if !returned {
            return Err(RuntimeControlFailure::outcome_unknown());
        }
        match outcome {
            Ok(()) => self.finish(key, MutationOutcome::Done, written),
            Err(_) => Err(RuntimeControlFailure::outcome_unknown()),
        }
    }
}

/// A mutation settled under an identity replays exactly its settled reply to the same method and
/// parameters, refuses as a conflict any other method or parameters, and while unsettled refuses
/// as possibly done, for as long as its identity is within the accepted window.
pub proof fn lemma_settled_mutation_replays(
    ledger: Map<LedgerKey, MemoryView>,
    integration: Seq<u8>,
    request: MutationRequestId,
    method: RuntimeMethod,
    authenticator: Seq<u8>,
    outcome: MutationOutcome,
    asked_method: RuntimeMethod,
    asked_authenticator: Seq<u8>,
    now: u64,
)
    requires
        request_window(request, now) is None,
    ensures
        ({
            let key = (integration, request.bytes->Some_0@);
            let after = ledger.insert(key, MemoryView { method, authenticator, outcome });
            &&& (asked_method == method && asked_authenticator == authenticator && reply_of(outcome) is Some)
                ==> begin_verdict(after, integration, asked_method, request, asked_authenticator, now)
                == BeginVerdict::Replay(reply_of(outcome)->Some_0)
            &&& (asked_method != method || asked_authenticator != authenticator) ==> begin_verdict(
                after,
                integration,
                asked_method,
                request,
                asked_authenticator,
                now,
            ) == BeginVerdict::Refuse(ErrorKind::IdempotencyConflict, idempotency_conflict_text())
            &&& (asked_method == method && asked_authenticator == authenticator && outcome is Pending)
                ==> begin_verdict(after, integration, asked_method, request, asked_authenticator, now)
                == BeginVerdict::Refuse(ErrorKind::OutcomeUnknown, outcome_unknown_text())
        }),
{
}


/// After a restart nothing is remembered, so a retried mutation within its window reaches the
/// durable ledger; a row an earlier boot left there under its identity is refused as possibly
/// done, whatever method and parameters are asked, so the mutation is not run again.
pub proof fn lemma_restart_keeps_ambiguity(
    stored: StoredMutation,
    boot: Seq<u8>,
    integration: Seq<u8>,
    request: MutationRequestId,
    method: RuntimeMethod,
    authenticator: Seq<u8>,
    now: u64,
)
    requires
        request_window(request, now) is None,
        stored.boot_id@ != boot,
    ensures
        begin_verdict(Map::empty(), integration, method, request, authenticator, now)
            == BeginVerdict::Fresh((integration, request.bytes->Some_0@)),
        stored_refusal(stored, boot, method, authenticator) == (
            ErrorKind::OutcomeUnknown,
            outcome_unknown_text(),
        ),
{
}

// ---------------------------------------------------------------------------------------------
// Control leases
// ---------------------------------------------------------------------------------------------
pub open spec fn lease_prefix() -> Seq<char> {
    "lease_"@
}

/// A fresh unpredictable label: the prefix and sixteen random bytes in hex.
pub fn random_label(prefix: &str) -> (r: Result<String, RuntimeControlFailure>)
    ensures
        match r {
            Ok(label) => exists|b: Seq<u8>| b.len() == 16 && label@ == prefix@ + hex_chars(b),
            Err(f) => refusal(f, ErrorKind::Internal, internal_text()),
        },
{
    let mut bytes = [0u8; 16];
    if random_fill(&mut bytes).is_err() {
        return Err(RuntimeControlFailure::internal());
    }
    let mut output = prefix.to_owned();
    let digits = hex(&bytes);
    string_push_str(&mut output, digits.as_str());
    Ok(output)
}

/// Why a presented lease does not give control now, or `None` when it does.
///
/// The lease must exist and not have expired, belong to this integration under this identifier
/// and generation, and the session must still be live on the stream it was granted on.
pub open spec fn lease_refusal(
    table: Map<Seq<u8>, LeaseView>,
    live: Option<LiveSession>,
    integration: Seq<u8>,
    session: Seq<u8>,
    lease_id: Seq<char>,
    lease_generation: u64,
    now: u64,
) -> Option<(ErrorKind, Seq<char>)> {
    if !table.contains_key(session) || table[session].public.expires_at_ms < now {
        Some((ErrorKind::LeaseExpired, lease_expired_text()))
    } else if table[session].integration != integration || table[session].public.lease_id@
        != lease_id || table[session].public.lease_generation != lease_generation {
        Some((ErrorKind::ControlConflict, control_conflict_text()))
    } else {
        match live {
            None => Some((ErrorKind::SessionNotFound, not_live_text())),
            Some(l) => if l.stream != table[session].stream {
                Some((ErrorKind::ControlConflict, control_conflict_text()))
            } else {
                None
            },
        }
    }
}

/// Whether an executable check is the expected refusal or acceptance.
pub open spec fn checks(r: Result<(), RuntimeControlFailure>, expected: Option<(ErrorKind, Seq<char>)>) -> bool {
    match expected {
        None => r is Ok,
        Some((kind, message)) => r matches Err(f) && refusal(f, kind, message),
    }
}

pub open spec fn session_changed_text() -> Seq<char> {
    "the session changed after the caller observed it"@
}

/// Why a caller may not acquire control of a session now, or `None` when it may.
///
/// The session must be live in the exact lifecycle and generation the caller observed, and any
/// current lease must have expired; a running session's expired lease still keeps every other
/// integration out.
pub open spec fn acquire_refusal(
    table: Map<Seq<u8>, LeaseView>,
    live: Option<LiveSession>,
    integration: Seq<u8>,
    session: Seq<u8>,
    expected_lifecycle: LifecycleState,
    expected_generation: u64,
    now: u64,
) -> Option<(ErrorKind, Seq<char>)> {
    match live {
        None => Some((ErrorKind::SessionNotFound, not_live_text())),
        Some(l) => if l.lifecycle != expected_lifecycle || l.generation != expected_generation {
            Some((ErrorKind::SessionConflict, session_changed_text()))
        } else if table.contains_key(session) && (table[session].public.expires_at_ms >= now || (
        l.lifecycle == LifecycleState::HotRunning && table[session].integration != integration)) {
            Some((ErrorKind::ControlConflict, control_conflict_text()))
        } else {
            None
        },
    }
}

impl RuntimeControl {
    /// Whether the caller holds the current lease of a live session.
    pub fn verify_lease_values(
        &self,
        live: Option<LiveSession>,
        integration: &[u8; 16],
        session: &[u8; 16],
        lease_id: &str,
        lease_generation: u64,
        now: u64,
    ) -> (r: Result<(), RuntimeControlFailure>)
        ensures
            checks(
                r,
                lease_refusal(
                    self.lease_table(),
                    live,
                    integration@,
                    session@,
                    lease_id@,
                    lease_generation,
                    now,
                ),
            ),
    {
        proof {
            use_type_invariant(self);
        }
        let i = match self.find_lease(session) {
            Some(i) => i,
            None => return Err(lease_expired()),
        };
        proof {
            lemma_lease_entry(self.leases@, i as int);
        }
        let current = &self.leases[i];
        if current.public.expires_at_ms < now {
            return Err(lease_expired());
        }
        if !bytes_eq(&current.integration, integration) || !str_eq(
            current.public.lease_id.as_str(),
            lease_id,
        ) || current.public.lease_generation != lease_generation {
            return Err(control_conflict());
        }
        match live {
            None => Err(not_live()),
            Some(l) => if l.stream != current.stream {
                Err(control_conflict())
            } else {
                Ok(())
            },
        }
    }

    /// Hand out the next lease generation: one more than the last, never reused.
    pub fn allocate_lease_generation(&mut self) -> (r: Result<u64, RuntimeControlFailure>)
        ensures
            final(self).ledger() == old(self).ledger(),
            final(self).lease_table() == old(self).lease_table(),
            match r {
                Ok(g) => g == old(self).lease_generation() + 1 && final(self).lease_generation() == g,
                Err(f) => refusal(f, ErrorKind::Internal, internal_text()) && final(self).lease_generation() == old(self).lease_generation(),
            },
    {
        proof {
            use_type_invariant(&*self);
        }
        match self.next_lease_generation.checked_add(1) {
            Some(next) => {
                self.next_lease_generation = next;
                Ok(next)
            },
            None => Err(RuntimeControlFailure::internal()),
        }
    }

    /// Every current lease generation is at most the last one handed out.
    proof fn lemma_generations_bounded(&self)
        requires
            self.well_formed(),
        ensures
            forall|s: Seq<u8>| #[trigger] self.lease_table().contains_key(s)
                ==> self.lease_table()[s].public.lease_generation <= self.lease_generation(),
    {
        assert forall|s: Seq<u8>| #[trigger] self.lease_table().contains_key(s)
            implies self.lease_table()[s].public.lease_generation <= self.lease_generation() by {
            let i = choose|i: int| 0 <= i < self.leases@.len() && self.leases@[i].session@ == s;
            lemma_lease_entry(self.leases@, i);
        }
    }

    /// Install or replace the lease of one session.
    fn put_lease(&mut self, entry: LeaseState)
        requires
            entry.public.lease_generation <= old(self).lease_generation(),
        ensures
            final(self).ledger() == old(self).ledger(),
            final(self).lease_generation() == old(self).lease_generation(),
            final(self).lease_table() == old(self).lease_table().insert(
                entry.session@,
                LeaseView { integration: entry.integration@, public: entry.public, stream: entry.stream },
            ),
    {
        proof {
            use_type_invariant(&*self);
        }
        let ghost before = self.leases@;
        let ghost view = LeaseView { integration: entry.integration@, public: entry.public, stream: entry.stream };
        let ghost key = entry.session@;
        let found = self.find_lease(&entry.session);
        let mut table: Vec<LeaseState> = Vec::new();
        std::mem::swap(&mut table, &mut self.leases);
        match found {
            Some(i) => {
                table.set(i, entry);
            },
            None => {
                table.push(entry);
            },
        }
        proof {
            let after = table@;
            assert(distinct_sessions(before));
            if found is None {
                assert forall|j: int| 0 <= j < before.len() implies #[trigger] before[j].session@ != key by {
                    if before[j].session@ == key {
                        assert(leases_of(before).contains_key(key));
                    }
                }
            }
            assert forall|j: int| 0 <= j < before.len() && (found is None || j != found->Some_0) implies #[trigger] after[j] == before[j] by {}
            assert(distinct_sessions(after)) by {
                assert forall|a: int, b: int|
                    0 <= a < after.len() && 0 <= b < after.len() && a != b implies #[trigger] after[a].session@
                    != #[trigger] after[b].session@ by {
                    if found is Some {
                        let f = found->Some_0 as int;
                        if a != f {
                            assert(after[a] == before[a]);
                        }
                        if b != f {
                            assert(after[b] == before[b]);
                        }
                    } else {
                        if a < before.len() {
                            assert(after[a] == before[a]);
                        }
                        if b < before.len() {
                            assert(after[b] == before[b]);
                        }
                    }
                }
            }
            let expected = leases_of(before).insert(key, view);
            assert forall|k: Seq<u8>| #[trigger] leases_of(after).contains_key(k) == expected.contains_key(k) by {
                if leases_of(after).contains_key(k) && k != key {
                    let j = choose|j: int| 0 <= j < after.len() && after[j].session@ == k;
                    if found is Some {
                        assert(j != found->Some_0);
                    } else {
                        assert(j < before.len());
                    }
                    assert(before[j].session@ == k);
                }
                if leases_of(before).contains_key(k) && k != key {
                    let j = choose|j: int| 0 <= j < before.len() && before[j].session@ == k;
                    assert(after[j].session@ == k);
                }
                if k == key {
                    if found is Some {
                        assert(after[found->Some_0 as int].session@ == k);
                    } else {
                        assert(after[before.len() as int].session@ == k);
                    }
                }
            }
            assert forall|k: Seq<u8>| #[trigger] leases_of(after).contains_key(k) implies leases_of(after)[k] == expected[k] by {
                let j = choose|j: int| 0 <= j < after.len() && after[j].session@ == k;
                lemma_lease_entry(after, j);
                if k != key {
                    lemma_lease_entry(before, j);
                }
            }
            assert(leases_of(after) =~= expected);
            assert forall|j: int| 0 <= j < after.len() implies #[trigger] after[j].public.lease_generation
                <= self.next_lease_generation by {
                if found is Some {
                    if j != found->Some_0 {
                        assert(after[j] == before[j]);
                    }
                } else if j < before.len() {
                    assert(after[j] == before[j]);
                }
            }
        }
        std::mem::swap(&mut table, &mut self.leases);
    }

    /// Remove the lease of one session.
    fn drop_lease(&mut self, session: &[u8; 16])
        ensures
            final(self).ledger() == old(self).ledger(),
            final(self).lease_generation() == old(self).lease_generation(),
            final(self).lease_table() == old(self).lease_table().remove(session@),
    {
        proof {
            use_type_invariant(&*self);
        }
        let ghost before = self.leases@;
        match self.find_lease(session) {
            Some(i) => {
                let mut table: Vec<LeaseState> = Vec::new();
                std::mem::swap(&mut table, &mut self.leases);
                let _gone = table.remove(i);
                proof {
                    let after = table@;
                    let key = session@;
                    assert(after =~= before.remove(i as int));
                    assert(distinct_sessions(after)) by {
                        assert forall|a: int, b: int|
                            0 <= a < after.len() && 0 <= b < after.len() && a != b implies #[trigger] after[a].session@
                            != #[trigger] after[b].session@ by {
                            let a0 = if a < i { a } else { a + 1 };
                            let b0 = if b < i { b } else { b + 1 };
                            assert(after[a] == before[a0]);
                            assert(after[b] == before[b0]);
                        }
                    }
                    let expected = leases_of(before).remove(key);
                    assert forall|k: Seq<u8>| #[trigger] leases_of(after).contains_key(k) == expected.contains_key(k) by {
                        if leases_of(after).contains_key(k) {
                            let j = choose|j: int| 0 <= j < after.len() && after[j].session@ == k;
                            let j0 = if j < i { j } else { j + 1 };
                            assert(before[j0].session@ == k);
                            assert(j0 != i);
                            lemma_lease_entry(before, i as int);
                        }
                        if expected.contains_key(k) {
                            let j = choose|j: int| 0 <= j < before.len() && before[j].session@ == k;
                            assert(j != i);
                            let j1 = if j < i { j } else { j - 1 };
                            assert(after[j1].session@ == k);
                        }
                    }
                    assert forall|k: Seq<u8>| #[trigger] leases_of(after).contains_key(k) implies leases_of(after)[k] == expected[k] by {
                        let j = choose|j: int| 0 <= j < after.len() && after[j].session@ == k;
                        let j0 = if j < i { j } else { j + 1 };
                        lemma_lease_entry(after, j);
                        lemma_lease_entry(before, j0);
                    }
                    assert(leases_of(after) =~= expected);
                    assert forall|j: int| 0 <= j < after.len() implies #[trigger] after[j].public.lease_generation
                        <= self.next_lease_generation by {
                        let j0 = if j < i { j } else { j + 1 };
                        assert(after[j] == before[j0]);
                    }
                }
                std::mem::swap(&mut table, &mut self.leases);
            },
            None => {
                assert(leases_of(before).remove(session@) =~= leases_of(before));
            },
        }
    }

    /// Grant a fresh control lease over a live session to an integration.
    ///
    /// The lease carries the session's current generation, a generation larger than any lease
    /// ever handed out before, and expires a fixed lifetime after `now`.
    pub fn acquire(
        &mut self,
        integration: &[u8; 16],
        session: &[u8; 16],
        session_id: &str,
        live: Option<LiveSession>,
        expected_lifecycle: LifecycleState,
        expected_generation: u64,
        now: u64,
    ) -> (r: Result<ControlLease, RuntimeControlFailure>)
        ensures
            final(self).ledger() == old(self).ledger(),
            match acquire_refusal(
                old(self).lease_table(),
                live,
                integration@,
                session@,
                expected_lifecycle,
                expected_generation,
                now,
            ) {
                Some((kind, message)) => r matches Err(f) && refusal(f, kind, message) && final(self).lease_table() == old(self).lease_table(),
                None => match r {
                    Ok(lease) => {
                        &&& lease.session_id@ == session_id@
                        &&& lease.session_generation == live->Some_0.generation
                        &&& lease.lease_generation == old(self).lease_generation() + 1
                        &&& forall|s: Seq<u8>| #[trigger] old(self).lease_table().contains_key(s)
                            ==> old(self).lease_table()[s].public.lease_generation < lease.lease_generation
                        &&& lease.expires_at_ms == sat_add(now, CONTROL_LEASE_LIFETIME_MS)
                        &&& exists|b: Seq<u8>| b.len() == 16 && lease.lease_id@ == lease_prefix() + hex_chars(b)
                        &&& final(self).lease_generation() == lease.lease_generation
                        &&& final(self).lease_table() == old(self).lease_table().insert(
                            session@,
                            LeaseView { integration: integration@, public: lease, stream: live->Some_0.stream },
                        )
                    },
                    Err(f) => refusal(f, ErrorKind::Internal, internal_text()) && final(self).lease_table() == old(self).lease_table(),
                },
            },
    {
        proof {
            use_type_invariant(&*self);
        }
        let live = match live {
            Some(live) => live,
            None => return Err(not_live()),
        };
        if live.lifecycle != expected_lifecycle || live.generation != expected_generation {
            return Err(
                RuntimeControlFailure::new(
                    ErrorKind::SessionConflict,
                    "the session changed after the caller observed it",
                ),
            );
        }
        if let Some(i) = self.find_lease(session) {
            proof {
                lemma_lease_entry(self.leases@, i as int);
            }
            let current = &self.leases[i];
            if current.public.expires_at_ms >= now {
                return Err(control_conflict());
            }
            if live.lifecycle == LifecycleState::HotRunning && !bytes_eq(
                &current.integration,
                integration,
            ) {
                return Err(control_conflict());
            }
        }
        proof {
            self.lemma_generations_bounded();
        }
        let generation = self.allocate_lease_generation()?;
        let lease_id = random_label("lease_")?;
        let public = ControlLease {
            lease_id,
            session_id: session_id.to_owned(),
            session_generation: live.generation,
            lease_generation: generation,
            expires_at_ms: now.saturating_add(CONTROL_LEASE_LIFETIME_MS),
        };
        let answer = copy_lease(&public);
        self.put_lease(LeaseState { session: *session, integration: *integration, public, stream: live.stream });
        Ok(answer)
    }

    /// Give the integration that opened a session control of it: the lease identifier and
    /// generation reserved when the open was prepared, over the opened session's generation and
    /// stream, expiring a fixed lifetime after `now`.
    pub fn grant_opened(
        &mut self,
        integration: &[u8; 16],
        session: &[u8; 16],
        session_id: &str,
        lease_id: String,
        lease_generation: u64,
        live: LiveSession,
        now: u64,
    ) -> (r: ControlLease)
        requires
            lease_generation <= old(self).lease_generation(),
        ensures
            final(self).ledger() == old(self).ledger(),
            final(self).lease_generation() == old(self).lease_generation(),
            r.lease_id == lease_id,
            r.session_id@ == session_id@,
            r.session_generation == live.generation,
            r.lease_generation == lease_generation,
            r.expires_at_ms == sat_add(now, CONTROL_LEASE_LIFETIME_MS),
            final(self).lease_table() == old(self).lease_table().insert(
                session@,
                LeaseView { integration: integration@, public: r, stream: live.stream },
            ),
    {
        let public = ControlLease {
            lease_id,
            session_id: session_id.to_owned(),
            session_generation: live.generation,
            lease_generation,
            expires_at_ms: now.saturating_add(CONTROL_LEASE_LIFETIME_MS),
        };
        let answer = copy_lease(&public);
        self.put_lease(LeaseState { session: *session, integration: *integration, public, stream: live.stream });
        answer
    }

    /// Extend the caller's current lease with a new generation and a fresh lifetime.
    pub fn renew(
        &mut self,
        integration: &[u8; 16],
        session: &[u8; 16],
        lease_id: &str,
        lease_generation: u64,
        live: Option<LiveSession>,
        now: u64,
    ) -> (r: Result<ControlLease, RuntimeControlFailure>)
        ensures
            final(self).ledger() == old(self).ledger(),
            match lease_refusal(
                old(self).lease_table(),
                live,
                integration@,
                session@,
                lease_id@,
                lease_generation,
                now,
            ) {
                Some((kind, message)) => r matches Err(f) && refusal(f, kind, message) && final(self).lease_table() == old(self).lease_table(),
                None => match r {
                    Ok(lease) => {
                        &&& lease.lease_id == old(self).lease_table()[session@].public.lease_id
                        &&& lease.session_id == old(self).lease_table()[session@].public.session_id
                        &&& lease.session_generation == old(self).lease_table()[session@].public.session_generation
                        &&& lease.lease_generation == old(self).lease_generation() + 1
                        &&& lease.expires_at_ms == sat_add(now, CONTROL_LEASE_LIFETIME_MS)
                        &&& final(self).lease_generation() == lease.lease_generation
                        &&& final(self).lease_table() == old(self).lease_table().insert(
                            session@,
                            LeaseView {
                                integration: integration@,
                                public: lease,
                                stream: old(self).lease_table()[session@].stream,
                            },
                        )
                    },
                    Err(f) => refusal(f, ErrorKind::Internal, internal_text()) && final(self).lease_table() == old(self).lease_table(),
                },
            },
    {
        self.verify_lease_values(live, integration, session, lease_id, lease_generation, now)?;
        proof {
            use_type_invariant(&*self);
        }
        let next = self.allocate_lease_generation()?;
        proof {
            use_type_invariant(&*self);
        }
        let i = match self.find_lease(session) {
            Some(i) => i,
            None => return Err(lease_expired()),
        };
        proof {
            lemma_lease_entry(self.leases@, i as int);
        }
        let current = &self.leases[i];
        let public = ControlLease {
            lease_id: copy_string(&current.public.lease_id),
            session_id: copy_string(&current.public.session_id),
            session_generation: current.public.session_generation,
            lease_generation: next,
            expires_at_ms: now.saturating_add(CONTROL_LEASE_LIFETIME_MS),
        };
        let stream = current.stream;
        let answer = copy_lease(&public);
        self.put_lease(LeaseState { session: *session, integration: *integration, public, stream });
        Ok(answer)
    }

    /// Give up the caller's current lease.
    pub fn release(
        &mut self,
        integration: &[u8; 16],
        session: &[u8; 16],
        lease_id: &str,
        lease_generation: u64,
        live: Option<LiveSession>,
        now: u64,
    ) -> (r: Result<(), RuntimeControlFailure>)
        ensures
            final(self).ledger() == old(self).ledger(),
            final(self).lease_generation() == old(self).lease_generation(),
            checks(
                r,
                lease_refusal(
                    old(self).lease_table(),
                    live,
                    integration@,
                    session@,
                    lease_id@,
                    lease_generation,
                    now,
                ),
            ),
            r is Ok ==> final(self).lease_table() == old(self).lease_table().remove(session@),
            r is Err ==> final(self).lease_table() == old(self).lease_table(),
    {
        self.verify_lease_values(live, integration, session, lease_id, lease_generation, now)?;
        self.drop_lease(session);
        Ok(())
    }
}

/// A lease granted over a live session gives its holder control, on the stream it was granted
/// on, until it expires; it gives no other integration control; once released it gives nobody
/// control.
pub proof fn lemma_granted_lease_controls(
    table: Map<Seq<u8>, LeaseView>,
    session: Seq<u8>,
    granted: LeaseView,
    live: LiveSession,
    other: Seq<u8>,
    now: u64,
)
    requires
        now <= granted.public.expires_at_ms,
        live.stream == granted.stream,
        other != granted.integration,
    ensures
        lease_refusal(
            table.insert(session, granted),
            Some(live),
            granted.integration,
            session,
            granted.public.lease_id@,
            granted.public.lease_generation,
            now,
        ) is None,
        lease_refusal(
            table.insert(session, granted),
            Some(live),
            other,
            session,
            granted.public.lease_id@,
            granted.public.lease_generation,
            now,
        ) == Some((ErrorKind::ControlConflict, control_conflict_text())),
        lease_refusal(
            table.insert(session, granted).remove(session),
            Some(live),
            granted.integration,
            session,
            granted.public.lease_id@,
            granted.public.lease_generation,
            now,
        ) == Some((ErrorKind::LeaseExpired, lease_expired_text())),
{
}

/// While an unexpired lease is held, nobody acquires the session, the holder included.
pub proof fn lemma_held_lease_excludes(
    table: Map<Seq<u8>, LeaseView>,
    session: Seq<u8>,
    live: LiveSession,
    integration: Seq<u8>,
    now: u64,
)
    requires
        table.contains_key(session),
        table[session].public.expires_at_ms >= now,
    ensures
        acquire_refusal(table, Some(live), integration, session, live.lifecycle, live.generation, now)
            == Some((ErrorKind::ControlConflict, control_conflict_text())),
{
}


// ---------------------------------------------------------------------------------------------
// Mutation authenticators
// ---------------------------------------------------------------------------------------------
/// The eight little-endian bytes of a `u64`.
pub open spec fn u64_le(x: u64) -> Seq<u8> {
    seq![
        x as u8,
        (x >> 8u64) as u8,
        (x >> 16u64) as u8,
        (x >> 24u64) as u8,
        (x >> 32u64) as u8,
        (x >> 40u64) as u8,
        (x >> 48u64) as u8,
        (x >> 56u64) as u8,
    ]
}

/// One authenticated field: its length as a little-endian `u64`, then its bytes.
pub open spec fn frame(value: Seq<u8>) -> Seq<u8> {
    u64_le(value.len() as u64) + value
}

/// Fields framed one after another.
pub open spec fn frames(values: Seq<Seq<u8>>) -> Seq<u8>
    decreases values.len(),
{
    if values.len() == 0 {
        Seq::empty()
    } else {
        frames(values.drop_last()) + frame(values.last())
    }
}

/// The domain every mutation authenticator begins with.
pub open spec fn mutation_domain() -> Seq<u8> {
    encode_utf8("runtrol-runtime-mutation-v1"@)
}

/// The authenticator of one mutation: the boot-local key over the domain, the method name and
/// the request's fields, each framed.
pub open spec fn mutation_tag(key: Seq<u8>, method: RuntimeMethod, fields: Seq<Seq<u8>>) -> Seq<u8> {
    hmac_sha256(key, frames(seq![mutation_domain(), encode_utf8(method_name(method))] + fields))
}

/// Framing one more field appends its frame.
pub proof fn lemma_frames_push(values: Seq<Seq<u8>>, value: Seq<u8>)
    ensures
        frames(values.push(value)) == frames(values) + frame(value),
{
    assert(values.push(value).drop_last() =~= values);
}

/// Absorb one framed field.
fn feed(mac: &mut Authenticator, value: &[u8])
    ensures
        authenticator_key(*final(mac)) == authenticator_key(*old(mac)),
        authenticator_input(*final(mac)) == authenticator_input(*old(mac)) + frame(value@),
{
    let n = value.len() as u64;
    let length: [u8; 8] = [
        n as u8,
        (n >> 8u64) as u8,
        (n >> 16u64) as u8,
        (n >> 24u64) as u8,
        (n >> 32u64) as u8,
        (n >> 40u64) as u8,
        (n >> 48u64) as u8,
        (n >> 56u64) as u8,
    ];
    assert(length@ =~= u64_le(n));
    authenticator_update(mac, &length);
    authenticator_update(mac, value);
    assert(authenticator_input(*mac) =~= authenticator_input(*old(mac)) + frame(value@));
}

/// Absorb one framed field and keep track of the fields absorbed.
fn feed_next(mac: &mut Authenticator, value: &[u8], Ghost(fields): Ghost<Seq<Seq<u8>>>)
    requires
        authenticator_input(*old(mac)) == frames(fields),
    ensures
        authenticator_key(*final(mac)) == authenticator_key(*old(mac)),
        authenticator_input(*final(mac)) == frames(fields.push(value@)),
{
    feed(mac, value);
    proof {
        lemma_frames_push(fields, value@);
    }
}

/// The little-endian bytes of a `u64`.
fn le_bytes(x: u64) -> (r: [u8; 8])
    ensures
        r@ == u64_le(x),
{
    let r: [u8; 8] = [
        x as u8,
        (x >> 8u64) as u8,
        (x >> 16u64) as u8,
        (x >> 24u64) as u8,
        (x >> 32u64) as u8,
        (x >> 40u64) as u8,
        (x >> 48u64) as u8,
        (x >> 56u64) as u8,
    ];
    assert(r@ =~= u64_le(x));
    r
}

/// Parameters of acquiring control.
#[derive(Debug)]
pub struct AcquireControlParams {
    pub request_id: MutationRequestId,
    pub session_id: String,
    pub expected_lifecycle: LifecycleState,
    pub expected_session_generation: u64,
}

/// Parameters of renewing, releasing or interrupting under a lease.
#[derive(Debug)]
pub struct ControlLeaseParams {
    pub request_id: MutationRequestId,
    pub session_id: String,
    pub lease_id: String,
    pub lease_generation: u64,
}

/// Parameters of submitting input under a lease.
#[derive(Debug)]
pub struct SubmitInputParams {
    pub request_id: MutationRequestId,
    pub session_id: String,
    pub lease_id: String,
    pub lease_generation: u64,
    pub input: String,
}

/// Parameters of switching model under a lease.
#[derive(Debug)]
pub struct SetModelParams {
    pub request_id: MutationRequestId,
    pub session_id: String,
    pub lease_id: String,
    pub lease_generation: u64,
    pub model: String,
    pub reasoning_effort: Option<String>,
}

/// Parameters of switching mode under a lease.
#[derive(Debug)]
pub struct SetModeParams {
    pub request_id: MutationRequestId,
    pub session_id: String,
    pub lease_id: String,
    pub lease_generation: u64,
    pub mode: String,
}

/// Parameters of cooling an idle session under a lease.
#[derive(Debug)]
pub struct CoolSessionParams {
    pub request_id: MutationRequestId,
    pub session_id: String,
    pub expected_session_generation: u64,
    pub lease_id: String,
    pub lease_generation: u64,
}

/// Parameters of forgetting a closed session pointer.
#[derive(Debug)]
pub struct ForgetSessionParams {
    pub request_id: MutationRequestId,
    pub session_id: String,
    pub expected_session_generation: u64,
}

/// Parameters of answering a pending approval under a lease.
#[derive(Debug)]
pub struct RespondApprovalParams {
    pub request_id: MutationRequestId,
    pub session_id: String,
    pub lease_id: String,
    pub lease_generation: u64,
    pub approval_id: String,
    pub option_id: u64,
    pub subject_digest: [u8; 32],
}

/// One admitted session open, as the ledger authenticates and the owner reserves it.
#[derive(Debug)]
pub struct RuntimeOpenRequest {
    pub method: RuntimeMethod,
    pub request_id: MutationRequestId,
    pub provider: String,
    pub session: Option<[u8; 16]>,
    pub native: Option<String>,
    pub workspace: String,
    pub access: WorkspaceAccess,
    pub model: Option<String>,
    pub reasoning_effort: Option<String>,
    pub permission: Option<String>,
    pub expected: Option<(LifecycleState, u64)>,
    pub proof: Option<String>,
}

/// The bytes of an optional text, none for an absent one.
pub open spec fn optional_bytes(value: Option<String>) -> Seq<u8> {
    match value {
        Some(text) => encode_utf8(text@),
        None => Seq::empty(),
    }
}

pub open spec fn acquire_fields(p: AcquireControlParams) -> Seq<Seq<u8>> {
    seq![
        encode_utf8(p.session_id@),
        seq![lifecycle_code(p.expected_lifecycle)],
        u64_le(p.expected_session_generation),
    ]
}

pub open spec fn lease_fields(p: ControlLeaseParams) -> Seq<Seq<u8>> {
    seq![encode_utf8(p.session_id@), encode_utf8(p.lease_id@), u64_le(p.lease_generation)]
}

pub open spec fn submit_fields(p: SubmitInputParams) -> Seq<Seq<u8>> {
    seq![
        encode_utf8(p.session_id@),
        encode_utf8(p.lease_id@),
        u64_le(p.lease_generation),
        encode_utf8(p.input@),
    ]
}

pub open spec fn set_model_fields(p: SetModelParams) -> Seq<Seq<u8>> {
    seq![
        encode_utf8(p.session_id@),
        encode_utf8(p.lease_id@),
        u64_le(p.lease_generation),
        encode_utf8(p.model@),
        optional_bytes(p.reasoning_effort),
    ]
}

pub open spec fn set_mode_fields(p: SetModeParams) -> Seq<Seq<u8>> {
    seq![
        encode_utf8(p.session_id@),
        encode_utf8(p.lease_id@),
        u64_le(p.lease_generation),
        encode_utf8(p.mode@),
    ]
}

pub open spec fn cool_fields(p: CoolSessionParams) -> Seq<Seq<u8>> {
    seq![
        encode_utf8(p.session_id@),
        u64_le(p.expected_session_generation),
        encode_utf8(p.lease_id@),
        u64_le(p.lease_generation),
    ]
}

pub open spec fn forget_fields(p: ForgetSessionParams) -> Seq<Seq<u8>> {
    seq![encode_utf8(p.session_id@), u64_le(p.expected_session_generation)]
}

pub open spec fn approval_fields(p: RespondApprovalParams) -> Seq<Seq<u8>> {
    seq![
        encode_utf8(p.session_id@),
        encode_utf8(p.lease_id@),
        u64_le(p.lease_generation),
        encode_utf8(p.approval_id@),
        u64_le(p.option_id),
        p.subject_digest@,
    ]
}

pub open spec fn open_fields(r: RuntimeOpenRequest) -> Seq<Seq<u8>> {
    let base = seq![
        encode_utf8(r.provider@),
        encode_utf8(r.workspace@),
        seq![if r.access == WorkspaceAccess::Exclusive { 0u8 } else { 1u8 }],
        match r.session {
            Some(session) => session@,
            None => Seq::empty(),
        },
        optional_bytes(r.native),
        optional_bytes(r.model),
        optional_bytes(r.reasoning_effort),
        optional_bytes(r.proof),
    ];
    match r.expected {
        Some((lifecycle, generation)) => base + seq![seq![lifecycle_code(lifecycle)], u64_le(generation)],
        None => base,
    }
}

/// The bytes of an optional text.
fn optional_text_bytes(value: &Option<String>) -> (r: &[u8])
    ensures
        r@ == optional_bytes(*value),
{
    match value {
        Some(text) => text.as_str().as_bytes(),
        None => &[],
    }
}

impl RuntimeControl {
    /// A fresh authenticator that has absorbed the domain and the method name.
    fn mac(&self, method: RuntimeMethod) -> (r: Authenticator)
        ensures
            authenticator_key(r) == self.mac_key(),
            authenticator_input(r) == frames(
                seq![mutation_domain(), encode_utf8(method_name(method))],
            ),
    {
        proof {
            use_type_invariant(self);
        }
        let mut mac = authenticator_clone(&self.authenticator);
        feed_next(&mut mac, "runtrol-runtime-mutation-v1".as_bytes(), Ghost(Seq::<Seq<u8>>::empty()));
        let name = method.as_str();
        let ghost first = Seq::<Seq<u8>>::empty().push(mutation_domain());
        feed_next(&mut mac, name.as_bytes(), Ghost(first));
        proof {
            assert(first =~= seq![mutation_domain()]);
            assert(first.push(encode_utf8(method_name(method))) =~= seq![
                mutation_domain(),
                encode_utf8(method_name(method)),
            ]);
        }
        mac
    }

    /// The authenticator of acquiring control.
    pub fn authenticate_acquire(&self, params: &AcquireControlParams) -> (r: [u8; 32])
        ensures
            r@ == mutation_tag(self.mac_key(), RuntimeMethod::SessionsAcquireControl, acquire_fields(*params)),
    {
        let ghost head = seq![mutation_domain(), encode_utf8(method_name(RuntimeMethod::SessionsAcquireControl))];
        let mut mac = self.mac(RuntimeMethod::SessionsAcquireControl);
        feed_next(&mut mac, params.session_id.as_str().as_bytes(), Ghost(head));
        let lifecycle = [lifecycle_byte(params.expected_lifecycle)];
        assert(lifecycle@ =~= seq![lifecycle_code(params.expected_lifecycle)]);
        feed_next(&mut mac, &lifecycle, Ghost(head.push(encode_utf8(params.session_id@))));
        feed_next(
            &mut mac,
            &le_bytes(params.expected_session_generation),
            Ghost(head.push(encode_utf8(params.session_id@)).push(lifecycle@)),
        );
        assert(head.push(encode_utf8(params.session_id@)).push(lifecycle@).push(
            u64_le(params.expected_session_generation),
        ) =~= head + acquire_fields(*params));
        authenticator_finalize(mac)
    }

    /// The authenticator of renewing, releasing or interrupting under a lease.
    pub fn authenticate_lease(&self, method: RuntimeMethod, params: &ControlLeaseParams) -> (r: [u8; 32])
        ensures
            r@ == mutation_tag(self.mac_key(), method, lease_fields(*params)),
    {
        let ghost head = seq![mutation_domain(), encode_utf8(method_name(method))];
        let mut mac = self.mac(method);
        feed_next(&mut mac, params.session_id.as_str().as_bytes(), Ghost(head));
        let ghost f1 = head.push(encode_utf8(params.session_id@));
        feed_next(&mut mac, params.lease_id.as_str().as_bytes(), Ghost(f1));
        let ghost f2 = f1.push(encode_utf8(params.lease_id@));
        feed_next(&mut mac, &le_bytes(params.lease_generation), Ghost(f2));
        assert(f2.push(u64_le(params.lease_generation)) =~= head + lease_fields(*params));
        authenticator_finalize(mac)
    }

    /// The authenticator of submitting input.
    pub fn authenticate_submit(&self, params: &SubmitInputParams) -> (r: [u8; 32])
        ensures
            r@ == mutation_tag(self.mac_key(), RuntimeMethod::SessionsSubmitInput, submit_fields(*params)),
    {
        let ghost head = seq![mutation_domain(), encode_utf8(method_name(RuntimeMethod::SessionsSubmitInput))];
        let mut mac = self.mac(RuntimeMethod::SessionsSubmitInput);
        feed_next(&mut mac, params.session_id.as_str().as_bytes(), Ghost(head));
        let ghost f1 = head.push(encode_utf8(params.session_id@));
        feed_next(&mut mac, params.lease_id.as_str().as_bytes(), Ghost(f1));
        let ghost f2 = f1.push(encode_utf8(params.lease_id@));
        feed_next(&mut mac, &le_bytes(params.lease_generation), Ghost(f2));
        let ghost f3 = f2.push(u64_le(params.lease_generation));
        feed_next(&mut mac, params.input.as_str().as_bytes(), Ghost(f3));
        assert(f3.push(encode_utf8(params.input@)) =~= head + submit_fields(*params));
        authenticator_finalize(mac)
    }

    /// The authenticator of switching model; an absent effort is framed as empty.
    pub fn authenticate_set_model(&self, params: &SetModelParams) -> (r: [u8; 32])
        ensures
            r@ == mutation_tag(self.mac_key(), RuntimeMethod::SessionsSetModel, set_model_fields(*params)),
    {
        let ghost head = seq![mutation_domain(), encode_utf8(method_name(RuntimeMethod::SessionsSetModel))];
        let mut mac = self.mac(RuntimeMethod::SessionsSetModel);
        feed_next(&mut mac, params.session_id.as_str().as_bytes(), Ghost(head));
        let ghost f1 = head.push(encode_utf8(params.session_id@));
        feed_next(&mut mac, params.lease_id.as_str().as_bytes(), Ghost(f1));
        let ghost f2 = f1.push(encode_utf8(params.lease_id@));
        feed_next(&mut mac, &le_bytes(params.lease_generation), Ghost(f2));
        let ghost f3 = f2.push(u64_le(params.lease_generation));
        feed_next(&mut mac, params.model.as_str().as_bytes(), Ghost(f3));
        let ghost f4 = f3.push(encode_utf8(params.model@));
        feed_next(&mut mac, optional_text_bytes(&params.reasoning_effort), Ghost(f4));
        assert(f4.push(optional_bytes(params.reasoning_effort)) =~= head + set_model_fields(*params));
        authenticator_finalize(mac)
    }

    /// The authenticator of switching mode.
    pub fn authenticate_set_mode(&self, params: &SetModeParams) -> (r: [u8; 32])
        ensures
            r@ == mutation_tag(self.mac_key(), RuntimeMethod::SessionsSetMode, set_mode_fields(*params)),
    {
        let ghost head = seq![mutation_domain(), encode_utf8(method_name(RuntimeMethod::SessionsSetMode))];
        let mut mac = self.mac(RuntimeMethod::SessionsSetMode);
        feed_next(&mut mac, params.session_id.as_str().as_bytes(), Ghost(head));
        let ghost f1 = head.push(encode_utf8(params.session_id@));
        feed_next(&mut mac, params.lease_id.as_str().as_bytes(), Ghost(f1));
        let ghost f2 = f1.push(encode_utf8(params.lease_id@));
        feed_next(&mut mac, &le_bytes(params.lease_generation), Ghost(f2));
        let ghost f3 = f2.push(u64_le(params.lease_generation));
        feed_next(&mut mac, params.mode.as_str().as_bytes(), Ghost(f3));
        assert(f3.push(encode_utf8(params.mode@)) =~= head + set_mode_fields(*params));
        authenticator_finalize(mac)
    }

    /// The authenticator of cooling a session.
    pub fn authenticate_cool(&self, params: &CoolSessionParams) -> (r: [u8; 32])
        ensures
            r@ == mutation_tag(self.mac_key(), RuntimeMethod::SessionsCool, cool_fields(*params)),
    {
        let ghost head = seq![mutation_domain(), encode_utf8(method_name(RuntimeMethod::SessionsCool))];
        let mut mac = self.mac(RuntimeMethod::SessionsCool);
        feed_next(&mut mac, params.session_id.as_str().as_bytes(), Ghost(head));
        let ghost f1 = head.push(encode_utf8(params.session_id@));
        feed_next(&mut mac, &le_bytes(params.expected_session_generation), Ghost(f1));
        let ghost f2 = f1.push(u64_le(params.expected_session_generation));
        feed_next(&mut mac, params.lease_id.as_str().as_bytes(), Ghost(f2));
        let ghost f3 = f2.push(encode_utf8(params.lease_id@));
        feed_next(&mut mac, &le_bytes(params.lease_generation), Ghost(f3));
        assert(f3.push(u64_le(params.lease_generation)) =~= head + cool_fields(*params));
        authenticator_finalize(mac)
    }

    /// The authenticator of forgetting a session pointer.
    pub fn authenticate_forget(&self, params: &ForgetSessionParams) -> (r: [u8; 32])
        ensures
            r@ == mutation_tag(self.mac_key(), RuntimeMethod::SessionsForget, forget_fields(*params)),
    {
        let ghost head = seq![mutation_domain(), encode_utf8(method_name(RuntimeMethod::SessionsForget))];
        let mut mac = self.mac(RuntimeMethod::SessionsForget);
        feed_next(&mut mac, params.session_id.as_str().as_bytes(), Ghost(head));
        let ghost f1 = head.push(encode_utf8(params.session_id@));
        feed_next(&mut mac, &le_bytes(params.expected_session_generation), Ghost(f1));
        assert(f1.push(u64_le(params.expected_session_generation)) =~= head + forget_fields(*params));
        authenticator_finalize(mac)
    }

    /// The authenticator of answering an approval.
    pub fn authenticate_approval_response(&self, params: &RespondApprovalParams) -> (r: [u8; 32])
        ensures
            r@ == mutation_tag(self.mac_key(), RuntimeMethod::ApprovalsRespond, approval_fields(*params)),
    {
        let ghost head = seq![mutation_domain(), encode_utf8(method_name(RuntimeMethod::ApprovalsRespond))];
        let mut mac = self.mac(RuntimeMethod::ApprovalsRespond);
        feed_next(&mut mac, params.session_id.as_str().as_bytes(), Ghost(head));
        let ghost f1 = head.push(encode_utf8(params.session_id@));
        feed_next(&mut mac, params.lease_id.as_str().as_bytes(), Ghost(f1));
        let ghost f2 = f1.push(encode_utf8(params.lease_id@));
        feed_next(&mut mac, &le_bytes(params.lease_generation), Ghost(f2));
        let ghost f3 = f2.push(u64_le(params.lease_generation));
        feed_next(&mut mac, params.approval_id.as_str().as_bytes(), Ghost(f3));
        let ghost f4 = f3.push(encode_utf8(params.approval_id@));
        feed_next(&mut mac, &le_bytes(params.option_id), Ghost(f4));
        let ghost f5 = f4.push(u64_le(params.option_id));
        feed_next(&mut mac, &params.subject_digest, Ghost(f5));
        assert(f5.push(params.subject_digest@) =~= head + approval_fields(*params));
        authenticator_finalize(mac)
    }

    /// The authenticator of a session open: provider, workspace, access, session, native
    /// identity, selections and proof, and the observed lifecycle and generation of a resume.
    #[verifier::rlimit(40)]
    pub fn authenticate_open(&self, request: &RuntimeOpenRequest) -> (r: [u8; 32])
        ensures
            r@ == mutation_tag(self.mac_key(), request.method, open_fields(*request)),
    {
        let ghost head = seq![mutation_domain(), encode_utf8(method_name(request.method))];
        let mut mac = self.mac(request.method);
        feed_next(&mut mac, request.provider.as_str().as_bytes(), Ghost(head));
        let ghost f1 = head.push(encode_utf8(request.provider@));
        feed_next(&mut mac, request.workspace.as_str().as_bytes(), Ghost(f1));
        let ghost f2 = f1.push(encode_utf8(request.workspace@));
        let access = [workspace_access_byte(request.access)];
        feed_next(&mut mac, &access, Ghost(f2));
        let ghost f3 = f2.push(access@);
        let session_bytes: &[u8] = match &request.session {
            Some(session) => session,
            None => &[],
        };
        assert(session_bytes@ == match request.session {
            Some(session) => session@,
            None => Seq::<u8>::empty(),
        });
        feed_next(&mut mac, session_bytes, Ghost(f3));
        let ghost f4 = f3.push(session_bytes@);
        feed_next(&mut mac, optional_text_bytes(&request.native), Ghost(f4));
        let ghost f5 = f4.push(optional_bytes(request.native));
        feed_next(&mut mac, optional_text_bytes(&request.model), Ghost(f5));
        let ghost f6 = f5.push(optional_bytes(request.model));
        feed_next(&mut mac, optional_text_bytes(&request.reasoning_effort), Ghost(f6));
        let ghost f7 = f6.push(optional_bytes(request.reasoning_effort));
        feed_next(&mut mac, optional_text_bytes(&request.proof), Ghost(f7));
        let ghost f8 = f7.push(optional_bytes(request.proof));
        assert(access@ =~= seq![if request.access == WorkspaceAccess::Exclusive { 0u8 } else { 1u8 }]);
        if let Some((lifecycle, generation)) = request.expected {
            let code = [lifecycle_byte(lifecycle)];
            feed_next(&mut mac, &code, Ghost(f8));
            feed_next(&mut mac, &le_bytes(generation), Ghost(f8.push(code@)));
            assert(code@ =~= seq![lifecycle_code(lifecycle)]);
            assert(f8.push(code@).push(u64_le(generation)) =~= head + open_fields(*request));
        } else {
            assert(f8 =~= head + open_fields(*request));
        }
        authenticator_finalize(mac)
    }
}


// ---------------------------------------------------------------------------------------------
// Decisions around the session owner
// ---------------------------------------------------------------------------------------------
/// Longest caller input one submission carries.
pub const MAX_INPUT_BYTES: usize = 65536;

pub open spec fn oversized_input_text() -> Seq<char> {
    "caller input exceeds the advertised byte limit"@
}

/// Refuse input over the advertised limit before any ledger work.
pub fn check_input(input: &str) -> (r: Result<(), RuntimeControlFailure>)
    ensures
        r is Ok <==> encode_utf8(input@).len() <= MAX_INPUT_BYTES,
        r matches Err(f) ==> refusal(f, ErrorKind::InvalidRequest, oversized_input_text()),
{
    if input.as_bytes().len() > MAX_INPUT_BYTES {
        return Err(
            RuntimeControlFailure::new(
                ErrorKind::InvalidRequest,
                "caller input exceeds the advertised byte limit",
            ),
        );
    }
    Ok(())
}

pub open spec fn unusable_model_text() -> Seq<char> {
    "the model switch names no usable model or effort"@
}

/// Whether a model switch names a usable model and, when present, a usable effort.
pub open spec fn model_switch_usable(model: Seq<char>, effort: Option<Seq<char>>) -> bool {
    &&& encode_utf8(model).len() > 0 && encode_utf8(model).len() <= 256
    &&& match effort {
        Some(e) => encode_utf8(e).len() > 0 && encode_utf8(e).len() <= 64,
        None => true,
    }
}

/// Transport sanity for a model switch: no provider names a model in kilobytes.
pub fn check_model_switch(model: &str, effort: &Option<String>) -> (r: Result<(), RuntimeControlFailure>)
    ensures
        r is Ok <==> model_switch_usable(
            model@,
            match effort {
                Some(e) => Some(e@),
                None => None,
            },
        ),
        r matches Err(f) ==> refusal(f, ErrorKind::InvalidRequest, unusable_model_text()),
{
    let model_usable = model.as_bytes().len() > 0 && model.as_bytes().len() <= 256;
    let effort_usable = match effort {
        Some(e) => e.as_str().as_bytes().len() > 0 && e.as_str().as_bytes().len() <= 64,
        None => true,
    };
    if !model_usable || !effort_usable {
        return Err(
            RuntimeControlFailure::new(
                ErrorKind::InvalidRequest,
                "the model switch names no usable model or effort",
            ),
        );
    }
    Ok(())
}

pub open spec fn unusable_mode_text() -> Seq<char> {
    "the mode switch names no usable mode"@
}

/// Transport sanity for a mode switch: every measured vocabulary is a short token.
pub fn check_mode_switch(mode: &str) -> (r: Result<(), RuntimeControlFailure>)
    ensures
        r is Ok <==> (encode_utf8(mode@).len() > 0 && encode_utf8(mode@).len() <= 64),
        r matches Err(f) ==> refusal(f, ErrorKind::InvalidRequest, unusable_mode_text()),
{
    if mode.as_bytes().len() == 0 || mode.as_bytes().len() > 64 {
        return Err(
            RuntimeControlFailure::new(ErrorKind::InvalidRequest, "the mode switch names no usable mode"),
        );
    }
    Ok(())
}

pub open spec fn not_idle_text() -> Seq<char> {
    "only the exact observed idle session can be cooled"@
}

/// Only the exact observed idle session can be cooled.
pub fn check_cool(live: Option<LiveSession>, expected_generation: u64) -> (r: Result<(), RuntimeControlFailure>)
    ensures
        match live {
            None => r matches Err(f) && refusal(f, ErrorKind::SessionNotFound, not_live_text()),
            Some(l) => if l.lifecycle == LifecycleState::HotIdle && l.generation == expected_generation {
                r is Ok
            } else {
                r matches Err(f) && refusal(f, ErrorKind::SessionConflict, not_idle_text())
            },
        },
{
    match live {
        None => Err(not_live()),
        Some(l) => if l.lifecycle != LifecycleState::HotIdle || l.generation != expected_generation {
            Err(
                RuntimeControlFailure::new(
                    ErrorKind::SessionConflict,
                    "only the exact observed idle session can be cooled",
                ),
            )
        } else {
            Ok(())
        },
    }
}

pub open spec fn still_live_text() -> Seq<char> {
    "only the exact locally closed session pointer can be forgotten"@
}

/// Only a session that is no longer live can be forgotten.
pub fn check_forget(live: Option<LiveSession>) -> (r: Result<(), RuntimeControlFailure>)
    ensures
        r is Ok <==> live is None,
        r matches Err(f) ==> refusal(f, ErrorKind::SessionConflict, still_live_text()),
{
    if live.is_some() {
        return Err(
            RuntimeControlFailure::new(
                ErrorKind::SessionConflict,
                "only the exact locally closed session pointer can be forgotten",
            ),
        );
    }
    Ok(())
}

impl RuntimeControl {
    /// Drop whatever lease a cooled or forgotten session had.
    pub fn forget_lease(&mut self, session: &[u8; 16])
        ensures
            final(self).ledger() == old(self).ledger(),
            final(self).lease_generation() == old(self).lease_generation(),
            final(self).lease_table() == old(self).lease_table().remove(session@),
    {
        self.drop_lease(session);
    }
}

/// What the durable session store answered about a lookup.
#[derive(Debug)]
pub enum Lookup<T> {
    Failed,
    Absent,
    Found(T),
}

/// A session pointer the durable store remembers.
#[derive(Debug)]
pub struct StoredSession {
    pub provider: String,
    pub native: String,
    pub cwd: String,
}

/// Why a prepared open may not reserve its session, checked in the order the owner checks it.
///
/// A resume must still find the session in the exact lifecycle and generation observed; an
/// adoption must name a native identity no managed session already owns; a resume must match the
/// stored provider, native identity and working directory.
pub open spec fn open_refusal_of(
    method: RuntimeMethod,
    session: Option<Seq<u8>>,
    expected: Option<(LifecycleState, u64)>,
    current: Option<LiveSession>,
    provider: Seq<char>,
    native: Option<Seq<char>>,
    workspace: Seq<char>,
    adopted: Lookup<bool>,
    stored: Lookup<StoredSession>,
) -> Option<(ErrorKind, Seq<char>)> {
    let expected_ok = match expected {
        None => true,
        Some((lifecycle, generation)) => session is Some && (match current {
            Some(l) => l.lifecycle == lifecycle && l.generation == generation,
            None => lifecycle == LifecycleState::Cold && generation == 0,
        }),
    };
    if !expected_ok {
        Some((ErrorKind::SessionConflict, session_conflict_text()))
    } else if method == RuntimeMethod::SessionsAdoptNative && (native is None || adopted
        is Found) {
        Some((ErrorKind::SessionConflict, session_conflict_text()))
    } else if method == RuntimeMethod::SessionsAdoptNative && adopted is Failed {
        Some((ErrorKind::Internal, internal_text()))
    } else if method == RuntimeMethod::SessionsResume {
        match stored {
            Lookup::Failed => Some((ErrorKind::Internal, internal_text())),
            Lookup::Absent => Some((ErrorKind::SessionNotFound, not_live_text())),
            Lookup::Found(s) => if s.provider@ != provider || native != Some(s.native@) || s.cwd@
                != workspace {
                Some((ErrorKind::SessionConflict, session_conflict_text()))
            } else {
                None
            },
        }
    } else {
        None
    }
}

/// Check a prepared open against the live session, the native index and the stored pointer.
///
/// `current` is the live state of the session a resume names; `adopted` is whether the native
/// identity an adoption names already has a managed session; `stored` is the durable pointer a
/// resume names.
pub fn check_open(
    request: &RuntimeOpenRequest,
    current: Option<LiveSession>,
    adopted: Lookup<bool>,
    stored: Lookup<StoredSession>,
) -> (r: Result<(), RuntimeControlFailure>)
    ensures
        checks(
            r,
            open_refusal_of(
                request.method,
                match request.session {
                    Some(s) => Some(s@),
                    None => None,
                },
                request.expected,
                current,
                request.provider@,
                match request.native {
                    Some(n) => Some(n@),
                    None => None,
                },
                request.workspace@,
                adopted,
                stored,
            ),
        ),
{
    if let Some((expected_lifecycle, expected_generation)) = request.expected {
        if request.session.is_none() {
            return Err(session_conflict());
        }
        let (current_lifecycle, current_generation) = match current {
            Some(l) => (l.lifecycle, l.generation),
            None => (LifecycleState::Cold, 0),
        };
        if current_lifecycle != expected_lifecycle || current_generation != expected_generation {
            return Err(session_conflict());
        }
    }
    if request.method == RuntimeMethod::SessionsAdoptNative {
        if request.native.is_none() {
            return Err(session_conflict());
        }
        match adopted {
            Lookup::Found(_) => return Err(session_conflict()),
            Lookup::Absent => {},
            Lookup::Failed => return Err(RuntimeControlFailure::internal()),
        }
    }
    if request.method == RuntimeMethod::SessionsResume {
        let stored = match stored {
            Lookup::Found(stored) => stored,
            Lookup::Absent => return Err(not_live()),
            Lookup::Failed => return Err(RuntimeControlFailure::internal()),
        };
        let native_matches = match &request.native {
            Some(native) => str_eq(stored.native.as_str(), native.as_str()),
            None => false,
        };
        if !str_eq(stored.provider.as_str(), request.provider.as_str()) || !native_matches || !str_eq(
            stored.cwd.as_str(),
            request.workspace.as_str(),
        ) {
            return Err(session_conflict());
        }
    }
    Ok(())
}

} // verus!
