//! Opening a managed session: the admission checks before the owner reserves it, and the
//! steps between the reservation and handing the opened provider process to the owner.

use vstd::prelude::*;

use crate::auth::{AuthorizationFailure, AuthorizedIntegration};
use crate::control::{
    provider_failure, provider_refusal, refusal, ProviderError, RuntimeControlFailure,
};
use crate::cursor::{adoption_text_opening, roots_view, AuthorizedRoot, NativeCursorCodec};
use crate::inventory::{AuthorizedManagedSession, RuntimeInventoryFailure};
use crate::kinds::{ErrorKind, LifecycleState, RuntimeMethod, WorkspaceAccess};
use crate::models::{
    mode_allowed, mode_within_manifest_vocabulary, model_current, model_is_current, reasoning_effort_is_current,
    effort_current, selection_usable, validate_model_selection, validate_permission_selection,
    validate_reasoning_selection, ModelCatalog, MAX_MODEL_SELECTION_BYTES, MAX_PERMISSION_SELECTION_BYTES,
    MAX_REASONING_SELECTION_BYTES,
};
use crate::serve::{
    confirmation_failure, confirmation_refusal, inventory_failure, inventory_refusal, plain, says,
    Bounded, ConfirmationError, PublicFailure,
};
use crate::text::str_eq;

verus! {

// ---------------------------------------------------------------------------------------------
// Admission
// ---------------------------------------------------------------------------------------------
/// Why an open was not admitted to the session owner.
#[derive(Debug)]
pub enum OpenAdmissionFailure {
    Control(RuntimeControlFailure),
    Inventory(RuntimeInventoryFailure),
    /// A shared-writer open waiting for the person at the machine; the identifier names the
    /// exact request.
    Presence { confirmation_id: String },
    /// The presence table refused to remember the request.
    Confirmation(ConfirmationError),
}

/// A public refusal, with the action the operator should take when one is needed.
#[derive(Debug)]
pub struct OpenRefusal {
    pub failure: PublicFailure,
    pub operator_action: Option<&'static str>,
    pub correlation_id: Option<String>,
}

/// Answer an open that was not admitted.
pub fn admission_answer(failure: OpenAdmissionFailure) -> (r: OpenRefusal)
    ensures
        match failure {
            OpenAdmissionFailure::Control(f) => says(r.failure, f.kind, f.message@)
                && r.operator_action is None,
            OpenAdmissionFailure::Inventory(f) => says(
                r.failure,
                inventory_refusal(f).0,
                inventory_refusal(f).1,
            ) && r.operator_action is None,
            OpenAdmissionFailure::Presence { confirmation_id } => says(
                r.failure,
                ErrorKind::PresenceRequired,
                "approve the exact shared-writer session open in Runtrol Studio, then retry this request"@,
            ) && (r.operator_action matches Some(a) && a@ == "reviewRuntimeRequestsInRuntrolStudio"@
                && r.correlation_id == Some(confirmation_id)),
            OpenAdmissionFailure::Confirmation(c) => says(
                r.failure,
                confirmation_refusal(c, "shared session open"@).0,
                confirmation_refusal(c, "shared session open"@).1,
            ) && r.operator_action is None,
        },
{
    match failure {
        OpenAdmissionFailure::Control(f) => OpenRefusal {
            failure: plain(f.kind, f.message),
            operator_action: None,
            correlation_id: None,
        },
        OpenAdmissionFailure::Inventory(f) => OpenRefusal {
            failure: inventory_failure(f),
            operator_action: None,
            correlation_id: None,
        },
        OpenAdmissionFailure::Presence { confirmation_id } => OpenRefusal {
            failure: plain(
                ErrorKind::PresenceRequired,
                "approve the exact shared-writer session open in Runtrol Studio, then retry this request",
            ),
            operator_action: Some("reviewRuntimeRequestsInRuntrolStudio"),
            correlation_id: Some(confirmation_id),
        },
        OpenAdmissionFailure::Confirmation(c) => OpenRefusal {
            failure: confirmation_failure(c, "shared session open"),
            operator_action: None,
            correlation_id: None,
        },
    }
}

/// What the local presence table answered for a shared-writer open.
#[derive(Debug)]
pub enum Confirmation {
    Confirmed,
    Awaiting { confirmation_id: String },
    Failed(ConfirmationError),
}

/// The writer posture of an open: exclusive is every caller's right; shared waits for the
/// person at the machine to confirm this exact request.
///
/// `confirmation` is consulted only for a shared open.
pub fn open_access(access: WorkspaceAccess, confirmation: Confirmation) -> (r: Result<
    WorkspaceAccess,
    OpenAdmissionFailure,
>)
    ensures
        access == WorkspaceAccess::Exclusive ==> (r matches Ok(a) && a == WorkspaceAccess::Exclusive),
        access == WorkspaceAccess::Shared ==> match confirmation {
            Confirmation::Confirmed => r matches Ok(a) && a == WorkspaceAccess::Shared,
            Confirmation::Awaiting { confirmation_id } => r matches Err(
                OpenAdmissionFailure::Presence { confirmation_id: id },
            ) && id == confirmation_id,
            Confirmation::Failed(c) => r matches Err(OpenAdmissionFailure::Confirmation(x)) && x
                == c,
        },
{
    match access {
        WorkspaceAccess::Exclusive => Ok(WorkspaceAccess::Exclusive),
        WorkspaceAccess::Shared => match confirmation {
            Confirmation::Confirmed => Ok(WorkspaceAccess::Shared),
            Confirmation::Awaiting { confirmation_id } => Err(
                OpenAdmissionFailure::Presence { confirmation_id },
            ),
            Confirmation::Failed(c) => Err(OpenAdmissionFailure::Confirmation(c)),
        },
    }
}

pub open spec fn oversized_proof_text() -> Seq<char> {
    "native session adoption proof is oversized"@
}

/// The open methods: a fresh start, a resume, and an adoption of a provider-native session.
pub open spec fn is_open_method(method: RuntimeMethod) -> bool {
    method == RuntimeMethod::SessionsStart || method == RuntimeMethod::SessionsResume
        || method == RuntimeMethod::SessionsAdoptNative
}

pub open spec fn not_open_text() -> Seq<char> {
    "the method is not a session open operation"@
}

/// Only an open method builds an open request; any other is refused as invalid.
pub fn check_open_method(method: RuntimeMethod) -> (r: Result<(), RuntimeControlFailure>)
    ensures
        r is Ok <==> is_open_method(method),
        r matches Err(f) ==> refusal(f, ErrorKind::InvalidRequest, not_open_text()),
{
    match method {
        RuntimeMethod::SessionsStart | RuntimeMethod::SessionsResume
        | RuntimeMethod::SessionsAdoptNative => Ok(()),
        _ => Err(
            RuntimeControlFailure::new(
                ErrorKind::InvalidRequest,
                "the method is not a session open operation",
            ),
        ),
    }
}

/// An adoption proof over the public limit is refused before anything else is done with it.
pub fn check_adoption_token(token: &str) -> (r: Result<(), RuntimeControlFailure>)
    ensures
        r is Ok <==> vstd::utf8::encode_utf8(token@).len() <= crate::cursor::MAX_NATIVE_ADOPTION_TOKEN_BYTES,
        r matches Err(f) ==> refusal(f, ErrorKind::InvalidRequest, oversized_proof_text()),
{
    if token.as_bytes().len() > crate::cursor::MAX_NATIVE_ADOPTION_TOKEN_BYTES {
        return Err(
            RuntimeControlFailure::new(
                ErrorKind::InvalidRequest,
                "native session adoption proof is oversized",
            ),
        );
    }
    Ok(())
}

/// The model, effort and permission mode an open starts with, once each passed its bounds.
#[derive(Debug)]
pub struct Selections {
    pub model: Option<String>,
    pub reasoning_effort: Option<String>,
    pub permission: Option<String>,
}

pub open spec fn text_opt(value: Option<String>) -> Option<Seq<char>> {
    match value {
        Some(t) => Some(t@),
        None => None,
    }
}

/// Why an open's selections are refused, in the order they are read, or `None`.
///
/// A permission mode must lie inside the provider's switchable vocabulary, the same boundary a
/// mid-session switch enforces; `switchable` is `None` when the provider is not registered.
pub open spec fn selection_refusal(
    model: Option<Seq<char>>,
    effort: Option<Seq<char>>,
    permission: Option<Seq<char>>,
    switchable: Option<Seq<String>>,
) -> Option<(ErrorKind, Seq<char>)> {
    if model matches Some(m) && !selection_usable(m, MAX_MODEL_SELECTION_BYTES as nat) {
        Some((ErrorKind::InvalidRequest, "the model selection is empty, oversized, or invalid"@))
    } else if effort matches Some(e) && !selection_usable(e, MAX_REASONING_SELECTION_BYTES as nat) {
        Some((ErrorKind::InvalidRequest, "the reasoning selection is empty, oversized, or invalid"@))
    } else if permission matches Some(p) && !selection_usable(p, MAX_PERMISSION_SELECTION_BYTES as nat) {
        Some((ErrorKind::InvalidRequest, "the permission selection is empty, oversized, or invalid"@))
    } else if permission is Some {
        match switchable {
            None => Some((ErrorKind::InvalidRequest, "the session's provider is not registered in this build"@)),
            Some(list) => if mode_allowed(list, permission->Some_0) {
                None
            } else {
                Some((ErrorKind::InvalidRequest, "this provider does not accept a runtrol switch to that mode"@))
            },
        }
    } else {
        None
    }
}

/// Check the selections a session start carries; a resume carries no permission.
pub fn check_selections(
    model: Option<String>,
    reasoning_effort: Option<String>,
    permission: Option<String>,
    switchable: Option<&Vec<String>>,
) -> (r: Result<Selections, RuntimeControlFailure>)
    ensures
        match selection_refusal(
            text_opt(model),
            text_opt(reasoning_effort),
            text_opt(permission),
            match switchable {
                Some(l) => Some(l@),
                None => None,
            },
        ) {
            None => r matches Ok(s) && s.model == model && s.reasoning_effort == reasoning_effort
                && s.permission == permission,
            Some((kind, message)) => r matches Err(f) && refusal(f, kind, message),
        },
{
    let model = match model {
        Some(m) => Some(validate_model_selection(m)?),
        None => None,
    };
    let reasoning_effort = match reasoning_effort {
        Some(e) => Some(validate_reasoning_selection(e)?),
        None => None,
    };
    let permission = match permission {
        Some(p) => Some(validate_permission_selection(p)?),
        None => None,
    };
    if let Some(mode) = &permission {
        if let Err(why) = mode_within_manifest_vocabulary(switchable, mode.as_str()) {
            return Err(RuntimeControlFailure::new(ErrorKind::InvalidRequest, why));
        }
    }
    Ok(Selections { model, reasoning_effort, permission })
}

/// Starting a session at a permission mode reaches nothing a mid-session switch could not: a
/// start whose selections are accepted under a provider's switchable modes names a mode that
/// the switch boundary accepts too.
pub proof fn lemma_start_mode_within_switch_boundary(
    model: Option<Seq<char>>,
    effort: Option<Seq<char>>,
    mode: Seq<char>,
    switchable: Seq<String>,
)
    requires
        selection_refusal(model, effort, Some(mode), Some(switchable)) is None,
    ensures
        mode_allowed(switchable, mode),
{
}

pub open spec fn session_changed_text() -> Seq<char> {
    "the session changed after the caller observed it"@
}

pub open spec fn no_resume_identity_text() -> Seq<char> {
    "the managed session has no provider-native resume identity"@
}

/// A resume must name the managed session's exact current workspace, lifecycle and generation,
/// and the session must have a provider-native identity to resume.
pub fn check_resume(
    managed: &AuthorizedManagedSession,
    workspace: &str,
    expected_lifecycle: LifecycleState,
    expected_generation: u64,
) -> (r: Result<String, RuntimeControlFailure>)
    ensures
        if managed.workspace@ != workspace@ || managed.descriptor.lifecycle != expected_lifecycle
            || managed.descriptor.session_generation != expected_generation {
            r matches Err(f) && refusal(f, ErrorKind::SessionConflict, session_changed_text())
        } else {
            match managed.native {
                Some(native) => r == Ok::<String, RuntimeControlFailure>(native),
                None => r matches Err(f) && refusal(
                    f,
                    ErrorKind::CapabilityUnavailable,
                    no_resume_identity_text(),
                ),
            }
        },
{
    if !str_eq(managed.workspace.as_str(), workspace) || managed.descriptor.lifecycle
        != expected_lifecycle || managed.descriptor.session_generation != expected_generation {
        return Err(
            RuntimeControlFailure::new(
                ErrorKind::SessionConflict,
                "the session changed after the caller observed it",
            ),
        );
    }
    match &managed.native {
        Some(native) => Ok(crate::auth::copy_string(native)),
        None => Err(
            RuntimeControlFailure::new(
                ErrorKind::CapabilityUnavailable,
                "the managed session has no provider-native resume identity",
            ),
        ),
    }
}

// ---------------------------------------------------------------------------------------------
// Between reservation and hand-off
// ---------------------------------------------------------------------------------------------
pub open spec fn displaced_text() -> Seq<char> {
    "the displaced idle provider process could not be stopped safely"@
}

pub open spec fn workspace_authority_text() -> Seq<char> {
    "the session workspace no longer has its approved root authority"@
}

pub open spec fn unprepared_text() -> Seq<char> {
    "the selected provider could not be prepared"@
}

pub open spec fn roots_lost_text() -> Seq<char> {
    "an approved project root no longer has local authority"@
}

pub open spec fn adoption_stale_text() -> Seq<char> {
    "the native catalogue observation expired or no longer matches the provider"@
}

pub open spec fn choices_stale_text() -> Seq<char> {
    "the selected model or reasoning effort is not present in the provider's current catalogue"@
}

pub open spec fn no_native_text() -> Seq<char> {
    "the session has no provider-native resume identity"@
}

/// Check an adoption's proof against the integration's current approved roots and the exact
/// prepared provider binary; `None` when it opens.
pub fn verify_adoption(
    codec: &NativeCursorCodec,
    authority: &AuthorizedIntegration,
    roots: Result<Vec<AuthorizedRoot>, RuntimeInventoryFailure>,
    provider: &str,
    binary_identity: [u8; 32],
    native: Option<&String>,
    workspace: &str,
    proof: Option<&String>,
    now: u64,
) -> (r: Option<RuntimeControlFailure>)
    ensures
        match roots {
            Err(_) => r matches Some(f) && refusal(f, ErrorKind::RootDenied, roots_lost_text()),
            Ok(v) => {
                let opens = native is Some && proof is Some && adoption_text_opening(
                    codec.key(),
                    authority@,
                    roots_view(v@),
                    provider@,
                    binary_identity@,
                    native->Some_0@,
                    workspace@,
                    now,
                    proof->Some_0@,
                ) is Ok;
                if opens {
                    r is None
                } else {
                    r matches Some(f) && refusal(f, ErrorKind::CapabilityUnavailable, adoption_stale_text())
                }
            },
        },
{
    let roots = match roots {
        Ok(roots) => roots,
        Err(_) => {
            return Some(
                RuntimeControlFailure::new(
                    ErrorKind::RootDenied,
                    "an approved project root no longer has local authority",
                ),
            );
        },
    };
    let verified = match (native, proof) {
        (Some(native), Some(proof)) => codec.open_adoption(
            authority,
            roots.as_slice(),
            provider,
            binary_identity,
            native.as_str(),
            workspace,
            proof.as_str(),
            now,
        ).is_ok(),
        _ => false,
    };
    if !verified {
        return Some(
            RuntimeControlFailure::new(
                ErrorKind::CapabilityUnavailable,
                "the native catalogue observation expired or no longer matches the provider",
            ),
        );
    }
    None
}

/// Whether the selected model and effort are still in the provider's current catalogue;
/// `catalogue` is `None` when the catalogue could not be read.
pub open spec fn choices_current(
    catalogue: Option<ModelCatalog>,
    model: Option<Seq<char>>,
    effort: Option<Seq<char>>,
) -> bool {
    match catalogue {
        None => false,
        Some(c) => (match model {
            Some(m) => model_current(c, m),
            None => true,
        }) && (match effort {
            Some(e) => effort_current(c, model, e),
            None => true,
        }),
    }
}

pub open spec fn text_option(s: Option<&String>) -> Option<Seq<char>> {
    match s {
        Some(t) => Some(t@),
        None => None,
    }
}

/// Check the selected model and effort against the provider's current catalogue.
pub fn check_choices(
    catalogue: Option<&ModelCatalog>,
    model: Option<&String>,
    effort: Option<&String>,
) -> (r: bool)
    ensures
        r == choices_current(
            match catalogue {
                Some(c) => Some(*c),
                None => None,
            },
            text_option(model),
            text_option(effort),
        ),
{
    let catalogue = match catalogue {
        Some(c) => c,
        None => return false,
    };
    let model_ok = match model {
        Some(m) => model_is_current(catalogue, m.as_str()),
        None => true,
    };
    let effort_ok = match effort {
        Some(e) => reasoning_effort_is_current(
            catalogue,
            match model {
                Some(m) => Some(m.as_str()),
                None => None,
            },
            e.as_str(),
        ),
        None => true,
    };
    model_ok && effort_ok
}

/// How the provider opens the session.
#[derive(Debug)]
pub enum Disposition {
    Fresh,
    Resume { native: String },
}

/// Where an open stands between its reservation and its hand-off.
#[derive(Clone, Copy, Debug, PartialEq, Eq, Structural)]
pub enum OpenStage {
    Start,
    ClosingDisplaced,
    Reauthorizing,
    Preparing,
    CheckingChoices,
    Opening,
    Confirming,
    Finished,
}

/// What has to be done next for an open.
#[derive(Debug)]
pub enum OpenAction {
    /// Stop the idle provider process this open displaces.
    CloseDisplaced,
    /// Re-read the integration's authority and the workspace's canonical path.
    Reauthorize,
    /// Prepare the provider's driver and, for an adoption, verify its proof.
    Prepare,
    /// Read the provider's current model catalogue.
    ReadModels,
    /// Ask the driver to open the session this way, within its deadline.
    Open(Disposition),
    /// Re-read authority once the provider opened.
    Confirm,
    /// Hand the opened provider process to the session owner.
    Commit,
    /// Kill the opened provider process; the outcome is unknown.
    KillAndAbandon,
    /// Refuse the open; nothing was opened.
    Deny(RuntimeControlFailure),
    /// Give up; the provider may still be opening, so the outcome is unknown.
    Abandon,
}

/// What the outside work of the last action reported.
#[derive(Debug)]
pub enum OpenEvent {
    Started,
    DisplacedClosed(bool),
    /// Authority was re-read; whether the workspace still canonicalizes to the same path.
    Reauthorized { authority: Result<(), AuthorizationFailure>, workspace_unchanged: bool },
    /// The driver was prepared or not; for an adoption, what `verify_adoption` found.
    Prepared { prepared: bool, adoption: Option<RuntimeControlFailure> },
    /// Whether the selections are current, from `check_choices`.
    ChoicesChecked(bool),
    Opened(Bounded<Result<(), ProviderError>>),
    /// Whether the integration still holds the workspace once the provider opened.
    Confirmed(bool),
}

/// The steps one open takes after the owner reserved its session.
#[derive(Debug)]
pub struct OpenProgress {
    stage: OpenStage,
    method: RuntimeMethod,
    displaced: bool,
    selected: bool,
    native: Option<String>,
    authorized: bool,
    prepared: bool,
    adoption_verified: bool,
    choices_checked: bool,
}

/// The disposition an open uses, or why it cannot resume.
pub open spec fn disposition_for(method: RuntimeMethod, native: Option<String>) -> Result<Disposition, ()> {
    if method == RuntimeMethod::SessionsStart {
        Ok(Disposition::Fresh)
    } else {
        match native {
            Some(n) => Ok(Disposition::Resume { native: n }),
            None => Err(()),
        }
    }
}

/// The stage at which an event is expected.
pub open spec fn event_stage(event: OpenEvent) -> OpenStage {
    match event {
        OpenEvent::Started => OpenStage::Start,
        OpenEvent::DisplacedClosed(_) => OpenStage::ClosingDisplaced,
        OpenEvent::Reauthorized { .. } => OpenStage::Reauthorizing,
        OpenEvent::Prepared { .. } => OpenStage::Preparing,
        OpenEvent::ChoicesChecked(_) => OpenStage::CheckingChoices,
        OpenEvent::Opened(_) => OpenStage::Opening,
        OpenEvent::Confirmed(_) => OpenStage::Confirming,
    }
}

/// Asking the provider to open, or refusing for want of a native identity.
pub open spec fn disposed(method: RuntimeMethod, native: Option<String>, stage: OpenStage, r: OpenAction) -> bool {
    match disposition_for(method, native) {
        Ok(d) => r == OpenAction::Open(d) && stage == OpenStage::Opening,
        Err(_) => r matches OpenAction::Deny(f) && refusal(
            f,
            ErrorKind::CapabilityUnavailable,
            no_native_text(),
        ) && stage == OpenStage::Finished,
    }
}

/// The action and stage that one event leads to, the event fitting the stage it arrives at.
pub open spec fn open_step(
    stage: OpenStage,
    method: RuntimeMethod,
    displaced: bool,
    selected: bool,
    native: Option<String>,
    event: OpenEvent,
    next: OpenStage,
    r: OpenAction,
) -> bool {
    if event_stage(event) != stage {
        r is Abandon && next == OpenStage::Finished
    } else {
        match event {
            OpenEvent::Started => if displaced {
                r is CloseDisplaced && next == OpenStage::ClosingDisplaced
            } else {
                r is Reauthorize && next == OpenStage::Reauthorizing
            },
            OpenEvent::DisplacedClosed(closed) => if closed {
                r is Reauthorize && next == OpenStage::Reauthorizing
            } else {
                r matches OpenAction::Deny(f) && refusal(f, ErrorKind::RuntimeUnavailable, displaced_text())
                    && next == OpenStage::Finished
            },
            OpenEvent::Reauthorized { authority, workspace_unchanged } => match authority {
                Err(a) => r matches OpenAction::Deny(f) && f.kind == a.kind && f.message == a.message
                    && next == OpenStage::Finished,
                Ok(()) => if workspace_unchanged {
                    r is Prepare && next == OpenStage::Preparing
                } else {
                    r matches OpenAction::Deny(f) && refusal(f, ErrorKind::RootDenied, workspace_authority_text())
                        && next == OpenStage::Finished
                },
            },
            OpenEvent::Prepared { prepared, adoption } => if !prepared {
                r matches OpenAction::Deny(f) && refusal(f, ErrorKind::ProviderUnavailable, unprepared_text())
                    && next == OpenStage::Finished
            } else if method == RuntimeMethod::SessionsAdoptNative && adoption is Some {
                r == OpenAction::Deny(adoption->Some_0) && next == OpenStage::Finished
            } else if selected {
                r is ReadModels && next == OpenStage::CheckingChoices
            } else {
                disposed(method, native, next, r)
            },
            OpenEvent::ChoicesChecked(current) => if current {
                disposed(method, native, next, r)
            } else {
                r matches OpenAction::Deny(f) && refusal(f, ErrorKind::ModelUnavailable, choices_stale_text())
                    && next == OpenStage::Finished
            },
            OpenEvent::Opened(opened) => match opened {
                Bounded::TimedOut => r is Abandon && next == OpenStage::Finished,
                Bounded::Answered(Err(e)) => r matches OpenAction::Deny(f) && refusal(
                    f,
                    provider_refusal(e).0,
                    provider_refusal(e).1,
                ) && next == OpenStage::Finished,
                Bounded::Answered(Ok(())) => r is Confirm && next == OpenStage::Confirming,
            },
            OpenEvent::Confirmed(still) => next == OpenStage::Finished && if still {
                r is Commit
            } else {
                r is KillAndAbandon
            },
        }
    }
}

/// An adoption whose proof failed is refused with exactly that failure once its driver is
/// prepared, the open ends there, and the provider is never asked to open.
pub proof fn lemma_failed_adoption_never_opens(
    displaced: bool,
    selected: bool,
    native: Option<String>,
    failure: RuntimeControlFailure,
    next: OpenStage,
    r: OpenAction,
)
    requires
        open_step(
            OpenStage::Preparing,
            RuntimeMethod::SessionsAdoptNative,
            displaced,
            selected,
            native,
            OpenEvent::Prepared { prepared: true, adoption: Some(failure) },
            next,
            r,
        ),
    ensures
        r == OpenAction::Deny(failure),
        next == OpenStage::Finished,
        !(r is Open),
{
}

impl OpenProgress {
    pub closed spec fn stage(&self) -> OpenStage {
        self.stage
    }

    pub closed spec fn method(&self) -> RuntimeMethod {
        self.method
    }

    /// Whether the reservation displaced an idle provider process.
    pub closed spec fn displaced(&self) -> bool {
        self.displaced
    }

    /// Whether a model or effort was selected.
    pub closed spec fn selected(&self) -> bool {
        self.selected
    }

    /// The native identity a resume or adoption names.
    pub closed spec fn native(&self) -> Option<String> {
        self.native
    }

    /// Whether authority and the workspace were re-read and still hold.
    pub closed spec fn authorized(&self) -> bool {
        self.authorized
    }

    /// Whether the provider's driver was prepared.
    pub closed spec fn prepared(&self) -> bool {
        self.prepared
    }

    /// Whether an adoption's proof was verified.
    pub closed spec fn adoption_verified(&self) -> bool {
        self.adoption_verified
    }

    /// Whether the selected model and effort were found current.
    pub closed spec fn choices_checked(&self) -> bool {
        self.choices_checked
    }

    /// Everything but the stage is as in `other`.
    closed spec fn keeps(&self, other: &Self) -> bool {
        &&& self.method == other.method
        &&& self.displaced == other.displaced
        &&& self.selected == other.selected
        &&& self.native == other.native
        &&& self.authorized == other.authorized
        &&& self.prepared == other.prepared
        &&& self.adoption_verified == other.adoption_verified
        &&& self.choices_checked == other.choices_checked
    }

    /// Whether every check an open must pass before the provider is asked has passed.
    pub closed spec fn cleared(&self) -> bool {
        &&& self.authorized
        &&& self.prepared
        &&& (self.method == RuntimeMethod::SessionsAdoptNative ==> self.adoption_verified)
        &&& (self.selected ==> self.choices_checked)
    }

    /// Whether the stage and the checks agree.
    pub closed spec fn consistent(&self) -> bool {
        &&& (self.stage == OpenStage::Opening || self.stage == OpenStage::Confirming) ==> self.cleared()
        &&& self.stage == OpenStage::Preparing ==> self.authorized
        &&& self.stage == OpenStage::CheckingChoices ==> {
            &&& self.authorized
            &&& self.prepared
            &&& (self.method == RuntimeMethod::SessionsAdoptNative ==> self.adoption_verified)
            &&& self.selected
        }
    }

    /// An open that starts from its reservation.
    ///
    /// `displaced` is whether the reservation displaced an idle provider process; `selected`
    /// whether a model or effort was selected; `native` the native identity a resume or adoption
    /// names.
    pub fn new(method: RuntimeMethod, displaced: bool, selected: bool, native: Option<String>) -> (r: Self)
        ensures
            r.stage() == OpenStage::Start,
            r.method() == method,
            r.consistent(),
            !r.cleared(),
    {
        OpenProgress {
            stage: OpenStage::Start,
            method,
            displaced,
            selected,
            native,
            authorized: false,
            prepared: false,
            adoption_verified: false,
            choices_checked: false,
        }
    }

    fn dispose(&mut self) -> (r: OpenAction)
        requires
            old(self).cleared(),
        ensures
            final(self).cleared(),
            final(self).method() == old(self).method(),
            final(self).keeps(old(self)),
            disposed(old(self).method, old(self).native, final(self).stage, r),
            match disposition_for(old(self).method, old(self).native) {
                Ok(d) => r == OpenAction::Open(d) && final(self).stage() == OpenStage::Opening,
                Err(_) => r matches OpenAction::Deny(f) && refusal(
                    f,
                    ErrorKind::CapabilityUnavailable,
                    no_native_text(),
                ) && final(self).stage() == OpenStage::Finished,
            },
    {
        if self.method == RuntimeMethod::SessionsStart {
            self.stage = OpenStage::Opening;
            return OpenAction::Open(Disposition::Fresh);
        }
        match &self.native {
            Some(native) => {
                let native = crate::auth::copy_string(native);
                self.stage = OpenStage::Opening;
                OpenAction::Open(Disposition::Resume { native })
            },
            None => {
                self.stage = OpenStage::Finished;
                OpenAction::Deny(
                    RuntimeControlFailure::new(
                        ErrorKind::CapabilityUnavailable,
                        "the session has no provider-native resume identity",
                    ),
                )
            },
        }
    }

    fn finish(&mut self, action: OpenAction) -> (r: OpenAction)
        requires
            old(self).consistent(),
        ensures
            r == action,
            final(self).stage() == OpenStage::Finished,
            final(self).method() == old(self).method(),
            final(self).cleared() == old(self).cleared(),
            final(self).consistent(),
            final(self).keeps(old(self)),
    {
        self.stage = OpenStage::Finished;
        action
    }

    /// Decide the next action from what the last one reported.
    ///
    /// The provider is asked to open only once authority and the workspace were re-read,
    /// the driver was prepared, an adoption's proof verified, and any selected model and effort
    /// found current; the opened process is handed over only if authority still holds after it
    /// opened. An event that does not belong to the current stage abandons the open.
    pub fn next(&mut self, event: OpenEvent) -> (r: OpenAction)
        requires
            old(self).consistent(),
        ensures
            final(self).consistent(),
            final(self).method() == old(self).method(),
            final(self).displaced() == old(self).displaced(),
            final(self).selected() == old(self).selected(),
            final(self).native() == old(self).native(),
            open_step(
                old(self).stage(),
                old(self).method(),
                old(self).displaced(),
                old(self).selected(),
                old(self).native(),
                event,
                final(self).stage(),
                r,
            ),
            final(self).authorized() == (old(self).authorized() || (old(self).stage()
                == OpenStage::Reauthorizing && event matches OpenEvent::Reauthorized {
                authority: Ok(()),
                workspace_unchanged: true,
            })),
            final(self).prepared() == (old(self).prepared() || (old(self).stage()
                == OpenStage::Preparing && event matches OpenEvent::Prepared { prepared: true, .. })),
            final(self).adoption_verified() == (old(self).adoption_verified() || (old(self).stage()
                == OpenStage::Preparing && old(self).method() == RuntimeMethod::SessionsAdoptNative
                && event matches OpenEvent::Prepared { prepared: true, adoption: None })),
            final(self).choices_checked() == (old(self).choices_checked() || (old(self).stage()
                == OpenStage::CheckingChoices && event == OpenEvent::ChoicesChecked(true))),
            r is Open ==> final(self).cleared() && final(self).stage() == OpenStage::Opening,
            r is Commit ==> final(self).cleared() && old(self).stage() == OpenStage::Confirming
                && event == OpenEvent::Confirmed(true),
    {
        match event {
            OpenEvent::Started => {
                if self.stage != OpenStage::Start {
                    return self.finish(OpenAction::Abandon);
                }
                if self.displaced {
                    self.stage = OpenStage::ClosingDisplaced;
                    OpenAction::CloseDisplaced
                } else {
                    self.stage = OpenStage::Reauthorizing;
                    OpenAction::Reauthorize
                }
            },
            OpenEvent::DisplacedClosed(closed) => {
                if self.stage != OpenStage::ClosingDisplaced {
                    return self.finish(OpenAction::Abandon);
                }
                if !closed {
                    return self.finish(
                        OpenAction::Deny(
                            RuntimeControlFailure::new(
                                ErrorKind::RuntimeUnavailable,
                                "the displaced idle provider process could not be stopped safely",
                            ),
                        ),
                    );
                }
                self.stage = OpenStage::Reauthorizing;
                OpenAction::Reauthorize
            },
            OpenEvent::Reauthorized { authority, workspace_unchanged } => {
                if self.stage != OpenStage::Reauthorizing {
                    return self.finish(OpenAction::Abandon);
                }
                if let Err(failure) = authority {
                    return self.finish(
                        OpenAction::Deny(RuntimeControlFailure::new(failure.kind, failure.message)),
                    );
                }
                if !workspace_unchanged {
                    return self.finish(
                        OpenAction::Deny(
                            RuntimeControlFailure::new(
                                ErrorKind::RootDenied,
                                "the session workspace no longer has its approved root authority",
                            ),
                        ),
                    );
                }
                self.authorized = true;
                self.stage = OpenStage::Preparing;
                OpenAction::Prepare
            },
            OpenEvent::Prepared { prepared, adoption } => {
                if self.stage != OpenStage::Preparing {
                    return self.finish(OpenAction::Abandon);
                }
                if !prepared {
                    return self.finish(
                        OpenAction::Deny(
                            RuntimeControlFailure::new(
                                ErrorKind::ProviderUnavailable,
                                "the selected provider could not be prepared",
                            ),
                        ),
                    );
                }
                self.prepared = true;
                if self.method == RuntimeMethod::SessionsAdoptNative {
                    if let Some(failure) = adoption {
                        return self.finish(OpenAction::Deny(failure));
                    }
                    self.adoption_verified = true;
                }
                if self.selected {
                    self.stage = OpenStage::CheckingChoices;
                    return OpenAction::ReadModels;
                }
                self.dispose()
            },
            OpenEvent::ChoicesChecked(current) => {
                if self.stage != OpenStage::CheckingChoices {
                    return self.finish(OpenAction::Abandon);
                }
                if !current {
                    return self.finish(
                        OpenAction::Deny(
                            RuntimeControlFailure::new(
                                ErrorKind::ModelUnavailable,
                                "the selected model or reasoning effort is not present in the provider's current catalogue",
                            ),
                        ),
                    );
                }
                self.choices_checked = true;
                self.dispose()
            },
            OpenEvent::Opened(opened) => {
                if self.stage != OpenStage::Opening {
                    return self.finish(OpenAction::Abandon);
                }
                match opened {
                    Bounded::TimedOut => self.finish(OpenAction::Abandon),
                    Bounded::Answered(Err(error)) => self.finish(
                        OpenAction::Deny(provider_failure(error)),
                    ),
                    Bounded::Answered(Ok(())) => {
                        self.stage = OpenStage::Confirming;
                        OpenAction::Confirm
                    },
                }
            },
            OpenEvent::Confirmed(still) => {
                if self.stage != OpenStage::Confirming {
                    return self.finish(OpenAction::Abandon);
                }
                if still {
                    self.finish(OpenAction::Commit)
                } else {
                    self.finish(OpenAction::KillAndAbandon)
                }
            },
        }
    }
}

} // verus!
