//! Audit admission and completion around one public request.
//!
//! The journal writes happen outside; this module decides, from what each write reported,
//! what is written next and what the client is answered. Every audited request is dispatched
//! only once its attempt is on record, and its answer leaves only once its outcome is.

use vstd::prelude::*;

use crate::auth::IntegrationKey;
use crate::kinds::{AppScope, ErrorKind, RuntimeMethod, method_name};
use crate::serve::{ConnectionPhase, PublicAuthority, PublicFailure, plain, says, scope_for, required_scope};
use crate::text::str_eq;

verus! {

/// How an audited request ended.
#[derive(Clone, Copy, Debug, PartialEq, Eq, Structural)]
pub enum AuditOutcome {
    Allowed,
    Denied(ErrorKind),
}

/// The sentence a request is answered when the journal cannot be written.
pub open spec fn audit_unavailable_text() -> Seq<char> {
    "Runtime authorization audit storage is unavailable"@
}

/// The sentence of a request whose envelope is not JSON-RPC 2.0.
pub open spec fn bad_version_text() -> Seq<char> {
    "JSON-RPC version must be 2.0"@
}

/// The sentence of a request that names no public method.
pub open spec fn unknown_method_text() -> Seq<char> {
    "the public Runtime method does not exist"@
}

/// The refusal answered when the journal cannot be written; the connection is closed after it.
pub fn audit_unavailable() -> (r: PublicFailure)
    ensures
        says(r, ErrorKind::Internal, audit_unavailable_text()),
{
    plain(ErrorKind::Internal, "Runtime authorization audit storage is unavailable")
}

/// Whether a method is journalled. The observed mirror's byte feed is data, not an authority
/// event: the decision to mirror was journalled when the mirror opened.
pub open spec fn is_audited(method: RuntimeMethod) -> bool {
    method != RuntimeMethod::WindowsMirrorOutput
}

/// The outcome journalled for what dispatch answered: `None` for a success, else the refusal's kind.
pub open spec fn outcome_of(refusal: Option<ErrorKind>) -> AuditOutcome {
    match refusal {
        None => AuditOutcome::Allowed,
        Some(kind) => AuditOutcome::Denied(kind),
    }
}

/// Where one request stands between the journal and dispatch.
#[derive(Clone, Copy, Debug, PartialEq, Eq, Structural)]
pub enum AuditStage {
    Denying,
    Attempting,
    Dispatching,
    Finishing,
    Finished,
}

/// What has to be done next for one request.
#[derive(Debug)]
pub enum AuditAction {
    /// Journal a refusal of the envelope under this reason.
    DenyStructural { reason: &'static str, kind: ErrorKind },
    /// Journal the attempt of this method under the identity the connection holds now.
    Attempt { method: RuntimeMethod, scope: Option<AppScope> },
    /// Dispatch the request to its method.
    Dispatch { method: RuntimeMethod },
    /// Journal how the request ended, under the identity the connection holds now.
    Finish { method: RuntimeMethod, scope: Option<AppScope>, outcome: AuditOutcome },
    /// Answer what dispatch answered.
    Deliver,
    /// Answer this refusal; `close` says whether the connection is closed after it.
    Refuse { failure: PublicFailure, close: bool },
}

/// What the outside work of the last action reported.
#[derive(Clone, Copy, Debug, PartialEq, Eq, Structural)]
pub enum AuditEvent {
    /// Whether the journal write succeeded.
    Recorded(bool),
    /// Dispatch answered: `None` for a success, else the kind of its refusal.
    Answered(Option<ErrorKind>),
}

/// The journal's progress around one request.
#[derive(Debug)]
pub struct AuditProgress {
    stage: AuditStage,
    method: Option<RuntimeMethod>,
    refusal: ErrorKind,
    attempt_recorded: bool,
    outcome_recorded: bool,
}

/// Whether an action answers the audit-storage refusal and closes the connection.
pub open spec fn refuses_unavailable(action: AuditAction) -> bool {
    action matches AuditAction::Refuse { failure, close } && close && says(
        failure,
        ErrorKind::Internal,
        audit_unavailable_text(),
    )
}

impl AuditProgress {
    pub closed spec fn stage(&self) -> AuditStage {
        self.stage
    }

    /// The public method of the request, once its name was recognised.
    pub closed spec fn method(&self) -> Option<RuntimeMethod> {
        self.method
    }

    /// The kind a structural refusal is answered under once it is on record.
    pub closed spec fn pending_refusal(&self) -> ErrorKind {
        self.refusal
    }

    /// Whether the attempt of the request is on record.
    pub closed spec fn attempt_recorded(&self) -> bool {
        self.attempt_recorded
    }

    /// Whether the outcome of the request is on record.
    pub closed spec fn outcome_recorded(&self) -> bool {
        self.outcome_recorded
    }

    /// Whether the stage and what is on record agree.
    pub closed spec fn consistent(&self) -> bool {
        &&& (self.stage == AuditStage::Attempting || self.stage == AuditStage::Dispatching
            || self.stage == AuditStage::Finishing) ==> self.method is Some
        &&& self.stage == AuditStage::Attempting ==> is_audited(self.method->0)
            && !self.attempt_recorded
        &&& (self.stage == AuditStage::Dispatching || self.stage == AuditStage::Finishing) ==> (
        is_audited(self.method->0) ==> self.attempt_recorded)
        &&& self.stage == AuditStage::Finishing ==> is_audited(self.method->0)
        &&& self.stage != AuditStage::Finished ==> !self.outcome_recorded
    }

    fn finished(method: Option<RuntimeMethod>) -> (r: Self)
        ensures
            r.stage() == AuditStage::Finished,
            r.method() == method,
            !r.attempt_recorded(),
            !r.outcome_recorded(),
            r.consistent(),
    {
        AuditProgress {
            stage: AuditStage::Finished,
            method,
            refusal: ErrorKind::Internal,
            attempt_recorded: false,
            outcome_recorded: false,
        }
    }

    /// Start a request: `admitted` is whether the journal admitted it, `version` its envelope
    /// version and `name` the method it names.
    ///
    /// A request the journal did not admit is refused as audit storage unavailable; a bad
    /// envelope, then an unknown method, is journalled as a structural refusal; a known
    /// method is journalled as an attempt before dispatch unless it is not audited.
    pub fn start(admitted: bool, version: &str, name: &str) -> (r: (Self, AuditAction))
        ensures
            r.0.consistent(),
            !r.0.attempt_recorded(),
            !r.0.outcome_recorded(),
            !admitted ==> refuses_unavailable(r.1) && r.0.stage() == AuditStage::Finished,
            admitted && version@ != "2.0"@ ==> (r.1 matches AuditAction::DenyStructural { reason, kind }
                && reason@ == "runtime/invalidEnvelope"@ && kind == ErrorKind::InvalidRequest
                && r.0.stage() == AuditStage::Denying && r.0.pending_refusal() == kind),
            admitted && version@ == "2.0"@ && (forall|m: RuntimeMethod| method_name(m) != name@)
                ==> (r.1 matches AuditAction::DenyStructural { reason, kind }
                && reason@ == "runtime/unknownMethod"@ && kind == ErrorKind::MethodNotFound
                && r.0.stage() == AuditStage::Denying && r.0.pending_refusal() == kind),
            admitted && version@ == "2.0"@ && r.0.method() is Some ==> method_name(
                r.0.method()->0,
            ) == name@,
            admitted && version@ == "2.0"@ && (exists|m: RuntimeMethod| method_name(m) == name@)
                ==> r.0.method() is Some && {
                let m = r.0.method()->0;
                if is_audited(m) {
                    r.1 == AuditAction::Attempt { method: m, scope: scope_for(m) }
                        && r.0.stage() == AuditStage::Attempting
                } else {
                    r.1 == AuditAction::Dispatch { method: m } && r.0.stage() == AuditStage::Dispatching
                }
            },
    {
        if !admitted {
            return (AuditProgress::finished(None), AuditAction::Refuse { failure: audit_unavailable(), close: true });
        }
        if !str_eq(version, "2.0") {
            let progress = AuditProgress {
                stage: AuditStage::Denying,
                method: None,
                refusal: ErrorKind::InvalidRequest,
                attempt_recorded: false,
                outcome_recorded: false,
            };
            return (
                progress,
                AuditAction::DenyStructural { reason: "runtime/invalidEnvelope", kind: ErrorKind::InvalidRequest },
            );
        }
        match RuntimeMethod::from_name(name) {
            None => {
                let progress = AuditProgress {
                    stage: AuditStage::Denying,
                    method: None,
                    refusal: ErrorKind::MethodNotFound,
                    attempt_recorded: false,
                    outcome_recorded: false,
                };
                (
                    progress,
                    AuditAction::DenyStructural { reason: "runtime/unknownMethod", kind: ErrorKind::MethodNotFound },
                )
            },
            Some(method) => {
                if method == RuntimeMethod::WindowsMirrorOutput {
                    let progress = AuditProgress {
                        stage: AuditStage::Dispatching,
                        method: Some(method),
                        refusal: ErrorKind::Internal,
                        attempt_recorded: false,
                        outcome_recorded: false,
                    };
                    (progress, AuditAction::Dispatch { method })
                } else {
                    let progress = AuditProgress {
                        stage: AuditStage::Attempting,
                        method: Some(method),
                        refusal: ErrorKind::Internal,
                        attempt_recorded: false,
                        outcome_recorded: false,
                    };
                    (progress, AuditAction::Attempt { method, scope: required_scope(method) })
                }
            },
        }
    }

    /// Decide the next action from what the last one reported.
    ///
    /// A failed journal write answers the audit-storage refusal and closes the connection; an
    /// event that does not belong to the current stage does the same.
    pub fn next(&mut self, event: AuditEvent) -> (r: AuditAction)
        requires
            old(self).consistent(),
        ensures
            final(self).consistent(),
            final(self).method() == old(self).method(),
            final(self).attempt_recorded() ==> old(self).attempt_recorded() || (old(self).stage()
                == AuditStage::Attempting && event == AuditEvent::Recorded(true)),
            r is Dispatch ==> final(self).stage() == AuditStage::Dispatching && (is_audited(
                final(self).method()->0,
            ) ==> final(self).attempt_recorded()),
            r is Deliver ==> final(self).stage() == AuditStage::Finished && old(self).stage()
                != AuditStage::Denying && (is_audited(final(self).method()->0) ==> final(
                self).attempt_recorded() && final(self).outcome_recorded()),
            match (old(self).stage(), event) {
                (AuditStage::Denying, AuditEvent::Recorded(true)) => r matches AuditAction::Refuse { failure, close }
                    && !close && failure.kind == old(self).pending_refusal() && failure.message@ == (
                if old(self).pending_refusal() == ErrorKind::InvalidRequest {
                    bad_version_text()
                } else {
                    unknown_method_text()
                }),
                (AuditStage::Attempting, AuditEvent::Recorded(true)) => r == AuditAction::Dispatch {
                    method: old(self).method()->0,
                },
                (AuditStage::Dispatching, AuditEvent::Answered(refusal)) => if is_audited(
                    old(self).method()->0,
                ) {
                    r == AuditAction::Finish {
                        method: old(self).method()->0,
                        scope: scope_for(old(self).method()->0),
                        outcome: outcome_of(refusal),
                    } && final(self).stage() == AuditStage::Finishing
                } else {
                    r is Deliver
                },
                (AuditStage::Finishing, AuditEvent::Recorded(true)) => r is Deliver,
                _ => refuses_unavailable(r) && final(self).stage() == AuditStage::Finished,
            },
    {
        match event {
            AuditEvent::Recorded(true) => {
                if self.stage == AuditStage::Denying {
                    self.stage = AuditStage::Finished;
                    let failure = if self.refusal == ErrorKind::InvalidRequest {
                        plain(ErrorKind::InvalidRequest, "JSON-RPC version must be 2.0")
                    } else {
                        plain(self.refusal, "the public Runtime method does not exist")
                    };
                    return AuditAction::Refuse { failure, close: false };
                }
                if self.stage == AuditStage::Attempting {
                    self.stage = AuditStage::Dispatching;
                    self.attempt_recorded = true;
                    let method = match self.method {
                        Some(m) => m,
                        None => RuntimeMethod::Initialize,
                    };
                    return AuditAction::Dispatch { method };
                }
                if self.stage == AuditStage::Finishing {
                    self.stage = AuditStage::Finished;
                    self.outcome_recorded = true;
                    return AuditAction::Deliver;
                }
                self.stage = AuditStage::Finished;
                AuditAction::Refuse { failure: audit_unavailable(), close: true }
            },
            AuditEvent::Answered(refusal) => {
                if self.stage != AuditStage::Dispatching {
                    self.stage = AuditStage::Finished;
                    return AuditAction::Refuse { failure: audit_unavailable(), close: true };
                }
                let method = match self.method {
                    Some(m) => m,
                    None => RuntimeMethod::Initialize,
                };
                if method == RuntimeMethod::WindowsMirrorOutput {
                    self.stage = AuditStage::Finished;
                    return AuditAction::Deliver;
                }
                self.stage = AuditStage::Finishing;
                let outcome = match refusal {
                    None => AuditOutcome::Allowed,
                    Some(kind) => AuditOutcome::Denied(kind),
                };
                AuditAction::Finish { method, scope: required_scope(method), outcome }
            },
            AuditEvent::Recorded(false) => {
                self.stage = AuditStage::Finished;
                AuditAction::Refuse { failure: audit_unavailable(), close: true }
            },
        }
    }
}

/// The identity a request is journalled under: the integration a connection that finished
/// its handshake speaks for, with its key generation; nothing for a fresh, anonymous or
/// pending connection.
pub fn audit_identity(phase: ConnectionPhase, authority: &PublicAuthority) -> (r: (Option<IntegrationKey>, Option<u64>))
    ensures
        match (phase, authority) {
            (ConnectionPhase::Fresh, _) => r == (None::<IntegrationKey>, None::<u64>),
            (_, PublicAuthority::Authorized(a)) => r == (Some(a.key), Some(a.grant.key_generation)),
            _ => r == (None::<IntegrationKey>, None::<u64>),
        },
{
    if phase == ConnectionPhase::Fresh {
        return (None, None);
    }
    match authority {
        PublicAuthority::Authorized(authorized) => (Some(authorized.key), Some(authorized.grant.key_generation)),
        _ => (None, None),
    }
}

} // verus!
