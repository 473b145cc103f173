//! Admission of a request to forget a cold session's durable pointer: only the exact observed
//! cold pointer may be forgotten, and only once the person at the machine confirmed it.

use vstd::prelude::*;

use crate::control::SessionDescriptor;
use crate::inventory::RuntimeInventoryFailure;
use crate::kinds::{ErrorKind, LifecycleState};
use crate::open::{Confirmation, OpenRefusal};
use crate::serve::{confirmation_failure, confirmation_refusal, inventory_failure, inventory_refusal, plain, says};

verus! {

pub open spec fn not_cold_text() -> Seq<char> {
    "only the exact observed cold session pointer can be forgotten"@
}

pub open spec fn forget_presence_text() -> Seq<char> {
    "approve the exact metadata removal in Runtrol Studio, then retry this request"@
}

pub open spec fn review_action() -> Seq<char> {
    "reviewRuntimeRequestsInRuntrolStudio"@
}

pub open spec fn forget_vocabulary() -> Seq<char> {
    "session forget"@
}

/// What a forget does once the integration's view of the session was read.
#[derive(Debug)]
pub enum ForgetLookup {
    /// The exact cold pointer is visible: ask for (or find) its local confirmation.
    RequestConfirmation,
    /// The pointer is no longer visible: only an already confirmed request may go on, so its
    /// earlier answer can be replayed.
    FindConfirmation,
    /// Refuse the request.
    Refuse(OpenRefusal),
}

/// Whether a refusal carries this public failure and no operator action.
pub open spec fn refuses(r: OpenRefusal, kind: ErrorKind, message: Seq<char>) -> bool {
    says(r.failure, kind, message) && r.operator_action is None && r.correlation_id is None
}

fn refusal_of(kind: ErrorKind, message: &str) -> (r: OpenRefusal)
    ensures
        refuses(r, kind, message@),
{
    OpenRefusal { failure: plain(kind, message), operator_action: None, correlation_id: None }
}

/// Decide from the integration's view of the session what a forget does next.
pub fn forget_lookup(found: Result<&SessionDescriptor, RuntimeInventoryFailure>, expected_generation: u64) -> (r: ForgetLookup)
    ensures
        match found {
            Ok(descriptor) => if descriptor.lifecycle == LifecycleState::Cold && descriptor.session_generation
                == expected_generation {
                r is RequestConfirmation
            } else {
                r matches ForgetLookup::Refuse(x) && refuses(x, ErrorKind::SessionConflict, not_cold_text())
            },
            Err(RuntimeInventoryFailure::SessionNotFound) => r is FindConfirmation,
            Err(failure) => r matches ForgetLookup::Refuse(x) && refuses(
                x,
                inventory_refusal(failure).0,
                inventory_refusal(failure).1,
            ),
        },
{
    match found {
        Ok(descriptor) => {
            if descriptor.lifecycle != LifecycleState::Cold || descriptor.session_generation != expected_generation {
                ForgetLookup::Refuse(
                    refusal_of(ErrorKind::SessionConflict, "only the exact observed cold session pointer can be forgotten"),
                )
            } else {
                ForgetLookup::RequestConfirmation
            }
        },
        Err(RuntimeInventoryFailure::SessionNotFound) => ForgetLookup::FindConfirmation,
        Err(failure) => ForgetLookup::Refuse(
            OpenRefusal { failure: inventory_failure(failure), operator_action: None, correlation_id: None },
        ),
    }
}

/// Go on with a forget only once it is confirmed: a request still awaiting the person at the
/// machine is answered with the exact request to review, and a table that cannot record it in
/// the forget vocabulary.
pub fn forget_confirmation(confirmation: Confirmation) -> (r: Result<(), OpenRefusal>)
    ensures
        match confirmation {
            Confirmation::Confirmed => r is Ok,
            Confirmation::Awaiting { confirmation_id } => r matches Err(x) && says(
                x.failure,
                ErrorKind::PresenceRequired,
                forget_presence_text(),
            ) && (x.operator_action matches Some(a) && a@ == review_action()) && x.correlation_id == Some(
                confirmation_id,
            ),
            Confirmation::Failed(c) => r matches Err(x) && refuses(
                x,
                confirmation_refusal(c, forget_vocabulary()).0,
                confirmation_refusal(c, forget_vocabulary()).1,
            ),
        },
{
    match confirmation {
        Confirmation::Confirmed => Ok(()),
        Confirmation::Awaiting { confirmation_id } => Err(
            OpenRefusal {
                failure: plain(
                    ErrorKind::PresenceRequired,
                    "approve the exact metadata removal in Runtrol Studio, then retry this request",
                ),
                operator_action: Some("reviewRuntimeRequestsInRuntrolStudio"),
                correlation_id: Some(confirmation_id),
            },
        ),
        Confirmation::Failed(c) => Err(
            OpenRefusal { failure: confirmation_failure(c, "session forget"), operator_action: None, correlation_id: None },
        ),
    }
}

/// A forget of a pointer that is no longer visible goes on only when the same request was
/// already confirmed; one never asked or still awaiting is answered as an unknown session.
pub fn forget_existing(found: Option<Confirmation>) -> (r: Result<(), OpenRefusal>)
    ensures
        match found {
            Some(Confirmation::Confirmed) => r is Ok,
            Some(Confirmation::Failed(c)) => r matches Err(x) && refuses(
                x,
                confirmation_refusal(c, forget_vocabulary()).0,
                confirmation_refusal(c, forget_vocabulary()).1,
            ),
            _ => r matches Err(x) && refuses(
                x,
                inventory_refusal(RuntimeInventoryFailure::SessionNotFound).0,
                inventory_refusal(RuntimeInventoryFailure::SessionNotFound).1,
            ),
        },
{
    match found {
        Some(Confirmation::Confirmed) => Ok(()),
        Some(Confirmation::Failed(c)) => Err(
            OpenRefusal { failure: confirmation_failure(c, "session forget"), operator_action: None, correlation_id: None },
        ),
        _ => Err(
            OpenRefusal {
                failure: inventory_failure(RuntimeInventoryFailure::SessionNotFound),
                operator_action: None,
                correlation_id: None,
            },
        ),
    }
}

} // verus!
