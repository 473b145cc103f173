//! The connection handshake: negotiating a protocol revision, the authority a connection
//! starts with, the `initialized` notification that makes it ready, and which enrollment
//! requests a connection may make.

use vstd::prelude::*;

use crate::auth::{AuthorizationFailure, AuthorizedIntegration, EnrollmentKey};
use crate::kinds::{ErrorKind, RuntimeMethod, method_name};
use crate::serve::{ConnectionPhase, PublicAuthority, PublicFailure, plain, says};
use crate::text::str_eq;

verus! {

/// Most protocol revisions one client may offer.
pub const MAX_REVISION_OFFERS: usize = 16;

pub open spec fn repeated_text() -> Seq<char> {
    "Runtime initialization cannot be repeated on one connection"@
}

pub open spec fn bad_offer_text() -> Seq<char> {
    "the finalized revision offer is empty, duplicated, or oversized"@
}

pub open spec fn no_shared_revision_text() -> Seq<char> {
    "no finalized Runtime revision is shared"@
}

pub open spec fn handshake_not_ready_text() -> Seq<char> {
    "Runtime initialization is not complete"@
}

pub open spec fn already_enrolling_text() -> Seq<char> {
    "this connection already has integration authority or a pending decision"@
}

pub open spec fn no_pending_text() -> Seq<char> {
    "this connection has no proved pending enrollment"@
}

/// A revision offer is usable when it is not empty, within the limit, and names no revision twice.
pub open spec fn offer_ok(offer: Seq<u32>) -> bool {
    &&& 0 < offer.len() <= MAX_REVISION_OFFERS
    &&& offer.no_duplicates()
}

/// A revision both sides accept.
pub open spec fn shared_revision(offer: Seq<u32>, finalized: Seq<u32>, revision: u32) -> bool {
    offer.contains(revision) && finalized.contains(revision)
}

/// The newest revision both sides accept, if there is one.
pub open spec fn newest_shared(offer: Seq<u32>, finalized: Seq<u32>) -> Option<u32> {
    if exists|r: u32| shared_revision(offer, finalized, r) {
        Some(
            choose|r: u32|
                shared_revision(offer, finalized, r) && forall|q: u32|
                    shared_revision(offer, finalized, q) ==> q <= r,
        )
    } else {
        None
    }
}

/// Whether a list holds a value.
fn holds(values: &Vec<u32>, value: u32) -> (r: bool)
    ensures
        r == values@.contains(value),
{
    let mut i: usize = 0;
    while i < values.len()
        invariant
            i <= values.len(),
            forall|j: int| 0 <= j < i ==> values@[j] != value,
        decreases values.len() - i,
    {
        if values[i] == value {
            assert(values@[i as int] == value);
            return true;
        }
        i = i + 1;
    }
    false
}

/// Whether no value occurs twice in a list.
fn distinct(values: &Vec<u32>) -> (r: bool)
    ensures
        r == values@.no_duplicates(),
{
    let mut i: usize = 0;
    while i < values.len()
        invariant
            i <= values.len(),
            forall|a: int, b: int| 0 <= a < b < i ==> values@[a] != values@[b],
        decreases values.len() - i,
    {
        let mut j: usize = 0;
        while j < i
            invariant
                i < values.len(),
                j <= i,
                forall|a: int, b: int| 0 <= a < b < i ==> values@[a] != values@[b],
                forall|a: int| 0 <= a < j ==> values@[a] != values@[i as int],
            decreases i - j,
        {
            if values[j] == values[i] {
                return false;
            }
            j = j + 1;
        }
        i = i + 1;
    }
    true
}

/// The newest revision both the client's offer and the finalized list hold.
pub fn negotiate(offer: &Vec<u32>, finalized: &Vec<u32>) -> (r: Option<u32>)
    ensures
        r == newest_shared(offer@, finalized@),
{
    let mut best: Option<u32> = None;
    let mut i: usize = 0;
    while i < offer.len()
        invariant
            i <= offer.len(),
            match best {
                Some(b) => shared_revision(offer@, finalized@, b) && forall|j: int|
                    0 <= j < i && finalized@.contains(#[trigger] offer@[j]) ==> offer@[j] <= b,
                None => forall|j: int| 0 <= j < i ==> !finalized@.contains(#[trigger] offer@[j]),
            },
        decreases offer.len() - i,
    {
        let candidate = offer[i];
        if holds(finalized, candidate) {
            let better = match best {
                Some(b) => candidate > b,
                None => true,
            };
            if better {
                best = Some(candidate);
            }
        }
        i = i + 1;
    }
    proof {
        match best {
            Some(b) => {
                assert forall|q: u32| shared_revision(offer@, finalized@, q) implies q <= b by {
                    let j = offer@.index_of(q);
                    assert(offer@[j] == q);
                }
                let c = choose|r: u32|
                    shared_revision(offer@, finalized@, r) && forall|q: u32|
                        shared_revision(offer@, finalized@, q) ==> q <= r;
                assert(shared_revision(offer@, finalized@, c) && forall|q: u32|
                    shared_revision(offer@, finalized@, q) ==> q <= c);
                assert(c <= b && b <= c);
            },
            None => {
                assert forall|q: u32| !shared_revision(offer@, finalized@, q) by {
                    if offer@.contains(q) {
                        let j = offer@.index_of(q);
                        assert(offer@[j] == q);
                    }
                }
            },
        }
    }
    best
}

/// Open the handshake: a fresh connection's offer must be usable and share a finalized
/// revision, which is then selected.
pub fn negotiate_revision(phase: ConnectionPhase, offer: &Vec<u32>, finalized: &Vec<u32>) -> (r: Result<
    u32,
    PublicFailure,
>)
    ensures
        phase != ConnectionPhase::Fresh ==> (r matches Err(f) && says(f, ErrorKind::InvalidRequest, repeated_text())),
        phase == ConnectionPhase::Fresh && !offer_ok(offer@) ==> (r matches Err(f) && says(
            f,
            ErrorKind::InvalidRequest,
            bad_offer_text(),
        )),
        phase == ConnectionPhase::Fresh && offer_ok(offer@) ==> match newest_shared(offer@, finalized@) {
            Some(revision) => r == Ok::<u32, PublicFailure>(revision),
            None => r matches Err(f) && says(f, ErrorKind::ProtocolIncompatible, no_shared_revision_text()),
        },
{
    if phase != ConnectionPhase::Fresh {
        return Err(plain(ErrorKind::InvalidRequest, "Runtime initialization cannot be repeated on one connection"));
    }
    if offer.len() == 0 || offer.len() > MAX_REVISION_OFFERS || !distinct(offer) {
        return Err(plain(ErrorKind::InvalidRequest, "the finalized revision offer is empty, duplicated, or oversized"));
    }
    match negotiate(offer, finalized) {
        Some(revision) => Ok(revision),
        None => Err(plain(ErrorKind::ProtocolIncompatible, "no finalized Runtime revision is shared")),
    }
}

/// The authority a negotiated connection starts with: anonymous without proof, the verified
/// integration with one, and the verification's refusal when the proof fails.
pub fn negotiated_authority(
    authentication: Option<Result<AuthorizedIntegration, AuthorizationFailure>>,
) -> (r: Result<PublicAuthority, PublicFailure>)
    ensures
        match authentication {
            None => r matches Ok(a) && a is Anonymous,
            Some(Ok(authorized)) => r matches Ok(PublicAuthority::Authorized(a)) && a == authorized,
            Some(Err(failure)) => r matches Err(f) && says(f, failure.kind, failure.message@),
        },
{
    match authentication {
        None => Ok(PublicAuthority::Anonymous),
        Some(Ok(authorized)) => Ok(PublicAuthority::Authorized(authorized)),
        Some(Err(failure)) => Err(plain(failure.kind, failure.message)),
    }
}

/// Whether a negotiated connection's next payload makes it ready: exactly a JSON-RPC 2.0
/// `initialized` notification with empty parameters. Anything else closes the connection.
pub fn completes_handshake(version: &str, name: &str, params_empty: bool) -> (r: bool)
    ensures
        r == (version@ == "2.0"@ && name@ == method_name(RuntimeMethod::Initialized) && params_empty),
{
    str_eq(version, "2.0") && str_eq(name, RuntimeMethod::Initialized.as_str()) && params_empty
}

/// An enrollment may be requested only by a ready, anonymous connection.
pub fn check_enrollment_request(phase: ConnectionPhase, authority: &PublicAuthority) -> (r: Result<
    (),
    PublicFailure,
>)
    ensures
        phase != ConnectionPhase::Ready ==> (r matches Err(f) && says(
            f,
            ErrorKind::NotInitialized,
            handshake_not_ready_text(),
        )),
        phase == ConnectionPhase::Ready ==> if authority is Anonymous {
            r is Ok
        } else {
            r matches Err(f) && says(f, ErrorKind::EnrollmentPending, already_enrolling_text())
        },
{
    if phase != ConnectionPhase::Ready {
        return Err(plain(ErrorKind::NotInitialized, "Runtime initialization is not complete"));
    }
    match authority {
        PublicAuthority::Anonymous => Ok(()),
        _ => Err(
            plain(
                ErrorKind::EnrollmentPending,
                "this connection already has integration authority or a pending decision",
            ),
        ),
    }
}

/// An enrollment may be watched only by a ready connection that proved it is pending; the
/// answer is the enrollment it proved.
pub fn pending_enrollment(phase: ConnectionPhase, authority: &PublicAuthority) -> (r: Result<
    EnrollmentKey,
    PublicFailure,
>)
    ensures
        phase != ConnectionPhase::Ready ==> (r matches Err(f) && says(
            f,
            ErrorKind::NotInitialized,
            handshake_not_ready_text(),
        )),
        phase == ConnectionPhase::Ready ==> match authority {
            PublicAuthority::Pending(expected) => r == Ok::<EnrollmentKey, PublicFailure>(*expected),
            _ => r matches Err(f) && says(f, ErrorKind::Unauthenticated, no_pending_text()),
        },
{
    if phase != ConnectionPhase::Ready {
        return Err(plain(ErrorKind::NotInitialized, "Runtime initialization is not complete"));
    }
    match authority {
        PublicAuthority::Pending(expected) => Ok(*expected),
        _ => Err(plain(ErrorKind::Unauthenticated, "this connection has no proved pending enrollment")),
    }
}

} // verus!
