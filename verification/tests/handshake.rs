use runtrol_daemon::auth::{AuthorizationFailure, EnrollmentKey};
use runtrol_daemon::handshake::{
    check_enrollment_request, completes_handshake, negotiate, negotiate_revision, negotiated_authority,
    pending_enrollment, MAX_REVISION_OFFERS,
};
use runtrol_daemon::kinds::ErrorKind;
use runtrol_daemon::serve::{ConnectionPhase, PublicAuthority};

#[test]
fn the_newest_shared_revision_is_selected() {
    assert_eq!(negotiate(&vec![1, 3, 2], &vec![2, 3, 4]), Some(3));
    assert_eq!(negotiate(&vec![5], &vec![2, 3, 4]), None);
    assert_eq!(negotiate_revision(ConnectionPhase::Fresh, &vec![1, 2], &vec![2]).ok(), Some(2));
}

#[test]
fn a_bad_offer_or_a_repeat_is_refused() {
    let refused = negotiate_revision(ConnectionPhase::Fresh, &vec![], &vec![1]).unwrap_err();
    assert_eq!(refused.kind, ErrorKind::InvalidRequest);
    assert_eq!(refused.message, "the finalized revision offer is empty, duplicated, or oversized");
    assert!(negotiate_revision(ConnectionPhase::Fresh, &vec![1, 1], &vec![1]).is_err());
    let too_many: Vec<u32> = (0..=MAX_REVISION_OFFERS as u32).collect();
    assert!(negotiate_revision(ConnectionPhase::Fresh, &too_many, &vec![1]).is_err());
    let none = negotiate_revision(ConnectionPhase::Fresh, &vec![7], &vec![1]).unwrap_err();
    assert_eq!(none.kind, ErrorKind::ProtocolIncompatible);
    let repeated = negotiate_revision(ConnectionPhase::Ready, &vec![1], &vec![1]).unwrap_err();
    assert_eq!(repeated.message, "Runtime initialization cannot be repeated on one connection");
}

#[test]
fn a_connection_starts_anonymous_or_authenticated() {
    assert!(matches!(negotiated_authority(None), Ok(PublicAuthority::Anonymous)));
    let failure = AuthorizationFailure { kind: ErrorKind::IntegrationRevoked, message: "the integration grant was revoked" };
    let refused = negotiated_authority(Some(Err(failure))).err().expect("refused");
    assert_eq!(refused.kind, ErrorKind::IntegrationRevoked);
}

#[test]
fn only_an_initialized_notification_completes_the_handshake() {
    assert!(completes_handshake("2.0", "initialized", true));
    assert!(!completes_handshake("1.0", "initialized", true));
    assert!(!completes_handshake("2.0", "initialize", true));
    assert!(!completes_handshake("2.0", "initialized", false));
}

#[test]
fn enrollment_requests_need_a_ready_anonymous_connection() {
    assert!(check_enrollment_request(ConnectionPhase::Ready, &PublicAuthority::Anonymous).is_ok());
    let early = check_enrollment_request(ConnectionPhase::Negotiated, &PublicAuthority::Anonymous).unwrap_err();
    assert_eq!(early.kind, ErrorKind::NotInitialized);
    let pending = PublicAuthority::Pending(EnrollmentKey::from_bytes([1; 16]));
    let twice = check_enrollment_request(ConnectionPhase::Ready, &pending).unwrap_err();
    assert_eq!(twice.kind, ErrorKind::EnrollmentPending);
    assert_eq!(pending_enrollment(ConnectionPhase::Ready, &pending).ok(), Some(EnrollmentKey::from_bytes([1; 16])));
    let none = pending_enrollment(ConnectionPhase::Ready, &PublicAuthority::Anonymous).unwrap_err();
    assert_eq!(none.kind, ErrorKind::Unauthenticated);
    assert_eq!(none.message, "this connection has no proved pending enrollment");
}
