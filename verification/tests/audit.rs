use runtrol_daemon::audit::{audit_identity, AuditAction, AuditEvent, AuditOutcome, AuditProgress};
use runtrol_daemon::auth::{AuthorizedIntegration, IntegrationGrant, IntegrationId, IntegrationKey};
use runtrol_daemon::kinds::{AppScope, ErrorKind, RuntimeMethod};
use runtrol_daemon::serve::{ConnectionPhase, PublicAuthority};

fn unavailable(action: &AuditAction) -> bool {
    matches!(action, AuditAction::Refuse { failure, close: true }
        if failure.kind == ErrorKind::Internal
            && failure.message == "Runtime authorization audit storage is unavailable")
}

#[test]
fn an_unadmitted_request_is_refused_and_closes_the_connection() {
    let (_, action) = AuditProgress::start(false, "2.0", "providers/list");
    assert!(unavailable(&action));
}

#[test]
fn a_bad_envelope_is_journalled_then_refused() {
    let (mut progress, action) = AuditProgress::start(true, "1.0", "providers/list");
    assert!(matches!(action, AuditAction::DenyStructural { reason: "runtime/invalidEnvelope", kind: ErrorKind::InvalidRequest }));
    match progress.next(AuditEvent::Recorded(true)) {
        AuditAction::Refuse { failure, close } => {
            assert!(!close);
            assert_eq!(failure.kind, ErrorKind::InvalidRequest);
            assert_eq!(failure.message, "JSON-RPC version must be 2.0");
        }
        other => panic!("unexpected {other:?}"),
    }
}

#[test]
fn an_unknown_method_is_journalled_then_refused() {
    let (mut progress, action) = AuditProgress::start(true, "2.0", "no/such");
    assert!(matches!(action, AuditAction::DenyStructural { reason: "runtime/unknownMethod", kind: ErrorKind::MethodNotFound }));
    match progress.next(AuditEvent::Recorded(true)) {
        AuditAction::Refuse { failure, close } => {
            assert!(!close);
            assert_eq!(failure.kind, ErrorKind::MethodNotFound);
            assert_eq!(failure.message, "the public Runtime method does not exist");
        }
        other => panic!("unexpected {other:?}"),
    }
    let (mut progress, _) = AuditProgress::start(true, "2.0", "no/such");
    assert!(unavailable(&progress.next(AuditEvent::Recorded(false))));
}

#[test]
fn an_audited_request_is_journalled_before_and_after_dispatch() {
    let (mut progress, action) = AuditProgress::start(true, "2.0", "providers/list");
    assert!(matches!(action, AuditAction::Attempt { method: RuntimeMethod::ProvidersList, scope: Some(AppScope::ProviderRead) }));
    assert!(matches!(progress.next(AuditEvent::Recorded(true)), AuditAction::Dispatch { method: RuntimeMethod::ProvidersList }));
    let action = progress.next(AuditEvent::Answered(Some(ErrorKind::ScopeDenied)));
    assert!(matches!(action, AuditAction::Finish { outcome: AuditOutcome::Denied(ErrorKind::ScopeDenied), .. }));
    assert!(matches!(progress.next(AuditEvent::Recorded(true)), AuditAction::Deliver));
}

#[test]
fn a_failed_journal_write_withholds_the_answer() {
    let (mut progress, _) = AuditProgress::start(true, "2.0", "providers/list");
    assert!(unavailable(&progress.next(AuditEvent::Recorded(false))));

    let (mut progress, _) = AuditProgress::start(true, "2.0", "providers/list");
    progress.next(AuditEvent::Recorded(true));
    let action = progress.next(AuditEvent::Answered(None));
    assert!(matches!(action, AuditAction::Finish { outcome: AuditOutcome::Allowed, .. }));
    assert!(unavailable(&progress.next(AuditEvent::Recorded(false))));
}

#[test]
fn the_mirror_byte_feed_is_not_journalled() {
    let (mut progress, action) = AuditProgress::start(true, "2.0", RuntimeMethod::WindowsMirrorOutput.as_str());
    assert!(matches!(action, AuditAction::Dispatch { method: RuntimeMethod::WindowsMirrorOutput }));
    assert!(matches!(progress.next(AuditEvent::Answered(None)), AuditAction::Deliver));
}

#[test]
fn only_an_authorized_connection_has_an_audit_identity() {
    let authorized = AuthorizedIntegration {
        key: IntegrationKey::from_bytes([3; 16]),
        grant: IntegrationGrant {
            integration_id: IntegrationId::new("int_a"),
            scopes: vec![],
            roots: vec![],
            key_generation: 5,
            grant_generation: 1,
        },
        roots: vec![],
    };
    let authority = PublicAuthority::Authorized(authorized);
    let (key, generation) = audit_identity(ConnectionPhase::Ready, &authority);
    assert_eq!(key, Some(IntegrationKey::from_bytes([3; 16])));
    assert_eq!(generation, Some(5));
    assert_eq!(audit_identity(ConnectionPhase::Fresh, &authority), (None, None));
    assert_eq!(audit_identity(ConnectionPhase::Ready, &PublicAuthority::Anonymous), (None, None));
}
