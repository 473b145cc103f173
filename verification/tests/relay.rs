use runtrol_daemon::auth::{AuthorizationFailure, AuthorizedIntegration, IntegrationGrant, IntegrationId, IntegrationKey};
use runtrol_daemon::inventory::RuntimeInventoryFailure;
use runtrol_daemon::kinds::{AppScope, ErrorKind};
use runtrol_daemon::relay::{
    index_end_reason, watch_authority, ProviderWatchEvent, ProviderWatchRelay, RelayAction, SessionIndexEvent,
    SessionIndexRelay, WatchEndReason,
};

fn authority(scopes: Vec<AppScope>) -> AuthorizedIntegration {
    AuthorizedIntegration {
        key: IntegrationKey::from_bytes([2; 16]),
        grant: IntegrationGrant {
            integration_id: IntegrationId::new("int_watch"),
            scopes,
            roots: Vec::new(),
            key_generation: 1,
            grant_generation: 1,
        },
        roots: Vec::new(),
    }
}

#[test]
fn a_watch_goes_on_only_under_the_scope_it_was_opened_with() {
    assert!(watch_authority(Ok(authority(vec![AppScope::SessionList])), AppScope::SessionList).is_ok());
    assert_eq!(
        watch_authority(Ok(authority(vec![AppScope::ProviderRead])), AppScope::SessionList).err(),
        Some(WatchEndReason::AuthorityChanged)
    );
    let revoked = AuthorizationFailure { kind: ErrorKind::IntegrationRevoked, message: "the integration grant was revoked" };
    assert_eq!(watch_authority(Err(revoked), AppScope::ProviderRead).err(), Some(WatchEndReason::IntegrationRevoked));
    let stale = AuthorizationFailure { kind: ErrorKind::Unauthenticated, message: "the integration grant changed" };
    assert_eq!(watch_authority(Err(stale), AppScope::ProviderRead).err(), Some(WatchEndReason::AuthorityChanged));
}

#[test]
fn an_unreadable_index_ends_the_watch_with_its_reason() {
    assert_eq!(index_end_reason(RuntimeInventoryFailure::RootAuthorityChanged), WatchEndReason::RootDenied);
    assert_eq!(index_end_reason(RuntimeInventoryFailure::Unavailable), WatchEndReason::RuntimeUnavailable);
    assert_eq!(index_end_reason(RuntimeInventoryFailure::SessionNotFound), WatchEndReason::RuntimeUnavailable);
}

#[test]
fn a_provider_watch_sends_usage_first_and_only_what_changed() {
    let (mut relay, first) = ProviderWatchRelay::start(b"list-1".to_vec(), b"usage-1".to_vec());
    assert!(matches!(first, RelayAction::SendUsage(ref u) if u.as_slice() == b"usage-1"));
    assert!(matches!(relay.next(ProviderWatchEvent::UsageChanged(Some(b"usage-1".to_vec()))), RelayAction::Wait));
    assert!(matches!(
        relay.next(ProviderWatchEvent::UsageChanged(Some(b"usage-2".to_vec()))),
        RelayAction::SendUsage(ref u) if u.as_slice() == b"usage-2"
    ));
    let same = relay.next(ProviderWatchEvent::ProvidersChanged(Some((
        Ok(authority(vec![AppScope::ProviderRead])),
        b"list-1".to_vec(),
    ))));
    assert!(matches!(same, RelayAction::Wait));
    let changed = relay.next(ProviderWatchEvent::ProvidersChanged(Some((
        Ok(authority(vec![AppScope::ProviderRead])),
        b"list-2".to_vec(),
    ))));
    assert!(matches!(changed, RelayAction::SendSnapshot(ref l) if l.as_slice() == b"list-2"));
    let lost = relay.next(ProviderWatchEvent::ProvidersChanged(Some((Ok(authority(vec![])), b"list-3".to_vec()))));
    assert!(matches!(lost, RelayAction::End(WatchEndReason::AuthorityChanged)));
    assert!(matches!(relay.next(ProviderWatchEvent::UsageChanged(Some(b"usage-3".to_vec()))), RelayAction::Stop));
}

#[test]
fn a_provider_watch_ends_when_its_sources_close_or_its_peer_speaks() {
    let (mut relay, _) = ProviderWatchRelay::start(Vec::new(), Vec::new());
    assert!(matches!(
        relay.next(ProviderWatchEvent::UsageChanged(None)),
        RelayAction::End(WatchEndReason::RuntimeUnavailable)
    ));
    let (mut relay, _) = ProviderWatchRelay::start(Vec::new(), Vec::new());
    assert!(matches!(
        relay.next(ProviderWatchEvent::ProvidersChanged(None)),
        RelayAction::End(WatchEndReason::RuntimeUnavailable)
    ));
    let (mut relay, _) = ProviderWatchRelay::start(Vec::new(), Vec::new());
    let revoked = AuthorizationFailure { kind: ErrorKind::IntegrationRevoked, message: "revoked" };
    assert!(matches!(
        relay.next(ProviderWatchEvent::ProvidersChanged(Some((Err(revoked), Vec::new())))),
        RelayAction::End(WatchEndReason::IntegrationRevoked)
    ));
    let (mut relay, _) = ProviderWatchRelay::start(Vec::new(), Vec::new());
    assert!(matches!(relay.next(ProviderWatchEvent::PeerSpoke), RelayAction::Stop));
}

#[test]
fn a_session_index_watch_publishes_changes_and_ends_for_lost_roots() {
    let mut relay = SessionIndexRelay::start(b"index-1".to_vec());
    let readable = || Ok(authority(vec![AppScope::SessionList]));
    assert!(matches!(
        relay.next(SessionIndexEvent::Changed(Some((readable(), Ok(b"index-1".to_vec()))))),
        RelayAction::Wait
    ));
    assert!(matches!(
        relay.next(SessionIndexEvent::Changed(Some((readable(), Ok(b"index-2".to_vec()))))),
        RelayAction::SendSnapshot(ref i) if i.as_slice() == b"index-2"
    ));
    assert!(matches!(
        relay.next(SessionIndexEvent::Changed(Some((readable(), Err(RuntimeInventoryFailure::RootAuthorityChanged))))),
        RelayAction::End(WatchEndReason::RootDenied)
    ));
    let mut relay = SessionIndexRelay::start(Vec::new());
    assert!(matches!(
        relay.next(SessionIndexEvent::Changed(Some((readable(), Err(RuntimeInventoryFailure::Unavailable))))),
        RelayAction::End(WatchEndReason::RuntimeUnavailable)
    ));
    let mut relay = SessionIndexRelay::start(Vec::new());
    assert!(matches!(
        relay.next(SessionIndexEvent::Changed(Some((Ok(authority(vec![])), Ok(Vec::new()))))),
        RelayAction::End(WatchEndReason::AuthorityChanged)
    ));
    let mut relay = SessionIndexRelay::start(Vec::new());
    assert!(matches!(relay.next(SessionIndexEvent::Changed(None)), RelayAction::End(WatchEndReason::RuntimeUnavailable)));
}
