//! The decisions of a running watch: whether it may go on after its authority is revalidated,
//! and why it ends when it cannot.

use vstd::prelude::*;

use crate::auth::{AuthorizationFailure, AuthorizedIntegration};
use crate::inventory::RuntimeInventoryFailure;
use crate::kinds::{AppScope, ErrorKind};
use crate::text::bytes_eq;

verus! {

/// Why a watch ended.
#[derive(Clone, Copy, Debug, PartialEq, Eq, Structural)]
pub enum WatchEndReason {
    /// Runtime can no longer publish what the watch follows.
    RuntimeUnavailable,
    /// The integration's grant no longer covers the watch.
    AuthorityChanged,
    /// The integration was revoked.
    IntegrationRevoked,
    /// An approved root no longer names the directory approved locally.
    RootDenied,
}

/// Whether a grant holds a scope.
pub open spec fn grants(a: AuthorizedIntegration, scope: AppScope) -> bool {
    a.grant.scopes@.contains(scope)
}

fn holds_scope(scopes: &Vec<AppScope>, scope: AppScope) -> (r: bool)
    ensures
        r == scopes@.contains(scope),
{
    let mut i: usize = 0;
    while i < scopes.len()
        invariant
            i <= scopes@.len(),
            forall|j: int| 0 <= j < i ==> scopes@[j] != scope,
        decreases scopes@.len() - i,
    {
        if scopes[i] == scope {
            assert(scopes@[i as int] == scope);
            return true;
        }
        i = i + 1;
    }
    false
}

/// Why a watch ends after its authority was refreshed, `None` while it may go on.
pub open spec fn authority_end(
    refreshed: Result<AuthorizedIntegration, AuthorizationFailure>,
    needed: AppScope,
) -> Option<WatchEndReason> {
    match refreshed {
        Ok(a) => if grants(a, needed) {
            None
        } else {
            Some(WatchEndReason::AuthorityChanged)
        },
        Err(f) => Some(
            if f.kind == ErrorKind::IntegrationRevoked {
                WatchEndReason::IntegrationRevoked
            } else {
                WatchEndReason::AuthorityChanged
            },
        ),
    }
}

/// Revalidate a watch's authority before publishing a change: it goes on only while the
/// refreshed grant still holds the scope it was opened under; a revocation ends it as revoked,
/// any other failure or a lost scope as changed authority.
pub fn watch_authority(
    refreshed: Result<AuthorizedIntegration, AuthorizationFailure>,
    needed: AppScope,
) -> (r: Result<AuthorizedIntegration, WatchEndReason>)
    ensures
        match authority_end(refreshed, needed) {
            Some(reason) => r == Err::<AuthorizedIntegration, WatchEndReason>(reason),
            None => r is Ok && refreshed is Ok && r->Ok_0 == refreshed->Ok_0,
        },
        match refreshed {
            Ok(a) => if grants(a, needed) {
                r == Ok::<AuthorizedIntegration, WatchEndReason>(a)
            } else {
                r == Err::<AuthorizedIntegration, WatchEndReason>(WatchEndReason::AuthorityChanged)
            },
            Err(f) => r == Err::<AuthorizedIntegration, WatchEndReason>(
                if f.kind == ErrorKind::IntegrationRevoked {
                    WatchEndReason::IntegrationRevoked
                } else {
                    WatchEndReason::AuthorityChanged
                },
            ),
        },
{
    match refreshed {
        Ok(a) => {
            if holds_scope(&a.grant.scopes, needed) {
                Ok(a)
            } else {
                Err(WatchEndReason::AuthorityChanged)
            }
        },
        Err(f) => {
            if f.kind == ErrorKind::IntegrationRevoked {
                Err(WatchEndReason::IntegrationRevoked)
            } else {
                Err(WatchEndReason::AuthorityChanged)
            }
        },
    }
}

/// Why a session index watch ends when the catalogue cannot be read for it.
pub fn index_end_reason(failure: RuntimeInventoryFailure) -> (r: WatchEndReason)
    ensures
        r == if failure == RuntimeInventoryFailure::RootAuthorityChanged {
            WatchEndReason::RootDenied
        } else {
            WatchEndReason::RuntimeUnavailable
        },
{
    match failure {
        RuntimeInventoryFailure::RootAuthorityChanged => WatchEndReason::RootDenied,
        RuntimeInventoryFailure::Unavailable | RuntimeInventoryFailure::SessionNotFound => WatchEndReason::RuntimeUnavailable,
    }
}


/// A copy of a byte string.
fn copy_bytes(bytes: &[u8]) -> (r: Vec<u8>)
    ensures
        r@ == bytes@,
{
    let mut out: Vec<u8> = Vec::new();
    crate::wire::append_bytes(&mut out, bytes);
    assert(out@ =~= bytes@);
    out
}

/// What a running watch does next.
#[derive(Debug)]
pub enum RelayAction {
    /// Send this usage snapshot.
    SendUsage(Vec<u8>),
    /// Send this snapshot of what the watch follows.
    SendSnapshot(Vec<u8>),
    /// Nothing changed that the subscriber has not seen; wait for the next change.
    Wait,
    /// Send the end notice with this reason and stop.
    End(WatchEndReason),
    /// Stop without a notice: the peer spoke or a notice could not be sent.
    Stop,
}

/// What woke a provider watch. Snapshots are their encoded notification payloads.
#[derive(Debug)]
pub enum ProviderWatchEvent {
    /// The peer sent something, or went away.
    PeerSpoke,
    /// The usage source published this snapshot, or closed (`None`).
    UsageChanged(Option<Vec<u8>>),
    /// The provider list changed, with the refreshed authority and the current list; `None`
    /// when the list source closed.
    ProvidersChanged(Option<(Result<AuthorizedIntegration, AuthorizationFailure>, Vec<u8>)>),
    /// The last notification could not be sent.
    NotSent,
}

/// A provider watch: the last provider list and usage it sent, and whether it ended.
#[derive(Debug)]
pub struct ProviderWatchRelay {
    last: Vec<u8>,
    last_usage: Vec<u8>,
    ended: bool,
}

impl ProviderWatchRelay {
    pub closed spec fn last(&self) -> Seq<u8> {
        self.last@
    }

    pub closed spec fn last_usage(&self) -> Seq<u8> {
        self.last_usage@
    }

    pub closed spec fn ended(&self) -> bool {
        self.ended
    }

    /// A watch that was answered with the list `first`; the usage a subscriber would otherwise
    /// have to ask for is sent first, before any change.
    pub fn start(first: Vec<u8>, usage: Vec<u8>) -> (r: (Self, RelayAction))
        ensures
            r.0.last() == first@,
            r.0.last_usage() == usage@,
            !r.0.ended(),
            r.1 matches RelayAction::SendUsage(u) && u@ == usage@,
    {
        let sent = copy_bytes(usage.as_slice());
        (ProviderWatchRelay { last: first, last_usage: usage, ended: false }, RelayAction::SendUsage(sent))
    }

    /// Decide what one wake-up does. A snapshot equal to the last one sent is not sent again;
    /// a closed source ends the watch as unavailable; a changed list is published only while the
    /// refreshed grant still reads providers; once ended, the watch only stops.
    pub fn next(&mut self, event: ProviderWatchEvent) -> (r: RelayAction)
        ensures
            old(self).ended() ==> (r is Stop && final(self).ended() && final(self).last()
                == old(self).last() && final(self).last_usage() == old(self).last_usage()),
            !old(self).ended() ==> match event {
                ProviderWatchEvent::PeerSpoke | ProviderWatchEvent::NotSent => r is Stop
                    && final(self).ended(),
                ProviderWatchEvent::UsageChanged(None) => r == RelayAction::End(
                    WatchEndReason::RuntimeUnavailable,
                ) && final(self).ended(),
                ProviderWatchEvent::UsageChanged(Some(u)) => !final(self).ended()
                    && final(self).last() == old(self).last() && if u@ == old(self).last_usage() {
                    r is Wait && final(self).last_usage() == old(self).last_usage()
                } else {
                    r == RelayAction::SendUsage(u) && final(self).last_usage() == u@
                },
                ProviderWatchEvent::ProvidersChanged(None) => r == RelayAction::End(
                    WatchEndReason::RuntimeUnavailable,
                ) && final(self).ended(),
                ProviderWatchEvent::ProvidersChanged(Some((authority, list))) => match authority_end(
                    authority,
                    AppScope::ProviderRead,
                ) {
                    Some(reason) => r == RelayAction::End(reason) && final(self).ended(),
                    None => !final(self).ended() && final(self).last_usage() == old(self).last_usage()
                        && if list@ == old(self).last() {
                        r is Wait && final(self).last() == old(self).last()
                    } else {
                        r == RelayAction::SendSnapshot(list) && final(self).last() == list@
                    },
                },
            },
    {
        if self.ended {
            return RelayAction::Stop;
        }
        match event {
            ProviderWatchEvent::PeerSpoke | ProviderWatchEvent::NotSent => {
                self.ended = true;
                RelayAction::Stop
            },
            ProviderWatchEvent::UsageChanged(None) | ProviderWatchEvent::ProvidersChanged(None) => {
                self.ended = true;
                RelayAction::End(WatchEndReason::RuntimeUnavailable)
            },
            ProviderWatchEvent::UsageChanged(Some(usage)) => {
                if bytes_eq(usage.as_slice(), self.last_usage.as_slice()) {
                    return RelayAction::Wait;
                }
                self.last_usage = copy_bytes(usage.as_slice());
                RelayAction::SendUsage(usage)
            },
            ProviderWatchEvent::ProvidersChanged(Some((authority, list))) => {
                match watch_authority(authority, AppScope::ProviderRead) {
                    Err(reason) => {
                        self.ended = true;
                        RelayAction::End(reason)
                    },
                    Ok(_) => {
                        if bytes_eq(list.as_slice(), self.last.as_slice()) {
                            return RelayAction::Wait;
                        }
                        self.last = copy_bytes(list.as_slice());
                        RelayAction::SendSnapshot(list)
                    },
                }
            },
        }
    }
}

/// What woke a session index watch. The snapshot is the encoded index the refreshed authority
/// may see, or why the catalogue could not be read for it.
#[derive(Debug)]
pub enum SessionIndexEvent {
    PeerSpoke,
    /// The catalogue changed, with the refreshed authority and the index read under it; `None`
    /// when the catalogue source closed.
    Changed(Option<(Result<AuthorizedIntegration, AuthorizationFailure>, Result<Vec<u8>, RuntimeInventoryFailure>)>),
    NotSent,
}

/// A session index watch: the last index it sent, and whether it ended.
#[derive(Debug)]
pub struct SessionIndexRelay {
    last: Vec<u8>,
    ended: bool,
}

impl SessionIndexRelay {
    pub closed spec fn last(&self) -> Seq<u8> {
        self.last@
    }

    pub closed spec fn ended(&self) -> bool {
        self.ended
    }

    /// A watch that was answered with the index `first`.
    pub fn start(first: Vec<u8>) -> (r: Self)
        ensures
            r.last() == first@,
            !r.ended(),
    {
        SessionIndexRelay { last: first, ended: false }
    }

    /// Decide what one wake-up does: end as unavailable when the catalogue closed; end as the
    /// authority check says when the grant no longer lists sessions; end as the catalogue says
    /// when it cannot be read; otherwise send the index only when it differs from the last one.
    pub fn next(&mut self, event: SessionIndexEvent) -> (r: RelayAction)
        ensures
            old(self).ended() ==> (r is Stop && final(self).ended() && final(self).last()
                == old(self).last()),
            !old(self).ended() ==> match event {
                SessionIndexEvent::PeerSpoke | SessionIndexEvent::NotSent => r is Stop
                    && final(self).ended(),
                SessionIndexEvent::Changed(None) => r == RelayAction::End(
                    WatchEndReason::RuntimeUnavailable,
                ) && final(self).ended(),
                SessionIndexEvent::Changed(Some((authority, index))) => match authority_end(
                    authority,
                    AppScope::SessionList,
                ) {
                    Some(reason) => r == RelayAction::End(reason) && final(self).ended(),
                    None => match index {
                        Err(failure) => r == RelayAction::End(
                            if failure == RuntimeInventoryFailure::RootAuthorityChanged {
                                WatchEndReason::RootDenied
                            } else {
                                WatchEndReason::RuntimeUnavailable
                            },
                        ) && final(self).ended(),
                        Ok(list) => !final(self).ended() && if list@ == old(self).last() {
                            r is Wait && final(self).last() == old(self).last()
                        } else {
                            r == RelayAction::SendSnapshot(list) && final(self).last() == list@
                        },
                    },
                },
            },
    {
        if self.ended {
            return RelayAction::Stop;
        }
        match event {
            SessionIndexEvent::PeerSpoke | SessionIndexEvent::NotSent => {
                self.ended = true;
                RelayAction::Stop
            },
            SessionIndexEvent::Changed(None) => {
                self.ended = true;
                RelayAction::End(WatchEndReason::RuntimeUnavailable)
            },
            SessionIndexEvent::Changed(Some((authority, index))) => {
                if let Err(reason) = watch_authority(authority, AppScope::SessionList) {
                    self.ended = true;
                    return RelayAction::End(reason);
                }
                match index {
                    Err(failure) => {
                        self.ended = true;
                        RelayAction::End(index_end_reason(failure))
                    },
                    Ok(list) => {
                        if bytes_eq(list.as_slice(), self.last.as_slice()) {
                            return RelayAction::Wait;
                        }
                        self.last = copy_bytes(list.as_slice());
                        RelayAction::SendSnapshot(list)
                    },
                }
            },
        }
    }
}

} // verus!

