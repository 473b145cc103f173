use runtrol_daemon::serve::{lane_refusal, panic_stop_answer};
use runtrol_daemon::serve::{approval_authority, control_failure, invalid_operation_parameters, random_subscription_id, ApprovalScopes};
use runtrol_daemon::auth::{AuthorizedIntegration, IntegrationGrant, IntegrationId, IntegrationKey, IntegrationRow};
use runtrol_daemon::control::ProviderError;
use runtrol_daemon::cursor::NativeCursorFailure;
use runtrol_daemon::inventory::RuntimeInventoryFailure;
use runtrol_daemon::kinds::{AppScope, ErrorKind, RuntimeMethod};
use runtrol_daemon::serve::{
    approval_scopes, authorized_scopes, check_approval_scope, confirmation_failure, cursor_failure,
    inventory_failure, key_rotation_answer, method_needs_provider_refresh, mutation_answer,
    parse_native_session_mutation, parse_session_operation, platform_name, refuse_live_native_claim,
    refuse_supervised, relay_retry, required_scope, route, Bounded, ClaimCheck, ConfirmationError,
    ConnectionPhase, HostArch, HostOs, IntegrationKeyRotation, NativeSessionMutation, PublicAuthority,
    Route, RowLookup, SessionOperation,
};

#[test]
fn native_archive_has_the_same_authority_and_exact_payload_boundary_as_delete() {
    let mutation = parse_native_session_mutation(RuntimeMethod::SessionsArchiveNative)
        .expect("archive parameters stay inside their public DTO");
    assert!(matches!(mutation, NativeSessionMutation::Archive));
    assert_eq!(required_scope(RuntimeMethod::SessionsArchiveNative), Some(AppScope::SessionDelete));
    assert_eq!(required_scope(RuntimeMethod::SessionsDeleteNative), Some(AppScope::SessionDelete));
    assert_eq!(mutation.invalid_parameters(), "native session archival parameters are invalid");
    assert!(parse_native_session_mutation(RuntimeMethod::SessionsList).is_err());
}

#[test]
fn private_control_names_never_enter_the_public_method_table() {
    for private in ["hello", "list", "start", "providerUpdate", "private/control"] {
        assert!(RuntimeMethod::from_name(private).is_none(), "admitted {private:?}");
    }
    assert_eq!(RuntimeMethod::from_name("sessions/start"), Some(RuntimeMethod::SessionsStart));
    assert_eq!(RuntimeMethod::SessionsStart.as_str(), "sessions/start");
}

#[test]
fn provider_refresh_is_absent_from_authenticated_session_streams() {
    for method in [
        RuntimeMethod::ProvidersList,
        RuntimeMethod::ProvidersWatch,
        RuntimeMethod::ProvidersGetCapabilities,
        RuntimeMethod::ProvidersListModels,
        RuntimeMethod::ProvidersListNativeSessions,
        RuntimeMethod::SessionsStart,
        RuntimeMethod::SessionsAdoptNative,
        RuntimeMethod::SessionsResume,
    ] {
        assert!(method_needs_provider_refresh(method), "missing refresh for {method:?}");
    }
    for method in [
        RuntimeMethod::Initialize,
        RuntimeMethod::IntegrationsWatchEnrollment,
        RuntimeMethod::SessionsList,
        RuntimeMethod::SessionsWatchIndex,
        RuntimeMethod::SessionsWatchEvents,
    ] {
        assert!(!method_needs_provider_refresh(method), "unrelated request refreshes providers: {method:?}");
    }
    assert!(!method_needs_provider_refresh(RuntimeMethod::ProvidersNativeActivity));
}

#[test]
fn every_session_lane_method_is_named_and_nothing_else_falls_into_it() {
    assert_eq!(parse_session_operation(RuntimeMethod::ApprovalsRespond), Ok(SessionOperation::RespondApproval));
    assert_eq!(parse_session_operation(RuntimeMethod::SessionsWatchEvents), Ok(SessionOperation::Watch));
    assert_eq!(parse_session_operation(RuntimeMethod::SessionsStart), Err("the method is not a session operation"));
    assert_eq!(route(RuntimeMethod::SessionsSetMode), Route::SessionOperation);
    assert_eq!(route(RuntimeMethod::SessionsResume), Route::OpenSession);
    assert_eq!(route(RuntimeMethod::SessionsEvent), Route::NotARequest);
    assert_eq!(route(RuntimeMethod::PanicStop), Route::PanicStop);
}

#[test]
fn scopes_follow_the_method_table() {
    assert_eq!(required_scope(RuntimeMethod::ProvidersList), Some(AppScope::ProviderRead));
    assert_eq!(required_scope(RuntimeMethod::ProvidersListModels), Some(AppScope::ModelRead));
    assert_eq!(required_scope(RuntimeMethod::ProvidersListNativeSessions), Some(AppScope::SessionNativeDiscover));
    assert_eq!(required_scope(RuntimeMethod::WindowsRegister), Some(AppScope::SessionList));
    assert_eq!(required_scope(RuntimeMethod::SessionsStart), Some(AppScope::SessionStart));
    assert_eq!(required_scope(RuntimeMethod::SessionsResume), Some(AppScope::SessionResume));
    assert_eq!(required_scope(RuntimeMethod::TerminalsStop), Some(AppScope::SessionInputWrite));
    assert_eq!(required_scope(RuntimeMethod::ApprovalsListPending), Some(AppScope::SessionOutputRead));
    assert_eq!(required_scope(RuntimeMethod::SessionsCool), Some(AppScope::SessionStop));
    assert_eq!(required_scope(RuntimeMethod::ApprovalsRespond), None);
    assert_eq!(required_scope(RuntimeMethod::Initialize), None);
}

#[test]
fn approval_responses_need_an_approval_scope() {
    let scopes = approval_scopes(&vec![AppScope::SessionList, AppScope::ApprovalRespondHigh]);
    assert!(!scopes.low && scopes.high);
    assert!(check_approval_scope(RuntimeMethod::ApprovalsRespond, scopes).is_ok());
    let none = approval_scopes(&vec![AppScope::SessionList]);
    assert_eq!(check_approval_scope(RuntimeMethod::ApprovalsRespond, none).expect_err("no scope").kind, ErrorKind::ScopeDenied);
    assert!(check_approval_scope(RuntimeMethod::ApprovalsListPending, none).is_ok());
}

#[test]
fn platform_names_cover_every_build() {
    assert_eq!(platform_name(HostOs::Windows, HostArch::X86_64), "windows-x86_64");
    assert_eq!(platform_name(HostOs::MacOs, HostArch::Aarch64), "macos-aarch64");
    assert_eq!(platform_name(HostOs::Linux, HostArch::X86_64), "linux-x86_64");
}

#[test]
fn failures_read_in_the_public_vocabulary() {
    let root = inventory_failure(RuntimeInventoryFailure::RootAuthorityChanged);
    assert_eq!(root.kind, ErrorKind::RootDenied);
    let expired = cursor_failure(NativeCursorFailure::Expired);
    let invalid = cursor_failure(NativeCursorFailure::Invalid);
    assert_eq!(expired.kind, ErrorKind::InvalidRequest);
    assert_eq!(expired.message, invalid.message, "an expired cursor reads like an invalid one");
    assert_eq!(cursor_failure(NativeCursorFailure::TooManyPages).kind, ErrorKind::ResourceExhausted);
    let confirmation = confirmation_failure(ConfirmationError::ResourceExhausted, "shared session open");
    assert_eq!(confirmation.message, "too many shared session open requests are awaiting local confirmation");
    assert_eq!(
        confirmation_failure(ConfirmationError::InvalidRequestId, "shared session open").message,
        "the shared session open request identity is invalid or outside its bounded lifetime"
    );
}

#[test]
fn native_mutation_refusals_and_answers() {
    assert!(refuse_live_native_claim(ClaimCheck::Free).is_none());
    assert_eq!(refuse_live_native_claim(ClaimCheck::Claimed).expect("busy").kind, ErrorKind::NativeConversationBusy);
    assert_eq!(refuse_supervised(Ok(Some("session".to_owned()))).expect("supervised").kind, ErrorKind::SessionConflict);
    assert!(refuse_supervised(Ok(None)).is_none());
    assert!(mutation_answer(NativeSessionMutation::Delete, Bounded::Answered(true), Bounded::Answered(Ok(())), Ok(())).is_ok());
    let lost = mutation_answer(
        NativeSessionMutation::Delete,
        Bounded::Answered(true),
        Bounded::Answered(Ok(())),
        Err("database is locked".to_owned()),
    )
    .expect_err("pointer");
    assert_eq!(lost.kind, ErrorKind::RuntimeUnavailable);
    assert_eq!(
        lost.message,
        "the coding service deleted the conversation, but Runtrol could not forget its own pointer to it: database is locked"
    );
    assert!(mutation_answer(
        NativeSessionMutation::Archive,
        Bounded::Answered(true),
        Bounded::Answered(Ok(())),
        Err("unused".to_owned())
    )
    .is_ok());
    let timed_out = mutation_answer(NativeSessionMutation::Archive, Bounded::Answered(true), Bounded::TimedOut, Ok(())).expect_err("late");
    assert_eq!(timed_out.message, "the provider did not answer the archival within its bounded deadline");
    assert_eq!(
        mutation_answer(NativeSessionMutation::Delete, Bounded::Answered(true), Bounded::Answered(Err(ProviderError::Unsupported)), Ok(())).expect_err("refused").kind,
        ErrorKind::CapabilityUnavailable
    );
    assert_eq!(
        mutation_answer(NativeSessionMutation::Delete, Bounded::Answered(false), Bounded::TimedOut, Ok(())).expect_err("unprepared").kind,
        ErrorKind::ProviderUnavailable
    );
}

fn grant(generation: u64, scopes: Vec<AppScope>) -> IntegrationGrant {
    IntegrationGrant {
        integration_id: IntegrationId::new("int_fixture"),
        scopes,
        roots: Vec::new(),
        key_generation: 1,
        grant_generation: generation,
    }
}

fn row(generation: u64, scopes: &[&str], revoked: bool) -> IntegrationRow {
    IntegrationRow {
        public_key: [1; 32],
        key_generation: 1,
        grant_generation: generation,
        scopes: scopes.iter().map(|s| s.to_string()).collect(),
        roots: Vec::new(),
        revoked_at: if revoked { Some(5) } else { None },
    }
}

fn authorized(scopes: Vec<AppScope>) -> PublicAuthority {
    PublicAuthority::Authorized(AuthorizedIntegration {
        key: IntegrationKey::from_bytes([2; 16]),
        grant: grant(1, scopes),
        roots: Vec::new(),
    })
}

#[test]
fn only_a_ready_authorized_connection_with_the_scope_has_authority() {
    let needed = [AppScope::SessionList];
    let ok = authorized_scopes(ConnectionPhase::Ready, &authorized(vec![AppScope::SessionList]), RowLookup::Row(row(1, &["sessions.list"], false)), &needed);
    assert!(ok.is_ok());
    let early = authorized_scopes(ConnectionPhase::Negotiated, &authorized(vec![AppScope::SessionList]), RowLookup::Row(row(1, &["sessions.list"], false)), &needed);
    assert_eq!(early.expect_err("not ready").kind, ErrorKind::NotInitialized);
    let anonymous = authorized_scopes(ConnectionPhase::Ready, &PublicAuthority::Anonymous, RowLookup::Missing, &needed);
    assert_eq!(anonymous.expect_err("anonymous").kind, ErrorKind::Unauthenticated);
    let revoked = authorized_scopes(ConnectionPhase::Ready, &authorized(vec![AppScope::SessionList]), RowLookup::Row(row(1, &["sessions.list"], true)), &needed);
    assert_eq!(revoked.expect_err("revoked").kind, ErrorKind::IntegrationRevoked);
    let missing = authorized_scopes(ConnectionPhase::Ready, &authorized(vec![AppScope::SessionList]), RowLookup::Missing, &needed);
    assert_eq!(missing.expect_err("missing").kind, ErrorKind::Unauthenticated);
    let lacking = authorized_scopes(ConnectionPhase::Ready, &authorized(vec![AppScope::SessionList]), RowLookup::Row(row(1, &["sessions.list"], false)), &[AppScope::SessionStart]);
    assert_eq!(lacking.expect_err("scope").kind, ErrorKind::ScopeDenied);
    // A widened grant continues in place and carries its new scope.
    let widened = authorized_scopes(ConnectionPhase::Ready, &authorized(vec![AppScope::SessionList]), RowLookup::Row(row(2, &["sessions.list", "sessions.start"], false)), &[AppScope::SessionStart]);
    assert_eq!(widened.expect("widened").grant.grant_generation, 2);
}

#[test]
fn a_draining_generation_waits_a_bounded_number_of_relay_rounds() {
    assert!(relay_retry(ErrorKind::RuntimeUnavailable, true, 0));
    assert!(relay_retry(ErrorKind::RuntimeUnavailable, true, 5));
    assert!(!relay_retry(ErrorKind::RuntimeUnavailable, true, 6));
    assert!(!relay_retry(ErrorKind::RuntimeUnavailable, false, 0));
    assert!(!relay_retry(ErrorKind::Unauthenticated, true, 0));
}

#[test]
fn a_fresh_rotation_closes_the_connection_and_a_replay_does_not() {
    let id = || IntegrationId::new("int_fixture");
    let rotated = key_rotation_answer(id(), IntegrationKeyRotation::Rotated(row(3, &["sessions.list"], false))).expect("rotated");
    assert!(rotated.close_connection);
    assert_eq!(rotated.grant.grant_generation, 3);
    let replayed = key_rotation_answer(id(), IntegrationKeyRotation::Replayed(row(3, &["sessions.list"], false))).expect("replayed");
    assert!(!replayed.close_connection);
    assert_eq!(key_rotation_answer(id(), IntegrationKeyRotation::Conflict).expect_err("conflict").kind, ErrorKind::IdempotencyConflict);
    assert_eq!(key_rotation_answer(id(), IntegrationKeyRotation::Revoked).expect_err("revoked").kind, ErrorKind::IntegrationRevoked);
    assert_eq!(key_rotation_answer(id(), IntegrationKeyRotation::StoreFailed).expect_err("store").kind, ErrorKind::Internal);
}

#[test]
fn deleting_a_native_conversation_forgets_only_its_own_pointers() {
    let pointer = |session: u8, provider: &str, native: &str| runtrol_daemon::serve::StoredPointer {
        session: [session; 16],
        provider: provider.to_owned(),
        native: native.to_owned(),
    };
    let listed = vec![
        pointer(1, "provider-a", "deleted-one"),
        pointer(2, "provider-a", "deleted-one"),
        pointer(3, "provider-a", "kept-one"),
        pointer(4, "provider-b", "deleted-one"),
    ];
    let forgotten = runtrol_daemon::serve::pointers_of(&listed, "provider-a", "deleted-one");
    assert_eq!(forgotten.len(), 2, "both pointers to the deleted conversation go");
    let remaining: Vec<[u8; 16]> = listed
        .iter()
        .map(|p| p.session)
        .filter(|session| !forgotten.contains(session))
        .collect();
    assert_eq!(remaining, vec![[3; 16], [4; 16]], "another conversation and another provider keep theirs");
}

#[test]
fn public_event_wrapper_preserves_the_existing_event_bytes() {
    let encoded = br#"{"jsonrpc":"2.0","method":"sessions/event","params":{"subscriptionId":"sub_fixture","sessionId":"session_fixture","event":null,"nextExpected":{"stream":"019c0000-0000-7000-8000-000000000001","epoch":2,"seq":9}}}"#.to_vec();
    let event = br#"{"body":{"text":"exact caller and provider bytes"}}"#;
    let (prefix, suffix) = runtrol_daemon::serve::event_notification_edges(encoded).expect("event edges");
    let mut frame = prefix;
    frame.extend_from_slice(event);
    frame.extend_from_slice(&suffix);
    let notification: serde_json::Value = serde_json::from_slice(&frame).expect("valid notification");
    assert_eq!(notification["method"], runtrol_daemon::kinds::RuntimeMethod::SessionsEvent.as_str());
    let expected: serde_json::Value = serde_json::from_slice(event).expect("valid event");
    assert_eq!(notification["params"]["event"], expected);
    assert!(frame.windows(event.len()).any(|window| window == event));
    assert!(runtrol_daemon::serve::event_notification_edges(b"{\"event\":1}".to_vec()).is_none());
}

#[test]
fn session_lane_refusals_name_the_operation() {
    assert_eq!(invalid_operation_parameters(SessionOperation::Cool), "session cooling parameters are invalid");
    assert_eq!(invalid_operation_parameters(SessionOperation::Submit), "session input parameters are invalid");
    let id = random_subscription_id().expect("randomness");
    assert!(id.starts_with("sub_"));
    assert_eq!(id.len(), 4 + 32);
    assert_ne!(id, random_subscription_id().expect("randomness"));
    assert!(approval_authority(ApprovalScopes { low: false, high: true }));
    assert!(!approval_authority(ApprovalScopes { low: true, high: false }));
    let failure = control_failure(&runtrol_daemon::control::lease_expired());
    assert_eq!(failure.kind, ErrorKind::LeaseExpired);
}

#[test]
fn terminals_are_unavailable_and_notifications_are_not_requests() {
    let terminal = lane_refusal(route(RuntimeMethod::TerminalsWrite)).expect("refused");
    assert_eq!(terminal.kind, ErrorKind::CapabilityUnavailable);
    assert_eq!(terminal.message, "the public terminal surface is not available in this Runtime generation");
    let notice = lane_refusal(route(RuntimeMethod::SessionsEvent)).expect("refused");
    assert_eq!(notice.kind, ErrorKind::InvalidRequest);
    assert_eq!(notice.message, "the method is not a client request in the current state");
    assert!(lane_refusal(route(RuntimeMethod::SessionsList)).is_none());
    assert!(lane_refusal(Route::PanicStop).is_none());
}

#[test]
fn a_panic_stop_needs_empty_parameters_and_every_process_stopped() {
    assert!(panic_stop_answer(true, true).is_ok());
    let bad = panic_stop_answer(false, true).expect_err("invalid parameters");
    assert_eq!((bad.kind, bad.message.as_str()), (ErrorKind::InvalidRequest, "panic stop parameters are invalid"));
    let partial = panic_stop_answer(true, false).expect_err("not every process stopped");
    assert_eq!(partial.kind, ErrorKind::Internal);
    assert_eq!(partial.message, "Runtime could not stop every supervised process");
}
