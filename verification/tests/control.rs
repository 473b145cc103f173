use runtrol_daemon::control::{
    CoolSessionParams, ForgetSessionParams, RespondApprovalParams, SetModeParams, SetModelParams, SubmitInputParams,
};
use runtrol_daemon::control::{copy_outcome, durable_state, DurableState};
use runtrol_daemon::control::{
    pending_approval, ApprovalKind, ApprovalRequest, OfferedOption, PermissionOptionKind, RiskClass,
    RuntimeApprovalKind, RuntimeApprovalOptionKind, RuntimeApprovalRisk,
};
use runtrol_daemon::serve::ApprovalScopes;
use runtrol_daemon::control::{
    approval_failure, check_cool, check_forget, check_input, check_mode_switch, check_model_switch,
    check_open, open_failure, provider_failure, public_lifecycle, AcquireControlParams, Begun,
    ControlLeaseParams, DurableCheck, DurableWrite, Lifecycle, LiveSession, Lookup, MutationOutcome,
    ProviderError, RuntimeControl, RuntimeControlReply, RuntimeOpenRequest, SessionError,
    StoredMutation, StoredSession, MAX_INPUT_BYTES,
};
use runtrol_daemon::kinds::{ErrorKind, LifecycleState, MutationRequestId, RuntimeMethod, WorkspaceAccess};

/// One of each coding-service failure this build can name.
fn every_provider_error() -> Vec<ProviderError> {
    vec![
        ProviderError::BinNotFound,
        ProviderError::BinAmbiguous,
        ProviderError::Spawn,
        ProviderError::Protocol,
        ProviderError::Timeout,
        ProviderError::AuthRequired,
        ProviderError::Quota,
        ProviderError::Unsupported,
        ProviderError::NativeRefused,
        ProviderError::Io,
    ]
}

#[test]
fn a_coding_service_that_needs_signing_in_says_so_and_not_something_else() {
    let failure = provider_failure(ProviderError::AuthRequired);
    assert_eq!(failure.kind, ErrorKind::PresenceRequired);
}

#[test]
fn no_coding_service_failure_is_reported_as_a_stale_pointer() {
    for error in every_provider_error() {
        let failure = provider_failure(error);
        assert_ne!(failure.kind, ErrorKind::SessionConflict, "{error:?} was reported as a stale pointer");
        assert_ne!(failure.kind, ErrorKind::Internal, "{error:?} was reported as an internal fault");
    }
}

#[test]
fn the_four_errands_a_person_can_act_on_stay_apart() {
    let kinds = [
        provider_failure(ProviderError::BinNotFound).kind,
        provider_failure(ProviderError::AuthRequired).kind,
        provider_failure(ProviderError::Quota).kind,
        provider_failure(ProviderError::Unsupported).kind,
    ];
    for (index, kind) in kinds.iter().enumerate() {
        for other in kinds.iter().skip(index + 1) {
            assert_ne!(kind, other, "two distinct errands share one category");
        }
    }
}

#[test]
fn opening_and_answering_an_approval_translate_a_provider_failure_the_same_way() {
    for error in every_provider_error() {
        let direct = provider_failure(error);
        let opening = open_failure(SessionError::Provider(error));
        assert_eq!(direct.kind, opening.kind);
        assert_eq!(direct.message, opening.message);
    }
    for error in every_provider_error() {
        let direct = provider_failure(error);
        let approving = approval_failure(SessionError::Provider(error));
        assert_eq!(direct.kind, approving.kind);
        assert_eq!(direct.message, approving.message);
    }
}

#[test]
fn every_translated_message_reads_as_a_sentence_about_the_coding_service() {
    for error in every_provider_error() {
        let failure = provider_failure(error);
        assert!(failure.message.len() > 20, "{error:?} produced a message too short to explain anything");
        assert!(
            !failure.message.contains("pointer") && !failure.message.contains("Runtime"),
            "{error:?} produced a message about the transport rather than the service"
        );
    }
}

#[test]
fn session_owner_refusals_keep_their_own_kinds() {
    assert_eq!(open_failure(SessionError::WorkspaceOccupied).kind, ErrorKind::WorkspaceConflict);
    assert_eq!(open_failure(SessionError::NoRoom).kind, ErrorKind::ResourceExhausted);
    assert_eq!(open_failure(SessionError::ProviderUpdating).kind, ErrorKind::ProviderUnavailable);
    assert_eq!(open_failure(SessionError::NotLive).kind, ErrorKind::SessionConflict);
    assert_eq!(approval_failure(SessionError::ApprovalExpired).kind, ErrorKind::ApprovalExpired);
    assert_eq!(approval_failure(SessionError::ApprovalSubjectChanged).kind, ErrorKind::ApprovalOptionInvalid);
    assert_eq!(approval_failure(SessionError::NotLive).kind, ErrorKind::SessionNotFound);
    assert_eq!(approval_failure(SessionError::Security).kind, ErrorKind::ScopeDenied);
    assert_eq!(provider_failure(ProviderError::Other).message, "this coding service could not open a session");
}

#[test]
fn core_lifecycles_map_to_public_ones() {
    assert_eq!(public_lifecycle(Lifecycle::Idle), LifecycleState::HotIdle);
    assert_eq!(public_lifecycle(Lifecycle::Busy), LifecycleState::HotRunning);
    assert_eq!(public_lifecycle(Lifecycle::Failed), LifecycleState::Failed);
    assert_eq!(public_lifecycle(Lifecycle::Starting), LifecycleState::Cold);
    assert_eq!(public_lifecycle(Lifecycle::Closed), LifecycleState::Cold);
}

const NOW: u64 = 1_700_000_000_000;

fn request(bytes: u8) -> MutationRequestId {
    MutationRequestId { unix_millis: Some(NOW), bytes: Some([bytes; 16]) }
}

fn begin_fresh(control: &mut RuntimeControl, integration: [u8; 16], method: RuntimeMethod, id: &MutationRequestId, tag: [u8; 32]) -> runtrol_daemon::control::MutationKey {
    match control.begin(&integration, method, id, &tag, NOW).expect("in window") {
        Begun::New(key) => control
            .record_pending(key, method, tag, DurableCheck::Created)
            .expect("created"),
        Begun::Replay(_) => panic!("a fresh identity must not replay"),
    }
}

#[test]
fn a_settled_mutation_replays_exactly_and_a_changed_one_conflicts() {
    let mut control = RuntimeControl::new().expect("randomness");
    let integration = [4u8; 16];
    let id = request(9);
    let key = begin_fresh(&mut control, integration, RuntimeMethod::SessionsInterrupt, &id, [1; 32]);

    let pending = control.begin(&integration, RuntimeMethod::SessionsInterrupt, &id, &[1; 32], NOW);
    assert_eq!(pending.expect_err("unsettled").kind, ErrorKind::OutcomeUnknown);

    control.finish(&key, MutationOutcome::Done, DurableWrite::Written).expect("settled");
    match control.begin(&integration, RuntimeMethod::SessionsInterrupt, &id, &[1; 32], NOW) {
        Ok(Begun::Replay(RuntimeControlReply::Done)) => {}
        other => panic!("expected the settled reply, got {other:?}"),
    }
    let changed = control.begin(&integration, RuntimeMethod::SessionsInterrupt, &id, &[2; 32], NOW);
    assert_eq!(changed.expect_err("conflict").kind, ErrorKind::IdempotencyConflict);
    let other_method = control.begin(&integration, RuntimeMethod::SessionsCool, &id, &[1; 32], NOW);
    assert_eq!(other_method.expect_err("conflict").kind, ErrorKind::IdempotencyConflict);
    // Another integration reusing the same request bytes starts its own mutation.
    match control.begin(&[5u8; 16], RuntimeMethod::SessionsInterrupt, &id, &[1; 32], NOW) {
        Ok(Begun::New(_)) => {}
        other => panic!("another integration's identity is fresh, got {other:?}"),
    }
}

#[test]
fn a_denied_mutation_replays_its_refusal() {
    let mut control = RuntimeControl::new().expect("randomness");
    let integration = [6u8; 16];
    let id = request(3);
    let key = begin_fresh(&mut control, integration, RuntimeMethod::SessionsCool, &id, [7; 32]);
    let failure = runtrol_daemon::control::lease_expired();
    match control.deny(&key, failure, DurableWrite::Written) {
        RuntimeControlReply::Failed(f) => assert_eq!(f, failure),
        other => panic!("expected the refusal, got {other:?}"),
    }
    match control.begin(&integration, RuntimeMethod::SessionsCool, &id, &[7; 32], NOW) {
        Ok(Begun::Replay(RuntimeControlReply::Failed(f))) => assert_eq!(f.kind, ErrorKind::LeaseExpired),
        other => panic!("expected the replayed refusal, got {other:?}"),
    }
}

#[test]
fn mutation_identities_outside_the_window_are_refused() {
    let control = RuntimeControl::new().expect("randomness");
    let no_time = MutationRequestId { unix_millis: None, bytes: Some([1; 16]) };
    assert_eq!(control.begin(&[1; 16], RuntimeMethod::SessionsCool, &no_time, &[0; 32], NOW).expect_err("no time").kind, ErrorKind::InvalidRequest);
    let future = MutationRequestId { unix_millis: Some(NOW + 30_001), bytes: Some([1; 16]) };
    assert_eq!(control.begin(&[1; 16], RuntimeMethod::SessionsCool, &future, &[0; 32], NOW).expect_err("future").kind, ErrorKind::InvalidRequest);
    let slightly_ahead = MutationRequestId { unix_millis: Some(NOW + 30_000), bytes: Some([1; 16]) };
    assert!(control.begin(&[1; 16], RuntimeMethod::SessionsCool, &slightly_ahead, &[0; 32], NOW).is_ok());
    let stale = MutationRequestId { unix_millis: Some(NOW - 86_400_001), bytes: Some([1; 16]) };
    assert_eq!(control.begin(&[1; 16], RuntimeMethod::SessionsCool, &stale, &[0; 32], NOW).expect_err("stale").kind, ErrorKind::OutcomeUnknown);
    let no_bytes = MutationRequestId { unix_millis: Some(NOW), bytes: None };
    assert_eq!(control.begin(&[1; 16], RuntimeMethod::SessionsCool, &no_bytes, &[0; 32], NOW).expect_err("no bytes").kind, ErrorKind::InvalidRequest);
}

#[test]
fn the_durable_ledger_decides_a_fresh_identity() {
    let mut control = RuntimeControl::new().expect("randomness");
    let id = request(1);
    let key = match control.begin(&[1; 16], RuntimeMethod::SessionsCool, &id, &[0; 32], NOW).expect("window") {
        Begun::New(key) => key,
        Begun::Replay(_) => panic!("fresh"),
    };
    assert_eq!(control.record_pending(key, RuntimeMethod::SessionsCool, [0; 32], DurableCheck::Failed).expect_err("failed").kind, ErrorKind::Internal);
    assert_eq!(control.record_pending(key, RuntimeMethod::SessionsCool, [0; 32], DurableCheck::Full).expect_err("full").kind, ErrorKind::ResourceExhausted);
    let earlier_boot = StoredMutation { boot_id: [0xEE; 16], method: "sessions/cool".to_owned(), authenticator: [0; 32] };
    assert_eq!(control.record_pending(key, RuntimeMethod::SessionsCool, [0; 32], DurableCheck::Found(earlier_boot)).expect_err("earlier boot").kind, ErrorKind::OutcomeUnknown);
    // Nothing was remembered, so the identity is still fresh.
    assert!(matches!(control.begin(&[1; 16], RuntimeMethod::SessionsCool, &id, &[0; 32], NOW), Ok(Begun::New(_))));
    assert_eq!(control.finish(&key, MutationOutcome::Pending, DurableWrite::Written).expect_err("pending").kind, ErrorKind::Internal);
    assert_eq!(control.finish(&key, MutationOutcome::Done, DurableWrite::Refused).expect_err("refused").kind, ErrorKind::OutcomeUnknown);
    assert_eq!(control.finish(&key, MutationOutcome::Done, DurableWrite::Written).expect_err("unknown key").kind, ErrorKind::OutcomeUnknown);
}

fn live(stream: u64, lifecycle: LifecycleState, generation: u64) -> Option<LiveSession> {
    Some(LiveSession { stream, lifecycle, generation })
}

#[test]
fn a_lease_gives_its_holder_control_until_released() {
    let mut control = RuntimeControl::new().expect("randomness");
    let holder = [1u8; 16];
    let other = [2u8; 16];
    let session = [3u8; 16];
    let observed = live(7, LifecycleState::HotIdle, 4);
    let lease = control
        .acquire(&holder, &session, "session_a", observed, LifecycleState::HotIdle, 4, NOW)
        .expect("free session");
    assert!(lease.lease_id.starts_with("lease_"));
    assert_eq!(lease.lease_id.len(), 6 + 32);
    assert_eq!(lease.session_id, "session_a");
    assert_eq!(lease.session_generation, 4);
    assert_eq!(lease.lease_generation, 1);
    assert_eq!(lease.expires_at_ms, NOW + 30_000);

    assert!(control.verify_lease_values(observed, &holder, &session, &lease.lease_id, 1, NOW + 30_000).is_ok());
    assert_eq!(control.verify_lease_values(observed, &holder, &session, &lease.lease_id, 1, NOW + 30_001).expect_err("expired").kind, ErrorKind::LeaseExpired);
    assert_eq!(control.verify_lease_values(observed, &other, &session, &lease.lease_id, 1, NOW).expect_err("other").kind, ErrorKind::ControlConflict);
    assert_eq!(control.verify_lease_values(observed, &holder, &session, &lease.lease_id, 2, NOW).expect_err("generation").kind, ErrorKind::ControlConflict);
    assert_eq!(control.verify_lease_values(None, &holder, &session, &lease.lease_id, 1, NOW).expect_err("not live").kind, ErrorKind::SessionNotFound);
    assert_eq!(control.verify_lease_values(live(8, LifecycleState::HotIdle, 4), &holder, &session, &lease.lease_id, 1, NOW).expect_err("new stream").kind, ErrorKind::ControlConflict);

    // Nobody acquires a session while its lease is current, not even the holder.
    assert_eq!(control.acquire(&other, &session, "session_a", observed, LifecycleState::HotIdle, 4, NOW).expect_err("held").kind, ErrorKind::ControlConflict);

    let renewed = control.renew(&holder, &session, &lease.lease_id, 1, observed, NOW + 10).expect("renew");
    assert_eq!(renewed.lease_id, lease.lease_id);
    assert_eq!(renewed.lease_generation, 2);
    assert_eq!(renewed.expires_at_ms, NOW + 10 + 30_000);
    assert_eq!(control.verify_lease_values(observed, &holder, &session, &lease.lease_id, 1, NOW).expect_err("old generation").kind, ErrorKind::ControlConflict);

    control.release(&holder, &session, &lease.lease_id, 2, observed, NOW + 20).expect("release");
    assert_eq!(control.verify_lease_values(observed, &holder, &session, &lease.lease_id, 2, NOW).expect_err("released").kind, ErrorKind::LeaseExpired);
    let again = control.acquire(&other, &session, "session_a", observed, LifecycleState::HotIdle, 4, NOW + 30).expect("free again");
    assert_eq!(again.lease_generation, 3, "generations are never reused");
}

#[test]
fn acquiring_needs_the_exact_observed_session() {
    let mut control = RuntimeControl::new().expect("randomness");
    let session = [3u8; 16];
    assert_eq!(control.acquire(&[1; 16], &session, "s", None, LifecycleState::HotIdle, 0, NOW).expect_err("not live").kind, ErrorKind::SessionNotFound);
    let changed = control.acquire(&[1; 16], &session, "s", live(1, LifecycleState::HotRunning, 5), LifecycleState::HotIdle, 5, NOW).expect_err("changed");
    assert_eq!(changed.kind, ErrorKind::SessionConflict);
    assert_eq!(changed.message, "the session changed after the caller observed it");
}

#[test]
fn an_expired_lease_on_a_running_session_still_keeps_others_out() {
    let mut control = RuntimeControl::new().expect("randomness");
    let session = [3u8; 16];
    let running = live(1, LifecycleState::HotRunning, 2);
    control.acquire(&[1; 16], &session, "s", running, LifecycleState::HotRunning, 2, NOW).expect("first");
    let later = NOW + 60_000;
    assert_eq!(control.acquire(&[2; 16], &session, "s", running, LifecycleState::HotRunning, 2, later).expect_err("running").kind, ErrorKind::ControlConflict);
    assert!(control.acquire(&[1; 16], &session, "s", running, LifecycleState::HotRunning, 2, later).is_ok());
}

#[test]
fn authenticators_bind_every_parameter() {
    let control = RuntimeControl::new().expect("randomness");
    let params = ControlLeaseParams { request_id: request(1), session_id: "s".to_owned(), lease_id: "lease_a".to_owned(), lease_generation: 1 };
    let same = ControlLeaseParams { request_id: request(2), session_id: "s".to_owned(), lease_id: "lease_a".to_owned(), lease_generation: 1 };
    let other = ControlLeaseParams { request_id: request(1), session_id: "s".to_owned(), lease_id: "lease_a".to_owned(), lease_generation: 2 };
    let a = control.authenticate_lease(RuntimeMethod::SessionsRenewControl, &params);
    assert_eq!(a, control.authenticate_lease(RuntimeMethod::SessionsRenewControl, &same));
    assert_ne!(a, control.authenticate_lease(RuntimeMethod::SessionsRenewControl, &other));
    assert_ne!(a, control.authenticate_lease(RuntimeMethod::SessionsReleaseControl, &params));
    let acquire = AcquireControlParams { request_id: request(1), session_id: "s".to_owned(), expected_lifecycle: LifecycleState::HotIdle, expected_session_generation: 1 };
    let acquire_running = AcquireControlParams { request_id: request(1), session_id: "s".to_owned(), expected_lifecycle: LifecycleState::HotRunning, expected_session_generation: 1 };
    assert_ne!(control.authenticate_acquire(&acquire), control.authenticate_acquire(&acquire_running));
    let another_boot = RuntimeControl::new().expect("randomness");
    assert_ne!(a, another_boot.authenticate_lease(RuntimeMethod::SessionsRenewControl, &params));
}

#[test]
fn transport_bounds_refuse_before_any_ledger_work() {
    assert!(check_input("hello").is_ok());
    assert!(check_input(&"x".repeat(MAX_INPUT_BYTES)).is_ok());
    assert_eq!(check_input(&"x".repeat(MAX_INPUT_BYTES + 1)).expect_err("oversized").kind, ErrorKind::InvalidRequest);
    assert!(check_model_switch("model-large", &None).is_ok());
    assert!(check_model_switch("", &None).is_err());
    assert!(check_model_switch("model-large", &Some(String::new())).is_err());
    assert!(check_model_switch(&"m".repeat(257), &None).is_err());
    assert!(check_mode_switch("plan").is_ok());
    assert!(check_mode_switch("").is_err());
    assert!(check_mode_switch(&"m".repeat(65)).is_err());
}

#[test]
fn cooling_and_forgetting_need_the_exact_session_state() {
    assert!(check_cool(live(1, LifecycleState::HotIdle, 3), 3).is_ok());
    assert_eq!(check_cool(live(1, LifecycleState::HotRunning, 3), 3).expect_err("running").kind, ErrorKind::SessionConflict);
    assert_eq!(check_cool(live(1, LifecycleState::HotIdle, 2), 3).expect_err("generation").kind, ErrorKind::SessionConflict);
    assert_eq!(check_cool(None, 3).expect_err("gone").kind, ErrorKind::SessionNotFound);
    assert!(check_forget(None).is_ok());
    assert_eq!(check_forget(live(1, LifecycleState::Cold, 0)).expect_err("live").kind, ErrorKind::SessionConflict);
}

fn open_request(method: RuntimeMethod, native: Option<&str>, expected: Option<(LifecycleState, u64)>) -> RuntimeOpenRequest {
    RuntimeOpenRequest {
        method,
        request_id: request(1),
        provider: "provider".to_owned(),
        session: Some([9; 16]),
        native: native.map(str::to_owned),
        workspace: "/work".to_owned(),
        access: WorkspaceAccess::Exclusive,
        model: None,
        reasoning_effort: None,
        permission: None,
        expected,
        proof: None,
    }
}

#[test]
fn a_prepared_open_is_checked_against_the_owner_and_the_store() {
    let start = open_request(RuntimeMethod::SessionsStart, None, None);
    assert!(check_open(&start, None, Lookup::Absent, Lookup::Absent).is_ok());

    let adopt = open_request(RuntimeMethod::SessionsAdoptNative, Some("native-1"), None);
    assert!(check_open(&adopt, None, Lookup::Absent, Lookup::Absent).is_ok());
    assert_eq!(check_open(&adopt, None, Lookup::Found(true), Lookup::Absent).expect_err("managed").kind, ErrorKind::SessionConflict);
    assert_eq!(check_open(&adopt, None, Lookup::Failed, Lookup::Absent).expect_err("store").kind, ErrorKind::Internal);

    let resume = open_request(RuntimeMethod::SessionsResume, Some("native-1"), Some((LifecycleState::Cold, 0)));
    let stored = || StoredSession { provider: "provider".to_owned(), native: "native-1".to_owned(), cwd: "/work".to_owned() };
    assert!(check_open(&resume, None, Lookup::Absent, Lookup::Found(stored())).is_ok());
    assert_eq!(check_open(&resume, live(1, LifecycleState::HotIdle, 0), Lookup::Absent, Lookup::Found(stored())).expect_err("now hot").kind, ErrorKind::SessionConflict);
    assert_eq!(check_open(&resume, None, Lookup::Absent, Lookup::Absent).expect_err("no pointer").kind, ErrorKind::SessionNotFound);
    let moved = StoredSession { provider: "provider".to_owned(), native: "native-1".to_owned(), cwd: "/elsewhere".to_owned() };
    assert_eq!(check_open(&resume, None, Lookup::Absent, Lookup::Found(moved)).expect_err("moved").kind, ErrorKind::SessionConflict);
}

#[test]
fn the_opener_holds_control_of_the_session_it_opened() {
    let mut control = RuntimeControl::new().expect("randomness");
    let opener = [4u8; 16];
    let session = [5u8; 16];
    let generation = control.allocate_lease_generation().expect("generation");
    let opened = LiveSession { stream: 11, lifecycle: LifecycleState::HotIdle, generation: 1 };
    let lease = control.grant_opened(&opener, &session, "ses_opened", "lease_opened".to_owned(), generation, opened, NOW);
    assert_eq!(lease.lease_id, "lease_opened");
    assert_eq!(lease.session_id, "ses_opened");
    assert_eq!(lease.session_generation, 1);
    assert_eq!(lease.lease_generation, generation);
    assert_eq!(lease.expires_at_ms, NOW + 30_000);
    assert!(control.verify_lease_values(Some(opened), &opener, &session, "lease_opened", generation, NOW).is_ok());
    assert_eq!(
        control.verify_lease_values(Some(opened), &[6; 16], &session, "lease_opened", generation, NOW).expect_err("other").kind,
        ErrorKind::ControlConflict
    );
}

#[test]
fn a_provider_command_settles_only_when_it_succeeded_and_the_agent_came_back() {
    let mut control = RuntimeControl::new().expect("randomness");
    let integration = [8u8; 16];
    let id = request(21);
    let key = begin_fresh(&mut control, integration, RuntimeMethod::SessionsSubmitInput, &id, [2; 32]);
    let lost = control.finish_command(&key, false, Ok(()), DurableWrite::Written).expect_err("agent lost");
    assert_eq!(lost.kind, ErrorKind::OutcomeUnknown);
    let failed = control.finish_command(&key, true, Err(ProviderError::Io), DurableWrite::Written).expect_err("provider failed");
    assert_eq!(failed.kind, ErrorKind::OutcomeUnknown);
    // Still pending: a retry is told the outcome is unknown rather than run twice.
    assert_eq!(
        control.begin(&integration, RuntimeMethod::SessionsSubmitInput, &id, &[2; 32], NOW).expect_err("pending").kind,
        ErrorKind::OutcomeUnknown
    );
    control.finish_command(&key, true, Ok(()), DurableWrite::Written).expect("settled");
    assert!(matches!(
        control.begin(&integration, RuntimeMethod::SessionsSubmitInput, &id, &[2; 32], NOW),
        Ok(Begun::Replay(RuntimeControlReply::Done))
    ));
}

#[test]
fn a_pending_approval_lists_every_offered_option_and_who_may_choose_it() {
    let request = ApprovalRequest {
        id: "apr_1".to_owned(),
        kind: ApprovalKind::Command,
        risk: RiskClass::High,
        subject_incomplete: false,
        subject_digest: [9; 32],
        expires_at_ms: NOW + 60_000,
    };
    let offered = || {
        vec![
            OfferedOption { option_id: 1, label: "Allow".to_owned(), kind: PermissionOptionKind::AllowOnce, unavailable: None },
            OfferedOption {
                option_id: 2,
                label: "Always".to_owned(),
                kind: PermissionOptionKind::AllowAlways,
                unavailable: Some("high risk needs the high scope".to_owned()),
            },
        ]
    };
    let listed = pending_approval(&request, offered(), ApprovalScopes { low: true, high: false }, Some(b"{}".to_vec()))
        .expect("listed");
    assert_eq!(listed.approval_id, "apr_1");
    assert_eq!(listed.kind, RuntimeApprovalKind::Command);
    assert_eq!(listed.risk, RuntimeApprovalRisk::High);
    assert_eq!(listed.options.len(), 2);
    assert_eq!(listed.options[0].kind, RuntimeApprovalOptionKind::AllowOnce);
    assert_eq!(listed.options[0].unavailable, None);
    assert_eq!(listed.options[1].unavailable.as_deref(), Some("high risk needs the high scope"));
    let unscoped = pending_approval(&request, offered(), ApprovalScopes { low: false, high: false }, Some(Vec::new()))
        .expect("listed");
    assert!(unscoped
        .options
        .iter()
        .all(|o| o.unavailable.as_deref() == Some("the integration has no approval response scope")));
    let untransportable = pending_approval(&request, offered(), ApprovalScopes { low: true, high: true }, None).unwrap_err();
    assert_eq!(untransportable.kind, ErrorKind::Internal);
    assert_eq!(untransportable.message, "the normalized approval subject could not be transported");
}

#[test]
fn every_mutation_authenticator_binds_its_own_parameters() {
    let control = RuntimeControl::new().expect("randomness");
    let submit = |input: &str| SubmitInputParams {
        request_id: request(1),
        session_id: "s".to_owned(),
        lease_id: "lease_a".to_owned(),
        lease_generation: 1,
        input: input.to_owned(),
    };
    assert_eq!(control.authenticate_submit(&submit("hello")), control.authenticate_submit(&submit("hello")));
    assert_ne!(control.authenticate_submit(&submit("hello")), control.authenticate_submit(&submit("hello!")));
    let model = |effort: Option<&str>| SetModelParams {
        request_id: request(1),
        session_id: "s".to_owned(),
        lease_id: "lease_a".to_owned(),
        lease_generation: 1,
        model: "model-a".to_owned(),
        reasoning_effort: effort.map(str::to_owned),
    };
    assert_ne!(control.authenticate_set_model(&model(None)), control.authenticate_set_model(&model(Some("high"))));
    let mode = |mode: &str| SetModeParams {
        request_id: request(1),
        session_id: "s".to_owned(),
        lease_id: "lease_a".to_owned(),
        lease_generation: 1,
        mode: mode.to_owned(),
    };
    assert_ne!(control.authenticate_set_mode(&mode("plan")), control.authenticate_set_mode(&mode("default")));
    let cool = |generation: u64| CoolSessionParams {
        request_id: request(1),
        session_id: "s".to_owned(),
        expected_session_generation: generation,
        lease_id: "lease_a".to_owned(),
        lease_generation: 1,
    };
    assert_ne!(control.authenticate_cool(&cool(1)), control.authenticate_cool(&cool(2)));
    let forget = |generation: u64| ForgetSessionParams {
        request_id: request(1),
        session_id: "s".to_owned(),
        expected_session_generation: generation,
    };
    assert_ne!(control.authenticate_forget(&forget(1)), control.authenticate_forget(&forget(2)));
    let respond = |option: u64| RespondApprovalParams {
        request_id: request(1),
        session_id: "s".to_owned(),
        lease_id: "lease_a".to_owned(),
        lease_generation: 1,
        approval_id: "apr_1".to_owned(),
        option_id: option,
        subject_digest: [0; 32],
    };
    assert_ne!(
        control.authenticate_approval_response(&respond(1)),
        control.authenticate_approval_response(&respond(2))
    );
    let start = open_request(RuntimeMethod::SessionsStart, None, None);
    let resume = open_request(RuntimeMethod::SessionsResume, None, None);
    assert_eq!(control.authenticate_open(&start), control.authenticate_open(&open_request(RuntimeMethod::SessionsStart, None, None)));
    assert_ne!(control.authenticate_open(&start), control.authenticate_open(&resume));
}

#[test]
fn settled_outcomes_are_durable_and_pending_ones_are_not() {
    assert_eq!(durable_state(&MutationOutcome::Pending), None);
    assert_eq!(durable_state(&MutationOutcome::Done), Some(DurableState::Completed));
    let refused = MutationOutcome::Failed(runtrol_daemon::control::lease_expired());
    assert_eq!(durable_state(&refused), Some(DurableState::Denied));
    assert!(matches!(copy_outcome(&refused), MutationOutcome::Failed(f) if f.kind == ErrorKind::LeaseExpired));
}

#[test]
fn a_forgotten_session_loses_its_lease() {
    let mut control = RuntimeControl::new().expect("randomness");
    let holder = [1u8; 16];
    let session = [9u8; 16];
    let observed = live(3, LifecycleState::HotIdle, 1);
    let lease = control.acquire(&holder, &session, "s", observed, LifecycleState::HotIdle, 1, NOW).expect("acquired");
    control.forget_lease(&session);
    assert_eq!(
        control.verify_lease_values(observed, &holder, &session, &lease.lease_id, lease.lease_generation, NOW).expect_err("gone").kind,
        ErrorKind::LeaseExpired
    );
}
