use runtrol_daemon::auth::AuthorizationFailure;
use runtrol_daemon::control::{ProviderError, RuntimeControlFailure};
use runtrol_daemon::kinds::{ErrorKind, RuntimeMethod, WorkspaceAccess};
use runtrol_daemon::open::{
    admission_answer, check_adoption_token, check_choices, check_selections, open_access, Confirmation, Disposition,
    OpenAction, OpenAdmissionFailure, OpenEvent, OpenProgress, OpenStage,
};
use runtrol_daemon::auth::{AuthorizedIntegration, IntegrationGrant, IntegrationId, IntegrationKey, IntegrationRootRow};
use runtrol_daemon::cursor::{AuthorizedRoot, NativeCursorCodec};
use runtrol_daemon::kinds::AppScope;
use runtrol_daemon::open::{check_open_method, verify_adoption};
use runtrol_daemon::serve::{Bounded, ConfirmationError};

fn cleared_start(method: RuntimeMethod, native: Option<&str>) -> OpenProgress {
    let mut progress = OpenProgress::new(method, false, false, native.map(str::to_owned));
    assert!(matches!(progress.next(OpenEvent::Started), OpenAction::Reauthorize));
    let action = progress.next(OpenEvent::Reauthorized { authority: Ok(()), workspace_unchanged: true });
    assert!(matches!(action, OpenAction::Prepare));
    progress
}

#[test]
fn a_fresh_start_is_opened_confirmed_and_committed() {
    let mut progress = cleared_start(RuntimeMethod::SessionsStart, None);
    let action = progress.next(OpenEvent::Prepared { prepared: true, adoption: None });
    assert!(matches!(action, OpenAction::Open(Disposition::Fresh)));
    let action = progress.next(OpenEvent::Opened(Bounded::Answered(Ok(()))));
    assert!(matches!(action, OpenAction::Confirm));
    assert!(matches!(progress.next(OpenEvent::Confirmed(true)), OpenAction::Commit));
}

#[test]
fn authority_lost_after_the_provider_opened_kills_the_process() {
    let mut progress = cleared_start(RuntimeMethod::SessionsStart, None);
    progress.next(OpenEvent::Prepared { prepared: true, adoption: None });
    progress.next(OpenEvent::Opened(Bounded::Answered(Ok(()))));
    assert!(matches!(progress.next(OpenEvent::Confirmed(false)), OpenAction::KillAndAbandon));
}

#[test]
fn a_resume_opens_the_native_identity() {
    let mut progress = cleared_start(RuntimeMethod::SessionsResume, Some("native-7"));
    match progress.next(OpenEvent::Prepared { prepared: true, adoption: None }) {
        OpenAction::Open(Disposition::Resume { native }) => assert_eq!(native, "native-7"),
        other => panic!("unexpected {other:?}"),
    }
}

#[test]
fn a_resume_without_native_identity_is_refused() {
    let mut progress = cleared_start(RuntimeMethod::SessionsResume, None);
    match progress.next(OpenEvent::Prepared { prepared: true, adoption: None }) {
        OpenAction::Deny(f) => {
            assert_eq!(f.kind, ErrorKind::CapabilityUnavailable);
            assert_eq!(f.message, "the session has no provider-native resume identity");
        }
        other => panic!("unexpected {other:?}"),
    }
}

#[test]
fn a_displaced_process_is_closed_first() {
    let mut progress = OpenProgress::new(RuntimeMethod::SessionsStart, true, false, None);
    assert!(matches!(progress.next(OpenEvent::Started), OpenAction::CloseDisplaced));
    match progress.next(OpenEvent::DisplacedClosed(false)) {
        OpenAction::Deny(f) => {
            assert_eq!(f.kind, ErrorKind::RuntimeUnavailable);
            assert_eq!(f.message, "the displaced idle provider process could not be stopped safely");
        }
        other => panic!("unexpected {other:?}"),
    }
}

#[test]
fn lost_authority_and_a_moved_workspace_refuse_the_open() {
    let mut progress = OpenProgress::new(RuntimeMethod::SessionsStart, false, false, None);
    progress.next(OpenEvent::Started);
    let revoked = AuthorizationFailure { kind: ErrorKind::IntegrationRevoked, message: "revoked" };
    match progress.next(OpenEvent::Reauthorized { authority: Err(revoked), workspace_unchanged: true }) {
        OpenAction::Deny(f) => {
            assert_eq!(f.kind, ErrorKind::IntegrationRevoked);
            assert_eq!(f.message, "revoked");
        }
        other => panic!("unexpected {other:?}"),
    }

    let mut progress = OpenProgress::new(RuntimeMethod::SessionsStart, false, false, None);
    progress.next(OpenEvent::Started);
    match progress.next(OpenEvent::Reauthorized { authority: Ok(()), workspace_unchanged: false }) {
        OpenAction::Deny(f) => assert_eq!(f.kind, ErrorKind::RootDenied),
        other => panic!("unexpected {other:?}"),
    }
}

#[test]
fn an_adoption_needs_its_proof_and_a_selection_needs_a_current_catalogue() {
    let mut progress = cleared_start(RuntimeMethod::SessionsAdoptNative, Some("native-1"));
    let stale = RuntimeControlFailure::new(ErrorKind::CapabilityUnavailable, "stale");
    match progress.next(OpenEvent::Prepared { prepared: true, adoption: Some(stale) }) {
        OpenAction::Deny(f) => assert_eq!(f.message, "stale"),
        other => panic!("unexpected {other:?}"),
    }

    let mut progress = OpenProgress::new(RuntimeMethod::SessionsStart, false, true, None);
    progress.next(OpenEvent::Started);
    progress.next(OpenEvent::Reauthorized { authority: Ok(()), workspace_unchanged: true });
    assert!(matches!(
        progress.next(OpenEvent::Prepared { prepared: true, adoption: None }),
        OpenAction::ReadModels
    ));
    match progress.next(OpenEvent::ChoicesChecked(false)) {
        OpenAction::Deny(f) => assert_eq!(f.kind, ErrorKind::ModelUnavailable),
        other => panic!("unexpected {other:?}"),
    }
}

#[test]
fn a_provider_failure_and_a_timeout_end_the_open() {
    let mut progress = cleared_start(RuntimeMethod::SessionsStart, None);
    progress.next(OpenEvent::Prepared { prepared: true, adoption: None });
    match progress.next(OpenEvent::Opened(Bounded::Answered(Err(ProviderError::Quota)))) {
        OpenAction::Deny(f) => assert_eq!(f.kind, ErrorKind::RateLimited),
        other => panic!("unexpected {other:?}"),
    }

    let mut progress = cleared_start(RuntimeMethod::SessionsStart, None);
    progress.next(OpenEvent::Prepared { prepared: true, adoption: None });
    assert!(matches!(progress.next(OpenEvent::Opened(Bounded::TimedOut)), OpenAction::Abandon));
}

#[test]
fn an_out_of_order_event_abandons_the_open() {
    let mut progress = OpenProgress::new(RuntimeMethod::SessionsStart, false, false, None);
    assert!(matches!(progress.next(OpenEvent::Confirmed(true)), OpenAction::Abandon));
    assert!(matches!(progress.next(OpenEvent::Started), OpenAction::Abandon));
    let _ = OpenStage::Finished;
}

#[test]
fn shared_writers_wait_for_the_person_at_the_machine() {
    assert!(matches!(
        open_access(WorkspaceAccess::Exclusive, Confirmation::Awaiting { confirmation_id: "c".to_owned() }),
        Ok(WorkspaceAccess::Exclusive)
    ));
    assert!(matches!(open_access(WorkspaceAccess::Shared, Confirmation::Confirmed), Ok(WorkspaceAccess::Shared)));
    let waiting = open_access(WorkspaceAccess::Shared, Confirmation::Awaiting { confirmation_id: "conf-1".to_owned() });
    let refusal = match waiting {
        Err(failure) => admission_answer(failure),
        Ok(_) => panic!("a shared open waits"),
    };
    assert_eq!(refusal.failure.kind, ErrorKind::PresenceRequired);
    assert_eq!(refusal.operator_action, Some("reviewRuntimeRequestsInRuntrolStudio"));
    assert_eq!(refusal.correlation_id.as_deref(), Some("conf-1"));
    assert!(matches!(
        open_access(WorkspaceAccess::Shared, Confirmation::Failed(ConfirmationError::ResourceExhausted)),
        Err(OpenAdmissionFailure::Confirmation(ConfirmationError::ResourceExhausted))
    ));
}

#[test]
fn an_oversized_adoption_proof_is_refused() {
    assert!(check_adoption_token("short").is_ok());
    let oversized = "x".repeat(runtrol_daemon::cursor::MAX_NATIVE_ADOPTION_TOKEN_BYTES + 1);
    let refused = check_adoption_token(&oversized).unwrap_err();
    assert_eq!(refused.kind, ErrorKind::InvalidRequest);
    assert_eq!(refused.message, "native session adoption proof is oversized");
}

#[test]
fn no_catalogue_means_no_current_choice() {
    assert!(!check_choices(None, None, None));
}

#[test]
fn a_start_reaches_only_modes_a_switch_could_reach() {
    let modes = vec!["default".to_owned(), "plan".to_owned()];
    let accepted = check_selections(Some("model-a".to_owned()), Some("high".to_owned()), Some("plan".to_owned()), Some(&modes))
        .expect("all within bounds");
    assert_eq!(accepted.model.as_deref(), Some("model-a"));
    assert_eq!(accepted.reasoning_effort.as_deref(), Some("high"));
    assert_eq!(accepted.permission.as_deref(), Some("plan"));
    let unreachable = check_selections(None, None, Some("bypassPermissions".to_owned()), Some(&modes)).unwrap_err();
    assert_eq!(unreachable.kind, ErrorKind::InvalidRequest);
    assert_eq!(unreachable.message, "this provider does not accept a runtrol switch to that mode");
    let unregistered = check_selections(None, None, Some("plan".to_owned()), None).unwrap_err();
    assert_eq!(unregistered.message, "the session's provider is not registered in this build");
    assert!(check_selections(None, None, None, None).is_ok(), "no permission needs no vocabulary");
    let empty_model = check_selections(Some(String::new()), None, None, Some(&modes)).unwrap_err();
    assert_eq!(empty_model.message, "the model selection is empty, oversized, or invalid");
    let long_effort = check_selections(None, Some("e".repeat(65)), None, Some(&modes)).unwrap_err();
    assert_eq!(long_effort.message, "the reasoning selection is empty, oversized, or invalid");
}

#[test]
fn a_resume_names_the_exact_observed_session() {
    let managed = runtrol_daemon::inventory::AuthorizedManagedSession {
        session: [1; 16],
        provider: "provider-a".to_owned(),
        native: Some("native-1".to_owned()),
        descriptor: runtrol_daemon::control::SessionDescriptor {
            session_id: "ses_1".to_owned(),
            provider_id: "provider-a".to_owned(),
            native_session_id: Some("native-1".to_owned()),
            workspace: "/work".to_owned(),
            hot: false,
            lifecycle: runtrol_daemon::kinds::LifecycleState::Cold,
            looks_stuck: false,
            waiting_on: None,
            session_generation: 5,
            label: None,
        },
        workspace: "/work".to_owned(),
    };
    let cold = runtrol_daemon::kinds::LifecycleState::Cold;
    assert_eq!(runtrol_daemon::open::check_resume(&managed, "/work", cold, 5).expect("resumable"), "native-1");
    let moved = runtrol_daemon::open::check_resume(&managed, "/elsewhere", cold, 5).unwrap_err();
    assert_eq!(moved.kind, ErrorKind::SessionConflict);
    assert_eq!(moved.message, "the session changed after the caller observed it");
    assert!(runtrol_daemon::open::check_resume(&managed, "/work", cold, 4).is_err());
    let hot = runtrol_daemon::kinds::LifecycleState::HotIdle;
    assert!(runtrol_daemon::open::check_resume(&managed, "/work", hot, 5).is_err());
    let mut no_native = managed;
    no_native.native = None;
    let refused = runtrol_daemon::open::check_resume(&no_native, "/work", cold, 5).unwrap_err();
    assert_eq!(refused.kind, ErrorKind::CapabilityUnavailable);
}

#[test]
fn a_failed_adoption_proof_is_refused_before_the_provider_opens() {
    const NOW: u64 = 1_700_000_000_000;
    let approved = || AuthorizedRoot { path: "/work".to_owned(), identity: [9; 24] };
    let root = approved();
    let authority = AuthorizedIntegration {
        key: IntegrationKey::from_bytes([7; 16]),
        grant: IntegrationGrant {
            integration_id: IntegrationId::new("int_fixture"),
            scopes: vec![AppScope::SessionNativeDiscover],
            roots: vec![root.path.clone()],
            key_generation: 2,
            grant_generation: 3,
        },
        roots: vec![IntegrationRootRow { path: root.path.clone(), identity: root.identity }],
    };
    let codec = NativeCursorCodec::new().expect("random codec");
    let proof = codec
        .seal_adoption(&authority, "provider", Some(&root), [4; 32], "native-1", &root.path, NOW)
        .expect("sealed");
    let native = "native-1".to_owned();
    let good = verify_adoption(
        &codec, &authority, Ok(vec![approved()]), "provider", [4; 32], Some(&native), &root.path, Some(&proof), NOW,
    );
    assert!(good.is_none());
    let tampered = format!("{proof}x");
    let failure = verify_adoption(
        &codec, &authority, Ok(vec![approved()]), "provider", [4; 32], Some(&native), &root.path, Some(&tampered), NOW,
    )
    .expect("a tampered proof does not open");
    assert_eq!(failure.kind, ErrorKind::CapabilityUnavailable);

    let mut progress = cleared_start(RuntimeMethod::SessionsAdoptNative, Some("native-1"));
    match progress.next(OpenEvent::Prepared { prepared: true, adoption: Some(failure) }) {
        OpenAction::Deny(f) => assert_eq!(f.kind, ErrorKind::CapabilityUnavailable),
        other => panic!("unexpected {other:?}"),
    }
    assert!(matches!(
        progress.next(OpenEvent::Opened(Bounded::Answered(Ok(())))),
        OpenAction::Abandon
    ));
}

#[test]
fn only_an_open_method_builds_an_open_request() {
    assert!(check_open_method(RuntimeMethod::SessionsStart).is_ok());
    assert!(check_open_method(RuntimeMethod::SessionsResume).is_ok());
    assert!(check_open_method(RuntimeMethod::SessionsAdoptNative).is_ok());
    let refused = check_open_method(RuntimeMethod::SessionsCool).expect_err("not an open");
    assert_eq!(refused.kind, ErrorKind::InvalidRequest);
    assert_eq!(refused.message, "the method is not a session open operation");
}
