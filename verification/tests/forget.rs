use runtrol_daemon::control::SessionDescriptor;
use runtrol_daemon::forget::{forget_confirmation, forget_existing, forget_lookup, ForgetLookup};
use runtrol_daemon::inventory::RuntimeInventoryFailure;
use runtrol_daemon::kinds::{ErrorKind, LifecycleState};
use runtrol_daemon::open::Confirmation;
use runtrol_daemon::serve::ConfirmationError;

fn descriptor(lifecycle: LifecycleState, generation: u64) -> SessionDescriptor {
    SessionDescriptor {
        session_id: "ses_1".to_owned(),
        provider_id: "provider".to_owned(),
        native_session_id: None,
        workspace: "/work".to_owned(),
        hot: false,
        lifecycle,
        looks_stuck: false,
        waiting_on: None,
        session_generation: generation,
        label: None,
    }
}

#[test]
fn only_the_exact_observed_cold_pointer_can_be_forgotten() {
    let cold = descriptor(LifecycleState::Cold, 4);
    assert!(matches!(forget_lookup(Ok(&cold), 4), ForgetLookup::RequestConfirmation));
    match forget_lookup(Ok(&cold), 3) {
        ForgetLookup::Refuse(refusal) => {
            assert_eq!(refusal.failure.kind, ErrorKind::SessionConflict);
            assert_eq!(refusal.failure.message, "only the exact observed cold session pointer can be forgotten");
        }
        other => panic!("unexpected {other:?}"),
    }
    let hot = descriptor(LifecycleState::HotIdle, 4);
    assert!(matches!(forget_lookup(Ok(&hot), 4), ForgetLookup::Refuse(_)));
    assert!(matches!(
        forget_lookup(Err(RuntimeInventoryFailure::SessionNotFound), 4),
        ForgetLookup::FindConfirmation
    ));
    match forget_lookup(Err(RuntimeInventoryFailure::Unavailable), 4) {
        ForgetLookup::Refuse(refusal) => assert_eq!(refusal.failure.kind, ErrorKind::Internal),
        other => panic!("unexpected {other:?}"),
    }
}

#[test]
fn a_forget_waits_for_the_person_at_the_machine() {
    assert!(forget_confirmation(Confirmation::Confirmed).is_ok());
    let waiting = forget_confirmation(Confirmation::Awaiting { confirmation_id: "conf-9".to_owned() }).unwrap_err();
    assert_eq!(waiting.failure.kind, ErrorKind::PresenceRequired);
    assert_eq!(
        waiting.failure.message,
        "approve the exact metadata removal in Runtrol Studio, then retry this request"
    );
    assert_eq!(waiting.operator_action, Some("reviewRuntimeRequestsInRuntrolStudio"));
    assert_eq!(waiting.correlation_id.as_deref(), Some("conf-9"));
    let full = forget_confirmation(Confirmation::Failed(ConfirmationError::ResourceExhausted)).unwrap_err();
    assert_eq!(full.failure.kind, ErrorKind::ResourceExhausted);
    assert_eq!(full.failure.message, "too many session forget requests are awaiting local confirmation");
}

#[test]
fn a_vanished_pointer_is_forgotten_only_under_an_earlier_confirmation() {
    assert!(forget_existing(Some(Confirmation::Confirmed)).is_ok());
    let never = forget_existing(None).unwrap_err();
    assert_eq!(never.failure.kind, ErrorKind::SessionNotFound);
    let waiting = forget_existing(Some(Confirmation::Awaiting { confirmation_id: "c".to_owned() })).unwrap_err();
    assert_eq!(waiting.failure.kind, ErrorKind::SessionNotFound);
    let broken = forget_existing(Some(Confirmation::Failed(ConfirmationError::StateUnavailable))).unwrap_err();
    assert_eq!(broken.failure.message, "Runtime could not verify local session forget confirmation state");
}
