use runtrol_daemon::control::{
    DurableCheck, DurableState, DurableWrite, MutationOutcome, RuntimeControl, RuntimeControlReply,
};
use runtrol_daemon::kinds::{ErrorKind, MutationRequestId, RuntimeMethod};
use runtrol_daemon::mutation::{MutationAction, MutationEvent, MutationProgress};

const NOW: u64 = 1_700_000_000_000;

fn request(bytes: u8) -> MutationRequestId {
    MutationRequestId { unix_millis: Some(NOW), bytes: Some([bytes; 16]) }
}

fn refused_with(action: MutationAction, kind: ErrorKind) {
    match action {
        MutationAction::Reply(RuntimeControlReply::Failed(f)) => assert_eq!(f.kind, kind),
        other => panic!("unexpected {other:?}"),
    }
}

#[test]
fn a_mutation_runs_once_and_then_replays_its_recorded_answer() {
    let mut control = RuntimeControl::new().expect("random");
    let mut first = MutationProgress::new(RuntimeMethod::SessionsCool, [1; 16], request(4), [9; 32]);
    assert!(matches!(first.next(&mut control, MutationEvent::Started { now: NOW }), MutationAction::ConsultLedger(_)));
    assert!(matches!(first.next(&mut control, MutationEvent::Consulted(DurableCheck::Created)), MutationAction::Execute(_)));
    assert!(matches!(
        first.next(&mut control, MutationEvent::Executed(MutationOutcome::Done)),
        MutationAction::Record(_, DurableState::Completed)
    ));
    assert!(matches!(
        first.next(&mut control, MutationEvent::Recorded(DurableWrite::Written)),
        MutationAction::Reply(RuntimeControlReply::Done)
    ));

    let mut again = MutationProgress::new(RuntimeMethod::SessionsCool, [1; 16], request(4), [9; 32]);
    assert!(matches!(
        again.next(&mut control, MutationEvent::Started { now: NOW }),
        MutationAction::Reply(RuntimeControlReply::Done)
    ));
    let mut changed = MutationProgress::new(RuntimeMethod::SessionsCool, [1; 16], request(4), [8; 32]);
    refused_with(changed.next(&mut control, MutationEvent::Started { now: NOW }), ErrorKind::IdempotencyConflict);
}

#[test]
fn an_ambiguous_mutation_is_never_run_again() {
    let mut control = RuntimeControl::new().expect("random");
    let mut first = MutationProgress::new(RuntimeMethod::SessionsStart, [2; 16], request(5), [7; 32]);
    first.next(&mut control, MutationEvent::Started { now: NOW });
    first.next(&mut control, MutationEvent::Consulted(DurableCheck::Created));
    refused_with(first.next(&mut control, MutationEvent::Executed(MutationOutcome::Pending)), ErrorKind::OutcomeUnknown);
    let mut retry = MutationProgress::new(RuntimeMethod::SessionsStart, [2; 16], request(5), [7; 32]);
    refused_with(retry.next(&mut control, MutationEvent::Started { now: NOW }), ErrorKind::OutcomeUnknown);
}

#[test]
fn a_full_ledger_and_an_out_of_order_event_refuse_the_mutation() {
    let mut control = RuntimeControl::new().expect("random");
    let mut full = MutationProgress::new(RuntimeMethod::SessionsCool, [3; 16], request(6), [1; 32]);
    full.next(&mut control, MutationEvent::Started { now: NOW });
    refused_with(full.next(&mut control, MutationEvent::Consulted(DurableCheck::Full)), ErrorKind::ResourceExhausted);
    let mut early = MutationProgress::new(RuntimeMethod::SessionsCool, [3; 16], request(7), [1; 32]);
    refused_with(early.next(&mut control, MutationEvent::Executed(MutationOutcome::Done)), ErrorKind::Internal);
    let mut late = MutationProgress::new(RuntimeMethod::SessionsCool, [3; 16], request(8), [1; 32]);
    late.next(&mut control, MutationEvent::Started { now: NOW });
    late.next(&mut control, MutationEvent::Consulted(DurableCheck::Created));
    refused_with(late.next(&mut control, MutationEvent::Started { now: NOW }), ErrorKind::OutcomeUnknown);
}
