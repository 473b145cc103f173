//! The steps every idempotent control mutation takes, from its identity to its answer.
//!
//! The memory of identities decides first; a fresh identity consults the durable ledger and is
//! recorded pending before anything is done; the mutation is performed once; its settled outcome
//! is recorded durably before it is answered. Between the steps the caller does the outside work
//! the action names and reports it as the next event.

use vstd::prelude::*;

use crate::control::{
    begin_verdict, internal_text, ledger_full_text, outcome_unknown_text, refusal, reply_of, settled,
    stored_refusal, BeginVerdict, Begun, DurableCheck, DurableState, DurableWrite, LedgerKey,
    MemoryView, MutationKey, MutationOutcome, RuntimeControl, RuntimeControlFailure,
    RuntimeControlReply,
};
use crate::kinds::{ErrorKind, MutationRequestId, RuntimeMethod};

verus! {

/// Where a mutation stands.
#[derive(Clone, Copy, Debug, PartialEq, Eq, Structural)]
pub enum MutationStage {
    Start,
    Consulting,
    Executing,
    Settling,
    Finished,
}

/// What the caller does next for a mutation.
#[derive(Debug)]
pub enum MutationAction {
    /// Consult the durable ledger for this fresh identity: purge expired rows, then read its row
    /// or create it pending.
    ConsultLedger(MutationKey),
    /// Perform the mutation now, once; its identity is recorded pending.
    Execute(MutationKey),
    /// Record the settled outcome durably under the identity, in this state.
    Record(MutationKey, DurableState),
    /// Answer the caller; the mutation is over.
    Reply(RuntimeControlReply),
}

/// What the outside work of the last action reported.
#[derive(Debug)]
pub enum MutationEvent {
    /// The request arrived at time `now`.
    Started { now: u64 },
    /// What consulting the durable ledger found.
    Consulted(DurableCheck),
    /// What performing the mutation decided; `Pending` when it is not known whether it happened.
    Executed(MutationOutcome),
    /// What recording the settled outcome durably did.
    Recorded(DurableWrite),
}

/// The durable state a settled outcome is recorded as; none for a pending one.
pub open spec fn durable_state_of(outcome: MutationOutcome) -> Option<DurableState> {
    match outcome {
        MutationOutcome::Pending => None,
        MutationOutcome::Failed(_) => Some(DurableState::Denied),
        _ => Some(DurableState::Completed),
    }
}

/// One mutation on its way from its identity to its answer.
#[derive(Debug)]
pub struct MutationProgress {
    stage: MutationStage,
    method: RuntimeMethod,
    integration: [u8; 16],
    request: MutationRequestId,
    authenticator: [u8; 32],
    key: Option<MutationKey>,
    outcome: Option<MutationOutcome>,
}

/// A reply refusing with this kind and sentence.
pub open spec fn refused(r: MutationAction, kind: ErrorKind, message: Seq<char>) -> bool {
    r matches MutationAction::Reply(RuntimeControlReply::Failed(f)) && refusal(f, kind, message)
}

impl MutationProgress {
    pub closed spec fn stage(&self) -> MutationStage {
        self.stage
    }

    pub closed spec fn method(&self) -> RuntimeMethod {
        self.method
    }

    pub closed spec fn integration(&self) -> Seq<u8> {
        self.integration@
    }

    pub closed spec fn request(&self) -> MutationRequestId {
        self.request
    }

    pub closed spec fn authenticator(&self) -> Seq<u8> {
        self.authenticator@
    }

    /// The identity, once the memory found it fresh.
    pub closed spec fn key(&self) -> Option<LedgerKey> {
        match self.key {
            Some(k) => Some(k@),
            None => None,
        }
    }

    /// The settled outcome waiting to be recorded.
    pub closed spec fn outcome(&self) -> Option<MutationOutcome> {
        self.outcome
    }

    /// The stage and what is known agree.
    pub closed spec fn consistent(&self) -> bool {
        &&& (self.stage == MutationStage::Consulting || self.stage == MutationStage::Executing
            || self.stage == MutationStage::Settling) ==> self.key is Some
        &&& self.stage == MutationStage::Settling ==> (self.outcome matches Some(o) && !(o is Pending))
    }

    /// A mutation of `method` under the integration's request identity and the authenticator of
    /// its exact parameters.
    pub fn new(
        method: RuntimeMethod,
        integration: [u8; 16],
        request: MutationRequestId,
        authenticator: [u8; 32],
    ) -> (r: Self)
        ensures
            r.stage() == MutationStage::Start,
            r.method() == method,
            r.integration() == integration@,
            r.request() == request,
            r.authenticator() == authenticator@,
            r.key() is None,
            r.consistent(),
    {
        MutationProgress {
            stage: MutationStage::Start,
            method,
            integration,
            request,
            authenticator,
            key: None,
            outcome: None,
        }
    }

    fn stop(&mut self, failure: RuntimeControlFailure) -> (r: MutationAction)
        ensures
            r == MutationAction::Reply(RuntimeControlReply::Failed(failure)),
            final(self).stage() == MutationStage::Finished,
            final(self).method() == old(self).method(),
            final(self).integration() == old(self).integration(),
            final(self).request() == old(self).request(),
            final(self).authenticator() == old(self).authenticator(),
            final(self).key() == old(self).key(),
            final(self).consistent(),
    {
        self.stage = MutationStage::Finished;
        MutationAction::Reply(RuntimeControlReply::Failed(failure))
    }

    /// Decide the next action from what the last one reported.
    ///
    /// A mutation is performed only after its identity was found fresh in memory and recorded
    /// pending, and at most once: the identity stays remembered, so no later mutation under it
    /// begins fresh. Its answer is the reply of the settled outcome once that was recorded
    /// durably; an outcome not known to be settled stays pending and is answered as possibly
    /// done. An event that does not belong to the current stage ends the mutation, as possibly
    /// done once it may have been performed.
    pub fn next(&mut self, control: &mut RuntimeControl, event: MutationEvent) -> (r: MutationAction)
        requires
            old(self).consistent(),
        ensures
            final(self).consistent(),
            final(self).method() == old(self).method(),
            final(self).integration() == old(self).integration(),
            final(self).request() == old(self).request(),
            final(self).authenticator() == old(self).authenticator(),
            final(control).lease_table() == old(control).lease_table(),
            final(control).lease_generation() == old(control).lease_generation(),
            final(control).boot() == old(control).boot(),
            old(control).ledger().dom().subset_of(final(control).ledger().dom()),
            r matches MutationAction::Execute(k) ==> {
                &&& old(self).stage() == MutationStage::Consulting
                &&& final(self).stage() == MutationStage::Executing
                &&& !old(control).ledger().contains_key(k@)
                &&& final(control).ledger() == old(control).ledger().insert(
                    k@,
                    MemoryView {
                        method: old(self).method(),
                        authenticator: old(self).authenticator(),
                        outcome: MutationOutcome::Pending,
                    },
                )
            },
            !(r is Execute) ==> (final(control).ledger() == old(control).ledger() || (r is Reply
                && old(self).stage() == MutationStage::Settling)),
            match (old(self).stage(), event) {
                (MutationStage::Start, MutationEvent::Started { now }) => match begin_verdict(
                    old(control).ledger(),
                    old(self).integration(),
                    old(self).method(),
                    old(self).request(),
                    old(self).authenticator(),
                    now,
                ) {
                    BeginVerdict::Fresh(key) => r matches MutationAction::ConsultLedger(k) && k@ == key
                        && final(self).key() == Some(key) && final(self).stage() == MutationStage::Consulting,
                    BeginVerdict::Replay(reply) => r == MutationAction::Reply(reply)
                        && final(self).stage() == MutationStage::Finished,
                    BeginVerdict::Refuse(kind, message) => refused(r, kind, message) && final(self).stage()
                        == MutationStage::Finished,
                },
                (MutationStage::Consulting, MutationEvent::Consulted(check)) => if old(control).ledger().contains_key(
                    old(self).key()->Some_0,
                ) {
                    refused(r, ErrorKind::OutcomeUnknown, outcome_unknown_text()) && final(self).stage()
                        == MutationStage::Finished
                } else {
                    match check {
                        DurableCheck::Created => r matches MutationAction::Execute(k) && k@ == old(self).key()->Some_0,
                        DurableCheck::Failed => refused(r, ErrorKind::Internal, internal_text())
                            && final(self).stage() == MutationStage::Finished,
                        DurableCheck::Full => refused(r, ErrorKind::ResourceExhausted, ledger_full_text())
                            && final(self).stage() == MutationStage::Finished,
                        DurableCheck::Found(stored) => refused(
                            r,
                            stored_refusal(stored, old(control).boot(), old(self).method(), old(self).authenticator()).0,
                            stored_refusal(stored, old(control).boot(), old(self).method(), old(self).authenticator()).1,
                        ) && final(self).stage() == MutationStage::Finished,
                    }
                },
                (MutationStage::Executing, MutationEvent::Executed(outcome)) => if outcome is Pending {
                    refused(r, ErrorKind::OutcomeUnknown, outcome_unknown_text()) && final(self).stage()
                        == MutationStage::Finished
                } else {
                    r matches MutationAction::Record(k, state) && k@ == old(self).key()->Some_0
                        && Some(state) == durable_state_of(outcome) && final(self).stage()
                        == MutationStage::Settling && final(self).outcome() == Some(outcome)
                },
                (MutationStage::Settling, MutationEvent::Recorded(written)) => final(self).stage()
                    == MutationStage::Finished && if written == DurableWrite::Written
                    && old(control).ledger().contains_key(old(self).key()->Some_0) {
                    Some(r->Reply_0) == reply_of(old(self).outcome()->Some_0) && r is Reply
                        && final(control).ledger() == settled(
                        old(control).ledger(),
                        old(self).key()->Some_0,
                        old(self).outcome()->Some_0,
                    )
                } else {
                    r matches MutationAction::Reply(RuntimeControlReply::Failed(_)) && final(control).ledger()
                        == old(control).ledger()
                },
                (MutationStage::Executing, _) | (MutationStage::Settling, _) => refused(
                    r,
                    ErrorKind::OutcomeUnknown,
                    outcome_unknown_text(),
                ) && final(self).stage() == MutationStage::Finished,
                _ => refused(r, ErrorKind::Internal, internal_text()) && final(self).stage()
                    == MutationStage::Finished,
            },
    {
        match event {
            MutationEvent::Started { now } => {
                if self.stage != MutationStage::Start {
                    return self.mismatch();
                }
                match control.begin(&self.integration, self.method, &self.request, &self.authenticator, now) {
                    Ok(Begun::New(key)) => {
                        self.key = Some(key);
                        self.stage = MutationStage::Consulting;
                        MutationAction::ConsultLedger(key)
                    },
                    Ok(Begun::Replay(reply)) => {
                        self.stage = MutationStage::Finished;
                        MutationAction::Reply(reply)
                    },
                    Err(failure) => self.stop(failure),
                }
            },
            MutationEvent::Consulted(check) => {
                if self.stage != MutationStage::Consulting {
                    return self.mismatch();
                }
                let key = match self.key {
                    Some(key) => key,
                    None => return self.stop(RuntimeControlFailure::internal()),
                };
                if control.remembers(&key) {
                    return self.stop(RuntimeControlFailure::outcome_unknown());
                }
                match control.record_pending(key, self.method, self.authenticator, check) {
                    Ok(k) => {
                        self.stage = MutationStage::Executing;
                        MutationAction::Execute(k)
                    },
                    Err(failure) => self.stop(failure),
                }
            },
            MutationEvent::Executed(outcome) => {
                if self.stage != MutationStage::Executing {
                    return self.mismatch();
                }
                let key = match self.key {
                    Some(key) => key,
                    None => return self.stop(RuntimeControlFailure::internal()),
                };
                let state = match &outcome {
                    MutationOutcome::Pending => {
                        return self.stop(RuntimeControlFailure::outcome_unknown());
                    },
                    MutationOutcome::Failed(_) => DurableState::Denied,
                    _ => DurableState::Completed,
                };
                self.outcome = Some(outcome);
                self.stage = MutationStage::Settling;
                MutationAction::Record(key, state)
            },
            MutationEvent::Recorded(written) => {
                if self.stage != MutationStage::Settling {
                    return self.mismatch();
                }
                let key = match self.key {
                    Some(key) => key,
                    None => return self.stop(RuntimeControlFailure::internal()),
                };
                let mut taken: Option<MutationOutcome> = None;
                std::mem::swap(&mut taken, &mut self.outcome);
                self.stage = MutationStage::Finished;
                match taken {
                    Some(outcome) => MutationAction::Reply(control.complete(&key, outcome, written)),
                    None => MutationAction::Reply(RuntimeControlReply::Failed(RuntimeControlFailure::internal())),
                }
            },
        }
    }

    /// End a mutation on an event that does not belong to its stage.
    fn mismatch(&mut self) -> (r: MutationAction)
        ensures
            (old(self).stage() == MutationStage::Executing || old(self).stage() == MutationStage::Settling)
                ==> refused(r, ErrorKind::OutcomeUnknown, outcome_unknown_text()),
            !(old(self).stage() == MutationStage::Executing || old(self).stage() == MutationStage::Settling)
                ==> refused(r, ErrorKind::Internal, internal_text()),
            final(self).stage() == MutationStage::Finished,
            final(self).method() == old(self).method(),
            final(self).integration() == old(self).integration(),
            final(self).request() == old(self).request(),
            final(self).authenticator() == old(self).authenticator(),
            final(self).key() == old(self).key(),
            final(self).consistent(),
    {
        if self.stage == MutationStage::Executing || self.stage == MutationStage::Settling {
            self.stop(RuntimeControlFailure::outcome_unknown())
        } else {
            self.stop(RuntimeControlFailure::internal())
        }
    }
}

/// A mutation identity the memory remembers never begins fresh again: a mutation is performed
/// at most once per identity for as long as this Runtime runs.
pub proof fn lemma_remembered_identity_never_fresh(
    ledger: Map<LedgerKey, MemoryView>,
    integration: Seq<u8>,
    method: RuntimeMethod,
    request: MutationRequestId,
    authenticator: Seq<u8>,
    now: u64,
)
    requires
        request.bytes is Some,
        ledger.contains_key((integration, request.bytes->Some_0@)),
    ensures
        !(begin_verdict(ledger, integration, method, request, authenticator, now) is Fresh),
{
}

} // verus!
