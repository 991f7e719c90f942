use vstd::prelude::*;

use crate::checkpoint_verifier::{
    after_verdict, verdict, CheckpointVerifier, VerificationError, VerifierConfig,
};
use crate::digest::H256;
use crate::domain::spec_domain_hash;
use crate::types::{Checkpoint, ChainCommunicationError, ErrorKind, SignedCheckpoint, TxOutcome};

verus! {

/// Why a delivery ended in failure.
#[derive(Clone, Copy, Debug)]
pub enum FailureCategory {
    /// A chain call failed in a way that repeating cannot fix.
    Permanent,
    /// Transient failures outlasted the retry budget.
    RetryableExhausted,
    /// The checkpoint offered as proof was refused.
    Verification(VerificationError),
}

/// Where one message's delivery stands.
#[derive(Clone, Copy, Debug)]
pub enum DeliveryState {
    /// The message is known; whether it was delivered is not yet asked.
    Discovered,
    /// The destination reported it undelivered; a checkpoint is awaited.
    Indexed,
    /// A verified checkpoint covers the message; submission is requested.
    ProofReady { checkpoint: Checkpoint },
    /// A submission went out. `txid` is its transaction once known; `recheck`
    /// holds the kind of a submission failure while the destination is asked
    /// again whether the message was delivered meanwhile.
    Submitted { checkpoint: Checkpoint, txid: Option<H256>, recheck: Option<ErrorKind> },
    /// Terminal: the destination holds the message as delivered.
    Delivered,
    /// Terminal: delivery gave up.
    Failed { category: FailureCategory },
}

/// What the executor should do next.
#[derive(Clone, Copy, Debug)]
pub enum Action {
    /// Ask the destination whether the message is delivered.
    CheckDelivered,
    /// Fetch the latest checkpoint of the origin chain.
    FetchCheckpoint,
    /// Submit the message with a proof against this checkpoint.
    Submit(Checkpoint),
    /// Ask for the outcome of this transaction.
    PollStatus(H256),
    /// The event answered nothing outstanding; keep waiting for the answer
    /// to the previous action.
    Idle,
    /// The delivery has ended; nothing more to do.
    Finish,
}

/// The answer to the last action, as the executor observed it.
#[derive(Debug)]
pub enum Event {
    DeliveryStatus(Result<bool, ChainCommunicationError>),
    CheckpointFetched(Result<SignedCheckpoint, ChainCommunicationError>),
    SubmissionSent(Result<H256, ChainCommunicationError>),
    TxStatus(Result<Option<TxOutcome>, ChainCommunicationError>),
}

/// Delivery of one message from origin `domain`, leaf `nonce`.
#[derive(Clone, Copy, Debug)]
pub struct Orchestrator {
    pub domain: u32,
    pub nonce: u32,
    pub message_id: H256,
    /// How many transient failures are retried before giving up.
    pub retry_budget: u32,
    /// Transient failures retried so far.
    pub retries: u32,
    pub state: DeliveryState,
}

pub open spec fn is_terminal(s: DeliveryState) -> bool {
    s is Delivered || s is Failed
}

/// A transient failure: resume at `resume` with `action` while budget is left,
/// else fail as exhausted.
pub open spec fn spec_retry(o: Orchestrator, resume: DeliveryState, action: Action) -> (
    Orchestrator,
    Action,
) {
    if o.retries < o.retry_budget {
        (Orchestrator { state: resume, retries: (o.retries + 1) as u32, ..o }, action)
    } else {
        (
            Orchestrator {
                state: DeliveryState::Failed { category: FailureCategory::RetryableExhausted },
                ..o
            },
            Action::Finish,
        )
    }
}

/// A failed chain call of the given kind: transient ones are retried,
/// permanent ones end the delivery.
pub open spec fn spec_on_error(
    o: Orchestrator,
    kind: ErrorKind,
    resume: DeliveryState,
    action: Action,
) -> (Orchestrator, Action) {
    if kind == ErrorKind::Transient {
        spec_retry(o, resume, action)
    } else {
        (
            Orchestrator { state: DeliveryState::Failed { category: FailureCategory::Permanent }, ..o },
            Action::Finish,
        )
    }
}

pub open spec fn with_state(o: Orchestrator, s: DeliveryState) -> Orchestrator {
    Orchestrator { state: s, ..o }
}

/// One transition of the delivery state machine: the orchestrator after the
/// event, the verifier's accepted indices after it, and the next action.
pub open spec fn transition(
    o: Orchestrator,
    accepted: Map<u32, u32>,
    config: VerifierConfig,
    e: Event,
) -> (Orchestrator, Map<u32, u32>, Action) {
    if is_terminal(o.state) {
        (o, accepted, Action::Finish)
    } else {
        match e {
            Event::DeliveryStatus(Ok(true)) => (
                with_state(o, DeliveryState::Delivered),
                accepted,
                Action::Finish,
            ),
            Event::DeliveryStatus(Ok(false)) => match o.state {
                DeliveryState::Discovered => (
                    with_state(o, DeliveryState::Indexed),
                    accepted,
                    Action::FetchCheckpoint,
                ),
                DeliveryState::Submitted { checkpoint, recheck: Some(kind), .. } => {
                    let (o2, a) = spec_on_error(
                        o,
                        kind,
                        DeliveryState::ProofReady { checkpoint },
                        Action::Submit(checkpoint),
                    );
                    (o2, accepted, a)
                },
                _ => (o, accepted, Action::Idle),
            },
            Event::DeliveryStatus(Err(err)) => match o.state {
                DeliveryState::Discovered => {
                    let (o2, a) = spec_on_error(o, err.kind, o.state, Action::CheckDelivered);
                    (o2, accepted, a)
                },
                DeliveryState::Submitted { recheck: Some(_), .. } => {
                    let (o2, a) = spec_on_error(o, err.kind, o.state, Action::CheckDelivered);
                    (o2, accepted, a)
                },
                _ => (o, accepted, Action::Idle),
            },
            Event::CheckpointFetched(r) => match o.state {
                DeliveryState::Indexed => match r {
                    Err(err) => {
                        let (o2, a) = spec_on_error(
                            o,
                            err.kind,
                            DeliveryState::Indexed,
                            Action::FetchCheckpoint,
                        );
                        (o2, accepted, a)
                    },
                    Ok(signed) => {
                        let v = verdict(
                            accepted,
                            config,
                            signed,
                            o.domain,
                            spec_domain_hash(o.domain),
                        );
                        let acc2 = after_verdict(accepted, o.domain, signed.checkpoint, v);
                        match v {
                            Err(ve) => (
                                with_state(
                                    o,
                                    DeliveryState::Failed {
                                        category: FailureCategory::Verification(ve),
                                    },
                                ),
                                acc2,
                                Action::Finish,
                            ),
                            Ok(_) => if signed.checkpoint.index >= o.nonce {
                                (
                                    with_state(
                                        o,
                                        DeliveryState::ProofReady { checkpoint: signed.checkpoint },
                                    ),
                                    acc2,
                                    Action::Submit(signed.checkpoint),
                                )
                            } else {
                                (o, acc2, Action::FetchCheckpoint)
                            },
                        }
                    },
                },
                _ => (o, accepted, Action::Idle),
            },
            Event::SubmissionSent(r) => match o.state {
                DeliveryState::ProofReady { checkpoint } => match r {
                    Ok(txid) => (
                        with_state(
                            o,
                            DeliveryState::Submitted { checkpoint, txid: Some(txid), recheck: None },
                        ),
                        accepted,
                        Action::PollStatus(txid),
                    ),
                    Err(err) => (
                        with_state(
                            o,
                            DeliveryState::Submitted {
                                checkpoint,
                                txid: None,
                                recheck: Some(err.kind),
                            },
                        ),
                        accepted,
                        Action::CheckDelivered,
                    ),
                },
                _ => (o, accepted, Action::Idle),
            },
            Event::TxStatus(r) => match o.state {
                DeliveryState::Submitted { checkpoint, txid: Some(txid), recheck: None } => match r {
                    Ok(None) => (o, accepted, Action::PollStatus(txid)),
                    Ok(Some(outcome)) => if outcome.executed {
                        (with_state(o, DeliveryState::Delivered), accepted, Action::Finish)
                    } else {
                        (
                            with_state(
                                o,
                                DeliveryState::Submitted {
                                    checkpoint,
                                    txid: Some(txid),
                                    recheck: Some(ErrorKind::Permanent),
                                },
                            ),
                            accepted,
                            Action::CheckDelivered,
                        )
                    },
                    Err(err) => (
                        with_state(
                            o,
                            DeliveryState::Submitted {
                                checkpoint,
                                txid: Some(txid),
                                recheck: Some(err.kind),
                            },
                        ),
                        accepted,
                        Action::CheckDelivered,
                    ),
                },
                _ => (o, accepted, Action::Idle),
            },
        }
    }
}

impl Orchestrator {
    /// A fresh delivery of the message with `message_id` at leaf `nonce` of
    /// origin `domain`. Its first action is `CheckDelivered`.
    pub fn new(domain: u32, nonce: u32, message_id: H256, retry_budget: u32) -> (r: Orchestrator)
        ensures
            r == (Orchestrator {
                domain,
                nonce,
                message_id,
                retry_budget,
                retries: 0,
                state: DeliveryState::Discovered,
            }),
    {
        Orchestrator { domain, nonce, message_id, retry_budget, retries: 0, state: DeliveryState::Discovered }
    }

    pub fn is_done(&self) -> (r: bool)
        ensures
            r == is_terminal(self.state),
    {
        match self.state {
            DeliveryState::Delivered => true,
            DeliveryState::Failed { .. } => true,
            _ => false,
        }
    }

    fn retry(&mut self, resume: DeliveryState, action: Action) -> (a: Action)
        ensures
            (*final(self), a) == spec_retry(*old(self), resume, action),
    {
        if self.retries < self.retry_budget {
            self.retries = self.retries + 1;
            self.state = resume;
            action
        } else {
            self.state = DeliveryState::Failed { category: FailureCategory::RetryableExhausted };
            Action::Finish
        }
    }

    fn on_error(&mut self, kind: ErrorKind, resume: DeliveryState, action: Action) -> (a: Action)
        ensures
            (*final(self), a) == spec_on_error(*old(self), kind, resume, action),
    {
        match kind {
            ErrorKind::Transient => self.retry(resume, action),
            ErrorKind::Permanent => {
                self.state = DeliveryState::Failed { category: FailureCategory::Permanent };
                Action::Finish
            },
        }
    }

    /// Advances the delivery by one observed event and returns the next
    /// action. Checkpoints are verified, for the origin domain, by `verifier`.
    pub fn step(&mut self, verifier: &mut CheckpointVerifier, event: Event) -> (a: Action)
        requires
            old(verifier).wf(),
        ensures
            final(verifier).wf(),
            final(verifier).config() == old(verifier).config(),
            (*final(self), final(verifier).accepted(), a) == transition(
                *old(self),
                old(verifier).accepted(),
                old(verifier).config(),
                event,
            ),
    {
        if self.is_done() {
            return Action::Finish;
        }
        let state = self.state;
        match event {
            Event::DeliveryStatus(Ok(delivered)) => {
                if delivered {
                    self.state = DeliveryState::Delivered;
                    return Action::Finish;
                }
                match state {
                    DeliveryState::Discovered => {
                        self.state = DeliveryState::Indexed;
                        Action::FetchCheckpoint
                    },
                    DeliveryState::Submitted { checkpoint, recheck: Some(kind), .. } => {
                        self.on_error(kind, DeliveryState::ProofReady { checkpoint }, Action::Submit(checkpoint))
                    },
                    _ => Action::Idle,
                }
            },
            Event::DeliveryStatus(Err(err)) => match state {
                DeliveryState::Discovered => self.on_error(err.kind, state, Action::CheckDelivered),
                DeliveryState::Submitted { recheck: Some(_), .. } => {
                    self.on_error(err.kind, state, Action::CheckDelivered)
                },
                _ => Action::Idle,
            },
            Event::CheckpointFetched(r) => match state {
                DeliveryState::Indexed => match r {
                    Err(err) => self.on_error(err.kind, DeliveryState::Indexed, Action::FetchCheckpoint),
                    Ok(signed) => match verifier.verify(&signed, self.domain) {
                        Err(ve) => {
                            self.state = DeliveryState::Failed {
                                category: FailureCategory::Verification(ve),
                            };
                            Action::Finish
                        },
                        Ok(()) => {
                            if signed.checkpoint.index >= self.nonce {
                                self.state = DeliveryState::ProofReady { checkpoint: signed.checkpoint };
                                Action::Submit(signed.checkpoint)
                            } else {
                                Action::FetchCheckpoint
                            }
                        },
                    },
                },
                _ => Action::Idle,
            },
            Event::SubmissionSent(r) => match state {
                DeliveryState::ProofReady { checkpoint } => match r {
                    Ok(txid) => {
                        self.state = DeliveryState::Submitted { checkpoint, txid: Some(txid), recheck: None };
                        Action::PollStatus(txid)
                    },
                    Err(err) => {
                        self.state = DeliveryState::Submitted { checkpoint, txid: None, recheck: Some(err.kind) };
                        Action::CheckDelivered
                    },
                },
                _ => Action::Idle,
            },
            Event::TxStatus(r) => match state {
                DeliveryState::Submitted { checkpoint, txid: Some(txid), recheck: None } => match r {
                    Ok(None) => Action::PollStatus(txid),
                    Ok(Some(outcome)) => {
                        if outcome.executed {
                            self.state = DeliveryState::Delivered;
                            Action::Finish
                        } else {
                            self.state = DeliveryState::Submitted {
                                checkpoint,
                                txid: Some(txid),
                                recheck: Some(ErrorKind::Permanent),
                            };
                            Action::CheckDelivered
                        }
                    },
                    Err(err) => {
                        self.state = DeliveryState::Submitted { checkpoint, txid: Some(txid), recheck: Some(err.kind) };
                        Action::CheckDelivered
                    },
                },
                _ => Action::Idle,
            },
        }
    }
}

/// The actions that a sequence of events draws from the state machine.
pub open spec fn run(
    o: Orchestrator,
    accepted: Map<u32, u32>,
    config: VerifierConfig,
    events: Seq<Event>,
) -> Seq<Action>
    decreases events.len(),
{
    if events.len() == 0 {
        Seq::empty()
    } else {
        let (o2, acc2, a) = transition(o, accepted, config, events[0]);
        seq![a] + run(o2, acc2, config, events.skip(1))
    }
}

/// A delivery that has ended stays ended: every later event draws `Finish`.
pub proof fn lemma_terminal_is_final(
    o: Orchestrator,
    accepted: Map<u32, u32>,
    config: VerifierConfig,
    events: Seq<Event>,
)
    requires
        is_terminal(o.state),
    ensures
        run(o, accepted, config, events).len() == events.len(),
        forall|i: int|
            0 <= i < events.len() ==> #[trigger] run(o, accepted, config, events)[i]
                == Action::Finish,
    decreases events.len(),
{
    if events.len() > 0 {
        lemma_terminal_is_final(o, accepted, config, events.skip(1));
        assert forall|i: int| 0 <= i < events.len() implies #[trigger] run(
            o,
            accepted,
            config,
            events,
        )[i] == Action::Finish by {
            if i > 0 {
                assert(run(o, accepted, config, events)[i] == run(
                    o,
                    accepted,
                    config,
                    events.skip(1),
                )[i - 1]);
            }
        }
    }
}

/// Idempotency: once the destination reports the message delivered, no
/// later event leads to a submission, whatever state the delivery was in.
pub proof fn lemma_delivered_never_resubmits(
    o: Orchestrator,
    accepted: Map<u32, u32>,
    config: VerifierConfig,
    rest: Seq<Event>,
)
    ensures
        ({
            let events = seq![Event::DeliveryStatus(Ok(true))] + rest;
            forall|i: int|
                0 <= i < events.len() ==> !(#[trigger] run(o, accepted, config, events)[i] is Submit)
        }),
{
    let events = seq![Event::DeliveryStatus(Ok(true))] + rest;
    let (o2, acc2, a) = transition(o, accepted, config, events[0]);
    assert(is_terminal(o2.state));
    assert(events.skip(1) =~= rest);
    lemma_terminal_is_final(o2, acc2, config, rest);
    assert forall|i: int| 0 <= i < events.len() implies !(#[trigger] run(
        o,
        accepted,
        config,
        events,
    )[i] is Submit) by {
        if i > 0 {
            assert(run(o, accepted, config, events)[i] == run(o2, acc2, config, rest)[i - 1]);
        }
    }
}

/// A valid checkpoint that does not reach the message's nonce leaves the
/// delivery waiting for a fresher one: no proof is ready, nothing is
/// submitted, and another checkpoint is fetched.
pub proof fn lemma_insufficient_checkpoint_polls(
    o: Orchestrator,
    accepted: Map<u32, u32>,
    config: VerifierConfig,
    signed: SignedCheckpoint,
)
    requires
        o.state is Indexed,
        signed.checkpoint.index < o.nonce,
        verdict(accepted, config, signed, o.domain, spec_domain_hash(o.domain)) is Ok,
    ensures
        ({
            let (o2, _, a) = transition(o, accepted, config, Event::CheckpointFetched(Ok(signed)));
            o2.state is Indexed && a == Action::FetchCheckpoint
        }),
{
}

/// A valid checkpoint that covers the message's nonce makes the proof ready
/// and requests submission against it.
pub proof fn lemma_sufficient_checkpoint_submits(
    o: Orchestrator,
    accepted: Map<u32, u32>,
    config: VerifierConfig,
    signed: SignedCheckpoint,
)
    requires
        o.state is Indexed,
        signed.checkpoint.index >= o.nonce,
        verdict(accepted, config, signed, o.domain, spec_domain_hash(o.domain)) is Ok,
    ensures
        ({
            let (o2, _, a) = transition(o, accepted, config, Event::CheckpointFetched(Ok(signed)));
            o2.state == (DeliveryState::ProofReady { checkpoint: signed.checkpoint }) && a
                == Action::Submit(signed.checkpoint)
        }),
{
}

/// Transient failures are retried at most `retry_budget` times: the retry
/// count never passes the budget, and a transient failure with no budget
/// left ends the delivery as exhausted, not as permanently failed.
pub proof fn lemma_retry_bounded(
    o: Orchestrator,
    accepted: Map<u32, u32>,
    config: VerifierConfig,
    e: Event,
)
    requires
        o.retries <= o.retry_budget,
    ensures
        ({
            let (o2, _, _) = transition(o, accepted, config, e);
            o2.retries <= o2.retry_budget && o2.retry_budget == o.retry_budget
        }),
{
}

/// A transient failure of a submission, confirmed by the destination still
/// reporting the message undelivered, with no retry budget left, ends the
/// delivery as exhausted.
pub proof fn lemma_exhausted_after_budget(
    o: Orchestrator,
    accepted: Map<u32, u32>,
    config: VerifierConfig,
    checkpoint: Checkpoint,
    txid: Option<H256>,
)
    requires
        o.state == (DeliveryState::Submitted {
            checkpoint,
            txid,
            recheck: Some(ErrorKind::Transient),
        }),
        o.retries == o.retry_budget,
    ensures
        ({
            let (o2, _, a) = transition(o, accepted, config, Event::DeliveryStatus(Ok(false)));
            o2.state == (DeliveryState::Failed { category: FailureCategory::RetryableExhausted })
                && a == Action::Finish
        }),
{
}

} // verus!
