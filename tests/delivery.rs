use abacus_core::checkpoint_verifier::{CheckpointVerifier, VerificationError, VerifierConfig};
use abacus_core::digest::H256;
use abacus_core::domain::{domain_hash, encode_domain};
use abacus_core::mailbox::{Mailbox, MailboxEvents};
use abacus_core::memory_mailbox::MemoryMailbox;
use abacus_core::orchestrator::{Action, DeliveryState, Event, FailureCategory, Orchestrator};
use abacus_core::types::{
    ChainCommunicationError, Checkpoint, ErrorKind, RawMessage, SignedCheckpoint, TxOutcome,
};

const ORIGIN: u32 = 1000;
const DESTINATION: u32 = 2000;

fn h(b: u8) -> H256 {
    H256([b; 32])
}

fn config() -> VerifierConfig {
    VerifierConfig { validators: vec![h(0x11), h(0x22), h(0x33)], threshold: 2 }
}

fn signed(domain: u32, root: u8, index: u32) -> SignedCheckpoint {
    SignedCheckpoint {
        checkpoint: Checkpoint { domain_hash: domain_hash(domain), root: h(root), index },
        signers: vec![h(0x11), h(0x33)],
    }
}

fn transient() -> ChainCommunicationError {
    ChainCommunicationError::transient("timeout".to_string())
}

/// Runs the executor loop against in-memory chains until the delivery ends or
/// `max_steps` actions were carried out. Returns the actions taken.
fn drive(
    orch: &mut Orchestrator,
    verifier: &mut CheckpointVerifier,
    origin: &MemoryMailbox,
    dest: &mut MemoryMailbox,
    max_steps: usize,
) -> Vec<Action> {
    let mut actions = Vec::new();
    let mut action = Action::CheckDelivered;
    let mut tx: u8 = 0xE0;
    for _ in 0..max_steps {
        actions.push(action);
        let event = match action {
            Action::CheckDelivered => Event::DeliveryStatus(dest.delivered(orch.message_id)),
            Action::FetchCheckpoint => Event::CheckpointFetched(
                origin.latest_checkpoint(None).map(|c| SignedCheckpoint {
                    checkpoint: c,
                    signers: vec![h(0x11), h(0x22)],
                }),
            ),
            Action::Submit(_) => {
                tx += 1;
                Event::SubmissionSent(dest.process(orch.message_id, h(tx)).map(|o| o.txid))
            }
            Action::PollStatus(txid) => Event::TxStatus(dest.status(txid)),
            Action::Idle | Action::Finish => break,
        };
        action = orch.step(verifier, event);
    }
    actions
}

#[test]
fn encode_domain_is_big_endian_then_tag() {
    assert_eq!(encode_domain(1000), vec![0, 0, 3, 232, b'A', b'B', b'A', b'C', b'U', b'S']);
    assert_eq!(encode_domain(0x0102_0304)[..4], [1, 2, 3, 4]);
}

#[test]
fn domain_hash_is_keccak_of_encoding() {
    let expected = ethers::utils::keccak256([0u8, 0, 3, 232, b'A', b'B', b'A', b'C', b'U', b'S']);
    assert_eq!(domain_hash(1000).0, expected);
    assert_ne!(domain_hash(1000).0[..10], encode_domain(1000)[..]);
}

#[test]
fn domain_hashes_are_distinct_over_sampled_pairs() {
    let mut x: u64 = 0x9E37_79B9_7F4A_7C15;
    for _ in 0..1000 {
        x = x.wrapping_mul(6364136223846793005).wrapping_add(1442695040888963407);
        let a = (x >> 32) as u32;
        let b = (x as u32) ^ 0x5555_5555;
        if a != b {
            assert_ne!(domain_hash(a), domain_hash(b));
        }
    }
    assert_ne!(domain_hash(0), domain_hash(1));
    assert_eq!(domain_hash(7), domain_hash(7));
}

#[test]
fn checkpoint_of_one_domain_fails_for_another() {
    let mut v = CheckpointVerifier::new(config());
    assert_eq!(v.verify(&signed(ORIGIN, 1, 4), DESTINATION), Err(VerificationError::WrongDomain));
    assert_eq!(v.last_index(DESTINATION), None);
    assert_eq!(v.verify(&signed(ORIGIN, 1, 4), ORIGIN), Ok(()));
}

#[test]
fn stale_checkpoint_is_rejected() {
    let mut v = CheckpointVerifier::new(config());
    assert_eq!(v.verify(&signed(ORIGIN, 1, 5), ORIGIN), Ok(()));
    assert_eq!(v.last_index(ORIGIN), Some(5));
    assert_eq!(v.verify(&signed(ORIGIN, 2, 3), ORIGIN), Err(VerificationError::Stale));
    assert_eq!(v.last_index(ORIGIN), Some(5));
    assert_eq!(v.verify(&signed(ORIGIN, 3, 5), ORIGIN), Ok(()));
    assert_eq!(v.verify(&signed(ORIGIN, 4, 9), ORIGIN), Ok(()));
    assert_eq!(v.last_index(ORIGIN), Some(9));
    // Another domain keeps its own history.
    assert_eq!(v.verify(&signed(DESTINATION, 4, 1), DESTINATION), Ok(()));
    assert_eq!(v.last_index(ORIGIN), Some(9));
}

#[test]
fn quorum_must_be_met() {
    let mut v = CheckpointVerifier::new(config());
    let mut cp = signed(ORIGIN, 1, 2);
    cp.signers = vec![h(0x11), h(0x44), h(0x55)];
    assert_eq!(v.count_signers(&cp.signers), 1);
    assert_eq!(v.verify(&cp, ORIGIN), Err(VerificationError::QuorumUnmet));
    assert_eq!(v.last_index(ORIGIN), None);
    cp.signers.push(h(0x22));
    assert_eq!(v.count_signers(&cp.signers), 2);
    assert_eq!(v.verify(&cp, ORIGIN), Ok(()));
}

#[test]
fn id_by_nonce_agrees_with_raw_message_by_id() {
    let mut mb = MemoryMailbox::new(ORIGIN, h(0));
    for i in 0..6u8 {
        assert_eq!(mb.dispatch(vec![i, i, 7]).unwrap(), i as u32);
    }
    for n in 0..6usize {
        let id = mb.id_by_nonce(n).unwrap().unwrap();
        let m = mb.raw_message_by_id(id).unwrap().unwrap();
        assert_eq!(m.nonce as usize, n);
        assert_eq!(m.body, vec![n as u8, n as u8, 7]);
        assert_eq!(m.id(), id);
        assert_eq!(mb.message_by_id(&id).unwrap().unwrap().nonce as usize, n);
    }
    assert!(mb.raw_message_by_id(h(9)).unwrap().is_none());
}

#[test]
fn message_id_covers_nonce_and_body() {
    let a = RawMessage { nonce: 0, body: vec![1, 2] };
    let b = RawMessage { nonce: 1, body: vec![1, 2] };
    let c = RawMessage { nonce: 0, body: vec![1, 3] };
    assert_ne!(a.id(), b.id());
    assert_ne!(a.id(), c.id());
    assert_eq!(a.id().0, ethers::utils::keccak256([0u8, 0, 0, 0, 1, 2]));
}

#[test]
fn nonce_beyond_count_is_not_yet_not_an_error() {
    let mut mb = MemoryMailbox::new(ORIGIN, h(0));
    mb.dispatch(vec![1]).unwrap();
    mb.dispatch(vec![2]).unwrap();
    assert_eq!(mb.count().unwrap(), 2);
    assert_eq!(mb.id_by_nonce(2).unwrap(), None);
    assert_eq!(mb.id_by_nonce(100).unwrap(), None);
    assert_eq!(mb.id_at_nonce(2).unwrap(), None);
    assert_eq!(mb.id_at_nonce(0).unwrap(), mb.id_by_nonce(0).unwrap());
    assert_eq!(mb.leaf_count().unwrap(), 2);
    assert!(mb.id_by_nonce(1).unwrap().is_some());
    mb.set_online(false);
    let err = mb.id_by_nonce(2).unwrap_err();
    assert!(mb.id_at_nonce(2).is_err());
    assert_eq!(err.kind, ErrorKind::Transient);
    assert!(mb.count().is_err());
    assert!(mb.dispatch(vec![3]).is_err());
    mb.set_online(true);
    assert_eq!(mb.count().unwrap(), 2);
}

#[test]
fn mailbox_reports_its_domain_and_module() {
    let mut mb = MemoryMailbox::new(ORIGIN, h(0x42));
    assert_eq!(mb.local_domain(), ORIGIN);
    assert_eq!(mb.local_domain_hash(), domain_hash(ORIGIN));
    assert_eq!(mb.default_module().unwrap(), h(0x42));
    mb.set_online(false);
    assert!(mb.default_module().is_err());
}

#[test]
fn latest_checkpoint_applies_lag() {
    let mut mb = MemoryMailbox::new(ORIGIN, h(0));
    assert_eq!(mb.latest_checkpoint(None).unwrap_err().kind, ErrorKind::Transient);
    for i in 0..3u32 {
        mb.post_checkpoint(signed(ORIGIN, i as u8, i).checkpoint);
    }
    assert_eq!(mb.latest_checkpoint(None).unwrap().index, 2);
    assert_eq!(mb.latest_checkpoint(Some(0)).unwrap().index, 2);
    assert_eq!(mb.latest_checkpoint(Some(2)).unwrap().index, 0);
    assert!(mb.latest_checkpoint(Some(3)).is_err());
    assert!(mb.latest_checkpoint(Some(u64::MAX)).is_err());
}

#[test]
fn process_records_outcomes() {
    let mut mb = MemoryMailbox::new(DESTINATION, h(0));
    let first = mb.process(h(0xAA), h(1)).unwrap();
    assert!(first.executed);
    assert_eq!(first.gas_used, 21000);
    let second = mb.process(h(0xAA), h(2)).unwrap();
    assert!(!second.executed);
    assert_eq!(mb.submission_count(), 2);
    let st = mb.status(h(1)).unwrap().unwrap();
    assert!(st.txid == first.txid && st.executed && st.gas_used == 21000);
    assert!(mb.status(h(3)).unwrap().is_none());
    assert!(mb.delivered(h(0xAA)).unwrap());
    assert!(!mb.delivered(h(0xAB)).unwrap());
}

#[test]
fn already_delivered_message_is_never_resubmitted() {
    let mut origin = MemoryMailbox::new(ORIGIN, h(0));
    origin.dispatch(vec![5]).unwrap();
    let id = origin.id_by_nonce(0).unwrap().unwrap();
    origin.post_checkpoint(signed(ORIGIN, 1, 0).checkpoint);
    let mut dest = MemoryMailbox::new(DESTINATION, h(0));
    dest.process(id, h(1)).unwrap();
    assert_eq!(dest.submission_count(), 1);
    let mut v = CheckpointVerifier::new(config());
    for _ in 0..3 {
        let mut orch = Orchestrator::new(ORIGIN, 0, id, 2);
        let actions = drive(&mut orch, &mut v, &origin, &mut dest, 20);
        assert!(matches!(orch.state, DeliveryState::Delivered));
        assert!(!actions.iter().any(|a| matches!(a, Action::Submit(_))));
    }
    assert_eq!(dest.submission_count(), 1);
}

#[test]
fn insufficient_checkpoint_polls_then_proceeds() {
    let mut v = CheckpointVerifier::new(config());
    let mut orch = Orchestrator::new(ORIGIN, 5, h(0xAA), 2);
    assert!(matches!(orch.step(&mut v, Event::DeliveryStatus(Ok(false))), Action::FetchCheckpoint));
    let a = orch.step(&mut v, Event::CheckpointFetched(Ok(signed(ORIGIN, 1, 3))));
    assert!(matches!(a, Action::FetchCheckpoint));
    assert!(matches!(orch.state, DeliveryState::Indexed));
    let a = orch.step(&mut v, Event::CheckpointFetched(Ok(signed(ORIGIN, 2, 6))));
    match a {
        Action::Submit(c) => assert_eq!(c.index, 6),
        _ => panic!("expected a submission"),
    }
    assert!(matches!(orch.state, DeliveryState::ProofReady { .. }));
}

#[test]
fn checkpoint_at_the_nonce_suffices() {
    let mut v = CheckpointVerifier::new(config());
    let mut orch = Orchestrator::new(ORIGIN, 5, h(0xAA), 2);
    orch.step(&mut v, Event::DeliveryStatus(Ok(false)));
    let a = orch.step(&mut v, Event::CheckpointFetched(Ok(signed(ORIGIN, 1, 5))));
    assert!(matches!(a, Action::Submit(_)));
}

#[test]
fn end_to_end_delivery() {
    let mut v = CheckpointVerifier::new(config());
    let mut dest = MemoryMailbox::new(DESTINATION, h(0));
    let id = h(0xAA);
    assert!(!dest.delivered(id).unwrap());
    let mut orch = Orchestrator::new(ORIGIN, 0, id, 2);
    assert!(matches!(orch.step(&mut v, Event::DeliveryStatus(dest.delivered(id))), Action::FetchCheckpoint));
    assert!(matches!(orch.state, DeliveryState::Indexed));
    let cp = signed(ORIGIN, 0x77, 1);
    let a = orch.step(&mut v, Event::CheckpointFetched(Ok(cp.clone())));
    assert!(matches!(a, Action::Submit(c) if c.index == 1 && c.root == h(0x77)));
    let outcome = dest.process(id, h(0x01)).unwrap();
    assert!(outcome.executed);
    let a = orch.step(&mut v, Event::SubmissionSent(Ok(outcome.txid)));
    assert!(matches!(a, Action::PollStatus(t) if t == h(0x01)));
    assert!(matches!(orch.state, DeliveryState::Submitted { .. }));
    let a = orch.step(&mut v, Event::TxStatus(dest.status(h(0x01))));
    assert!(matches!(a, Action::Finish));
    assert!(matches!(orch.state, DeliveryState::Delivered));
    assert!(dest.delivered(id).unwrap());
}

#[test]
fn end_to_end_with_in_memory_chains() {
    let mut origin = MemoryMailbox::new(ORIGIN, h(0));
    for i in 0..4u8 {
        origin.dispatch(vec![i]).unwrap();
    }
    let id = origin.id_by_nonce(3).unwrap().unwrap();
    origin.post_checkpoint(signed(ORIGIN, 1, 3).checkpoint);
    let mut dest = MemoryMailbox::new(DESTINATION, h(0));
    let mut v = CheckpointVerifier::new(config());
    let mut orch = Orchestrator::new(ORIGIN, 3, id, 2);
    drive(&mut orch, &mut v, &origin, &mut dest, 20);
    assert!(matches!(orch.state, DeliveryState::Delivered));
    assert_eq!(dest.submission_count(), 1);
    assert!(dest.delivered(id).unwrap());
}

#[test]
fn retry_budget_exhausted_after_transient_submit_errors() {
    let mut v = CheckpointVerifier::new(config());
    let mut orch = Orchestrator::new(ORIGIN, 0, h(0xAA), 2);
    orch.step(&mut v, Event::DeliveryStatus(Ok(false)));
    let a = orch.step(&mut v, Event::CheckpointFetched(Ok(signed(ORIGIN, 1, 1))));
    assert!(matches!(a, Action::Submit(_)));
    for attempt in 0..3 {
        let a = orch.step(&mut v, Event::SubmissionSent(Err(transient())));
        assert!(matches!(a, Action::CheckDelivered));
        let a = orch.step(&mut v, Event::DeliveryStatus(Ok(false)));
        if attempt < 2 {
            assert!(matches!(a, Action::Submit(_)));
        } else {
            assert!(matches!(a, Action::Finish));
        }
    }
    assert!(matches!(
        orch.state,
        DeliveryState::Failed { category: FailureCategory::RetryableExhausted }
    ));
    assert_eq!(orch.retries, 2);
}

#[test]
fn permanent_error_fails_at_once() {
    let mut v = CheckpointVerifier::new(config());
    let mut orch = Orchestrator::new(ORIGIN, 0, h(0xAA), 5);
    let e = ChainCommunicationError::permanent("bad call".to_string());
    assert!(!e.is_transient());
    assert!(matches!(orch.step(&mut v, Event::DeliveryStatus(Err(e))), Action::Finish));
    assert!(matches!(orch.state, DeliveryState::Failed { category: FailureCategory::Permanent }));
    assert_eq!(orch.retries, 0);
    assert!(orch.is_done());
}

#[test]
fn reverted_submission_fails_permanently_unless_delivered_meanwhile() {
    let mut v = CheckpointVerifier::new(config());
    let mut orch = Orchestrator::new(ORIGIN, 0, h(0xAA), 5);
    orch.step(&mut v, Event::DeliveryStatus(Ok(false)));
    orch.step(&mut v, Event::CheckpointFetched(Ok(signed(ORIGIN, 1, 0))));
    orch.step(&mut v, Event::SubmissionSent(Ok(h(1))));
    assert!(matches!(orch.step(&mut v, Event::TxStatus(Ok(None))), Action::PollStatus(_)));
    let reverted = TxOutcome { txid: h(1), executed: false, gas_used: 10 };
    assert!(matches!(orch.step(&mut v, Event::TxStatus(Ok(Some(reverted)))), Action::CheckDelivered));
    let mut racing = orch;
    assert!(matches!(racing.step(&mut v, Event::DeliveryStatus(Ok(true))), Action::Finish));
    assert!(matches!(racing.state, DeliveryState::Delivered));
    assert!(matches!(orch.step(&mut v, Event::DeliveryStatus(Ok(false))), Action::Finish));
    assert!(matches!(orch.state, DeliveryState::Failed { category: FailureCategory::Permanent }));
}

#[test]
fn transient_errors_are_retried_within_budget() {
    let mut v = CheckpointVerifier::new(config());
    let mut orch = Orchestrator::new(ORIGIN, 0, h(0xAA), 1);
    assert!(matches!(orch.step(&mut v, Event::DeliveryStatus(Err(transient()))), Action::CheckDelivered));
    assert_eq!(orch.retries, 1);
    assert!(matches!(orch.step(&mut v, Event::DeliveryStatus(Err(transient()))), Action::Finish));
    assert!(matches!(
        orch.state,
        DeliveryState::Failed { category: FailureCategory::RetryableExhausted }
    ));
}

#[test]
fn invalid_checkpoint_fails_with_verification_error() {
    let mut v = CheckpointVerifier::new(config());
    let mut orch = Orchestrator::new(ORIGIN, 0, h(0xAA), 3);
    orch.step(&mut v, Event::DeliveryStatus(Ok(false)));
    let a = orch.step(&mut v, Event::CheckpointFetched(Ok(signed(DESTINATION, 1, 4))));
    assert!(matches!(a, Action::Finish));
    assert!(matches!(
        orch.state,
        DeliveryState::Failed { category: FailureCategory::Verification(VerificationError::WrongDomain) }
    ));
}

#[test]
fn unexpected_events_change_nothing() {
    let mut v = CheckpointVerifier::new(config());
    let mut orch = Orchestrator::new(ORIGIN, 0, h(0xAA), 3);
    assert!(matches!(orch.step(&mut v, Event::SubmissionSent(Ok(h(1)))), Action::Idle));
    assert!(matches!(orch.state, DeliveryState::Discovered));
    assert!(matches!(orch.step(&mut v, Event::TxStatus(Ok(None))), Action::Idle));
    assert!(matches!(orch.step(&mut v, Event::CheckpointFetched(Ok(signed(ORIGIN, 1, 1)))), Action::Idle));
    assert_eq!(v.last_index(ORIGIN), None);
}

#[test]
fn ended_delivery_ignores_events() {
    let mut v = CheckpointVerifier::new(config());
    let mut orch = Orchestrator::new(ORIGIN, 0, h(0xAA), 3);
    orch.step(&mut v, Event::DeliveryStatus(Ok(true)));
    assert!(matches!(orch.step(&mut v, Event::DeliveryStatus(Ok(false))), Action::Finish));
    assert!(matches!(orch.step(&mut v, Event::CheckpointFetched(Ok(signed(ORIGIN, 1, 1)))), Action::Finish));
    assert!(matches!(orch.state, DeliveryState::Delivered));
}

#[test]
fn digest_equality_is_bytewise() {
    let mut a = H256::zero();
    assert_eq!(a, H256([0; 32]));
    a.0[31] = 1;
    assert!(!a.same(&H256::zero()));
    assert!(a.same(&a.clone()));
}

#[test]
fn validator_listed_twice_counts_once() {
    let mut v = CheckpointVerifier::new(VerifierConfig { validators: vec![h(0x11), h(0x11)], threshold: 2 });
    let mut cp = signed(ORIGIN, 1, 2);
    cp.signers = vec![h(0x11)];
    assert_eq!(v.count_signers(&cp.signers), 1);
    assert_eq!(v.verify(&cp, ORIGIN), Err(VerificationError::QuorumUnmet));
}

#[test]
fn trait_lookups_fail_while_offline() {
    let mut mb = MemoryMailbox::new(ORIGIN, h(0));
    mb.dispatch(vec![1]).unwrap();
    let id = mb.id_by_nonce(0).unwrap().unwrap();
    mb.set_online(false);
    assert!(mb.id_by_nonce(0).is_err());
    assert!(mb.raw_message_by_id(id).is_err());
    assert!(mb.delivered(id).is_err());
    assert!(mb.status(h(1)).is_err());
    assert!(mb.latest_checkpoint(None).is_err());
}
