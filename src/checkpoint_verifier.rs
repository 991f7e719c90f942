use vstd::prelude::*;

use crate::digest::{contains_digest, contains_digest_before, holds_digest, H256};
use crate::domain::{domain_hash, spec_domain_hash};
use crate::types::{Checkpoint, SignedCheckpoint};

verus! {

/// Why a checkpoint was refused. Every variant is permanent: fetching the
/// same checkpoint again cannot make it valid.
#[derive(Clone, Copy, Debug, PartialEq, Eq, Structural)]
pub enum VerificationError {
    /// The checkpoint is bound to another domain's hash.
    WrongDomain,
    /// Its index is below one already accepted for the domain.
    Stale,
    /// Too few configured validators signed it.
    QuorumUnmet,
}

/// The validator set and quorum threshold; fixed once built.
#[derive(Clone, Debug)]
pub struct VerifierConfig {
    pub validators: Vec<H256>,
    pub threshold: u32,
}

/// How many distinct validators of `validators` occur among `signers`; a
/// validator listed twice counts once.
pub open spec fn quorum_count(validators: Seq<H256>, signers: Seq<H256>) -> nat
    decreases validators.len(),
{
    if validators.len() == 0 {
        0
    } else {
        quorum_count(validators.drop_last(), signers) + if holds_digest(
            signers,
            validators.last()@,
        ) && !holds_digest(validators.drop_last(), validators.last()@) {
            1nat
        } else {
            0nat
        }
    }
}

/// The verdict on a checkpoint for `domain`, given the indices accepted so
/// far and the domain hash it must carry: domain binding first, then
/// monotonicity, then quorum.
pub open spec fn verdict(
    accepted: Map<u32, u32>,
    config: VerifierConfig,
    signed: SignedCheckpoint,
    domain: u32,
    expected_hash: Seq<u8>,
) -> Result<(), VerificationError> {
    if signed.checkpoint.domain_hash@ != expected_hash {
        Err(VerificationError::WrongDomain)
    } else if accepted.contains_key(domain) && signed.checkpoint.index < accepted[domain] {
        Err(VerificationError::Stale)
    } else if quorum_count(config.validators@, signed.signers@) < config.threshold {
        Err(VerificationError::QuorumUnmet)
    } else {
        Ok(())
    }
}

/// The accepted indices once a check is done: on acceptance the domain is
/// mapped to the checkpoint's index; on refusal the map stays as it was.
pub open spec fn after_verdict(
    accepted: Map<u32, u32>,
    domain: u32,
    checkpoint: Checkpoint,
    r: Result<(), VerificationError>,
) -> Map<u32, u32> {
    if r is Ok {
        accepted.insert(domain, checkpoint.index)
    } else {
        accepted
    }
}

/// Checks checkpoints and remembers, per domain, the highest index accepted.
pub struct CheckpointVerifier {
    config: VerifierConfig,
    entries: Vec<(u32, u32)>,
    accepted: Ghost<Map<u32, u32>>,
}

impl CheckpointVerifier {
    /// The indices accepted so far, by domain.
    pub closed spec fn accepted(&self) -> Map<u32, u32> {
        self.accepted@
    }

    pub closed spec fn config(&self) -> VerifierConfig {
        self.config
    }

    pub closed spec fn wf(&self) -> bool {
        &&& forall|d: u32|
            self.accepted@.contains_key(d) <==> exists|i: int|
                0 <= i < self.entries@.len() && #[trigger] self.entries@[i].0 == d
        &&& forall|i: int|
            0 <= i < self.entries@.len() ==> self.accepted@[#[trigger] self.entries@[i].0]
                == self.entries@[i].1
        &&& forall|i: int, j: int|
            0 <= i < self.entries@.len() && 0 <= j < self.entries@.len()
                && #[trigger] self.entries@[i].0 == #[trigger] self.entries@[j].0 ==> i == j
    }

    pub fn new(config: VerifierConfig) -> (r: CheckpointVerifier)
        ensures
            r.wf(),
            r.config() == config,
            r.accepted() == Map::<u32, u32>::empty(),
    {
        CheckpointVerifier { config, entries: Vec::new(), accepted: Ghost(Map::empty()) }
    }

    pub fn config_ref(&self) -> (r: &VerifierConfig)
        ensures
            *r == self.config(),
    {
        &self.config
    }

    /// The highest index accepted so far for `domain`, if any.
    pub fn last_index(&self, domain: u32) -> (r: Option<u32>)
        requires
            self.wf(),
        ensures
            r == (if self.accepted().contains_key(domain) {
                Some(self.accepted()[domain])
            } else {
                None
            }),
    {
        match self.position(domain) {
            Some(i) => Some(self.entries[i].1),
            None => None,
        }
    }

    fn position(&self, domain: u32) -> (r: Option<usize>)
        requires
            self.wf(),
        ensures
            match r {
                Some(i) => i < self.entries@.len() && self.entries@[i as int].0 == domain,
                None => !self.accepted@.contains_key(domain),
            },
    {
        let mut i: usize = 0;
        while i < self.entries.len()
            invariant
                i <= self.entries@.len(),
                forall|j: int| 0 <= j < i ==> self.entries@[j].0 != domain,
            decreases self.entries@.len() - i,
        {
            if self.entries[i].0 == domain {
                return Some(i);
            }
            i = i + 1;
        }
        None
    }

    fn record(&mut self, domain: u32, index: u32)
        requires
            old(self).wf(),
        ensures
            final(self).wf(),
            final(self).config == old(self).config,
            final(self).accepted@ == old(self).accepted@.insert(domain, index),
    {
        let ghost before = self.accepted@;
        let ghost pos: int;
        match self.position(domain) {
            Some(i) => {
                self.entries.set(i, (domain, index));
                proof {
                    pos = i as int;
                }
            },
            None => {
                self.entries.push((domain, index));
                proof {
                    pos = self.entries@.len() - 1;
                }
            },
        }
        self.accepted = Ghost(before.insert(domain, index));
        assert(self.entries@[pos].0 == domain);
        assert forall|d: u32|
            self.accepted@.contains_key(d) implies exists|i: int|
                0 <= i < self.entries@.len() && #[trigger] self.entries@[i].0 == d by {
            if d != domain {
                let i = choose|i: int|
                    0 <= i < old(self).entries@.len() && #[trigger] old(self).entries@[i].0 == d;
                assert(self.entries@[i].0 == d);
            } else {
                assert(self.entries@[pos].0 == d);
            }
        }
    }

    /// Number of distinct configured validators among `signers`.
    pub fn count_signers(&self, signers: &Vec<H256>) -> (r: usize)
        ensures
            r == quorum_count(self.config().validators@, signers@),
    {
        let validators = &self.config.validators;
        let mut n: usize = 0;
        let mut i: usize = 0;
        while i < validators.len()
            invariant
                i <= validators@.len(),
                n <= i,
                n == quorum_count(validators@.subrange(0, i as int), signers@),
            decreases validators@.len() - i,
        {
            assert(validators@.subrange(0, i + 1).drop_last() =~= validators@.subrange(0, i as int));
            if contains_digest(signers, &validators[i]) && !contains_digest_before(
                validators,
                i,
                &validators[i],
            ) {
                n = n + 1;
            }
            i = i + 1;
        }
        assert(validators@.subrange(0, i as int) =~= validators@);
        n
    }

    /// Verifies a checkpoint for `domain` against the hash it must carry.
    /// On acceptance the domain's index moves to the checkpoint's.
    pub fn verify_with_hash(
        &mut self,
        signed: &SignedCheckpoint,
        domain: u32,
        expected_hash: &H256,
    ) -> (r: Result<(), VerificationError>)
        requires
            old(self).wf(),
        ensures
            final(self).wf(),
            final(self).config() == old(self).config(),
            r == verdict(old(self).accepted(), old(self).config(), *signed, domain, expected_hash@),
            final(self).accepted() == after_verdict(
                old(self).accepted(),
                domain,
                signed.checkpoint,
                r,
            ),
    {
        if !signed.checkpoint.domain_hash.same(expected_hash) {
            return Err(VerificationError::WrongDomain);
        }
        match self.last_index(domain) {
            Some(last) => {
                if signed.checkpoint.index < last {
                    return Err(VerificationError::Stale);
                }
            },
            None => {},
        }
        let n = self.count_signers(&signed.signers);
        if n < self.config.threshold as usize {
            return Err(VerificationError::QuorumUnmet);
        }
        self.record(domain, signed.checkpoint.index);
        Ok(())
    }

    /// Verifies a checkpoint for `domain`: it must carry `domain_hash(domain)`,
    /// not fall below an index already accepted for the domain, and be signed
    /// by at least `threshold` configured validators.
    pub fn verify(&mut self, signed: &SignedCheckpoint, domain: u32) -> (r: Result<
        (),
        VerificationError,
    >)
        requires
            old(self).wf(),
        ensures
            final(self).wf(),
            final(self).config() == old(self).config(),
            r == verdict(
                old(self).accepted(),
                old(self).config(),
                *signed,
                domain,
                spec_domain_hash(domain),
            ),
            final(self).accepted() == after_verdict(
                old(self).accepted(),
                domain,
                signed.checkpoint,
                r,
            ),
    {
        let expected = domain_hash(domain);
        self.verify_with_hash(signed, domain, &expected)
    }
}

/// A checkpoint whose index is below the one already accepted for its
/// domain is refused, whatever it carries.
pub proof fn lemma_stale_checkpoint_rejected(
    accepted: Map<u32, u32>,
    config: VerifierConfig,
    signed: SignedCheckpoint,
    domain: u32,
    expected_hash: Seq<u8>,
)
    requires
        accepted.contains_key(domain),
        signed.checkpoint.index < accepted[domain],
    ensures
        verdict(accepted, config, signed, domain, expected_hash) is Err,
{
}

/// Accepted indices only grow: after any verdict every domain keeps an
/// entry at least as high as before.
pub proof fn lemma_accepted_indices_grow(
    accepted: Map<u32, u32>,
    config: VerifierConfig,
    signed: SignedCheckpoint,
    domain: u32,
    expected_hash: Seq<u8>,
    d: u32,
)
    requires
        accepted.contains_key(d),
    ensures
        ({
            let after = after_verdict(
                accepted,
                domain,
                signed.checkpoint,
                verdict(accepted, config, signed, domain, expected_hash),
            );
            after.contains_key(d) && after[d] >= accepted[d]
        }),
{
}

/// A checkpoint bound to domain `a`'s hash is refused for domain `b`
/// whenever the two domains' hashes differ.
pub proof fn lemma_cross_domain_rejected(
    accepted: Map<u32, u32>,
    config: VerifierConfig,
    signed: SignedCheckpoint,
    a: u32,
    b: u32,
)
    requires
        signed.checkpoint.domain_hash@ == spec_domain_hash(a),
        spec_domain_hash(a) != spec_domain_hash(b),
    ensures
        verdict(accepted, config, signed, b, spec_domain_hash(b))
            == Err::<(), VerificationError>(VerificationError::WrongDomain),
{
}

} // verus!
