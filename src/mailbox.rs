use vstd::prelude::*;

use crate::digest::H256;
use crate::domain::{domain_hash, spec_domain_hash};
use crate::types::{Checkpoint, ChainCommunicationError, RawMessage, TxOutcome};

verus! {

/// The uniform read and status surface of a chain's Mailbox contract; every
/// chain backend implements it, and the rest of the library depends on it
/// alone. The spec functions describe the chain as the Mailbox sees it.
pub trait Mailbox {
    /// The domain this Mailbox serves.
    spec fn spec_local_domain(&self) -> u32;

    /// The implementation's own well-formedness, kept by all its operations.
    spec fn spec_consistent(&self) -> bool;

    /// Whether the chain answers; while not, every chain query fails.
    spec fn spec_reachable(&self) -> bool;

    /// Number of leaves in the message tree.
    spec fn spec_leaf_count(&self) -> nat;

    /// Whether the message with this id is marked delivered.
    spec fn spec_delivered(&self, id: Seq<u8>) -> bool;

    /// The checkpoint `lag` checkpoints before the head, if there is one.
    spec fn spec_checkpoint(&self, lag: Option<u64>) -> Option<Checkpoint>;

    /// The observed outcome of transaction `txid`, if any.
    spec fn spec_tx_outcome(&self, txid: Seq<u8>) -> Option<TxOutcome>;

    /// The default interchain security module.
    spec fn spec_default_module(&self) -> Seq<u8>;

    /// The domain id of this chain; constant for the Mailbox's lifetime.
    fn local_domain(&self) -> (r: u32)
        ensures
            r == self.spec_local_domain(),
    ;

    /// The domain hash of this chain.
    fn local_domain_hash(&self) -> (r: H256)
        ensures
            r@ == spec_domain_hash(self.spec_local_domain()),
    {
        domain_hash(self.local_domain())
    }

    /// Current leaf count of the message tree.
    fn count(&self) -> (r: Result<u32, ChainCommunicationError>)
        requires
            self.spec_consistent(),
        ensures
            !self.spec_reachable() ==> r is Err,
            self.spec_reachable() ==> (r matches Ok(n) && n == self.spec_leaf_count()),
    ;

    /// Whether the message with this id is marked delivered on this chain.
    fn delivered(&self, id: H256) -> (r: Result<bool, ChainCommunicationError>)
        ensures
            !self.spec_reachable() ==> r is Err,
            self.spec_reachable() ==> (r matches Ok(b) && b == self.spec_delivered(id@)),
    ;

    /// The latest checkpoint, as of `lag` checkpoints before the head; an
    /// error while there is none that old.
    fn latest_checkpoint(&self, lag: Option<u64>) -> (r: Result<Checkpoint, ChainCommunicationError>)
        ensures
            !self.spec_reachable() ==> r is Err,
            self.spec_reachable() ==> match self.spec_checkpoint(lag) {
                Some(c) => (r matches Ok(x) && x == c),
                None => r is Err,
            },
    ;

    /// The outcome of a submitted transaction; `None` while not yet observed.
    fn status(&self, txid: H256) -> (r: Result<Option<TxOutcome>, ChainCommunicationError>)
        ensures
            !self.spec_reachable() ==> r is Err,
            self.spec_reachable() ==> (r matches Ok(found) && found == self.spec_tx_outcome(txid@)),
    ;

    /// The chain-wide default interchain security module.
    fn default_module(&self) -> (r: Result<H256, ChainCommunicationError>)
        ensures
            !self.spec_reachable() ==> r is Err,
            self.spec_reachable() ==> (r matches Ok(m) && m@ == self.spec_default_module()),
    ;
}

/// Lookups over the messages a Mailbox has emitted.
pub trait MailboxEvents: Mailbox {
    /// The id of the leaf at `nonce`, if one exists.
    spec fn spec_leaf_id(&self, nonce: int) -> Option<Seq<u8>>;

    /// The nonce and body of the message with this id, if one was emitted.
    spec fn spec_message_of(&self, id: Seq<u8>) -> Option<(u32, Seq<u8>)>;

    /// Nonce- and id-indexed lookups agree: the id at a nonce names the
    /// message with that nonce, and no leaf lies at or beyond the count.
    proof fn lemma_nonce_id_agreement(&self, nonce: int)
        requires
            self.spec_consistent(),
        ensures
            self.spec_leaf_id(nonce) matches Some(id) ==> (self.spec_message_of(id) matches Some(
                m,
            ) && m.0 == nonce),
            nonce >= self.spec_leaf_count() ==> self.spec_leaf_id(nonce) is None,
    ;

    /// The message with this id; `None` when this Mailbox never emitted it.
    fn raw_message_by_id(&self, id: H256) -> (r: Result<Option<RawMessage>, ChainCommunicationError>)
        requires
            self.spec_consistent(),
        ensures
            !self.spec_reachable() ==> r is Err,
            self.spec_reachable() ==> (r matches Ok(found) && match self.spec_message_of(id@) {
                Some(m) => (found matches Some(x) && x.nonce == m.0 && x.body@ == m.1),
                None => found is None,
            }),
    ;

    /// The id of the leaf at `nonce` (0 is the first inserted); `None` when
    /// no leaf exists there yet, which is no error.
    fn id_by_nonce(&self, nonce: usize) -> (r: Result<Option<H256>, ChainCommunicationError>)
        requires
            self.spec_consistent(),
        ensures
            !self.spec_reachable() ==> r is Err,
            self.spec_reachable() ==> (r matches Ok(found) && match found {
                Some(h) => self.spec_leaf_id(nonce as int) == Some(h@),
                None => self.spec_leaf_id(nonce as int) is None,
            }),
            self.spec_reachable() && nonce >= self.spec_leaf_count() ==> (r matches Ok(None)),
    ;
}

} // verus!
