use vstd::prelude::*;

use crate::digest::H256;
use crate::domain::{be_bytes, keccak, keccak_of, push_be_bytes};

verus! {

/// Whether a failed chain call may succeed when repeated.
#[derive(Clone, Copy, Debug, PartialEq, Eq, Structural)]
pub enum ErrorKind {
    /// Timeouts, dropped connections, a node out of sync: worth retrying.
    Transient,
    /// A malformed call or a revert unrelated to timing: never retried.
    Permanent,
}

/// Failure of a call to a chain; its kind alone decides retry or not.
#[derive(Clone, Debug)]
pub struct ChainCommunicationError {
    pub kind: ErrorKind,
    pub detail: String,
}

impl ChainCommunicationError {
    pub fn transient(detail: String) -> (r: ChainCommunicationError)
        ensures
            r.kind == ErrorKind::Transient,
            r.detail@ == detail@,
    {
        ChainCommunicationError { kind: ErrorKind::Transient, detail }
    }

    pub fn permanent(detail: String) -> (r: ChainCommunicationError)
        ensures
            r.kind == ErrorKind::Permanent,
            r.detail@ == detail@,
    {
        ChainCommunicationError { kind: ErrorKind::Permanent, detail }
    }

    pub fn is_transient(&self) -> (r: bool)
        ensures
            r == (self.kind == ErrorKind::Transient),
    {
        match self.kind {
            ErrorKind::Transient => true,
            ErrorKind::Permanent => false,
        }
    }
}

/// A validator-attested snapshot of a chain's message tree, bound to the
/// chain by its domain hash. `index` is the index of the last leaf covered.
#[derive(Clone, Copy, Debug)]
pub struct Checkpoint {
    pub domain_hash: H256,
    pub root: H256,
    pub index: u32,
}

/// A checkpoint with the validators whose signatures over it were checked.
#[derive(Clone, Debug)]
pub struct SignedCheckpoint {
    pub checkpoint: Checkpoint,
    pub signers: Vec<H256>,
}

/// A message as emitted by the origin chain: its leaf nonce and its bytes.
#[derive(Clone, Debug)]
pub struct RawMessage {
    pub nonce: u32,
    pub body: Vec<u8>,
}

/// The bytes a message id is taken over: the big-endian nonce, then the body.
pub open spec fn message_encoding(nonce: u32, body: Seq<u8>) -> Seq<u8> {
    be_bytes(nonce) + body
}

/// The content identifier of a message.
pub open spec fn spec_message_id(nonce: u32, body: Seq<u8>) -> Seq<u8> {
    keccak_of(message_encoding(nonce, body))
}

impl RawMessage {
    /// The message's id: Keccak-256 over its nonce and body.
    pub fn id(&self) -> (r: H256)
        ensures
            r@ == spec_message_id(self.nonce, self.body@),
    {
        let mut bytes: Vec<u8> = Vec::new();
        push_be_bytes(&mut bytes, self.nonce);
        let mut i: usize = 0;
        while i < self.body.len()
            invariant
                i <= self.body@.len(),
                bytes@ == be_bytes(self.nonce) + self.body@.subrange(0, i as int),
            decreases self.body@.len() - i,
        {
            bytes.push(self.body[i]);
            i = i + 1;
            assert(bytes@ =~= be_bytes(self.nonce) + self.body@.subrange(0, i as int));
        }
        assert(self.body@.subrange(0, i as int) =~= self.body@);
        keccak(&bytes)
    }
}

/// Outcome of one submitted transaction.
#[derive(Clone, Copy, Debug)]
pub struct TxOutcome {
    pub txid: H256,
    /// Whether the transaction executed without reverting.
    pub executed: bool,
    pub gas_used: u64,
}

} // verus!
