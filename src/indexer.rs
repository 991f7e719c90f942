use vstd::prelude::*;

use crate::digest::H256;
use crate::mailbox::MailboxEvents;
use crate::types::ChainCommunicationError;

verus! {

/// Caches the ids of leaves `0..n` once a Mailbox has resolved them. A leaf's
/// id never changes once on chain, so a hit is final; a "not yet" answer is
/// never kept, since a later insertion turns it into an id.
pub struct MessageIndexer {
    resolved: Vec<H256>,
}

impl MessageIndexer {
    /// The cached ids, by nonce.
    pub closed spec fn resolved(&self) -> Seq<H256> {
        self.resolved@
    }

    pub fn new() -> (r: MessageIndexer)
        ensures
            r.resolved().len() == 0,
    {
        MessageIndexer { resolved: Vec::new() }
    }

    /// How many leading nonces are cached.
    pub fn cached(&self) -> (r: usize)
        ensures
            r == self.resolved().len(),
    {
        self.resolved.len()
    }

    /// The id of the leaf at `nonce`: from the cache when known, else from
    /// `mailbox`. An id found for the next uncached nonce is kept; `None`
    /// and errors are handed on and never kept.
    pub fn id_by_nonce<M: MailboxEvents>(&mut self, mailbox: &M, nonce: usize) -> (r: Result<
        Option<H256>,
        ChainCommunicationError,
    >)
        requires
            mailbox.spec_consistent(),
        ensures
            nonce >= old(self).resolved().len() && !mailbox.spec_reachable() ==> r is Err,
            nonce >= old(self).resolved().len() && mailbox.spec_reachable() ==> (r matches Ok(
                found,
            ) && match found {
                Some(h) => mailbox.spec_leaf_id(nonce as int) == Some(h@),
                None => mailbox.spec_leaf_id(nonce as int) is None,
            }),
            nonce < old(self).resolved().len() ==> r == Ok::<
                Option<H256>,
                ChainCommunicationError,
            >(Some(old(self).resolved()[nonce as int])) && final(self).resolved() == old(
                self,
            ).resolved(),
            nonce >= old(self).resolved().len() ==> final(self).resolved() == match r {
                Ok(Some(id)) => if nonce == old(self).resolved().len() {
                    old(self).resolved().push(id)
                } else {
                    old(self).resolved()
                },
                _ => old(self).resolved(),
            },
    {
        if nonce < self.resolved.len() {
            return Ok(Some(self.resolved[nonce]));
        }
        let r = mailbox.id_by_nonce(nonce);
        match &r {
            Ok(Some(id)) => {
                if nonce == self.resolved.len() {
                    self.resolved.push(*id);
                }
            },
            _ => {},
        }
        r
    }
}

} // verus!
