use vstd::prelude::*;

use crate::digest::{contains_digest, holds_digest, H256};
use crate::mailbox::{Mailbox, MailboxEvents};
use crate::types::{spec_message_id, Checkpoint, ChainCommunicationError, ErrorKind, RawMessage, TxOutcome};

verus! {

/// A Mailbox held in memory: an append-only list of messages, the ids marked
/// delivered, posted checkpoints and the outcomes of submissions. While
/// offline every call fails with a transient error.
pub struct MemoryMailbox {
    domain: u32,
    messages: Vec<RawMessage>,
    ids: Vec<H256>,
    delivered_ids: Vec<H256>,
    checkpoints: Vec<Checkpoint>,
    outcomes: Vec<TxOutcome>,
    module: H256,
    online: bool,
}

/// Whether the digests in `s` are pairwise distinct.
pub open spec fn distinct_digests(s: Seq<H256>) -> bool {
    forall|i: int, j: int| 0 <= i < s.len() && 0 <= j < s.len() && i != j ==> s[i]@ != s[j]@
}

/// The checkpoint `lag` places before the newest one (`None` counts as 0).
pub open spec fn checkpoint_at_lag(cps: Seq<Checkpoint>, lag: Option<u64>) -> Option<Checkpoint> {
    let l: int = match lag {
        None => 0,
        Some(l) => l as int,
    };
    if l < cps.len() {
        Some(cps[cps.len() - 1 - l])
    } else {
        None
    }
}

/// The first outcome recorded for transaction `txid`.
pub open spec fn first_outcome(outs: Seq<TxOutcome>, txid: Seq<u8>) -> Option<TxOutcome> {
    if exists|i: int| 0 <= i < outs.len() && outs[i].txid@ == txid {
        Some(
            outs[choose|i: int|
                0 <= i < outs.len() && outs[i].txid@ == txid && forall|j: int|
                    0 <= j < i ==> outs[j].txid@ != txid],
        )
    } else {
        None
    }
}

/// Gas charged for one delivery by the in-memory Mailbox.
pub const DELIVERY_GAS: u64 = 21000;

impl MemoryMailbox {
    /// The position of the message with this id, if any.
    pub open spec fn index_of_id(&self, id: Seq<u8>) -> Option<int> {
        if exists|i: int| 0 <= i < self.ids().len() && self.ids()[i]@ == id {
            Some(choose|i: int| 0 <= i < self.ids().len() && self.ids()[i]@ == id)
        } else {
            None
        }
    }

    /// The id of the leaf at `nonce`, if one exists.
    pub open spec fn id_at(&self, nonce: int) -> Option<Seq<u8>> {
        if 0 <= nonce < self.ids().len() {
            Some(self.ids()[nonce]@)
        } else {
            None
        }
    }

    /// The outcome a submission of message `id` under `txid` yields: it
    /// executes unless the message is already delivered.
    pub open spec fn outcome_for(&self, id: Seq<u8>, txid: H256) -> TxOutcome {
        TxOutcome { txid, executed: !holds_digest(self.delivered_ids(), id), gas_used: DELIVERY_GAS }
    }

    pub closed spec fn domain(&self) -> u32 {
        self.domain
    }

    /// The emitted messages, by nonce.
    pub closed spec fn messages(&self) -> Seq<RawMessage> {
        self.messages@
    }

    /// The ids of the emitted messages, by nonce.
    pub closed spec fn ids(&self) -> Seq<H256> {
        self.ids@
    }

    pub closed spec fn delivered_ids(&self) -> Seq<H256> {
        self.delivered_ids@
    }

    pub closed spec fn checkpoints(&self) -> Seq<Checkpoint> {
        self.checkpoints@
    }

    /// Outcomes of every submission so far, in order.
    pub closed spec fn outcomes(&self) -> Seq<TxOutcome> {
        self.outcomes@
    }

    pub closed spec fn module(&self) -> H256 {
        self.module
    }

    pub closed spec fn online(&self) -> bool {
        self.online
    }

    /// Message `i` has nonce `i` and the id stored beside it; ids are unique.
    pub open spec fn wf(&self) -> bool {
        &&& self.messages().len() == self.ids().len()
        &&& self.messages().len() <= u32::MAX
        &&& forall|i: int|
            0 <= i < self.messages().len() ==> {
                &&& (#[trigger] self.messages()[i]).nonce == i
                &&& self.ids()[i]@ == spec_message_id(
                    self.messages()[i].nonce,
                    self.messages()[i].body@,
                )
            }
        &&& distinct_digests(self.ids())
    }

    pub fn new(domain: u32, module: H256) -> (r: MemoryMailbox)
        ensures
            r.wf(),
            r.domain() == domain,
            r.module() == module,
            r.online(),
            r.messages().len() == 0,
            r.delivered_ids().len() == 0,
            r.checkpoints().len() == 0,
            r.outcomes().len() == 0,
    {
        MemoryMailbox {
            domain,
            messages: Vec::new(),
            ids: Vec::new(),
            delivered_ids: Vec::new(),
            checkpoints: Vec::new(),
            outcomes: Vec::new(),
            module,
            online: true,
        }
    }

    /// Takes the transport up or down.
    pub fn set_online(&mut self, online: bool)
        ensures
            final(self).online() == online,
            final(self).domain() == old(self).domain(),
            final(self).messages() == old(self).messages(),
            final(self).ids() == old(self).ids(),
            final(self).delivered_ids() == old(self).delivered_ids(),
            final(self).checkpoints() == old(self).checkpoints(),
            final(self).outcomes() == old(self).outcomes(),
            final(self).module() == old(self).module(),
    {
        self.online = online;
    }

    /// Appends a message with the next nonce. Refused while offline, when
    /// the tree is full, and when its id is already present.
    pub fn dispatch(&mut self, body: Vec<u8>) -> (r: Result<u32, ChainCommunicationError>)
        requires
            old(self).wf(),
        ensures
            final(self).wf(),
            !old(self).online() ==> r is Err && r->Err_0.kind == ErrorKind::Transient && *final(self)
                == *old(self),
            old(self).online() && old(self).messages().len() == u32::MAX ==> r is Err
                && r->Err_0.kind == ErrorKind::Permanent && *final(self) == *old(self),
            old(self).online() && old(self).messages().len() < u32::MAX && holds_digest(
                old(self).ids(),
                spec_message_id(old(self).messages().len() as u32, body@),
            ) ==> r is Err && r->Err_0.kind == ErrorKind::Permanent && *final(self) == *old(self),
            old(self).online() && old(self).messages().len() < u32::MAX && !holds_digest(
                old(self).ids(),
                spec_message_id(old(self).messages().len() as u32, body@),
            ) ==> {
                &&& r == Ok::<u32, ChainCommunicationError>(old(self).messages().len() as u32)
                &&& final(self).messages() == old(self).messages().push(
                    RawMessage { nonce: old(self).messages().len() as u32, body },
                )
                &&& final(self).ids().len() == old(self).ids().len() + 1
                &&& final(self).ids().drop_last() == old(self).ids()
                &&& final(self).ids().last()@ == spec_message_id(
                    old(self).messages().len() as u32,
                    body@,
                )
                &&& final(self).delivered_ids() == old(self).delivered_ids()
                &&& final(self).checkpoints() == old(self).checkpoints()
                &&& final(self).outcomes() == old(self).outcomes()
                &&& final(self).domain() == old(self).domain()
                &&& final(self).module() == old(self).module()
                &&& final(self).online() == old(self).online()
            },
    {
        if !self.online {
            return Err(MemoryMailbox::offline_error());
        }
        if self.messages.len() >= 0xffff_ffffusize {
            return Err(ChainCommunicationError::permanent(String::from_str("message tree is full")));
        }
        let nonce = self.messages.len() as u32;
        let message = RawMessage { nonce, body };
        let id = message.id();
        if contains_digest(&self.ids, &id) {
            return Err(ChainCommunicationError::permanent(String::from_str("message id already present")));
        }
        self.messages.push(message);
        self.ids.push(id);
        assert(self.ids@.drop_last() =~= old(self).ids@);
        Ok(nonce)
    }

    /// Posts a checkpoint; it becomes the newest.
    pub fn post_checkpoint(&mut self, checkpoint: Checkpoint)
        requires
            old(self).wf(),
        ensures
            final(self).wf(),
            final(self).checkpoints() == old(self).checkpoints().push(checkpoint),
            final(self).messages() == old(self).messages(),
            final(self).ids() == old(self).ids(),
            final(self).delivered_ids() == old(self).delivered_ids(),
            final(self).outcomes() == old(self).outcomes(),
            final(self).domain() == old(self).domain(),
            final(self).module() == old(self).module(),
            final(self).online() == old(self).online(),
    {
        self.checkpoints.push(checkpoint);
    }

    /// Delivers message `id` in a transaction named `txid`. The transaction
    /// reverts when the message is already delivered; either way its
    /// outcome is recorded.
    pub fn process(&mut self, id: H256, txid: H256) -> (r: Result<TxOutcome, ChainCommunicationError>)
        requires
            old(self).wf(),
        ensures
            final(self).wf(),
            !old(self).online() ==> r is Err && r->Err_0.kind == ErrorKind::Transient && *final(self)
                == *old(self),
            old(self).online() ==> {
                &&& r == Ok::<TxOutcome, ChainCommunicationError>(old(self).outcome_for(id@, txid))
                &&& final(self).outcomes() == old(self).outcomes().push(
                    old(self).outcome_for(id@, txid),
                )
                &&& final(self).delivered_ids() == if holds_digest(old(self).delivered_ids(), id@) {
                    old(self).delivered_ids()
                } else {
                    old(self).delivered_ids().push(id)
                }
                &&& final(self).messages() == old(self).messages()
                &&& final(self).ids() == old(self).ids()
                &&& final(self).checkpoints() == old(self).checkpoints()
                &&& final(self).domain() == old(self).domain()
                &&& final(self).module() == old(self).module()
                &&& final(self).online() == old(self).online()
            },
    {
        if !self.online {
            return Err(MemoryMailbox::offline_error());
        }
        let already = contains_digest(&self.delivered_ids, &id);
        if !already {
            self.delivered_ids.push(id);
        }
        let outcome = TxOutcome { txid, executed: !already, gas_used: DELIVERY_GAS };
        self.outcomes.push(outcome);
        Ok(outcome)
    }

    /// How many submissions this Mailbox has received.
    pub fn submission_count(&self) -> (r: usize)
        ensures
            r == self.outcomes().len(),
    {
        self.outcomes.len()
    }

    /// Current leaf count.
    pub fn leaf_count(&self) -> (r: Result<u32, ChainCommunicationError>)
        requires
            self.wf(),
        ensures
            self.online() ==> r == Ok::<u32, ChainCommunicationError>(self.messages().len() as u32),
            !self.online() ==> r is Err && r->Err_0.kind == ErrorKind::Transient,
    {
        if !self.online {
            return Err(MemoryMailbox::offline_error());
        }
        Ok(self.messages.len() as u32)
    }

    /// Whether message `id` is marked delivered.
    pub fn is_delivered(&self, id: &H256) -> (r: Result<bool, ChainCommunicationError>)
        ensures
            self.online() ==> r == Ok::<bool, ChainCommunicationError>(
                holds_digest(self.delivered_ids(), id@),
            ),
            !self.online() ==> r is Err && r->Err_0.kind == ErrorKind::Transient,
    {
        if !self.online {
            return Err(MemoryMailbox::offline_error());
        }
        Ok(contains_digest(&self.delivered_ids, id))
    }

    /// The checkpoint `lag` before the newest; a transient error while none
    /// is that old yet.
    pub fn checkpoint_with_lag(&self, lag: Option<u64>) -> (r: Result<Checkpoint, ChainCommunicationError>)
        ensures
            !self.online() ==> r is Err && r->Err_0.kind == ErrorKind::Transient,
            self.online() ==> match checkpoint_at_lag(self.checkpoints(), lag) {
                Some(c) => r == Ok::<Checkpoint, ChainCommunicationError>(c),
                None => r is Err && r->Err_0.kind == ErrorKind::Transient,
            },
    {
        if !self.online {
            return Err(MemoryMailbox::offline_error());
        }
        let n = self.checkpoints.len();
        let l: u64 = match lag {
            None => 0,
            Some(l) => l,
        };
        if (l as u128) < (n as u128) {
            Ok(self.checkpoints[n - 1 - l as usize])
        } else {
            Err(ChainCommunicationError::transient(String::from_str("no checkpoint that old yet")))
        }
    }

    /// The first recorded outcome of transaction `txid`.
    pub fn tx_status(&self, txid: &H256) -> (r: Result<Option<TxOutcome>, ChainCommunicationError>)
        ensures
            !self.online() ==> r is Err && r->Err_0.kind == ErrorKind::Transient,
            self.online() ==> (r matches Ok(found) && found == first_outcome(
                self.outcomes(),
                txid@,
            )),
    {
        if !self.online {
            return Err(MemoryMailbox::offline_error());
        }
        let mut i: usize = 0;
        while i < self.outcomes.len()
            invariant
                self.online,
                i <= self.outcomes@.len(),
                forall|j: int| 0 <= j < i ==> self.outcomes@[j].txid@ != txid@,
            decreases self.outcomes@.len() - i,
        {
            if self.outcomes[i].txid.same(txid) {
                let o = self.outcomes[i];
                proof {
                    let outs = self.outcomes();
                    let k = choose|k: int|
                        0 <= k < outs.len() && outs[k].txid@ == txid@ && forall|j: int|
                            0 <= j < k ==> outs[j].txid@ != txid@;
                    assert(0 <= i < outs.len() && outs[i as int].txid@ == txid@ && forall|j: int|
                        0 <= j < i ==> outs[j].txid@ != txid@);
                    if k < i {
                    } else if k > i {
                        assert(outs[i as int].txid@ != txid@);
                    }
                    assert(k == i);
                }
                return Ok(Some(o));
            }
            i = i + 1;
        }
        Ok(None)
    }

    /// The default interchain security module.
    pub fn security_module(&self) -> (r: Result<H256, ChainCommunicationError>)
        ensures
            self.online() ==> r == Ok::<H256, ChainCommunicationError>(self.module()),
            !self.online() ==> r is Err && r->Err_0.kind == ErrorKind::Transient,
    {
        if !self.online {
            return Err(MemoryMailbox::offline_error());
        }
        Ok(self.module)
    }

    /// The id of the leaf at `nonce`: `None` when no leaf is there yet,
    /// which is no error.
    pub fn id_at_nonce(&self, nonce: usize) -> (r: Result<Option<H256>, ChainCommunicationError>)
        requires
            self.wf(),
        ensures
            !self.online() ==> r is Err && r->Err_0.kind == ErrorKind::Transient,
            self.online() ==> (r matches Ok(found) && match found {
                Some(h) => self.id_at(nonce as int) == Some(h@),
                None => self.id_at(nonce as int) is None,
            }),
            self.online() && nonce >= self.messages().len() ==> r == Ok::<
                Option<H256>,
                ChainCommunicationError,
            >(None),
    {
        if !self.online {
            return Err(MemoryMailbox::offline_error());
        }
        if nonce < self.ids.len() {
            Ok(Some(self.ids[nonce]))
        } else {
            Ok(None)
        }
    }

    /// The message with this id: `None` when this Mailbox never emitted it.
    pub fn message_by_id(&self, id: &H256) -> (r: Result<Option<RawMessage>, ChainCommunicationError>)
        requires
            self.wf(),
        ensures
            !self.online() ==> r is Err && r->Err_0.kind == ErrorKind::Transient,
            self.online() ==> (r matches Ok(found) && match self.index_of_id(id@) {
                Some(i) => (found matches Some(m) && m.nonce == self.messages()[i].nonce && m.body@
                    == self.messages()[i].body@),
                None => found is None,
            }),
    {
        if !self.online {
            return Err(MemoryMailbox::offline_error());
        }
        let mut i: usize = 0;
        while i < self.ids.len()
            invariant
                self.wf(),
                self.online,
                i <= self.ids@.len(),
                forall|j: int| 0 <= j < i ==> self.ids@[j]@ != id@,
            decreases self.ids@.len() - i,
        {
            if self.ids[i].same(id) {
                let ghost k = choose|k: int| 0 <= k < self.ids().len() && self.ids()[k]@ == id@;
                assert(k == i);
                let m = &self.messages[i];
                let body = m.body.clone();
                assert(body@ =~= m.body@);
                return Ok(Some(RawMessage { nonce: m.nonce, body }));
            }
            i = i + 1;
        }
        Ok(None)
    }

    fn offline_error() -> (r: ChainCommunicationError)
        ensures
            r.kind == ErrorKind::Transient,
    {
        ChainCommunicationError::transient(String::from_str("mailbox unreachable"))
    }
}

impl Mailbox for MemoryMailbox {
    open spec fn spec_local_domain(&self) -> u32 {
        self.domain()
    }

    open spec fn spec_consistent(&self) -> bool {
        self.wf()
    }

    open spec fn spec_reachable(&self) -> bool {
        self.online()
    }

    open spec fn spec_leaf_count(&self) -> nat {
        self.messages().len()
    }

    open spec fn spec_delivered(&self, id: Seq<u8>) -> bool {
        holds_digest(self.delivered_ids(), id)
    }

    open spec fn spec_checkpoint(&self, lag: Option<u64>) -> Option<Checkpoint> {
        checkpoint_at_lag(self.checkpoints(), lag)
    }

    open spec fn spec_tx_outcome(&self, txid: Seq<u8>) -> Option<TxOutcome> {
        first_outcome(self.outcomes(), txid)
    }

    open spec fn spec_default_module(&self) -> Seq<u8> {
        self.module()@
    }

    fn local_domain(&self) -> (r: u32) {
        self.domain
    }

    fn count(&self) -> Result<u32, ChainCommunicationError> {
        self.leaf_count()
    }

    fn delivered(&self, id: H256) -> Result<bool, ChainCommunicationError> {
        self.is_delivered(&id)
    }

    fn latest_checkpoint(&self, lag: Option<u64>) -> Result<Checkpoint, ChainCommunicationError> {
        self.checkpoint_with_lag(lag)
    }

    fn status(&self, txid: H256) -> Result<Option<TxOutcome>, ChainCommunicationError> {
        self.tx_status(&txid)
    }

    fn default_module(&self) -> Result<H256, ChainCommunicationError> {
        self.security_module()
    }
}

impl MailboxEvents for MemoryMailbox {
    open spec fn spec_leaf_id(&self, nonce: int) -> Option<Seq<u8>> {
        self.id_at(nonce)
    }

    open spec fn spec_message_of(&self, id: Seq<u8>) -> Option<(u32, Seq<u8>)> {
        match self.index_of_id(id) {
            Some(i) => Some((self.messages()[i].nonce, self.messages()[i].body@)),
            None => None,
        }
    }

    proof fn lemma_nonce_id_agreement(&self, nonce: int) {
        if 0 <= nonce < self.ids().len() {
            let id = self.ids()[nonce]@;
            let k = choose|k: int| 0 <= k < self.ids().len() && self.ids()[k]@ == id;
            assert(k == nonce);
        }
    }

    fn raw_message_by_id(&self, id: H256) -> Result<Option<RawMessage>, ChainCommunicationError> {
        self.message_by_id(&id)
    }

    fn id_by_nonce(&self, nonce: usize) -> Result<Option<H256>, ChainCommunicationError> {
        self.id_at_nonce(nonce)
    }
}

} // verus!
