//! The ledger store: the committed chain and the pending-transaction
//! buffer, with the operations that a single exclusive owner performs on
//! them.

use vstd::prelude::*;
use crate::block::{hex_of, oracle_input, pow_header, sealed_by, to_hex, Block, Transaction};

verus! {

/// The difficulty of the genesis block, inherited by every later block.
pub const GENESIS_DIFFICULTY: u32 = 4;

/// Why a block was not applied.
#[derive(Debug, PartialEq, Eq, Structural)]
pub enum LedgerError {
    /// The block's `previous_hash` or `index` does not continue the tail.
    ChainMismatch,
    /// The block's hash is not the digest offered, or misses its target.
    InvalidBlockHash,
}

/// `b` continues a chain whose last block is `chain.last()`.
pub open spec fn extends_chain(chain: Seq<Block>, b: Block) -> bool {
    chain.len() > 0 && b.previous_hash@ == chain.last().hash@ && b.index == chain.last().index + 1
}

/// Blocks sit at their index, and each names its predecessor's hash.
pub open spec fn linked(chain: Seq<Block>) -> bool {
    &&& chain.len() >= 1
    &&& forall|i: int| 0 <= i < chain.len() ==> (#[trigger] chain[i]).index == i
    &&& forall|i: int| 1 <= i < chain.len() ==> (#[trigger] chain[i]).previous_hash@ == chain[i - 1].hash@
}

/// The transactions of every block, in chain order.
pub open spec fn committed(chain: Seq<Block>) -> Seq<Transaction>
    decreases chain.len(),
{
    if chain.len() == 0 {
        Seq::empty()
    } else {
        committed(chain.drop_last()) + chain.last().transactions@
    }
}

/// Every transaction the ledger holds: committed, then pending.
pub open spec fn ledger_txs(chain: Seq<Block>, pending: Seq<Transaction>) -> Seq<Transaction> {
    committed(chain) + pending
}

/// The chain is valid under the digests offered: every block after the
/// first names its predecessor's hash and is sealed by its digest.
pub open spec fn valid_under(chain: Seq<Block>, digests: Seq<Seq<u8>>) -> bool {
    forall|i: int|
        1 <= i < chain.len() ==> (#[trigger] chain[i]).previous_hash@ == chain[i - 1].hash@
            && sealed_by(chain[i], digests[i])
}

/// Two blocks built against the same tail cannot both be appended: once
/// one is, the other no longer continues the chain.
pub proof fn lemma_competing_commits(chain: Seq<Block>, a: Block, b: Block)
    requires
        extends_chain(chain, a),
        extends_chain(chain, b),
    ensures
        !extends_chain(chain.push(a), b),
{
}

/// Appending a block that continues the chain keeps it linked.
pub proof fn lemma_append_keeps_linked(chain: Seq<Block>, b: Block)
    requires
        linked(chain),
        extends_chain(chain, b),
    ensures
        linked(chain.push(b)),
{
    let c = chain.push(b);
    assert forall|i: int| 0 <= i < c.len() implies (#[trigger] c[i]).index == i by {
        if i < chain.len() {
            assert(c[i] == chain[i]);
        }
    }
    assert forall|i: int| 1 <= i < c.len() implies (#[trigger] c[i]).previous_hash@ == c[i - 1].hash@ by {
        if i < chain.len() {
            assert(c[i] == chain[i]);
        }
    }
}

/// No transaction is lost or duplicated by a mining cycle: drawing a
/// candidate from the pending buffer, then either committing it or
/// re-queuing its transactions, leaves the ledger holding the same
/// transactions, each as many times as before and in the same order.
pub proof fn lemma_cycle_conserves(
    chain0: Seq<Block>,
    pending0: Seq<Transaction>,
    candidate: Block,
    committed_ok: bool,
    chain2: Seq<Block>,
    pending2: Seq<Transaction>,
)
    requires
        candidate.transactions@ == pending0,
        committed_ok ==> chain2 == chain0.push(candidate) && pending2 == Seq::<Transaction>::empty(),
        !committed_ok ==> chain2 == chain0 && pending2 == candidate.transactions@,
    ensures
        ledger_txs(chain2, pending2) == ledger_txs(chain0, pending0),
        ledger_txs(chain2, pending2).to_multiset() == ledger_txs(chain0, pending0).to_multiset(),
{
    if committed_ok {
        assert(chain2.drop_last() =~= chain0);
    }
    assert(ledger_txs(chain2, pending2) =~= ledger_txs(chain0, pending0));
}

/// The committed chain and the pending buffer.
pub struct Blockchain {
    pub chain: Vec<Block>,
    pub pending_transactions: Vec<Transaction>,
}

impl Blockchain {
    pub open spec fn wf(&self) -> bool {
        linked(self.chain@)
    }

    /// A ledger holding only the genesis block, whose hash is the hex form
    /// of its header.
    pub fn new(timestamp: u64) -> (r: Blockchain)
        ensures
            r.wf(),
            r.chain@.len() == 1,
            r.chain@[0].index == 0,
            r.chain@[0].timestamp == timestamp,
            r.chain@[0].transactions@.len() == 0,
            r.chain@[0].previous_hash@ == seq!['0'],
            r.chain@[0].nonce == 0,
            r.chain@[0].difficulty == GENESIS_DIFFICULTY,
            r.chain@[0].hash@ == hex_of(pow_header(r.chain@[0])),
            r.pending_transactions@.len() == 0,
    {
        let mut genesis = Block::new(0, Vec::new(), "0".to_owned(), GENESIS_DIFFICULTY, timestamp);
        let header = genesis.calculate_hash();
        genesis.hash = to_hex(header.as_slice());
        proof {
            reveal_strlit("0");
        }
        let mut chain: Vec<Block> = Vec::new();
        chain.push(genesis);
        Blockchain { chain, pending_transactions: Vec::new() }
    }

    /// Queues a transaction at the tail of the pending buffer.
    pub fn add_transaction(&mut self, transaction: Transaction)
        ensures
            final(self).chain@ == old(self).chain@,
            final(self).pending_transactions@ == old(self).pending_transactions@.push(transaction),
    {
        self.pending_transactions.push(transaction);
    }

    /// Takes every pending transaction, in order, leaving the buffer empty.
    pub fn drain_pending(&mut self) -> (r: Vec<Transaction>)
        ensures
            r@ == old(self).pending_transactions@,
            final(self).pending_transactions@.len() == 0,
            final(self).chain@ == old(self).chain@,
    {
        let mut out: Vec<Transaction> = Vec::new();
        std::mem::swap(&mut out, &mut self.pending_transactions);
        out
    }

    /// Puts `transactions` back at the head of the pending buffer, ahead of
    /// whatever arrived since they were drawn.
    pub fn requeue(&mut self, transactions: Vec<Transaction>)
        ensures
            final(self).pending_transactions@ == transactions@ + old(self).pending_transactions@,
            final(self).chain@ == old(self).chain@,
    {
        let mut front = transactions;
        front.append(&mut self.pending_transactions);
        self.pending_transactions = front;
    }

    /// Whether `block` continues the chain's tail.
    pub fn extends_tail(&self, block: &Block) -> (r: bool)
        requires
            self.wf(),
        ensures
            r == extends_chain(self.chain@, *block),
    {
        let tail = &self.chain[self.chain.len() - 1];
        tail.index < u64::MAX && block.index == tail.index + 1 && block.previous_hash == tail.hash
    }

    /// Appends `block` if it continues the tail; otherwise leaves the chain
    /// as it was and reports a mismatch.
    pub fn append_block(&mut self, block: Block) -> (r: Result<(), LedgerError>)
        requires
            old(self).wf(),
        ensures
            final(self).wf(),
            final(self).pending_transactions@ == old(self).pending_transactions@,
            r is Ok <==> extends_chain(old(self).chain@, block),
            r is Ok ==> final(self).chain@ == old(self).chain@.push(block),
            r is Err ==> (r matches Err(LedgerError::ChainMismatch)) && final(self).chain@ == old(self).chain@,
    {
        if self.extends_tail(&block) {
            proof {
                lemma_append_keeps_linked(self.chain@, block);
            }
            self.chain.push(block);
            Ok(())
        } else {
            Err(LedgerError::ChainMismatch)
        }
    }

    /// Draws a candidate block from the pending buffer: the next index, the
    /// tail's hash and difficulty, and every pending transaction in order.
    /// `None`, and nothing changed, when nothing is pending.
    pub fn build_candidate(&mut self, timestamp: u64) -> (r: Option<Block>)
        requires
            old(self).wf(),
        ensures
            final(self).chain@ == old(self).chain@,
            r is None <==> old(self).pending_transactions@.len() == 0,
            r is None ==> final(self).pending_transactions@ == old(self).pending_transactions@,
            r matches Some(b) ==> {
                &&& extends_chain(old(self).chain@, b)
                &&& b.transactions@ == old(self).pending_transactions@
                &&& b.difficulty == old(self).chain@.last().difficulty
                &&& b.timestamp == timestamp
                &&& b.nonce == 0
                &&& b.hash@.len() == 0
                &&& final(self).pending_transactions@.len() == 0
            },
    {
        if self.pending_transactions.len() == 0 {
            return None;
        }
        let transactions = self.drain_pending();
        let last = self.chain.len() - 1;
        let tail = &self.chain[last];
        assert(tail.index == last);
        let block = Block::new(tail.index + 1, transactions, tail.hash.clone(), tail.difficulty, timestamp);
        Some(block)
    }

    /// Commits a sealed candidate if it still continues the tail; if the
    /// tail has moved, re-queues its transactions ahead of the pending ones
    /// and returns false, so that the caller rebuilds against the new tail.
    pub fn commit_candidate(&mut self, block: Block) -> (r: bool)
        requires
            old(self).wf(),
        ensures
            final(self).wf(),
            r == extends_chain(old(self).chain@, block),
            r ==> final(self).chain@ == old(self).chain@.push(block)
                && final(self).pending_transactions@ == old(self).pending_transactions@,
            !r ==> final(self).chain@ == old(self).chain@
                && final(self).pending_transactions@ == block.transactions@ + old(self).pending_transactions@,
    {
        if self.extends_tail(&block) {
            proof {
                lemma_append_keeps_linked(self.chain@, block);
            }
            self.chain.push(block);
            true
        } else {
            self.requeue(block.transactions);
            false
        }
    }

    /// Applies a block received from a peer: it must be sealed by `digest`
    /// (the oracle digest of its header and nonce) and continue the tail.
    pub fn accept_block(&mut self, block: Block, digest: &[u8]) -> (r: Result<(), LedgerError>)
        requires
            old(self).wf(),
        ensures
            final(self).wf(),
            final(self).pending_transactions@ == old(self).pending_transactions@,
            !sealed_by(block, digest@) <==> r matches Err(LedgerError::InvalidBlockHash),
            sealed_by(block, digest@) && !extends_chain(old(self).chain@, block) <==> r matches Err(
                LedgerError::ChainMismatch,
            ),
            r is Ok ==> final(self).chain@ == old(self).chain@.push(block),
            r is Err ==> final(self).chain@ == old(self).chain@,
    {
        if !block.is_sealed_by(digest) {
            return Err(LedgerError::InvalidBlockHash);
        }
        self.append_block(block)
    }

    /// For each block, the bytes the hash oracle digests to check its seal.
    pub fn oracle_inputs(&self) -> (r: Vec<Vec<u8>>)
        ensures
            r@.len() == self.chain@.len(),
            forall|i: int| 0 <= i < r@.len() ==> (#[trigger] r@[i])@ == oracle_input(self.chain@[i]),
    {
        let mut out: Vec<Vec<u8>> = Vec::new();
        let mut i: usize = 0;
        while i < self.chain.len()
            invariant
                0 <= i <= self.chain@.len(),
                out@.len() == i,
                forall|j: int| 0 <= j < i ==> (#[trigger] out@[j])@ == oracle_input(self.chain@[j]),
            decreases self.chain@.len() - i,
        {
            out.push(self.chain[i].oracle_input());
            i = i + 1;
        }
        out
    }

    /// Whether every block after the genesis names its predecessor's hash
    /// and is sealed by its digest; `digests[i]` is the oracle digest of
    /// `oracle_inputs()[i]`.
    pub fn is_chain_valid(&self, digests: &Vec<Vec<u8>>) -> (r: bool)
        requires
            digests@.len() == self.chain@.len(),
        ensures
            r == valid_under(self.chain@, digests@.map_values(|d: Vec<u8>| d@)),
    {
        let ghost ds = digests@.map_values(|d: Vec<u8>| d@);
        let mut i: usize = 1;
        while i < self.chain.len()
            invariant
                1 <= i,
                i <= self.chain@.len() || self.chain@.len() == 0,
                ds == digests@.map_values(|d: Vec<u8>| d@),
                digests@.len() == self.chain@.len(),
                forall|j: int|
                    1 <= j < i && j < self.chain@.len() ==> (#[trigger] self.chain@[j]).previous_hash@
                        == self.chain@[j - 1].hash@ && sealed_by(self.chain@[j], ds[j]),
            decreases self.chain@.len() - i,
        {
            let current = &self.chain[i];
            let previous = &self.chain[i - 1];
            if current.previous_hash != previous.hash {
                return false;
            }
            if !current.is_sealed_by(digests[i].as_slice()) {
                return false;
            }
            i = i + 1;
        }
        true
    }
}

} // verus!
