//! The node's decisions: one mining cycle as a step machine over the
//! ledger, admission of transactions from peers, and the message a
//! transaction's signature covers. The caller holds the hash oracle, the
//! signer, the clock and the network, and hands their results in.

use vstd::prelude::*;
use crate::block::{enc_str, hex_of, pow_header, push_str, Block, Transaction};
use crate::ledger::{extends_chain, Blockchain, LedgerError};
use crate::pow::{le_bytes, meets_target, pow_input, push_le_bytes, NonceSearch};

verus! {

/// What the node sends to its peers.
pub enum NetworkCommand {
    BroadcastBlock(Block),
    BroadcastTransaction(Transaction),
}

/// What the node receives from its peers.
pub enum NetworkEvent {
    BlockReceived(Block),
    TransactionReceived(Transaction),
}

/// Why a transaction from a peer was not queued.
#[derive(Debug, PartialEq, Eq, Structural)]
pub enum IngestError {
    /// Its signature does not verify under its public key.
    SignatureInvalid,
}

/// The message a transaction's signature covers: sender, recipient and
/// amount in canonical encoding.
pub open spec fn signing_message_of(sender: Seq<char>, recipient: Seq<char>, amount: u64) -> Seq<u8> {
    enc_str(sender) + enc_str(recipient) + le_bytes(amount)
}

/// Builds the message a transaction's signature covers.
pub fn signing_message(sender: &String, recipient: &String, amount: u64) -> (r: Vec<u8>)
    ensures
        r@ == signing_message_of(sender@, recipient@, amount),
{
    let mut out: Vec<u8> = Vec::new();
    push_str(&mut out, sender);
    push_str(&mut out, recipient);
    push_le_bytes(&mut out, amount);
    assert(out@ =~= signing_message_of(sender@, recipient@, amount));
    out
}

/// Queues a transaction received from a peer if its signature verified
/// (`signature_valid`, the signer's verdict on `signing_message`), and
/// discards it otherwise.
pub fn receive_transaction(ledger: &mut Blockchain, transaction: Transaction, signature_valid: bool) -> (r: Result<
    (),
    IngestError,
>)
    ensures
        r is Ok <==> signature_valid,
        final(ledger).chain@ == old(ledger).chain@,
        signature_valid ==> final(ledger).pending_transactions@ == old(
            ledger,
        ).pending_transactions@.push(transaction),
        !signature_valid ==> final(ledger).pending_transactions@ == old(ledger).pending_transactions@,
{
    if signature_valid {
        ledger.add_transaction(transaction);
        Ok(())
    } else {
        Err(IngestError::SignatureInvalid)
    }
}

/// What the driver of a mining cycle does next.
pub enum CycleAction {
    /// Nothing to mine: wait for the next tick.
    Sleep,
    /// Hash these bytes with the oracle and offer the digest.
    Hash(Vec<u8>),
    /// The block at this index was committed: broadcast it.
    Broadcast(u64),
}

/// One mining cycle: idle, or searching a nonce for a candidate block.
pub struct MiningCycle {
    work: Option<(Block, NonceSearch)>,
}

impl MiningCycle {
    /// The candidate being mined, if any.
    pub closed spec fn candidate(&self) -> Option<Block> {
        match self.work {
            Some((b, _)) => Some(b),
            None => None,
        }
    }

    /// The nonce to be tried next for the candidate.
    pub closed spec fn next_nonce(&self) -> u64 {
        match self.work {
            Some((_, s)) => s.next(),
            None => 0,
        }
    }

    pub closed spec fn wf(&self) -> bool {
        match self.work {
            Some((b, s)) => s.wf() && s.header() == pow_header(b) && s.difficulty() == b.difficulty,
            None => true,
        }
    }

    /// An idle cycle.
    pub fn new() -> (r: MiningCycle)
        ensures
            r.wf(),
            r.candidate() is None,
    {
        MiningCycle { work: None }
    }

    /// Whether a candidate is being mined.
    pub fn is_busy(&self) -> (r: bool)
        ensures
            r == self.candidate() is Some,
    {
        self.work.is_some()
    }

    /// On a tick of an idle cycle: draws a candidate from the pending
    /// buffer and asks for the digest of its header with nonce zero; sleeps
    /// when nothing is pending.
    pub fn start(&mut self, ledger: &mut Blockchain, timestamp: u64) -> (r: CycleAction)
        requires
            old(ledger).wf(),
            old(self).candidate() is None,
        ensures
            final(self).wf(),
            final(ledger).chain@ == old(ledger).chain@,
            old(ledger).pending_transactions@.len() == 0 ==> r is Sleep && final(self).candidate() is None
                && final(ledger).pending_transactions@ == old(ledger).pending_transactions@,
            old(ledger).pending_transactions@.len() > 0 ==> {
                &&& final(ledger).pending_transactions@.len() == 0
                &&& final(self).candidate() matches Some(b) && {
                    &&& extends_chain(old(ledger).chain@, b)
                    &&& b.transactions@ == old(ledger).pending_transactions@
                    &&& b.difficulty == old(ledger).chain@.last().difficulty
                    &&& b.timestamp == timestamp
                    &&& r matches CycleAction::Hash(v) && v@ == pow_input(pow_header(b), 0)
                }
                &&& final(self).next_nonce() == 0
            },
    {
        match ledger.build_candidate(timestamp) {
            None => CycleAction::Sleep,
            Some(block) => {
                let header = block.calculate_hash();
                let search = NonceSearch::new(header.as_slice(), block.difficulty);
                let input = search.candidate();
                self.work = Some((block, search));
                CycleAction::Hash(input)
            },
        }
    }

    /// Offers the oracle's digest of the bytes last asked for. On a miss,
    /// asks for the next nonce. On a hit, seals the candidate and commits
    /// it: if the tail moved meanwhile, its transactions go back to the
    /// pending buffer and the cycle sleeps, to rebuild on the next tick.
    /// When every nonce has been tried, the transactions go back too.
    pub fn on_digest(&mut self, ledger: &mut Blockchain, digest: &[u8]) -> (r: CycleAction)
        requires
            old(ledger).wf(),
            old(self).wf(),
            old(self).candidate() is Some,
        ensures
            final(ledger).wf(),
            final(self).wf(),
            ({
                let b = old(self).candidate()->Some_0;
                let n = old(self).next_nonce();
                let hit = n < u64::MAX && meets_target(digest@, b.difficulty);
                &&& !hit && n < u64::MAX ==> {
                    &&& final(self).candidate() == old(self).candidate()
                    &&& final(self).next_nonce() == n + 1
                    &&& r matches CycleAction::Hash(v) && v@ == pow_input(pow_header(b), (n + 1) as u64)
                    &&& final(ledger).chain@ == old(ledger).chain@
                    &&& final(ledger).pending_transactions@ == old(ledger).pending_transactions@
                }
                &&& n == u64::MAX ==> {
                    &&& r is Sleep
                    &&& final(self).candidate() is None
                    &&& final(ledger).chain@ == old(ledger).chain@
                    &&& final(ledger).pending_transactions@ == b.transactions@ + old(
                        ledger,
                    ).pending_transactions@
                }
                &&& hit ==> final(self).candidate() is None
                &&& hit && extends_chain(old(ledger).chain@, b) ==> {
                    &&& r == CycleAction::Broadcast(b.index)
                    &&& final(ledger).chain@.len() == old(ledger).chain@.len() + 1
                    &&& final(ledger).chain@.drop_last() == old(ledger).chain@
                    &&& final(ledger).chain@.last().hash@ == hex_of(digest@)
                    &&& final(ledger).chain@.last().nonce == n
                    &&& final(ledger).chain@.last().index == b.index
                    &&& final(ledger).chain@.last().transactions@ == b.transactions@
                    &&& final(ledger).chain@.last().previous_hash@ == b.previous_hash@
                    &&& final(ledger).pending_transactions@ == old(ledger).pending_transactions@
                }
                &&& hit && !extends_chain(old(ledger).chain@, b) ==> {
                    &&& r is Sleep
                    &&& final(ledger).chain@ == old(ledger).chain@
                    &&& final(ledger).pending_transactions@ == b.transactions@ + old(
                        ledger,
                    ).pending_transactions@
                }
            }),
    {
        let mut work: Option<(Block, NonceSearch)> = None;
        std::mem::swap(&mut work, &mut self.work);
        let (mut block, mut search) = match work {
            Some(w) => w,
            None => {
                return CycleAction::Sleep;
            },
        };
        if search.nonce() == u64::MAX {
            ledger.requeue(block.transactions);
            return CycleAction::Sleep;
        }
        match search.offer(digest) {
            None => {
                let input = search.candidate();
                self.work = Some((block, search));
                CycleAction::Hash(input)
            },
            Some((nonce, found)) => {
                block.seal(nonce, found.as_slice());
                let index = block.index;
                proof {
                    assert(extends_chain(ledger.chain@, block) == extends_chain(
                        ledger.chain@,
                        old(self).candidate()->Some_0,
                    ));
                }
                if ledger.commit_candidate(block) {
                    CycleAction::Broadcast(index)
                } else {
                    CycleAction::Sleep
                }
            },
        }
    }
}

} // verus!
