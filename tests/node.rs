use bitcoin2::block::Transaction;
use bitcoin2::ledger::Blockchain;
use bitcoin2::node::{receive_transaction, signing_message, CycleAction, IngestError, MiningCycle};
use sha2::{Digest, Sha256};

fn oracle(input: &[u8]) -> Vec<u8> {
    Sha256::digest(input).to_vec()
}

fn tx(sender: &str, recipient: &str, amount: u64) -> Transaction {
    Transaction {
        sender: sender.to_string(),
        recipient: recipient.to_string(),
        amount,
        signature: String::new(),
        public_key: String::new(),
    }
}

/// Drives the cycle until it stops asking for digests.
fn drive(cycle: &mut MiningCycle, ledger: &mut Blockchain, first: CycleAction) -> CycleAction {
    let mut action = first;
    while let CycleAction::Hash(input) = action {
        let digest = oracle(&input);
        action = cycle.on_digest(ledger, &digest);
    }
    action
}

#[test]
fn signing_message_is_canonical() {
    let m = signing_message(&"ab".to_string(), &"c".to_string(), 258);
    let mut expected = vec![2, 0, 0, 0, 0, 0, 0, 0, b'a', b'b', 1, 0, 0, 0, 0, 0, 0, 0, b'c'];
    expected.extend_from_slice(&[2, 1, 0, 0, 0, 0, 0, 0]);
    assert_eq!(m, expected);
}

#[test]
fn unsigned_transaction_is_discarded() {
    let mut bc = Blockchain::new(0);
    assert_eq!(receive_transaction(&mut bc, tx("A", "B", 1), false), Err(IngestError::SignatureInvalid));
    assert!(bc.pending_transactions.is_empty());
    assert_eq!(receive_transaction(&mut bc, tx("A", "B", 1), true), Ok(()));
    assert_eq!(bc.pending_transactions.len(), 1);
}

#[test]
fn idle_cycle_sleeps_when_nothing_pending() {
    let mut bc = Blockchain::new(0);
    let mut cycle = MiningCycle::new();
    assert!(matches!(cycle.start(&mut bc, 1), CycleAction::Sleep));
    assert!(!cycle.is_busy());
    assert_eq!(bc.chain.len(), 1);
}

#[test]
fn mining_cycle_commits_and_broadcasts() {
    let mut bc = Blockchain::new(0);
    bc.add_transaction(tx("A", "B", 10));
    bc.add_transaction(tx("B", "C", 5));
    let mut cycle = MiningCycle::new();
    let first = cycle.start(&mut bc, 1_000);
    assert!(cycle.is_busy());
    assert!(bc.pending_transactions.is_empty());
    let end = drive(&mut cycle, &mut bc, first);
    assert!(matches!(end, CycleAction::Broadcast(1)));
    assert!(!cycle.is_busy());
    assert_eq!(bc.chain.len(), 2);
    let b1 = &bc.chain[1];
    assert_eq!(b1.previous_hash, bc.chain[0].hash);
    assert_eq!(b1.transactions.len(), 2);
    assert_eq!(b1.transactions[0].amount, 10);
    assert!(hex::decode(&b1.hash).unwrap()[0] <= 0x0f);
    let digests: Vec<Vec<u8>> = bc.oracle_inputs().iter().map(|i| oracle(i)).collect();
    assert!(bc.is_chain_valid(&digests));
}

#[test]
fn stale_candidate_is_requeued() {
    let mut bc = Blockchain::new(0);
    bc.add_transaction(tx("A", "B", 10));
    let mut cycle = MiningCycle::new();
    let first = cycle.start(&mut bc, 1);
    // A block from elsewhere lands on the tail while the search runs.
    bc.add_transaction(tx("C", "D", 7));
    let mut other = bc.build_candidate(2).unwrap();
    let header = other.calculate_hash();
    let mut search = bitcoin2::pow::NonceSearch::new(&header, other.difficulty);
    loop {
        let d = oracle(&search.candidate());
        if let Some((n, d)) = search.offer(&d) {
            other.seal(n, &d);
            break;
        }
    }
    assert!(bc.commit_candidate(other));
    let end = drive(&mut cycle, &mut bc, first);
    assert!(matches!(end, CycleAction::Sleep));
    assert_eq!(bc.chain.len(), 2);
    assert_eq!(bc.pending_transactions.len(), 1);
    assert_eq!(bc.pending_transactions[0].amount, 10);
    let again = cycle.start(&mut bc, 3);
    assert!(matches!(drive(&mut cycle, &mut bc, again), CycleAction::Broadcast(2)));
    assert_eq!(bc.chain.len(), 3);
    assert!(bc.pending_transactions.is_empty());
}
