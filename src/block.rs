//! Transactions, blocks, and the canonical byte encoding that the
//! proof-of-work header is a digest of.

use vstd::prelude::*;
use vstd::utf8::encode_utf8;
use sha2::Digest;
use crate::pow::{le_bytes, meets_target, pow_input, push_le_bytes};

verus! {

/// A transfer of `amount` minor units from `sender` to `recipient`.
pub struct Transaction {
    pub sender: String,
    pub recipient: String,
    pub amount: u64,
    pub signature: String,
    pub public_key: String,
}

/// A batch of transactions linked by `previous_hash` to its predecessor.
/// `hash` is the hex form of the oracle digest of the block's header
/// followed by its nonce; it is empty until the block is sealed.
pub struct Block {
    pub index: u64,
    pub timestamp: u64,
    pub transactions: Vec<Transaction>,
    pub previous_hash: String,
    pub hash: String,
    pub nonce: u64,
    pub difficulty: u32,
}

/// The SHA-256 digest of `data`.
pub uninterp spec fn sha256_of(data: Seq<u8>) -> Seq<u8>;

/// Relies on `sha2::Sha256::digest`: the 32-byte SHA-256 digest of `data`.
#[verifier::external_body]
fn sha256(data: &[u8]) -> (r: Vec<u8>)
    ensures
        r@ == sha256_of(data@),
        r@.len() == 32,
{
    sha2::Sha256::digest(data).to_vec()
}

/// The lowercase hex digit for `n < 16`.
pub open spec fn hex_char(n: u8) -> char {
    if n < 10 {
        (48 + n) as u8 as char
    } else {
        (87 + n) as u8 as char
    }
}

/// Two lowercase hex digits per byte, high nibble first.
pub open spec fn hex_of(b: Seq<u8>) -> Seq<char> {
    Seq::new(
        2 * b.len(),
        |i: int|
            if i % 2 == 0 {
                hex_char(b[i / 2] >> 4u8)
            } else {
                hex_char(b[i / 2] & 0xfu8)
            },
    )
}

/// Relies on `hex::encode`: two lowercase hex digits for each byte.
#[verifier::external_body]
pub(crate) fn to_hex(b: &[u8]) -> (r: String)
    ensures
        r@ == hex_of(b@),
{
    hex::encode(b)
}

/// A string as its UTF-8 byte length (8 bytes, little-endian) followed by
/// its UTF-8 bytes.
pub open spec fn enc_str(s: Seq<char>) -> Seq<u8> {
    le_bytes(encode_utf8(s).len() as u64) + encode_utf8(s)
}

/// The canonical encoding of one transaction.
pub open spec fn enc_tx(t: Transaction) -> Seq<u8> {
    enc_str(t.sender@) + enc_str(t.recipient@) + le_bytes(t.amount) + enc_str(t.signature@) + enc_str(
        t.public_key@,
    )
}

/// The transactions' encodings, one after another, in order.
pub open spec fn enc_txs(s: Seq<Transaction>) -> Seq<u8>
    decreases s.len(),
{
    if s.len() == 0 {
        Seq::empty()
    } else {
        enc_txs(s.drop_last()) + enc_tx(s.last())
    }
}

/// The canonical encoding of every field of a block but `hash` and `nonce`.
pub open spec fn header_fields(b: Block) -> Seq<u8> {
    le_bytes(b.index) + le_bytes(b.timestamp) + le_bytes(b.transactions@.len() as u64) + enc_txs(
        b.transactions@,
    ) + enc_str(b.previous_hash@) + le_bytes(b.difficulty as u64)
}

/// The header the proof-of-work is searched over.
pub open spec fn pow_header(b: Block) -> Seq<u8> {
    sha256_of(header_fields(b))
}

/// The bytes the hash oracle digests for a block: its header and nonce.
pub open spec fn oracle_input(b: Block) -> Seq<u8> {
    pow_input(pow_header(b), b.nonce)
}

/// `digest` is the oracle digest that seals `b`: its hex form is the
/// block's hash, and it meets the block's target.
pub open spec fn sealed_by(b: Block, digest: Seq<u8>) -> bool {
    b.hash@ == hex_of(digest) && meets_target(digest, b.difficulty)
}

pub(crate) fn push_str(out: &mut Vec<u8>, s: &String)
    ensures
        final(out)@ == old(out)@ + enc_str(s@),
{
    let mut bytes: Vec<u8> = s.as_str().as_bytes_vec();
    push_le_bytes(out, bytes.len() as u64);
    out.append(&mut bytes);
}

fn push_tx(out: &mut Vec<u8>, t: &Transaction)
    ensures
        final(out)@ == old(out)@ + enc_tx(*t),
{
    let ghost start = out@;
    push_str(out, &t.sender);
    push_str(out, &t.recipient);
    push_le_bytes(out, t.amount);
    push_str(out, &t.signature);
    push_str(out, &t.public_key);
    assert(out@ =~= start + enc_tx(*t));
}

impl Block {
    /// An unsealed block: nonce zero and an empty hash.
    pub fn new(index: u64, transactions: Vec<Transaction>, previous_hash: String, difficulty: u32, timestamp: u64) -> (r: Block)
        ensures
            r.index == index,
            r.timestamp == timestamp,
            r.transactions@ == transactions@,
            r.previous_hash@ == previous_hash@,
            r.hash@.len() == 0,
            r.nonce == 0,
            r.difficulty == difficulty,
    {
        Block { index, timestamp, transactions, previous_hash, hash: String::new(), nonce: 0, difficulty }
    }

    /// The canonical encoding of every field but `hash` and `nonce`.
    pub fn encode_header_fields(&self) -> (r: Vec<u8>)
        ensures
            r@ == header_fields(*self),
    {
        let mut out: Vec<u8> = Vec::new();
        push_le_bytes(&mut out, self.index);
        push_le_bytes(&mut out, self.timestamp);
        push_le_bytes(&mut out, self.transactions.len() as u64);
        let ghost before = out@;
        let mut i: usize = 0;
        while i < self.transactions.len()
            invariant
                0 <= i <= self.transactions@.len(),
                out@ == before + enc_txs(self.transactions@.take(i as int)),
            decreases self.transactions@.len() - i,
        {
            push_tx(&mut out, &self.transactions[i]);
            assert(self.transactions@.take(i as int + 1).drop_last() =~= self.transactions@.take(i as int));
            i = i + 1;
        }
        assert(self.transactions@.take(i as int) =~= self.transactions@);
        push_str(&mut out, &self.previous_hash);
        push_le_bytes(&mut out, self.difficulty as u64);
        assert(out@ =~= header_fields(*self));
        out
    }

    /// The header the proof-of-work is searched over: the SHA-256 digest of
    /// the canonical encoding of every field but `hash` and `nonce`.
    pub fn calculate_hash(&self) -> (r: Vec<u8>)
        ensures
            r@ == pow_header(*self),
            r@.len() == 32,
    {
        let fields = self.encode_header_fields();
        sha256(fields.as_slice())
    }

    /// The bytes the hash oracle digests for this block.
    pub fn oracle_input(&self) -> (r: Vec<u8>)
        ensures
            r@ == oracle_input(*self),
    {
        let mut input = self.calculate_hash();
        push_le_bytes(&mut input, self.nonce);
        input
    }

    /// Records the result of a search: the nonce found and the hex form of
    /// its digest.
    pub fn seal(&mut self, nonce: u64, digest: &[u8])
        ensures
            final(self).hash@ == hex_of(digest@),
            final(self).nonce == nonce,
            final(self).index == old(self).index,
            final(self).timestamp == old(self).timestamp,
            final(self).transactions@ == old(self).transactions@,
            final(self).previous_hash@ == old(self).previous_hash@,
            final(self).difficulty == old(self).difficulty,
    {
        self.nonce = nonce;
        self.hash = to_hex(digest);
    }

    /// Whether `digest` seals this block: the hash is its hex form, and it
    /// meets the block's target.
    pub fn is_sealed_by(&self, digest: &[u8]) -> (r: bool)
        ensures
            r == sealed_by(*self, digest@),
    {
        if digest.len() != crate::pow::DIGEST_LEN {
            return false;
        }
        let target = crate::pow::calculate_target(self.difficulty);
        let hex = to_hex(digest);
        self.hash == hex && crate::pow::is_valid_hash(digest, &target)
    }
}

} // verus!
