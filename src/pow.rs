//! Proof-of-work: the 256-bit target derived from a difficulty, the
//! big-endian comparison of a digest against it, and the nonce search.
//!
//! The search is a step machine: it names the bytes to hash for the current
//! nonce, and is offered the hash oracle's digest of them in return. Whoever
//! holds the oracle drives it, and may stop between any two steps.

use vstd::prelude::*;

verus! {

/// Length in bytes of a digest and of a target.
pub const DIGEST_LEN: usize = 32;

/// Byte `i` of the target for `difficulty`: zero bytes first, then one
/// partial byte, then `0xFF`.
pub open spec fn target_byte(difficulty: u32, i: int) -> u8 {
    let z = (difficulty / 8) as int;
    if i < z {
        0u8
    } else if i == z {
        (0xffu8 >> ((difficulty % 8) as u8)) as u8
    } else {
        0xffu8
    }
}

/// The 32-byte big-endian target for `difficulty`.
pub open spec fn target_of(difficulty: u32) -> Seq<u8> {
    Seq::new(32, |i: int| target_byte(difficulty, i))
}

/// `a <= b` as big-endian unsigned integers, comparing from byte `i` on.
pub open spec fn be_le_from(a: Seq<u8>, b: Seq<u8>, i: int) -> bool
    decreases 32 - i,
{
    if i >= 32 {
        true
    } else if a[i] < b[i] {
        true
    } else if a[i] > b[i] {
        false
    } else {
        be_le_from(a, b, i + 1)
    }
}

/// `a <= b` as 32-byte big-endian unsigned integers.
pub open spec fn be_le(a: Seq<u8>, b: Seq<u8>) -> bool {
    be_le_from(a, b, 0)
}

proof fn lemma_be_le_from_refl(a: Seq<u8>, i: int)
    ensures
        be_le_from(a, a, i),
    decreases 32 - i,
{
    if i < 32 {
        lemma_be_le_from_refl(a, i + 1);
    }
}

/// The boundary is inclusive: a digest equal to the target meets it.
pub proof fn lemma_target_meets_itself(difficulty: u32)
    ensures
        meets_target(target_of(difficulty), difficulty),
{
    lemma_be_le_from_refl(target_of(difficulty), 0);
}

/// A digest meets the proof-of-work condition of `difficulty`.
pub open spec fn meets_target(digest: Seq<u8>, difficulty: u32) -> bool {
    digest.len() == 32 && be_le(digest, target_of(difficulty))
}

/// The little-endian bytes of `n`.
pub open spec fn le_bytes(n: u64) -> Seq<u8> {
    Seq::new(8, |i: int| ((n >> ((8 * i) as u64)) & 0xff) as u8)
}

/// What the search hashes for `nonce`: the header followed by the nonce.
pub open spec fn pow_input(header: Seq<u8>, nonce: u64) -> Seq<u8> {
    header + le_bytes(nonce)
}

/// The nonce `n` is a hit for `header` under the hash oracle `oracle`.
pub open spec fn is_hit(oracle: spec_fn(Seq<u8>) -> Seq<u8>, header: Seq<u8>, difficulty: u32, n: u64) -> bool {
    meets_target(oracle(pow_input(header, n)), difficulty)
}

/// `n` is the first hit: a hit, and no smaller nonce is one.
pub open spec fn is_first_hit(oracle: spec_fn(Seq<u8>) -> Seq<u8>, header: Seq<u8>, difficulty: u32, n: u64) -> bool {
    is_hit(oracle, header, difficulty, n)
        && forall|m: u64| m < n ==> !#[trigger] is_hit(oracle, header, difficulty, m)
}

/// Mining is deterministic: for one oracle and one header, the search that
/// tries nonces from zero upward can end on one nonce only, and so on one
/// digest only.
pub proof fn lemma_search_deterministic(
    oracle: spec_fn(Seq<u8>) -> Seq<u8>,
    header: Seq<u8>,
    difficulty: u32,
    n1: u64,
    n2: u64,
)
    requires
        is_first_hit(oracle, header, difficulty, n1),
        is_first_hit(oracle, header, difficulty, n2),
    ensures
        n1 == n2,
        oracle(pow_input(header, n1)) == oracle(pow_input(header, n2)),
{
    if n1 < n2 {
        assert(!is_hit(oracle, header, difficulty, n1));
    } else if n2 < n1 {
        assert(!is_hit(oracle, header, difficulty, n2));
    }
}

/// Builds the 32-byte target for `difficulty`.
pub fn calculate_target(difficulty: u32) -> (r: [u8; 32])
    ensures
        r@ == target_of(difficulty),
{
    let mut target: [u8; 32] = [0xffu8; 32];
    let zero_bytes: usize = (difficulty / 8) as usize;
    let remainder: u8 = (difficulty % 8) as u8;
    let mut i: usize = 0;
    while i < zero_bytes && i < DIGEST_LEN
        invariant
            target@.len() == 32,
            i <= 32,
            i <= zero_bytes,
            zero_bytes == (difficulty / 8) as int,
            remainder == difficulty % 8,
            forall|j: int| 0 <= j < i ==> target@[j] == 0u8,
            forall|j: int| i <= j < 32 ==> target@[j] == 0xffu8,
        decreases 32 - i,
    {
        target[i] = 0u8;
        i = i + 1;
    }
    if zero_bytes < DIGEST_LEN {
        target[zero_bytes] = 0xffu8 >> remainder;
    }
    assert forall|j: int| 0 <= j < 32 implies target@[j] == target_of(difficulty)[j] by {
        if j < zero_bytes {
            assert(j < i);
        }
    }
    assert(target@ =~= target_of(difficulty));
    target
}

/// Whether `hash` is at most `target` as big-endian unsigned integers;
/// equality is a hit.
pub fn is_valid_hash(hash: &[u8], target: &[u8; 32]) -> (r: bool)
    requires
        hash@.len() == 32,
    ensures
        r == be_le(hash@, target@),
{
    let mut i: usize = 0;
    while i < DIGEST_LEN
        invariant
            hash@.len() == 32,
            target@.len() == 32,
            0 <= i <= 32,
            be_le(hash@, target@) == be_le_from(hash@, target@, i as int),
        decreases 32 - i,
    {
        if hash[i] > target[i] {
            return false;
        } else if hash[i] < target[i] {
            return true;
        }
        i = i + 1;
    }
    true
}

/// Appends the little-endian bytes of `n` to `out`.
pub fn push_le_bytes(out: &mut Vec<u8>, n: u64)
    ensures
        final(out)@ == old(out)@ + le_bytes(n),
{
    let ghost start = out@;
    let mut i: u64 = 0;
    while i < 8
        invariant
            0 <= i <= 8,
            out@ == start + le_bytes(n).take(i as int),
        decreases 8 - i,
    {
        out.push(((n >> (8 * i)) & 0xff) as u8);
        assert(le_bytes(n).take(i as int + 1) =~= le_bytes(n).take(i as int).push(
            ((n >> (8 * i)) & 0xff) as u8,
        ));
        i = i + 1;
    }
    assert(le_bytes(n).take(8) =~= le_bytes(n));
}

/// A nonce search for one header and difficulty, tried from nonce zero
/// upward one nonce at a time.
pub struct NonceSearch {
    header: Vec<u8>,
    difficulty: u32,
    target: [u8; 32],
    next: u64,
}

impl NonceSearch {
    /// The header searched over.
    pub closed spec fn header(&self) -> Seq<u8> {
        self.header@
    }

    /// The difficulty searched for.
    pub closed spec fn difficulty(&self) -> u32 {
        self.difficulty
    }

    /// The nonce to be tried next.
    pub closed spec fn next(&self) -> u64 {
        self.next
    }

    pub closed spec fn wf(&self) -> bool {
        self.target@ == target_of(self.difficulty)
    }

    /// Starts a search at nonce zero.
    pub fn new(block_header: &[u8], difficulty: u32) -> (r: NonceSearch)
        ensures
            r.wf(),
            r.header() == block_header@,
            r.difficulty() == difficulty,
            r.next() == 0,
    {
        NonceSearch {
            header: vstd::slice::slice_to_vec(block_header),
            difficulty,
            target: calculate_target(difficulty),
            next: 0,
        }
    }

    /// The nonce to be tried next.
    pub fn nonce(&self) -> (r: u64)
        ensures
            r == self.next(),
    {
        self.next
    }

    /// The bytes the oracle is to hash for the current nonce: the header
    /// followed by the nonce in little-endian order.
    pub fn candidate(&self) -> (r: Vec<u8>)
        ensures
            r@ == pow_input(self.header(), self.next()),
    {
        let mut input: Vec<u8> = self.header.clone();
        push_le_bytes(&mut input, self.next);
        input
    }

    /// Offers the oracle's digest of `candidate()`. On a hit, returns the
    /// nonce and the digest; otherwise moves on to the next nonce.
    pub fn offer(&mut self, digest: &[u8]) -> (r: Option<(u64, Vec<u8>)>)
        requires
            old(self).wf(),
            old(self).next() < u64::MAX,
        ensures
            final(self).wf(),
            final(self).header() == old(self).header(),
            final(self).difficulty() == old(self).difficulty(),
            r is Some <==> meets_target(digest@, old(self).difficulty()),
            r matches Some((n, d)) ==> n == old(self).next() && d@ == digest@
                && final(self).next() == old(self).next(),
            r is None ==> final(self).next() == old(self).next() + 1,
    {
        if digest.len() == DIGEST_LEN && is_valid_hash(digest, &self.target) {
            Some((self.next, vstd::slice::slice_to_vec(digest)))
        } else {
            self.next = self.next + 1;
            None
        }
    }
}

} // verus!
