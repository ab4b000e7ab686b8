//! The pair accumulator: runs two independent keyed accumulators over one
//! shared byte stream and, on finalization, either combines the two digests
//! into one scalar or expands them into an unbounded derived sequence.
use crate::build_siphasher::{sip_digest, KeyedHasher};
use crate::hash_iter::{start_state, HashIter};
use crate::HasherExt;
use vstd::prelude::*;

verus! {

/// The scalar digest of the pair accumulator: the wraparound (modulo 2^64)
/// sum of the two inner digests of the byte stream `data`.
pub open spec fn pair_digest(k1: (u64, u64), k2: (u64, u64), data: Seq<u8>) -> u64 {
    sip_digest(k1.0, k1.1, data).wrapping_add(sip_digest(k2.0, k2.1, data))
}

/// The generator start state the pair accumulator finalizes into: seeded by
/// the two inner digests of the byte stream `data`.
pub open spec fn seed_state(k1: (u64, u64), k2: (u64, u64), data: Seq<u8>) -> (u64, u64, u64) {
    start_state(sip_digest(k1.0, k1.1, data), sip_digest(k2.0, k2.1, data))
}

/// An accumulator that forwards every input chunk to two independent keyed
/// accumulators, in the same order and with no transformation.
pub struct PairHasher {
    hasher1: KeyedHasher,
    hasher2: KeyedHasher,
}

impl PairHasher {
    /// The key pair of the first inner accumulator.
    pub closed spec fn keys1(self) -> (u64, u64) {
        self.hasher1.keys()
    }

    /// The key pair of the second inner accumulator.
    pub closed spec fn keys2(self) -> (u64, u64) {
        self.hasher2.keys()
    }

    /// The shared byte stream both inner accumulators have consumed.
    pub closed spec fn stream(self) -> Seq<u8> {
        self.hasher1.stream()
    }

    /// Well-formedness: the two inner accumulators have consumed the same
    /// stream. Constructors establish it and every write preserves it.
    pub closed spec fn wf(self) -> bool {
        self.hasher1.stream() == self.hasher2.stream()
    }

    /// Combines two inner accumulators that have consumed the same stream.
    pub fn new(hasher1: KeyedHasher, hasher2: KeyedHasher) -> (r: Self)
        requires
            hasher1.stream() == hasher2.stream(),
        ensures
            r.wf(),
            r.keys1() == hasher1.keys(),
            r.keys2() == hasher2.keys(),
            r.stream() == hasher1.stream(),
    {
        PairHasher { hasher1, hasher2 }
    }

    /// Forwards the identical byte slice to both inner accumulators, in the
    /// same order, with no buffering or transformation. Writes cannot fail.
    pub fn write(&mut self, bytes: &[u8])
        requires
            old(self).wf(),
        ensures
            final(self).wf(),
            final(self).keys1() == old(self).keys1(),
            final(self).keys2() == old(self).keys2(),
            final(self).stream() == old(self).stream() + bytes@,
    {
        self.hasher1.write(bytes);
        self.hasher2.write(bytes);
    }

    /// Reads (non-destructively) each inner accumulator's digest and returns
    /// their wraparound sum.
    pub fn finish(&self) -> (r: u64)
        requires
            self.wf(),
        ensures
            r == pair_digest(self.keys1(), self.keys2(), self.stream()),
    {
        let a = self.hasher1.finish();
        let b = self.hasher2.finish();
        a.wrapping_add(b)
    }
}

impl HasherExt for PairHasher {
    open spec fn seed_a(self) -> u64 {
        sip_digest(self.keys1().0, self.keys1().1, self.stream())
    }

    open spec fn seed_b(self) -> u64 {
        sip_digest(self.keys2().0, self.keys2().1, self.stream())
    }

    open spec fn ready(self) -> bool {
        self.wf()
    }

    fn finish_iter(self) -> (r: HashIter) {
        let a = self.hasher1.finish();
        let b = self.hasher2.finish();
        HashIter::new(a, b)
    }
}

/// Law: determinism. For fixed key pairs and a fixed input stream, the
/// derived sequence is exactly reproducible: any two draws of equal length
/// whose elements each follow the recurrence from the seed state for those
/// keys and that input are equal element for element.
pub proof fn lemma_hashes_deterministic(
    k1: (u64, u64),
    k2: (u64, u64),
    data: Seq<u8>,
    v1: Seq<u64>,
    v2: Seq<u64>,
)
    requires
        v1.len() == v2.len(),
        forall|i: int|
            0 <= i < v1.len() ==> #[trigger] v1[i] == crate::hash_iter::hash_at(
                seed_state(k1, k2, data),
                i as nat,
            ),
        forall|i: int|
            0 <= i < v2.len() ==> #[trigger] v2[i] == crate::hash_iter::hash_at(
                seed_state(k1, k2, data),
                i as nat,
            ),
    ensures
        v1 == v2,
{
    crate::hash_iter::lemma_sequence_deterministic(seed_state(k1, k2, data), v1, v2);
}

/// Law: the digests depend only on the accumulated byte stream, never on how
/// that stream was split across write calls. Writing `x` and then `y` leaves
/// the same stream behind as writing the one chunk `x + y`, so both the
/// scalar digest and the generator seed state agree.
pub proof fn lemma_digest_chunking(
    k1: (u64, u64),
    k2: (u64, u64),
    s: Seq<u8>,
    x: Seq<u8>,
    y: Seq<u8>,
)
    ensures
        (s + x) + y == s + (x + y),
        pair_digest(k1, k2, (s + x) + y) == pair_digest(k1, k2, s + (x + y)),
        seed_state(k1, k2, (s + x) + y) == seed_state(k1, k2, s + (x + y)),
{
    assert((s + x) + y =~= s + (x + y));
}

} // verus!
