//! The hash-sequence generator: expands two 64-bit seed digests into an
//! unbounded sequence of derived digests via a fixed polynomial recurrence
//! over wraparound arithmetic.
use crate::Hash64;
use vstd::prelude::*;

verus! {

/// One production step of the recurrence on the state `(a, b, c)`:
/// the emitted value is `a`, and the state advances to
/// `(a + b, b + c, c + (c + 1))`, all modulo 2^64.
pub open spec fn step(s: (u64, u64, u64)) -> (u64, u64, u64) {
    (s.0.wrapping_add(s.1), s.1.wrapping_add(s.2), s.2.wrapping_add(s.2.wrapping_add(1)))
}

/// The state after `n` production steps from `s`.
pub open spec fn advance(s: (u64, u64, u64), n: nat) -> (u64, u64, u64)
    decreases n,
{
    if n == 0 {
        s
    } else {
        step(advance(s, (n - 1) as nat))
    }
}

/// The `n`-th value (counting from zero) emitted by a generator started in
/// state `s`: the `a` component after `n` steps.
pub open spec fn hash_at(s: (u64, u64, u64), n: nat) -> u64 {
    advance(s, n).0
}

/// The generator start state for the seed pair `(a0, b0)`.
pub open spec fn start_state(a0: u64, b0: u64) -> (u64, u64, u64) {
    (a0, b0, 0u64)
}

/// A lazy, unbounded generator of derived hash values. Seeded with two base
/// digests; each call to [`HashIter::next`] emits one value and advances the
/// internal state by one recurrence step. Reconstructing a generator from the
/// same two seeds always reproduces the same sequence.
pub struct HashIter {
    a: u64,
    b: u64,
    c: u64,
}

impl HashIter {
    /// The current recurrence state `(a, b, c)`.
    pub closed spec fn state(self) -> (u64, u64, u64) {
        (self.a, self.b, self.c)
    }

    /// Builds a generator in the start state for seeds `(a0, b0)`.
    pub fn new(a0: u64, b0: u64) -> (r: Self)
        ensures
            r.state() == start_state(a0, b0),
    {
        HashIter { a: a0, b: b0, c: 0u64 }
    }

    /// Emits the next derived hash value and advances the state one step.
    /// The sequence never ends: every call returns a value.
    pub fn next(&mut self) -> (r: Hash64)
        ensures
            r@ == old(self).state().0,
            final(self).state() == step(old(self).state()),
    {
        let ret = self.a;
        self.a = self.a.wrapping_add(self.b);
        self.b = self.b.wrapping_add(self.c);
        self.c = self.c.wrapping_add(self.c.wrapping_add(1));
        Hash64::new(ret)
    }

    /// Draws exactly `n` values from the generator. The result always holds
    /// exactly `n` elements, the values the recurrence emits from the current
    /// state, in order.
    pub fn take(&mut self, n: usize) -> (r: Vec<Hash64>)
        ensures
            r@.len() == n,
            forall|i: int| 0 <= i < n ==> #[trigger] r@[i]@ == hash_at(old(self).state(), i as nat),
            final(self).state() == advance(old(self).state(), n as nat),
    {
        let ghost s0 = self.state();
        let mut out: Vec<Hash64> = Vec::new();
        let mut i: usize = 0;
        while i < n
            invariant
                i <= n,
                out@.len() == i,
                self.state() == advance(s0, i as nat),
                forall|j: int| 0 <= j < i ==> #[trigger] out@[j]@ == hash_at(s0, j as nat),
            decreases n - i,
        {
            let h = self.next();
            assert(advance(s0, (i + 1) as nat) == step(advance(s0, i as nat)));
            out.push(h);
            i = i + 1;
        }
        out
    }
}

/// Law: the derived sequence is fully determined by its seed state. Any two
/// sequences of equal length whose elements each follow the recurrence from
/// the same state are equal element for element.
pub proof fn lemma_sequence_deterministic(s: (u64, u64, u64), v1: Seq<u64>, v2: Seq<u64>)
    requires
        v1.len() == v2.len(),
        forall|i: int| 0 <= i < v1.len() ==> #[trigger] v1[i] == hash_at(s, i as nat),
        forall|i: int| 0 <= i < v2.len() ==> #[trigger] v2[i] == hash_at(s, i as nat),
    ensures
        v1 == v2,
{
    assert(v1 =~= v2);
}

} // verus!
