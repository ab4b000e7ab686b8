//! The pair-accumulator factory: owns two keyed factories and builds fresh
//! [`PairHasher`] instances on demand, from explicit key pairs or from the
//! thread-local random source.
use crate::build_siphasher::{draw_u64, BuildSipHasher};
use crate::hash_iter::HashIter;
use crate::pair_hasher::{pair_digest, PairHasher};
use crate::{BuildHasherExt, HasherExt};
use vstd::prelude::*;

verus! {

use vstd::std_specs::convert::FromSpec;

/// A factory for [`PairHasher`] instances. It owns the two inner factories
/// and is stateless across calls: each build yields a fresh, independent
/// accumulator with no residual state from prior uses.
pub struct BuildPairHasher {
    builder1: BuildSipHasher,
    builder2: BuildSipHasher,
}

impl BuildPairHasher {
    /// The key pair seeding the first inner accumulator.
    pub closed spec fn keys1(self) -> (u64, u64) {
        self.builder1.keys()
    }

    /// The key pair seeding the second inner accumulator.
    pub closed spec fn keys2(self) -> (u64, u64) {
        self.builder2.keys()
    }

    /// Combines two keyed factories.
    pub fn new(builder1: BuildSipHasher, builder2: BuildSipHasher) -> (r: Self)
        ensures
            r.keys1() == builder1.keys(),
            r.keys2() == builder2.keys(),
    {
        BuildPairHasher { builder1, builder2 }
    }

    /// Builds a factory from two explicit key pairs; infallible, and fully
    /// reproducible: the same keys derive the same sequences.
    pub fn new_with_keys(keys1: (u64, u64), keys2: (u64, u64)) -> (r: Self)
        ensures
            r.keys1() == keys1,
            r.keys2() == keys2,
    {
        let builder1 = BuildSipHasher::from(keys1);
        let builder2 = BuildSipHasher::from(keys2);
        proof {
            crate::build_siphasher::lemma_from_keys(keys1);
            crate::build_siphasher::lemma_from_keys(keys2);
        }
        Self::new(builder1, builder2)
    }

    /// Builds a factory whose four key words are drawn from the thread-local
    /// random source; nothing is promised of the chosen keys.
    pub fn new_with_rng(rng: rand::rngs::ThreadRng) -> Self {
        let mut rng = rng;
        let builder1 = BuildSipHasher::from_rng(&mut rng);
        let builder2 = BuildSipHasher::from_rng(&mut rng);
        Self::new(builder1, builder2)
    }

    /// Builds a fresh pair accumulator over an empty stream, keyed off this
    /// factory's two key pairs.
    pub fn build_hasher(&self) -> (r: PairHasher)
        ensures
            r.wf(),
            r.keys1() == self.keys1(),
            r.keys2() == self.keys2(),
            r.stream() == Seq::<u8>::empty(),
    {
        let hasher1 = self.builder1.build_hasher();
        let hasher2 = self.builder2.build_hasher();
        PairHasher::new(hasher1, hasher2)
    }

    /// Hashes one item to its scalar pair digest: builds a fresh accumulator,
    /// feeds the item's bytes, and finishes.
    pub fn hash_one(&self, item: &[u8]) -> (r: u64)
        ensures
            r == pair_digest(self.keys1(), self.keys2(), item@),
    {
        let mut hasher = self.build_hasher();
        hasher.write(item);
        assert(hasher.stream() =~= item@);
        hasher.finish()
    }
}

impl BuildHasherExt for BuildPairHasher {
    open spec fn one_seed_a(self, data: Seq<u8>) -> u64 {
        crate::build_siphasher::sip_digest(self.keys1().0, self.keys1().1, data)
    }

    open spec fn one_seed_b(self, data: Seq<u8>) -> u64 {
        crate::build_siphasher::sip_digest(self.keys2().0, self.keys2().1, data)
    }

    fn hashes_one(&self, item: &[u8]) -> (r: HashIter) {
        let mut hasher = self.build_hasher();
        hasher.write(item);
        assert(hasher.stream() =~= item@);
        hasher.finish_iter()
    }
}

} // verus!
