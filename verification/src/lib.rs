//! Derives an unbounded, deterministic sequence of 64-bit hash values from a
//! single hashable input, using only two underlying keyed hash computations
//! (the classical double-hashing technique behind Bloom filters and similar
//! probabilistic structures).
use vstd::prelude::*;

pub mod build_pair_hasher;
pub mod build_siphasher;
pub mod hash_iter;
pub mod pair_hasher;

pub use build_pair_hasher::BuildPairHasher;
pub use build_siphasher::BuildSipHasher;
pub use build_siphasher::KeyedHasher;
pub use hash_iter::HashIter;
pub use pair_hasher::PairHasher;

verus! {

/// A 64-bit hash value. Two values are equal iff their integers are equal,
/// and they are ordered by integer value.
#[derive(Debug, Clone, Copy, PartialEq, Eq, Structural, PartialOrd, Ord)]
pub struct Hash64(pub u64);

impl View for Hash64 {
    type V = u64;

    open spec fn view(&self) -> u64 {
        self.0
    }
}

/// The character for one decimal digit `d` (`d < 10`).
pub open spec fn digit_char(d: nat) -> char {
    if d == 0 {
        '0'
    } else if d == 1 {
        '1'
    } else if d == 2 {
        '2'
    } else if d == 3 {
        '3'
    } else if d == 4 {
        '4'
    } else if d == 5 {
        '5'
    } else if d == 6 {
        '6'
    } else if d == 7 {
        '7'
    } else if d == 8 {
        '8'
    } else {
        '9'
    }
}

/// The decimal digit characters of `n`, most significant first, with no
/// leading zeros (`0` itself renders as the one character `'0'`).
pub open spec fn decimal_digits(n: nat) -> Seq<char>
    decreases n,
{
    if n < 10 {
        seq![digit_char(n)]
    } else {
        decimal_digits(n / 10).push(digit_char(n % 10))
    }
}

/// Relies on `u64`'s `std::fmt::Display` via `format!`: renders the value as
/// its decimal digits, most significant first, without leading zeros.
#[verifier::external_body]
fn u64_to_decimal(value: u64) -> (r: String)
    ensures
        r@ == decimal_digits(value as nat),
{
    format!("{}", value)
}

impl Hash64 {
    pub fn new(value: u64) -> (r: Self)
        ensures
            r@ == value,
    {
        Hash64(value)
    }

    /// The text rendering of the digest's integer value, in decimal.
    pub fn to_text(&self) -> (r: String)
        ensures
            r@ == decimal_digits(self@ as nat),
    {
        u64_to_decimal(self.0)
    }
}

impl From<u64> for Hash64 {
    fn from(value: u64) -> (r: Self) {
        Hash64::new(value)
    }
}

impl vstd::std_specs::convert::FromSpecImpl<u64> for Hash64 {
    open spec fn obeys_from_spec() -> bool {
        true
    }

    open spec fn from_spec(value: u64) -> Hash64 {
        Hash64(value)
    }
}

impl From<Hash64> for u64 {
    fn from(value: Hash64) -> (r: u64) {
        value.0
    }
}

impl vstd::std_specs::convert::FromSpecImpl<Hash64> for u64 {
    open spec fn obeys_from_spec() -> bool {
        true
    }

    open spec fn from_spec(value: Hash64) -> u64 {
        value.0
    }
}

/// An accumulator that can yield its whole finalize-sequence: finalization
/// consumes the accumulator and expands its state into an unbounded supply
/// of derived hash values, seeded by the two values `seed_a` and `seed_b`.
pub trait HasherExt: Sized {
    /// The first seed the finalize-sequence starts from.
    spec fn seed_a(self) -> u64;

    /// The second seed the finalize-sequence starts from.
    spec fn seed_b(self) -> u64;

    /// When the accumulator may be finalized.
    spec fn ready(self) -> bool;

    /// Consumes the accumulator and returns the generator of its unbounded
    /// derived sequence, started from the accumulator's two seed digests.
    /// To obtain the same sequence again, rebuild and refeed an accumulator.
    fn finish_iter(self) -> (r: crate::hash_iter::HashIter)
        requires
            self.ready(),
        ensures
            r.state() == crate::hash_iter::start_state(self.seed_a(), self.seed_b()),
    ;
}

/// A factory that can hash one value directly into a sequence: it builds a
/// fresh accumulator, feeds the value's byte representation into it, and
/// finalizes into the derived sequence, in one call.
pub trait BuildHasherExt: Sized {
    /// The first seed of the sequence derived for the input bytes `data`.
    spec fn one_seed_a(self, data: Seq<u8>) -> u64;

    /// The second seed of the sequence derived for the input bytes `data`.
    spec fn one_seed_b(self, data: Seq<u8>) -> u64;

    /// Generates the derived hash sequence for one given item.
    fn hashes_one(&self, item: &[u8]) -> (r: crate::hash_iter::HashIter)
        ensures
            r.state() == crate::hash_iter::start_state(
                self.one_seed_a(item@),
                self.one_seed_b(item@),
            ),
    ;
}

} // verus!
