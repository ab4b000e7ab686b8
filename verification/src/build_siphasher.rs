//! The keyed single-stream hash primitive and its factory. The primitive is
//! SipHash (an outside implementation); this module is the trusted boundary
//! around it: a keyed accumulator that tracks, in ghost state, the byte
//! stream it has consumed, so that contracts elsewhere can speak of the
//! digest as a function of the keys and the stream.
use vstd::prelude::*;

verus! {

use vstd::std_specs::convert::FromSpec;

#[verifier::external_type_specification]
#[verifier::external_body]
pub struct ExSipHasher(siphasher::sip::SipHasher);

#[verifier::external_type_specification]
#[verifier::external_body]
pub struct ExThreadRng(rand::rngs::ThreadRng);

/// The 64-bit SipHash digest of the byte stream `data` under the key pair
/// `(key0, key1)`. The digest is a pure function of the keys and the bytes:
/// nothing further is assumed of its value.
pub uninterp spec fn sip_digest(key0: u64, key1: u64, data: Seq<u8>) -> u64;

/// A keyed hash accumulator: one SipHash instance together with the key pair
/// it was built from and (as ghost state) the byte stream written so far.
pub struct KeyedHasher {
    inner: siphasher::sip::SipHasher,
    keys: Ghost<(u64, u64)>,
    written: Ghost<Seq<u8>>,
}

impl KeyedHasher {
    /// The key pair this accumulator was built from.
    pub closed spec fn keys(self) -> (u64, u64) {
        self.keys@
    }

    /// The byte stream written so far.
    pub closed spec fn stream(self) -> Seq<u8> {
        self.written@
    }

    /// Builds a fresh accumulator keyed off `(key0, key1)` that has consumed
    /// no bytes yet.
    pub fn new_keyed(key0: u64, key1: u64) -> (r: Self)
        ensures
            r.keys() == (key0, key1),
            r.stream() == Seq::<u8>::empty(),
    {
        KeyedHasher {
            inner: sip_new(key0, key1),
            keys: Ghost((key0, key1)),
            written: Ghost(Seq::empty()),
        }
    }

    /// Relies on `siphasher::sip::SipHasher`'s byte-stream `write` (the
    /// `std::hash::Hasher` impl): appends `bytes` to the consumed stream,
    /// with no buffering or transformation; writes cannot fail.
    #[verifier::external_body]
    pub fn write(&mut self, bytes: &[u8])
        ensures
            final(self).keys() == old(self).keys(),
            final(self).stream() == old(self).stream() + bytes@,
    {
        std::hash::Hasher::write(&mut self.inner, bytes);
    }

    /// Relies on `siphasher::sip::SipHasher`'s `finish` (the
    /// `std::hash::Hasher` impl): non-destructively returns the SipHash
    /// digest of the keys and exactly the bytes written so far.
    #[verifier::external_body]
    pub fn finish(&self) -> (r: u64)
        ensures
            r == sip_digest(self.keys().0, self.keys().1, self.stream()),
    {
        std::hash::Hasher::finish(&self.inner)
    }
}

/// Relies on `siphasher::sip::SipHasher::new_with_keys`: builds a fresh
/// SipHash instance keyed off `(key0, key1)` that has consumed no bytes yet.
#[verifier::external_body]
fn sip_new(key0: u64, key1: u64) -> siphasher::sip::SipHasher {
    siphasher::sip::SipHasher::new_with_keys(key0, key1)
}

/// Relies on `rand_core::Rng::next_u64` for `ThreadRng`: draws one 64-bit
/// value from the thread-local generator. Nothing is promised of the value;
/// the operating system's entropy source is assumed not to fail (a reseed
/// failure would abort, which is the random source's responsibility).
#[verifier::external_body]
pub(crate) fn draw_u64(rng: &mut rand::rngs::ThreadRng) -> u64 {
    rand::Rng::next_u64(rng)
}

/// A factory for [`KeyedHasher`] instances, owning one key pair. Each build
/// yields a fresh, independent accumulator over an empty stream.
pub struct BuildSipHasher {
    key0: u64,
    key1: u64,
}

impl BuildSipHasher {
    /// The key pair every built accumulator is keyed off.
    pub closed spec fn keys(self) -> (u64, u64) {
        (self.key0, self.key1)
    }

    /// Builds a factory whose two key words are drawn from the thread-local
    /// random source; nothing is promised of the chosen keys.
    pub fn from_rng(rng: &mut rand::rngs::ThreadRng) -> Self {
        let key0 = draw_u64(rng);
        let key1 = draw_u64(rng);
        BuildSipHasher { key0, key1 }
    }

    /// Builds a fresh accumulator keyed off this factory's key pair, with no
    /// residual state from prior builds.
    pub fn build_hasher(&self) -> (r: KeyedHasher)
        ensures
            r.keys() == self.keys(),
            r.stream() == Seq::<u8>::empty(),
    {
        KeyedHasher::new_keyed(self.key0, self.key1)
    }
}

impl From<(u64, u64)> for BuildSipHasher {
    fn from(keys: (u64, u64)) -> (r: Self) {
        BuildSipHasher { key0: keys.0, key1: keys.1 }
    }
}

impl vstd::std_specs::convert::FromSpecImpl<(u64, u64)> for BuildSipHasher {
    open spec fn obeys_from_spec() -> bool {
        true
    }

    closed spec fn from_spec(keys: (u64, u64)) -> BuildSipHasher {
        BuildSipHasher { key0: keys.0, key1: keys.1 }
    }
}

/// Law: a factory built from a key pair keys its accumulators off exactly
/// that pair.
pub proof fn lemma_from_keys(keys: (u64, u64))
    ensures
        BuildSipHasher::from_spec(keys).keys() == keys,
{
}

} // verus!
