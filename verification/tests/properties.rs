use aabel_multihash::hash_iter::HashIter;
use aabel_multihash::{BuildHasherExt, BuildPairHasher, BuildSipHasher, Hash64, HasherExt, PairHasher};

#[test]
fn recurrence_golden_trace() {
    // Seeds a0 = 5, b0 = 3: the recurrence must emit 5, 8, 11, 15.
    let mut iter = HashIter::new(5, 3);
    assert_eq!(iter.next(), Hash64::new(5));
    assert_eq!(iter.next(), Hash64::new(8));
    assert_eq!(iter.next(), Hash64::new(11));
    assert_eq!(iter.next(), Hash64::new(15));
}

#[test]
fn recurrence_wraps_around() {
    // A maximal seed pair must wrap modulo 2^64 instead of overflowing.
    let mut iter = HashIter::new(u64::MAX, u64::MAX);
    assert_eq!(iter.next(), Hash64::new(u64::MAX));
    assert_eq!(iter.next(), Hash64::new(u64::MAX.wrapping_add(u64::MAX)));
}

#[test]
fn take_yields_exactly_n() {
    let mut iter = HashIter::new(7, 9);
    assert_eq!(iter.take(0).len(), 0);
    let mut iter = HashIter::new(7, 9);
    assert_eq!(iter.take(1).len(), 1);
    let mut iter = HashIter::new(0, 0);
    assert_eq!(iter.take(100).len(), 100);
}

#[test]
fn take_matches_next() {
    let mut it1 = HashIter::new(12345, 67890);
    let mut it2 = HashIter::new(12345, 67890);
    let drawn = it1.take(20);
    for value in drawn {
        assert_eq!(value, it2.next());
    }
}

#[test]
fn finish_is_wraparound_sum_of_inner_digests() {
    let item = "Hello world!";

    let mut inner1 = BuildSipHasher::from((0, 0)).build_hasher();
    inner1.write(item.as_bytes());
    let d1 = inner1.finish();

    let mut inner2 = BuildSipHasher::from((1, 1)).build_hasher();
    inner2.write(item.as_bytes());
    let d2 = inner2.finish();

    let mut pair = BuildPairHasher::new_with_keys((0, 0), (1, 1)).build_hasher();
    pair.write(item.as_bytes());
    assert_eq!(pair.finish(), d1.wrapping_add(d2));
}

#[test]
fn finish_is_chunking_independent() {
    let mut one_call = BuildPairHasher::new_with_keys((2, 3), (5, 7)).build_hasher();
    one_call.write("ab".as_bytes());

    let mut two_calls = BuildPairHasher::new_with_keys((2, 3), (5, 7)).build_hasher();
    two_calls.write("a".as_bytes());
    two_calls.write("b".as_bytes());

    assert_eq!(one_call.finish(), two_calls.finish());

    let mut iter1 = one_call.finish_iter();
    let mut iter2 = two_calls.finish_iter();
    assert_eq!(iter1.take(10), iter2.take(10));
}

#[test]
fn sequences_are_sensitive_to_input() {
    let builder = BuildPairHasher::new_with_keys((0, 0), (1, 1));
    let samples = ["", "a", "b", "ab", "Hello world!", "Hello world?"];
    for (i, left) in samples.iter().enumerate() {
        for right in samples.iter().skip(i + 1) {
            let first_left = builder.hashes_one(left.as_bytes()).next();
            let first_right = builder.hashes_one(right.as_bytes()).next();
            assert_ne!(first_left, first_right);
        }
    }
}

#[test]
fn sequences_are_sensitive_to_keys() {
    // The first element is the first inner digest, so a change of the first
    // key pair shows there; a change of the second key pair shows from the
    // second element on.
    let item = "Hello world!";
    let prefix = |k1: (u64, u64), k2: (u64, u64)| {
        BuildPairHasher::new_with_keys(k1, k2)
            .hashes_one(item.as_bytes())
            .take(2)
    };
    let base = prefix((0, 0), (1, 1));
    assert_ne!(base, prefix((0, 1), (1, 1)));
    assert_ne!(base, prefix((1, 0), (1, 1)));
    assert_ne!(base, prefix((0, 0), (1, 2)));
    assert_ne!(base, prefix((0, 0), (2, 1)));
}

#[test]
fn random_factory_yields_sequences() {
    let builder = BuildPairHasher::new_with_rng(rand::rng());
    let mut iter = builder.hashes_one("Hello world!".as_bytes());
    assert_eq!(iter.take(10).len(), 10);
}

#[test]
fn sip_digest_depends_on_stream() {
    // The keyed accumulator must not ignore its input.
    let empty = BuildSipHasher::from((0, 0)).build_hasher();
    let mut fed = BuildSipHasher::from((0, 0)).build_hasher();
    fed.write("Hello world!".as_bytes());
    assert_ne!(empty.finish(), fed.finish());
    // Nor its keys.
    let other_keys = BuildSipHasher::from((9, 9)).build_hasher();
    assert_ne!(empty.finish(), other_keys.finish());
}

#[test]
fn pair_hasher_from_inner_hashers() {
    let hasher1 = BuildSipHasher::from((4, 5)).build_hasher();
    let hasher2 = BuildSipHasher::from((6, 7)).build_hasher();
    let mut pair = PairHasher::new(hasher1, hasher2);
    pair.write("xyz".as_bytes());

    let mut built = BuildPairHasher::new(
        BuildSipHasher::from((4, 5)),
        BuildSipHasher::from((6, 7)),
    )
    .build_hasher();
    built.write("xyz".as_bytes());

    assert_eq!(pair.finish(), built.finish());
}

#[test]
fn hash64_conversions_and_order() {
    let h = Hash64::from(42u64);
    assert_eq!(h, Hash64::new(42));
    assert_eq!(u64::from(h), 42u64);
    assert!(Hash64::new(1) < Hash64::new(2));
    assert!(Hash64::new(2) <= Hash64::new(2));
}

#[test]
fn hash64_text_rendering() {
    assert_eq!(Hash64::new(0).to_text(), "0");
    assert_eq!(Hash64::new(7).to_text(), "7");
    assert_eq!(Hash64::new(12345).to_text(), "12345");
    assert_eq!(Hash64::new(u64::MAX).to_text(), "18446744073709551615");
}
