//! What the library takes on trust: the hash that turns a secret key into
//! a seed, the seeded shuffle, and one method of `String`. Nothing in this
//! file is proved; everything else in the library is.

use rand::seq::SliceRandom;
use rand::SeedableRng;
use rand_chacha::ChaCha8Rng;
use vstd::prelude::*;

verus! {

/// The 32-byte BLAKE3 digest of `input`, as `blake3::hash` computes it.
pub uninterp spec fn blake3_digest(input: Seq<u8>) -> Seq<u8>;

/// The order in which `rand`'s slice shuffle leaves `items` when it draws
/// from a ChaCha generator with 8 rounds that was started from `seed`.
pub uninterp spec fn seeded_shuffle(seed: Seq<u8>, items: Seq<char>) -> Seq<char>;

/// Hashes `input` with `blake3::hash` and hands out the digest's 32 bytes.
///
/// Trusted: the digest is a function of the input bytes alone, which is
/// what gives it the name `blake3_digest`. Nothing else is claimed of it.
#[verifier::external_body]
pub(crate) fn key_seed(input: &[u8]) -> (seed: [u8; 32])
    ensures
        seed@ == blake3_digest(input@),
{
    blake3::hash(input).into()
}

/// Shuffles `items` in place with `rand::seq::SliceRandom::shuffle`, drawing
/// from the generator that `rand_chacha::ChaCha8Rng::from_seed` makes of
/// `seed`.
///
/// Trusted: the generator's output is fixed by the seed, and the shuffle
/// draws from it in a way fixed by the slice's length, so the resulting
/// order is a function of seed and items, named `seeded_shuffle`. And the
/// shuffle does nothing to the slice but swap two of its elements, again
/// and again, so afterwards the slice holds what it held before, each
/// element as often as before.
#[verifier::external_body]
pub(crate) fn shuffle_with_seed(items: &mut Vec<char>, seed: [u8; 32])
    ensures
        final(items)@ == seeded_shuffle(seed@, old(items)@),
        final(items)@.to_multiset() == old(items)@.to_multiset(),
{
    let mut rng = ChaCha8Rng::from_seed(seed);
    items.shuffle(&mut rng);
}

/// `String::push` appends the character to the end of the string.
pub assume_specification[ String::push ](s: &mut String, ch: char)
    ensures
        final(s)@ == old(s)@.push(ch),
;

} // verus!
