//! The 62-symbol alphabet and what it means to be a reordering of it.

use crate::trusted::{blake3_digest, key_seed, seeded_shuffle, shuffle_with_seed};
use vstd::prelude::*;
use vstd::string::StringSliceAdditionalSpecFns;
use vstd::utf8::encode_utf8;

verus! {

/// Number of symbols a short code is written with.
pub const ALPHABET_LEN: usize = 62;

/// The symbol at position `i` of the unpermuted alphabet: `a`..`z`, then
/// `A`..`Z`, then `0`..`9`.
pub open spec fn base_symbol(i: int) -> char {
    if i < 26 {
        ('a' as int + i) as char
    } else if i < 52 {
        ('A' as int + (i - 26)) as char
    } else {
        ('0' as int + (i - 52)) as char
    }
}

/// The unpermuted alphabet.
pub open spec fn base_alphabet() -> Seq<char> {
    Seq::new(62, |i: int| base_symbol(i))
}

/// Whether `c` is one of the 62 symbols.
pub open spec fn is_symbol(c: char) -> bool {
    ||| 'a' <= c <= 'z'
    ||| 'A' <= c <= 'Z'
    ||| '0' <= c <= '9'
}

/// Builds the unpermuted alphabet.
pub fn base_symbols() -> (symbols: Vec<char>)
    ensures
        symbols@ == base_alphabet(),
        symbols@.len() == ALPHABET_LEN,
{
    let mut symbols: Vec<char> = Vec::new();
    let mut i: u8 = 0;
    while i < 62
        invariant
            i <= 62,
            symbols@.len() == i,
            forall|k: int| 0 <= k < i ==> symbols@[k] == base_symbol(k),
        decreases 62 - i,
    {
        let symbol: char = if i < 26 {
            ('a' as u8 + i) as char
        } else if i < 52 {
            ('A' as u8 + (i - 26)) as char
        } else {
            ('0' as u8 + (i - 52)) as char
        };
        symbols.push(symbol);
        i = i + 1;
    }
    symbols
}

/// The unpermuted alphabet is the string of lower-case letters, upper-case
/// letters and digits, in that order.
pub proof fn lemma_base_alphabet_literal()
    ensures
        base_alphabet() == "abcdefghijklmnopqrstuvwxyzABCDEFGHIJKLMNOPQRSTUVWXYZ0123456789"@,
{
    reveal_strlit("abcdefghijklmnopqrstuvwxyzABCDEFGHIJKLMNOPQRSTUVWXYZ0123456789");
}

/// Whether `symbols` holds each of the 62 symbols exactly once, in any order.
pub open spec fn is_permuted_alphabet(symbols: Seq<char>) -> bool {
    &&& symbols.len() == ALPHABET_LEN
    &&& symbols.no_duplicates()
    &&& forall|i: int| 0 <= i < symbols.len() ==> is_symbol(#[trigger] symbols[i])
}

/// The unpermuted alphabet holds each symbol exactly once.
pub proof fn lemma_base_alphabet_is_permuted()
    ensures
        is_permuted_alphabet(base_alphabet()),
{
}

/// Any sequence with the same elements as the unpermuted alphabet, counted
/// with multiplicity, holds each symbol exactly once.
pub proof fn lemma_reordering_is_permuted(symbols: Seq<char>)
    requires
        symbols.to_multiset() == base_alphabet().to_multiset(),
    ensures
        is_permuted_alphabet(symbols),
{
    let base = base_alphabet();
    lemma_base_alphabet_is_permuted();
    symbols.to_multiset_ensures();
    base.to_multiset_ensures();
    base.lemma_multiset_has_no_duplicates();
    symbols.lemma_multiset_has_no_duplicates_conv();
    assert forall|i: int| 0 <= i < symbols.len() implies is_symbol(#[trigger] symbols[i]) by {
        assert(base.to_multiset().count(symbols[i]) > 0);
        assert(base.contains(symbols[i]));
    }
}

/// The alphabet in the order that the secret key gives it: the unpermuted
/// alphabet, shuffled with the digest of the key's UTF-8 bytes as seed.
pub open spec fn permuted_alphabet(secret_key: Seq<char>) -> Seq<char> {
    seeded_shuffle(blake3_digest(encode_utf8(secret_key)), base_alphabet())
}

/// The 62 symbols in some order. Position `d` holds the symbol that stands
/// for the digit `d`.
pub struct Alphabet {
    symbols: Vec<char>,
}

impl View for Alphabet {
    type V = Seq<char>;

    closed spec fn view(&self) -> Seq<char> {
        self.symbols@
    }
}

impl Alphabet {
    #[verifier::type_invariant]
    spec fn well_formed(self) -> bool {
        is_permuted_alphabet(self.symbols@)
    }

    /// The alphabet in its unpermuted order.
    pub fn standard() -> (alphabet: Alphabet)
        ensures
            alphabet@ == base_alphabet(),
            is_permuted_alphabet(alphabet@),
    {
        proof {
            lemma_base_alphabet_is_permuted();
        }
        Alphabet { symbols: base_symbols() }
    }

    /// The alphabet in the order that `secret_key` gives it.
    pub fn from_secret(secret_key: &str) -> (alphabet: Alphabet)
        ensures
            alphabet@ == permuted_alphabet(secret_key@),
            is_permuted_alphabet(alphabet@),
    {
        let mut symbols = base_symbols();
        let seed = key_seed(secret_key.as_bytes());
        shuffle_with_seed(&mut symbols, seed);
        proof {
            lemma_reordering_is_permuted(symbols@);
        }
        Alphabet { symbols }
    }

    /// The symbols, by digit.
    pub fn symbols(&self) -> (symbols: &Vec<char>)
        ensures
            symbols@ == self@,
            is_permuted_alphabet(self@),
    {
        proof {
            use_type_invariant(self);
        }
        &self.symbols
    }
}

} // verus!
