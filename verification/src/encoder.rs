//! Short codes: an identifier written in base 62 with the symbols of a
//! permuted alphabet as digits.

use crate::alphabet::{is_permuted_alphabet, is_symbol, permuted_alphabet, Alphabet};
use vstd::prelude::*;

verus! {

/// The digits of `n` in base 62, most significant first, each written as
/// the symbol that `alphabet` has at the digit's position. Zero has no
/// digits.
pub open spec fn positional(alphabet: Seq<char>, n: nat) -> Seq<char>
    decreases n,
{
    if n == 0 {
        Seq::empty()
    } else {
        positional(alphabet, n / 62).push(alphabet[(n % 62) as int])
    }
}

/// The short code of `id`: its base-62 digits, or the single zero digit
/// where `id` is zero.
pub open spec fn short_code(alphabet: Seq<char>, id: nat) -> Seq<char> {
    if id == 0 {
        seq![alphabet[0]]
    } else {
        positional(alphabet, id)
    }
}

/// How many base-62 digits `n` takes; zero takes one.
pub open spec fn digit_count(n: nat) -> nat
    decreases n,
{
    if n < 62 {
        1
    } else {
        1 + digit_count(n / 62)
    }
}

/// Whether `code` has the shape of a short code: between one and eleven
/// characters, each of them one of the 62 symbols.
pub open spec fn is_code(code: Seq<char>) -> bool {
    &&& 1 <= code.len() <= 11
    &&& forall|i: int| 0 <= i < code.len() ==> is_symbol(#[trigger] code[i])
}

/// A positive number is written with as many symbols as it has digits.
proof fn lemma_positional_len(alphabet: Seq<char>, n: nat)
    requires
        n > 0,
    ensures
        positional(alphabet, n).len() == digit_count(n),
    decreases n,
{
    if n >= 62 {
        lemma_positional_len(alphabet, n / 62);
    } else {
        assert(positional(alphabet, n / 62).len() == 0);
    }
}

/// Every symbol that a number is written with comes from the alphabet.
proof fn lemma_positional_symbols(alphabet: Seq<char>, n: nat)
    requires
        is_permuted_alphabet(alphabet),
    ensures
        forall|i: int|
            0 <= i < positional(alphabet, n).len() ==> alphabet.contains(
                #[trigger] positional(alphabet, n)[i],
            ),
    decreases n,
{
    if n > 0 {
        lemma_positional_symbols(alphabet, n / 62);
        let high = positional(alphabet, n / 62);
        let digit = alphabet[(n % 62) as int];
        assert forall|i: int| 0 <= i < high.push(digit).len() implies alphabet.contains(
            #[trigger] high.push(digit)[i],
        ) by {
            if i < high.len() {
                assert(high.push(digit)[i] == high[i]);
            } else {
                assert(alphabet.contains(digit));
            }
        }
    }
}

/// Numbers that are written alike are equal: the last symbols give equal
/// remainders, what stands before them equal quotients.
proof fn lemma_positional_injective(alphabet: Seq<char>, a: nat, b: nat)
    requires
        is_permuted_alphabet(alphabet),
        positional(alphabet, a) == positional(alphabet, b),
    ensures
        a == b,
    decreases a,
{
    if a == 0 || b == 0 {
        assert(positional(alphabet, a).len() == 0 <==> a == 0);
        assert(positional(alphabet, b).len() == 0 <==> b == 0);
    } else {
        let high_a = positional(alphabet, a / 62);
        let high_b = positional(alphabet, b / 62);
        let low_a = alphabet[(a % 62) as int];
        let low_b = alphabet[(b % 62) as int];
        assert(high_a.push(low_a).drop_last() =~= high_a);
        assert(high_b.push(low_b).drop_last() =~= high_b);
        lemma_positional_injective(alphabet, a / 62, b / 62);
        assert(high_a.push(low_a).last() == low_b);
        assert(a % 62 == b % 62);
    }
}

/// A short code over a permuted alphabet has as many symbols as the
/// identifier has base-62 digits, and all of them are among the 62; that
/// of an identifier below 2^64 has eleven symbols at most.
pub proof fn lemma_short_code_is_code(alphabet: Seq<char>, id: nat)
    requires
        is_permuted_alphabet(alphabet),
    ensures
        short_code(alphabet, id).len() == digit_count(id),
        forall|i: int|
            0 <= i < short_code(alphabet, id).len() ==> is_symbol(
                #[trigger] short_code(alphabet, id)[i],
            ),
        id <= u64::MAX ==> is_code(short_code(alphabet, id)),
{
    let code = short_code(alphabet, id);
    if id > 0 {
        lemma_positional_len(alphabet, id);
        lemma_positional_symbols(alphabet, id);
    }
    assert forall|i: int| 0 <= i < code.len() implies is_symbol(#[trigger] code[i]) by {
        assert(alphabet.contains(code[i]));
    }
    if id <= u64::MAX {
        reveal_with_fuel(digit_count, 12);
    }
}

/// Over a permuted alphabet, different identifiers have different short
/// codes.
pub proof fn lemma_short_code_injective(alphabet: Seq<char>, id1: nat, id2: nat)
    requires
        is_permuted_alphabet(alphabet),
        id1 != id2,
    ensures
        short_code(alphabet, id1) != short_code(alphabet, id2),
{
    if short_code(alphabet, id1) == short_code(alphabet, id2) {
        if id1 > 0 && id2 > 0 {
            lemma_positional_injective(alphabet, id1, id2);
        } else {
            let other = if id1 == 0 { id2 } else { id1 };
            let code = positional(alphabet, other);
            assert(code == seq![alphabet[0]]);
            assert(positional(alphabet, other / 62).len() == 0);
            assert(code[0] == alphabet[(other % 62) as int]);
            assert(other / 62 == 0 && other % 62 == 0);
        }
    }
}

impl Alphabet {
    /// Writes `id` as a short code over this alphabet: the remainders of
    /// repeated division by 62 picked from the alphabet, last one first.
    pub fn encode(&self, id: u64) -> (code: String)
        ensures
            code@ == short_code(self@, id as nat),
            is_permuted_alphabet(self@),
            is_code(code@),
    {
        let symbols = self.symbols();
        proof {
            lemma_short_code_is_code(self@, id as nat);
        }
        let mut rest: u64 = id;
        let mut encoded: Vec<char> = Vec::new();
        while rest > 0
            invariant
                symbols@ == self@,
                symbols@.len() == 62,
                positional(symbols@, id as nat) == positional(symbols@, rest as nat)
                    + encoded@.reverse(),
            decreases rest,
        {
            let remainder: usize = (rest % 62) as usize;
            let ghost before = encoded@;
            encoded.push(symbols[remainder]);
            proof {
                let digit = symbols@[remainder as int];
                let high = positional(symbols@, (rest / 62) as nat);
                assert(high.push(digit) + before.reverse() =~= high + before.push(
                    digit,
                ).reverse());
            }
            rest = rest / 62;
        }
        if encoded.len() == 0 {
            encoded.push(symbols[0]);
        }
        assert(encoded@.reverse() =~= short_code(symbols@, id as nat));
        let count: usize = encoded.len();
        let mut code = String::new();
        let mut i: usize = count;
        while i > 0
            invariant
                i <= count,
                count == encoded@.len(),
                code@ == Seq::new((count - i) as nat, |k: int| encoded@[count - 1 - k]),
            decreases i,
        {
            i = i - 1;
            code.push(encoded[i]);
        }
        code
    }
}

/// The short code of `id` under the alphabet that `secret_key` gives. It
/// depends on nothing but the key and the identifier.
pub fn generate_short_url(secret_key: &str, id: u64) -> (code: String)
    ensures
        code@ == short_code(permuted_alphabet(secret_key@), id as nat),
        is_permuted_alphabet(permuted_alphabet(secret_key@)),
        is_code(code@),
{
    Alphabet::from_secret(secret_key).encode(id)
}

} // verus!
