//! The fixed 58-symbol alphabet that addresses are written in.

use vstd::prelude::*;

verus! {

/// The base58 alphabet: digits and letters without `0`, `O`, `I` and `l`.
pub const BASE58_ALPHABET: &'static str = "123456789ABCDEFGHJKLMNPQRSTUVWXYZabcdefghijkmnopqrstuvwxyz";

/// Whether `c` is one of the 58 symbols of the alphabet.
pub open spec fn is_alphabet_char(c: char) -> bool {
    ||| ('1' <= c && c <= '9')
    ||| ('A' <= c && c <= 'H')
    ||| ('J' <= c && c <= 'N')
    ||| ('P' <= c && c <= 'Z')
    ||| ('a' <= c && c <= 'k')
    ||| ('m' <= c && c <= 'z')
}

/// The characters that look alike and are left out of the alphabet.
pub open spec fn is_ambiguous_char(c: char) -> bool {
    c == '0' || c == 'O' || c == 'I' || c == 'l'
}

/// Tests membership in the alphabet.
pub fn is_alphabet_char_exec(c: char) -> (r: bool)
    ensures
        r == is_alphabet_char(c),
{
    ('1' <= c && c <= '9') || ('A' <= c && c <= 'H') || ('J' <= c && c <= 'N') || ('P' <= c
        && c <= 'Z') || ('a' <= c && c <= 'k') || ('m' <= c && c <= 'z')
}

/// The alphabet constant holds 58 symbols in strictly increasing order (so no
/// symbol repeats), each of them one that `is_alphabet_char` accepts; none of
/// them is an ambiguous character.
pub proof fn lemma_alphabet_constant()
    ensures
        BASE58_ALPHABET@.len() == 58,
        forall|i: int| 0 <= i < 58 ==> is_alphabet_char(#[trigger] BASE58_ALPHABET@[i]),
        forall|i: int| 0 <= i < 58 ==> !is_ambiguous_char(#[trigger] BASE58_ALPHABET@[i]),
        forall|i: int, j: int|
            0 <= i < j < 58 ==> (BASE58_ALPHABET@[i] as u32) < (BASE58_ALPHABET@[j] as u32),
{
    reveal_strlit("123456789ABCDEFGHJKLMNPQRSTUVWXYZabcdefghijkmnopqrstuvwxyz");
}

/// The position of an alphabet symbol in `BASE58_ALPHABET`.
pub open spec fn alphabet_index(c: char) -> int {
    let u = c as u32 as int;
    if c <= '9' {
        u - ('1' as u32 as int)
    } else if c <= 'H' {
        9 + u - ('A' as u32 as int)
    } else if c <= 'N' {
        17 + u - ('J' as u32 as int)
    } else if c <= 'Z' {
        22 + u - ('P' as u32 as int)
    } else if c <= 'k' {
        33 + u - ('a' as u32 as int)
    } else {
        44 + u - ('m' as u32 as int)
    }
}

/// Every symbol that `is_alphabet_char` accepts stands in the alphabet
/// constant, at `alphabet_index`.
pub proof fn lemma_alphabet_complete(c: char)
    requires
        is_alphabet_char(c),
    ensures
        0 <= alphabet_index(c) < 58,
        BASE58_ALPHABET@[alphabet_index(c)] == c,
{
    reveal_strlit("123456789ABCDEFGHJKLMNPQRSTUVWXYZabcdefghijkmnopqrstuvwxyz");
}

} // verus!
