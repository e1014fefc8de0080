//! Validation and normalization of the prefix and suffix patterns.

use vstd::prelude::*;

use crate::alphabet::{is_alphabet_char, is_alphabet_char_exec, is_ambiguous_char};

verus! {

/// A character accepted in case-insensitive mode: an ASCII letter or a digit 1-9.
pub open spec fn is_case_insensitive_char(c: char) -> bool {
    ||| ('1' <= c && c <= '9')
    ||| ('A' <= c && c <= 'Z')
    ||| ('a' <= c && c <= 'z')
}

/// Whether a pattern may hold `c` in the given mode.
pub open spec fn char_allowed(c: char, case_sensitive: bool) -> bool {
    if case_sensitive {
        is_alphabet_char(c)
    } else {
        is_case_insensitive_char(c)
    }
}

/// A well-formed pattern: non-empty, and made of allowed characters only.
pub open spec fn pattern_valid(p: Seq<char>, case_sensitive: bool) -> bool {
    &&& p.len() > 0
    &&& forall|i: int| 0 <= i < p.len() ==> char_allowed(#[trigger] p[i], case_sensitive)
}

/// `k` is the position of the first character that the mode does not allow.
pub open spec fn is_first_disallowed(p: Seq<char>, case_sensitive: bool, k: int) -> bool {
    &&& 0 <= k < p.len()
    &&& !char_allowed(p[k], case_sensitive)
    &&& forall|j: int| 0 <= j < k ==> char_allowed(#[trigger] p[j], case_sensitive)
}

/// The position of the first disallowed character of `p`, when there is one.
pub open spec fn first_disallowed(p: Seq<char>, case_sensitive: bool) -> int {
    choose|k: int| is_first_disallowed(p, case_sensitive, k)
}

pub open spec fn empty_message(label: Seq<char>) -> Seq<char> {
    label + " must be non-empty."@
}

pub open spec fn invalid_char_message(c: char, label: Seq<char>) -> Seq<char> {
    "Invalid character \""@ + seq![c] + "\" in "@ + label + ". Base58 excludes 0, O, I, and l."@
}

pub open spec fn case_insensitive_message(label: Seq<char>) -> Seq<char> {
    "Invalid "@ + label
        + ". Use only letters A-Z or a-z and digits 1-9 for case-insensitive matching."@
}

/// The error that validating `p` reports, or `None` when `p` is well-formed.
/// In case-sensitive mode the message cites the first offending character.
pub open spec fn validation_error(p: Seq<char>, label: Seq<char>, case_sensitive: bool) -> Option<
    Seq<char>,
> {
    if p.len() == 0 {
        Some(empty_message(label))
    } else if pattern_valid(p, case_sensitive) {
        None
    } else if case_sensitive {
        Some(invalid_char_message(p[first_disallowed(p, true)], label))
    } else {
        Some(case_insensitive_message(label))
    }
}

/// Lowercases an ASCII capital letter; every other character is kept.
pub open spec fn ascii_lower_char(c: char) -> char {
    if 'A' <= c && c <= 'Z' {
        ((c as u32) + 32) as char
    } else {
        c
    }
}

pub open spec fn ascii_lower(s: Seq<char>) -> Seq<char> {
    s.map_values(|c: char| ascii_lower_char(c))
}

/// The canonical form of a pattern: itself when case-sensitive, else lowercased.
pub open spec fn normalize(p: Seq<char>, case_sensitive: bool) -> Seq<char> {
    if case_sensitive {
        p
    } else {
        ascii_lower(p)
    }
}

/// At most one position is the first disallowed one.
pub proof fn lemma_first_disallowed_unique(p: Seq<char>, case_sensitive: bool, k: int)
    requires
        is_first_disallowed(p, case_sensitive, k),
    ensures
        first_disallowed(p, case_sensitive) == k,
{
    let c = first_disallowed(p, case_sensitive);
    assert(is_first_disallowed(p, case_sensitive, c));
    if c < k {
        assert(char_allowed(p[c], case_sensitive));
    } else if k < c {
        assert(char_allowed(p[k], case_sensitive));
    }
}

/// Every non-empty pattern made of alphabet symbols passes case-sensitive validation.
pub proof fn lemma_alphabet_pattern_valid(p: Seq<char>, label: Seq<char>)
    requires
        p.len() > 0,
        forall|i: int| 0 <= i < p.len() ==> is_alphabet_char(#[trigger] p[i]),
    ensures
        validation_error(p, label, true) is None,
{
}

/// A pattern holding `0`, `O`, `I` or `l` fails case-sensitive validation; when
/// only alphabet symbols come before that character, the error cites it.
pub proof fn lemma_ambiguous_char_rejected(p: Seq<char>, label: Seq<char>, k: int)
    requires
        0 <= k < p.len(),
        is_ambiguous_char(p[k]),
    ensures
        validation_error(p, label, true) is Some,
        (forall|j: int| 0 <= j < k ==> is_alphabet_char(#[trigger] p[j])) ==> validation_error(
            p,
            label,
            true,
        ) == Some(invalid_char_message(p[k], label)),
{
    assert(!char_allowed(p[k], true));
    if forall|j: int| 0 <= j < k ==> is_alphabet_char(#[trigger] p[j]) {
        assert(is_first_disallowed(p, true, k));
        lemma_first_disallowed_unique(p, true, k);
    }
}

/// Every non-empty pattern of ASCII letters, in any case, and digits 1-9 passes
/// case-insensitive validation.
pub proof fn lemma_case_insensitive_pattern_valid(p: Seq<char>, label: Seq<char>)
    requires
        p.len() > 0,
        forall|i: int| 0 <= i < p.len() ==> is_case_insensitive_char(#[trigger] p[i]),
    ensures
        validation_error(p, label, false) is None,
{
}

/// Normalizing twice gives what normalizing once gives.
pub proof fn lemma_normalize_idempotent(p: Seq<char>, case_sensitive: bool)
    ensures
        normalize(normalize(p, case_sensitive), case_sensitive) == normalize(p, case_sensitive),
{
    if !case_sensitive {
        assert(ascii_lower(ascii_lower(p)) =~= ascii_lower(p));
    }
}

/// Relies on std's `str::to_ascii_lowercase`: a copy of the string with each
/// ASCII capital letter mapped to its lower-case form and nothing else changed.
#[verifier::external_body]
pub(crate) fn to_ascii_lowercase(s: &str) -> (r: String)
    ensures
        r@ == ascii_lower(s@),
{
    s.to_ascii_lowercase()
}

/// Checks a pattern for the given mode, scanning left to right.
pub fn validate_pattern(pattern: &str, label: &str, case_sensitive: bool) -> (r: Result<(), String>)
    ensures
        match r {
            Ok(()) => validation_error(pattern@, label@, case_sensitive) is None,
            Err(m) => validation_error(pattern@, label@, case_sensitive) == Some(m@),
        },
        r is Ok <==> pattern_valid(pattern@, case_sensitive),
{
    let n = pattern.unicode_len();
    if n == 0 {
        return Err(String::from_str(label).concat(" must be non-empty."));
    }
    let mut i: usize = 0;
    while i < n
        invariant
            n == pattern@.len(),
            0 <= i <= n,
            forall|j: int| 0 <= j < i ==> char_allowed(#[trigger] pattern@[j], case_sensitive),
        decreases n - i,
    {
        let ch = pattern.get_char(i);
        if case_sensitive {
            if !is_alphabet_char_exec(ch) {
                proof {
                    assert(is_first_disallowed(pattern@, case_sensitive, i as int));
                    lemma_first_disallowed_unique(pattern@, case_sensitive, i as int);
                }
                let cited = pattern.substring_char(i, i + 1);
                assert(cited@ =~= seq![ch]);
                let m = String::from_str("Invalid character \"").concat(cited).concat(
                    "\" in ",
                ).concat(label).concat(". Base58 excludes 0, O, I, and l.");
                return Err(m);
            }
        } else {
            let is_digit = '1' <= ch && ch <= '9';
            let is_alpha = ('A' <= ch && ch <= 'Z') || ('a' <= ch && ch <= 'z');
            if !is_digit && !is_alpha {
                let m = String::from_str("Invalid ").concat(label).concat(
                    ". Use only letters A-Z or a-z and digits 1-9 for case-insensitive matching.",
                );
                return Err(m);
            }
        }
        i = i + 1;
    }
    Ok(())
}

/// Canonicalizes a pattern for matching.
pub fn normalize_pattern(pattern: &str, case_sensitive: bool) -> (r: String)
    ensures
        r@ == normalize(pattern@, case_sensitive),
{
    if case_sensitive {
        String::from_str(pattern)
    } else {
        to_ascii_lowercase(pattern)
    }
}

/// Validates a prefix; the result is empty when it is well-formed, else the error message.
pub fn wasm_validate_prefix(prefix: &str, case_sensitive: bool) -> (r: String)
    ensures
        r@ == match validation_error(prefix@, "prefix"@, case_sensitive) {
            Some(m) => m,
            None => Seq::<char>::empty(),
        },
{
    match validate_pattern(prefix, "prefix", case_sensitive) {
        Ok(()) => String::new(),
        Err(e) => e,
    }
}

/// Validates a suffix; the result is empty when it is well-formed, else the error message.
pub fn wasm_validate_suffix(suffix: &str, case_sensitive: bool) -> (r: String)
    ensures
        r@ == match validation_error(suffix@, "suffix"@, case_sensitive) {
            Some(m) => m,
            None => Seq::<char>::empty(),
        },
{
    match validate_pattern(suffix, "suffix", case_sensitive) {
        Ok(()) => String::new(),
        Err(e) => e,
    }
}

} // verus!
