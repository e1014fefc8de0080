//! Testing an address against an optional prefix and an optional suffix.

use vstd::prelude::*;

use crate::pattern::{ascii_lower, to_ascii_lowercase};

verus! {

pub open spec fn starts_with(s: Seq<char>, p: Seq<char>) -> bool {
    p.len() <= s.len() && s.subrange(0, p.len() as int) == p
}

pub open spec fn ends_with(s: Seq<char>, p: Seq<char>) -> bool {
    p.len() <= s.len() && s.subrange(s.len() - p.len(), s.len() as int) == p
}

/// The address as it is compared: lowercased in case-insensitive mode.
pub open spec fn folded(address: Seq<char>, case_sensitive: bool) -> Seq<char> {
    if case_sensitive {
        address
    } else {
        ascii_lower(address)
    }
}

/// An absent pattern imposes nothing; a present one must start (or end) the
/// folded address.
pub open spec fn address_matches(
    address: Seq<char>,
    prefix: Option<Seq<char>>,
    suffix: Option<Seq<char>>,
    case_sensitive: bool,
) -> bool {
    let a = folded(address, case_sensitive);
    &&& (match prefix {
        Some(p) => starts_with(a, p),
        None => true,
    })
    &&& (match suffix {
        Some(q) => ends_with(a, q),
        None => true,
    })
}

pub open spec fn opt_view(o: Option<&str>) -> Option<Seq<char>> {
    match o {
        Some(s) => Some(s@),
        None => None,
    }
}

/// Whether `p` is a prefix of `s`.
pub fn str_starts_with(s: &str, p: &str) -> (r: bool)
    ensures
        r == starts_with(s@, p@),
{
    let n = s.unicode_len();
    let k = p.unicode_len();
    if k > n {
        return false;
    }
    let mut i: usize = 0;
    while i < k
        invariant
            n == s@.len(),
            k == p@.len(),
            k <= n,
            0 <= i <= k,
            forall|j: int| 0 <= j < i ==> s@[j] == p@[j],
        decreases k - i,
    {
        if s.get_char(i) != p.get_char(i) {
            assert(s@.subrange(0, k as int)[i as int] != p@[i as int]);
            return false;
        }
        i = i + 1;
    }
    assert(s@.subrange(0, k as int) =~= p@);
    true
}

/// Whether `p` is a suffix of `s`.
pub fn str_ends_with(s: &str, p: &str) -> (r: bool)
    ensures
        r == ends_with(s@, p@),
{
    let n = s.unicode_len();
    let k = p.unicode_len();
    if k > n {
        return false;
    }
    let off = n - k;
    let mut i: usize = 0;
    while i < k
        invariant
            n == s@.len(),
            k == p@.len(),
            k <= n,
            off == n - k,
            0 <= i <= k,
            forall|j: int| 0 <= j < i ==> s@[off + j] == p@[j],
        decreases k - i,
    {
        if s.get_char(off + i) != p.get_char(i) {
            assert(s@.subrange(off as int, n as int)[i as int] != p@[i as int]);
            return false;
        }
        i = i + 1;
    }
    assert(s@.subrange(off as int, n as int) =~= p@);
    true
}

/// Tests an address against already-normalized patterns.
pub fn matches_prefix_suffix(
    address: &str,
    prefix: Option<&str>,
    suffix: Option<&str>,
    case_sensitive: bool,
) -> (r: bool)
    ensures
        r == address_matches(address@, opt_view(prefix), opt_view(suffix), case_sensitive),
{
    if case_sensitive {
        if let Some(prefix) = prefix {
            if !str_starts_with(address, prefix) {
                return false;
            }
        }
        if let Some(suffix) = suffix {
            if !str_ends_with(address, suffix) {
                return false;
            }
        }
        return true;
    }
    let normalized = to_ascii_lowercase(address);
    if let Some(prefix) = prefix {
        if !str_starts_with(normalized.as_str(), prefix) {
            return false;
        }
    }
    if let Some(suffix) = suffix {
        if !str_ends_with(normalized.as_str(), suffix) {
            return false;
        }
    }
    true
}

/// A prefix matches exactly when it starts the folded address; a suffix,
/// exactly when it ends it.
pub proof fn lemma_match_is_start_or_end(
    address: Seq<char>,
    p: Seq<char>,
    case_sensitive: bool,
)
    ensures
        address_matches(address, Some(p), None, case_sensitive) == starts_with(
            folded(address, case_sensitive),
            p,
        ),
        address_matches(address, None, Some(p), case_sensitive) == ends_with(
            folded(address, case_sensitive),
            p,
        ),
{
}

} // verus!
