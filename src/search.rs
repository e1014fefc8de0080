//! The batch search: generate keypairs, render each public key in base58, and
//! stop at the first address that matches the patterns.

use vstd::prelude::*;

use crate::alphabet::is_alphabet_char;
use crate::matching::{address_matches, matches_prefix_suffix, opt_view};
use crate::pattern::{normalize, normalize_pattern};

verus! {

/// What one batch call returns: the first matching address with its keypair
/// (32 secret-key bytes, then the 32 public-key bytes), or nothing.
pub enum MatchResult {
    Found { address: String, secret_key: Vec<u8> },
    NotFound,
}

/// The base58 rendering (bitcoin alphabet, no checksum) of a byte string.
pub uninterp spec fn base58_of(bytes: Seq<u8>) -> Seq<char>;

/// The public half of a 64-byte keypair.
pub open spec fn public_key_of(keypair: Seq<u8>) -> Seq<u8> {
    keypair.subrange(32, 64)
}

/// The address of a 64-byte keypair: its public key in base58.
pub open spec fn address_of(keypair: Seq<u8>) -> Seq<char> {
    base58_of(public_key_of(keypair))
}

/// A pattern as the search uses it: none when empty, else normalized.
pub open spec fn pattern_opt(p: Seq<char>, case_sensitive: bool) -> Option<Seq<char>> {
    if p.len() == 0 {
        None
    } else {
        Some(normalize(p, case_sensitive))
    }
}

pub open spec fn string_opt_view(o: Option<String>) -> Option<Seq<char>> {
    match o {
        Some(s) => Some(s@),
        None => None,
    }
}

/// Whether the address of `keypair` satisfies the (raw) prefix and suffix.
pub open spec fn keypair_matches(
    keypair: Seq<u8>,
    prefix: Seq<char>,
    suffix: Seq<char>,
    case_sensitive: bool,
) -> bool {
    address_matches(
        address_of(keypair),
        pattern_opt(prefix, case_sensitive),
        pattern_opt(suffix, case_sensitive),
        case_sensitive,
    )
}

#[verifier::external_type_specification]
#[verifier::external_body]
pub struct ExKeypair(ed25519_dalek::Keypair);

#[verifier::external_type_specification]
#[verifier::external_body]
pub struct ExDecodeError(bs58::decode::Error);

/// Relies on `ed25519_dalek::Keypair::generate`, fed by the operating
/// system's secure random source (`rand::rngs::OsRng`). Nothing is promised of
/// the keypair it draws.
#[verifier::external_body]
fn generate_keypair() -> (r: ed25519_dalek::Keypair) {
    let mut rng = rand::rngs::OsRng {};
    ed25519_dalek::Keypair::generate(&mut rng)
}

/// Relies on `ed25519_dalek::Keypair::to_bytes`: 64 bytes, the secret key
/// followed by the public key.
#[verifier::external_body]
fn keypair_bytes(keypair: &ed25519_dalek::Keypair) -> (r: Vec<u8>)
    ensures
        r@.len() == 64,
{
    keypair.to_bytes().to_vec()
}

/// Relies on `bs58::encode(..).into_string()`: the rendering depends on the
/// bytes alone and uses only symbols of the bitcoin alphabet.
#[verifier::external_body]
fn encode_base58(bytes: &[u8]) -> (r: String)
    ensures
        r@ == base58_of(bytes@),
        forall|i: int| 0 <= i < r@.len() ==> is_alphabet_char(#[trigger] r@[i]),
{
    bs58::encode(bytes).into_string()
}

/// Relies on `bs58::decode(..).into_vec()`: it fails exactly when a character
/// is not a symbol of the bitcoin alphabet, and a string that `bs58::encode`
/// renders from some bytes decodes back to exactly those bytes.
#[verifier::external_body]
fn decode_base58(s: &str) -> (r: Result<Vec<u8>, bs58::decode::Error>)
    ensures
        r is Ok <==> forall|i: int| 0 <= i < s@.len() ==> is_alphabet_char(#[trigger] s@[i]),
        forall|b: Seq<u8>| s@ == #[trigger] base58_of(b) ==> (r is Ok && r->Ok_0@ == b),
{
    bs58::decode(s).into_vec()
}

/// Decodes an address back to the public-key bytes it renders; `None` when the
/// text is no base58 rendering.
pub fn decode_address(address: &str) -> (r: Option<Vec<u8>>)
    ensures
        r is Some <==> forall|i: int|
            0 <= i < address@.len() ==> is_alphabet_char(#[trigger] address@[i]),
        forall|b: Seq<u8>| address@ == #[trigger] base58_of(b) ==> (r is Some && r->0@ == b),
{
    match decode_base58(address) {
        Ok(v) => Some(v),
        Err(_) => None,
    }
}

/// The address of a 64-byte keypair.
pub fn keypair_address(keypair: &[u8]) -> (r: String)
    requires
        keypair@.len() == 64,
    ensures
        r@ == address_of(keypair@),
        forall|i: int| 0 <= i < r@.len() ==> is_alphabet_char(#[trigger] r@[i]),
{
    let (_, public) = keypair.split_at(32);
    encode_base58(public)
}

/// The address of a 64-byte keypair when it matches the normalized patterns.
pub fn match_keypair(
    keypair: &[u8],
    prefix: Option<&str>,
    suffix: Option<&str>,
    case_sensitive: bool,
) -> (r: Option<String>)
    requires
        keypair@.len() == 64,
    ensures
        match r {
            Some(a) => a@ == address_of(keypair@) && (forall|i: int|
                0 <= i < a@.len() ==> is_alphabet_char(#[trigger] a@[i])) && address_matches(
                a@,
                opt_view(prefix),
                opt_view(suffix),
                case_sensitive,
            ),
            None => !address_matches(address_of(keypair@), opt_view(prefix), opt_view(suffix), case_sensitive),
        },
{
    let address = keypair_address(keypair);
    if matches_prefix_suffix(address.as_str(), prefix, suffix, case_sensitive) {
        Some(address)
    } else {
        None
    }
}

fn normalized_opt(p: &str, case_sensitive: bool) -> (r: Option<String>)
    ensures
        string_opt_view(r) == pattern_opt(p@, case_sensitive),
{
    if p.unicode_len() == 0 {
        None
    } else {
        Some(normalize_pattern(p, case_sensitive))
    }
}

fn as_str_opt(o: &Option<String>) -> (r: Option<&str>)
    ensures
        opt_view(r) == string_opt_view(*o),
{
    match o {
        Some(s) => Some(s.as_str()),
        None => None,
    }
}

/// What one batch returns given the keypairs it drew, in order: `Found` with
/// the last of them, which is the first to match, or `NotFound` after exactly
/// `batch_size` draws of which none matched.
pub open spec fn first_match_outcome(
    draws: Seq<Seq<u8>>,
    prefix: Seq<char>,
    suffix: Seq<char>,
    case_sensitive: bool,
    batch_size: nat,
    r: MatchResult,
) -> bool {
    match r {
        MatchResult::Found { address, secret_key } => {
            &&& 1 <= draws.len() <= batch_size
            &&& secret_key@ == draws.last()
            &&& secret_key@.len() == 64
            &&& address@ == address_of(secret_key@)
            &&& forall|i: int| 0 <= i < address@.len() ==> is_alphabet_char(#[trigger] address@[i])
            &&& keypair_matches(secret_key@, prefix, suffix, case_sensitive)
            &&& forall|j: int|
                0 <= j < draws.len() - 1 ==> !keypair_matches(
                    #[trigger] draws[j],
                    prefix,
                    suffix,
                    case_sensitive,
                )
        },
        MatchResult::NotFound => {
            &&& draws.len() == batch_size
            &&& forall|j: int|
                0 <= j < draws.len() ==> !keypair_matches(
                    #[trigger] draws[j],
                    prefix,
                    suffix,
                    case_sensitive,
                )
        },
    }
}

/// Where the search draws its keypairs from. `drawn` is the history of
/// 64-byte keypairs handed out so far; `can_draw(n)` says that `n` more draws
/// may be made; `supply` is what a source fixed in advance holds, and stays
/// as it is (a random source holds nothing in advance).
pub trait KeypairSource {
    spec fn drawn(&self) -> Seq<Seq<u8>>;

    spec fn supply(&self) -> Seq<Seq<u8>>;

    spec fn can_draw(&self, n: nat) -> bool;

    fn next_keypair(&mut self) -> (r: Vec<u8>)
        requires
            old(self).can_draw(1),
        ensures
            r@.len() == 64,
            final(self).drawn() == old(self).drawn().push(r@),
            final(self).supply() == old(self).supply(),
            forall|n: nat| old(self).can_draw(n + 1) ==> #[trigger] final(self).can_draw(n),
    ;
}

/// Fresh keypairs from the operating system's secure random source.
pub struct OsKeypairSource {
    pub history: Ghost<Seq<Seq<u8>>>,
}

impl OsKeypairSource {
    pub fn new() -> (r: Self)
        ensures
            r.drawn() == Seq::<Seq<u8>>::empty(),
    {
        OsKeypairSource { history: Ghost(Seq::empty()) }
    }
}

impl KeypairSource for OsKeypairSource {
    open spec fn drawn(&self) -> Seq<Seq<u8>> {
        self.history@
    }

    open spec fn supply(&self) -> Seq<Seq<u8>> {
        Seq::empty()
    }

    open spec fn can_draw(&self, n: nat) -> bool {
        true
    }

    fn next_keypair(&mut self) -> (r: Vec<u8>) {
        let keypair = generate_keypair();
        let bytes = keypair_bytes(&keypair);
        self.history = Ghost(self.history@.push(bytes@));
        bytes
    }
}

/// Keypairs handed out in order from a given list, starting at `next`.
pub struct KeypairList<'a> {
    pub keypairs: &'a Vec<Vec<u8>>,
    pub next: usize,
}

impl<'a> KeypairList<'a> {
    pub fn new(keypairs: &'a Vec<Vec<u8>>) -> (r: Self)
        ensures
            r.keypairs == keypairs,
            r.next == 0,
    {
        KeypairList { keypairs, next: 0 }
    }
}

impl<'a> KeypairSource for KeypairList<'a> {
    open spec fn drawn(&self) -> Seq<Seq<u8>> {
        Seq::new(self.next as nat, |i: int| self.keypairs@[i]@)
    }

    open spec fn supply(&self) -> Seq<Seq<u8>> {
        Seq::new(self.keypairs@.len(), |i: int| self.keypairs@[i]@)
    }

    open spec fn can_draw(&self, n: nat) -> bool {
        &&& self.next + n <= self.keypairs@.len()
        &&& forall|i: int| 0 <= i < self.keypairs@.len() ==> (#[trigger] self.keypairs@[i])@.len() == 64
    }

    fn next_keypair(&mut self) -> (r: Vec<u8>) {
        let r = self.keypairs[self.next].clone();
        assert(self.next < self.keypairs.len());
        self.next = self.next + 1;
        assert(self.drawn() =~= old(self).drawn().push(r@));
        r
    }
}

/// Draws up to `batch_size` keypairs from `source` and stops at the first whose
/// address matches the prefix and suffix (an empty one imposes nothing).
pub fn search_batch<S: KeypairSource>(
    source: &mut S,
    prefix: &str,
    suffix: &str,
    case_sensitive: bool,
    batch_size: usize,
) -> (r: MatchResult)
    requires
        forall|k: nat| k <= batch_size ==> #[trigger] old(source).can_draw(k),
    ensures
        final(source).supply() == old(source).supply(),
        final(source).drawn().len() >= old(source).drawn().len(),
        final(source).drawn().subrange(0, old(source).drawn().len() as int) == old(
            source,
        ).drawn(),
        first_match_outcome(
            final(source).drawn().subrange(
                old(source).drawn().len() as int,
                final(source).drawn().len() as int,
            ),
            prefix@,
            suffix@,
            case_sensitive,
            batch_size as nat,
            r,
        ),
{
    let ghost start = source.drawn();
    let prefix_opt = normalized_opt(prefix, case_sensitive);
    let suffix_opt = normalized_opt(suffix, case_sensitive);
    let mut n: usize = 0;
    while n < batch_size
        invariant
            0 <= n <= batch_size,
            source.drawn().len() == start.len() + n,
            start == old(source).drawn(),
            source.supply() == old(source).supply(),
            source.drawn().subrange(0, start.len() as int) == start,
            forall|k: nat| k <= batch_size - n ==> #[trigger] source.can_draw(k),
            string_opt_view(prefix_opt) == pattern_opt(prefix@, case_sensitive),
            string_opt_view(suffix_opt) == pattern_opt(suffix@, case_sensitive),
            forall|j: int|
                0 <= j < n ==> !keypair_matches(
                    #[trigger] source.drawn()[start.len() + j],
                    prefix@,
                    suffix@,
                    case_sensitive,
                ),
        decreases batch_size - n,
    {
        let ghost before = source.drawn();
        let ghost prev = *source;
        assert(source.can_draw(1));
        let secret_key = source.next_keypair();
        assert forall|k: nat| k <= batch_size - (n + 1) implies #[trigger] source.can_draw(k) by {
            assert(prev.can_draw(k + 1));
        }
        assert(source.drawn().subrange(0, start.len() as int) =~= start);
        assert forall|j: int| 0 <= j < n implies !keypair_matches(
            #[trigger] source.drawn()[start.len() + j],
            prefix@,
            suffix@,
            case_sensitive,
        ) by {
            assert(source.drawn()[start.len() + j] == before[start.len() + j]);
        }
        match match_keypair(
            secret_key.as_slice(),
            as_str_opt(&prefix_opt),
            as_str_opt(&suffix_opt),
            case_sensitive,
        ) {
            Some(address) => {
                let ghost d = source.drawn().subrange(start.len() as int, source.drawn().len() as int);
                assert(d.last() == secret_key@);
                assert forall|j: int| 0 <= j < d.len() - 1 implies !keypair_matches(
                    #[trigger] d[j],
                    prefix@,
                    suffix@,
                    case_sensitive,
                ) by {
                    assert(d[j] == source.drawn()[start.len() + j]);
                }
                assert(source.drawn().len() == start.len() + n + 1);
                let r = MatchResult::Found { address, secret_key };
                return r;
            },
            None => {},
        }
        n = n + 1;
    }
    proof {
        let d = source.drawn().subrange(start.len() as int, source.drawn().len() as int);
        assert forall|j: int| 0 <= j < d.len() implies !keypair_matches(
            #[trigger] d[j],
            prefix@,
            suffix@,
            case_sensitive,
        ) by {
            assert(d[j] == source.drawn()[start.len() + j]);
        }
    }
    MatchResult::NotFound
}

/// Runs the search over given keypairs, in order, and reports how many were
/// drawn: up to and including the first match, or all of them.
pub fn search_keypairs(
    keypairs: &Vec<Vec<u8>>,
    prefix: &str,
    suffix: &str,
    case_sensitive: bool,
) -> (r: (MatchResult, usize))
    requires
        forall|i: int| 0 <= i < keypairs@.len() ==> (#[trigger] keypairs@[i])@.len() == 64,
    ensures
        r.1 <= keypairs@.len(),
        first_match_outcome(
            Seq::new(r.1 as nat, |i: int| keypairs@[i]@),
            prefix@,
            suffix@,
            case_sensitive,
            keypairs@.len(),
            r.0,
        ),
{
    let mut source = KeypairList::new(keypairs);
    assert(source.drawn() =~= Seq::<Seq<u8>>::empty());
    let r = search_batch(&mut source, prefix, suffix, case_sensitive, keypairs.len());
    assert(source.drawn().subrange(0, source.drawn().len() as int) =~= source.drawn());
    assert(source.supply() =~= Seq::new(keypairs@.len(), |i: int| keypairs@[i]@));
    assert(source.supply().len() == source.keypairs@.len());
    assert(source.keypairs@.len() == keypairs@.len());
    assert(source.next <= keypairs@.len());
    assert(source.drawn() =~= Seq::new(source.next as nat, |i: int| keypairs@[i]@)) by {
        assert forall|i: int| 0 <= i < source.next implies source.keypairs@[i]@ == keypairs@[i]@ by {
            assert(source.supply()[i] == source.keypairs@[i]@);
        }
    }
    (r, source.next)
}

/// Draws up to `batch_size` fresh keypairs and returns the first whose address
/// matches the prefix and suffix (an empty one imposes nothing), or `NotFound`.
pub fn wasm_generate_batch(
    prefix: &str,
    suffix: &str,
    case_sensitive: bool,
    batch_size: u32,
) -> (r: MatchResult)
    ensures
        exists|draws: Seq<Seq<u8>>|
            first_match_outcome(draws, prefix@, suffix@, case_sensitive, batch_size as nat, r),
        batch_size == 0 ==> r is NotFound,
        prefix@.len() == 0 && suffix@.len() == 0 && batch_size > 0 ==> r is Found,
{
    let mut source = OsKeypairSource::new();
    let r = search_batch(&mut source, prefix, suffix, case_sensitive, batch_size as usize);
    let ghost draws = source.drawn().subrange(0, source.drawn().len() as int);
    proof {
        assert(first_match_outcome(draws, prefix@, suffix@, case_sensitive, batch_size as nat, r));
        if prefix@.len() == 0 && suffix@.len() == 0 && batch_size > 0 && r is NotFound {
            assert(keypair_matches(draws[0], prefix@, suffix@, case_sensitive));
        }
    }
    r
}

} // verus!
