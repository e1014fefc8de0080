//! Vanity address search: pattern validation and normalization, match testing,
//! and a bounded batch search over freshly generated ed25519 keypairs whose
//! public keys are rendered in base58.

pub mod alphabet;
pub mod matching;
pub mod pattern;
pub mod search;

pub use alphabet::{is_alphabet_char_exec, BASE58_ALPHABET};
pub use matching::{matches_prefix_suffix, str_ends_with, str_starts_with};
pub use pattern::{normalize_pattern, validate_pattern, wasm_validate_prefix, wasm_validate_suffix};
pub use search::{
    decode_address, keypair_address, match_keypair, search_batch, search_keypairs,
    wasm_generate_batch, KeypairList, KeypairSource, OsKeypairSource,
    MatchResult,
};
