use vanity_wasm::{
    is_alphabet_char_exec, validate_pattern, wasm_validate_prefix, wasm_validate_suffix,
    BASE58_ALPHABET,
};

const CASE_INSENSITIVE_PREFIX_MESSAGE: &str =
    "Invalid prefix. Use only letters A-Z or a-z and digits 1-9 for case-insensitive matching.";

#[test]
fn alphabet_has_58_distinct_symbols() {
    let mut chars: Vec<char> = BASE58_ALPHABET.chars().collect();
    assert_eq!(chars.len(), 58);
    chars.dedup();
    assert_eq!(chars.len(), 58);
    for c in ['0', 'O', 'I', 'l'] {
        assert!(!BASE58_ALPHABET.contains(c));
    }
}

#[test]
fn alphabet_patterns_pass_case_sensitive() {
    assert_eq!(validate_pattern("Ab", "prefix", true), Ok(()));
    assert_eq!(validate_pattern(BASE58_ALPHABET, "prefix", true), Ok(()));
    assert_eq!(validate_pattern("z", "suffix", true), Ok(()));
}

#[test]
fn empty_pattern_is_rejected_in_both_modes() {
    assert_eq!(
        validate_pattern("", "prefix", true),
        Err("prefix must be non-empty.".to_string())
    );
    assert_eq!(
        validate_pattern("", "suffix", false),
        Err("suffix must be non-empty.".to_string())
    );
}

#[test]
fn ambiguous_characters_are_cited() {
    for c in ['0', 'O', 'I', 'l'] {
        let pattern = format!("ab{c}cd");
        let expected = format!("Invalid character \"{c}\" in prefix. Base58 excludes 0, O, I, and l.");
        assert_eq!(validate_pattern(&pattern, "prefix", true), Err(expected));
    }
}

#[test]
fn first_invalid_character_is_reported() {
    assert_eq!(
        validate_pattern("0A", "prefix", true),
        Err("Invalid character \"0\" in prefix. Base58 excludes 0, O, I, and l.".to_string())
    );
    assert_eq!(
        validate_pattern("A#0", "suffix", true),
        Err("Invalid character \"#\" in suffix. Base58 excludes 0, O, I, and l.".to_string())
    );
}

#[test]
fn non_ascii_character_is_cited_whole() {
    assert_eq!(
        validate_pattern("aé", "prefix", true),
        Err("Invalid character \"é\" in prefix. Base58 excludes 0, O, I, and l.".to_string())
    );
}

#[test]
fn case_insensitive_accepts_letters_and_nonzero_digits() {
    assert_eq!(validate_pattern("AbCdEf123", "prefix", false), Ok(()));
    assert_eq!(validate_pattern("OIl", "prefix", false), Ok(()));
    assert_eq!(validate_pattern("987654321", "suffix", false), Ok(()));
}

#[test]
fn case_insensitive_rejects_zero_and_symbols() {
    assert_eq!(
        validate_pattern("ab0", "prefix", false),
        Err(CASE_INSENSITIVE_PREFIX_MESSAGE.to_string())
    );
    assert_eq!(
        validate_pattern("a-b", "prefix", false),
        Err(CASE_INSENSITIVE_PREFIX_MESSAGE.to_string())
    );
}

#[test]
fn boundary_validators_use_empty_string_for_success() {
    assert_eq!(wasm_validate_prefix("Ab", true), "");
    assert_eq!(wasm_validate_suffix("xyz", false), "");
    assert_eq!(wasm_validate_prefix("", true), "prefix must be non-empty.");
    assert_eq!(
        wasm_validate_suffix("l", true),
        "Invalid character \"l\" in suffix. Base58 excludes 0, O, I, and l."
    );
    assert_eq!(
        wasm_validate_suffix("_", false),
        "Invalid suffix. Use only letters A-Z or a-z and digits 1-9 for case-insensitive matching."
    );
}

#[test]
fn membership_agrees_with_alphabet_constant() {
    for b in 0u8..128 {
        let c = b as char;
        assert_eq!(is_alphabet_char_exec(c), BASE58_ALPHABET.contains(c), "{c:?}");
    }
    assert!(!is_alphabet_char_exec('é'));
}
