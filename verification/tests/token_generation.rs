//! Token generator behaviour: fixed length, fixed alphabet, and no
//! duplicates over many draws (a statistical, not absolute, guarantee).

use std::collections::HashSet;

use zero2prod::token::{generate_subscription_token, is_well_formed_token};

#[test]
fn tokens_are_25_alphanumeric_characters() {
    for _ in 0..100 {
        let token = generate_subscription_token();
        assert_eq!(token.chars().count(), 25);
        assert!(token.chars().all(|c| c.is_ascii_alphanumeric()));
    }
}

#[test]
fn ten_thousand_tokens_have_no_duplicate() {
    let mut seen = HashSet::new();
    for _ in 0..10_000 {
        let token = generate_subscription_token();
        assert!(seen.insert(token), "a token was drawn twice");
    }
}

#[test]
fn well_formed_token_check_matches_the_format() {
    assert!(is_well_formed_token("ABCDEFGHIJKLMNOPQRSTUVWXY"));
    assert!(is_well_formed_token("abc123XYZ0000000000000000"));
    // one character short
    assert!(!is_well_formed_token("ABCDEFGHIJKLMNOPQRSTUVWX"));
    // one character long
    assert!(!is_well_formed_token("ABCDEFGHIJKLMNOPQRSTUVWXYZ"));
    // right length, character outside the alphabet
    assert!(!is_well_formed_token("ABCDEFGHIJKLMNOPQRSTUVWX-"));
    assert!(!is_well_formed_token(""));
}

#[test]
fn generated_tokens_pass_the_well_formedness_check() {
    for _ in 0..100 {
        let token = generate_subscription_token();
        assert!(is_well_formed_token(token.as_str()));
    }
}
