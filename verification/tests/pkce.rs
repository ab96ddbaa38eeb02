use std::collections::HashSet;
use tuify::entropy::random_bytes;
use tuify::pkce::{
    generate_challenge, generate_pair, generate_state, get_random_string, string_from_entropy,
};
use tuify::sha256::sha256_bytes;

fn hex(bytes: &[u8]) -> String {
    let mut out = String::new();
    for b in bytes {
        out.push_str(&format!("{:02x}", b));
    }
    out
}

fn unreserved(c: char) -> bool {
    c.is_ascii_alphanumeric() || c == '-' || c == '.' || c == '_' || c == '~'
}

#[test]
fn sha256_of_abc() {
    assert_eq!(
        hex(&sha256_bytes("abc")),
        "ba7816bf8f01cfea414140de5dae2223b00361a396177a9cb410ff61f20015ad"
    );
}

#[test]
fn sha256_of_the_empty_text() {
    assert_eq!(
        hex(&sha256_bytes("")),
        "e3b0c44298fc1c149afbf4c8996fb92427ae41e4649b934ca495991b7852b855"
    );
}

#[test]
fn challenge_of_a_known_verifier() {
    assert_eq!(
        generate_challenge("dBjftJeZ4CVP-mB92K27uhbUJU1p1r_wW1gFWFOEjXk"),
        "E9Melhoa2OwvFrEMTJguCHaoeK1t8URWbuGJSstw-cM"
    );
}

#[test]
fn challenge_has_43_url_safe_characters() {
    let challenge = generate_challenge("any verifier at all");
    assert_eq!(challenge.len(), 43);
    assert!(challenge
        .chars()
        .all(|c| c.is_ascii_alphanumeric() || c == '-' || c == '_'));
}

#[test]
fn entropy_bytes_choose_symbols_modulo_62() {
    let bytes = [0u8, 25, 26, 51, 52, 61, 62, 87, 124, 255];
    assert_eq!(string_from_entropy(&bytes), "AZaz09AZAH");
}

#[test]
fn entropy_of_no_bytes_is_the_empty_text() {
    assert_eq!(string_from_entropy(&[]), "");
}

#[test]
fn random_bytes_have_the_length_asked_for() {
    assert_eq!(random_bytes(0).unwrap().len(), 0);
    assert_eq!(random_bytes(1).unwrap().len(), 1);
    assert_eq!(random_bytes(64).unwrap().len(), 64);
}

#[test]
fn random_bytes_are_drawn_not_left_as_they_were() {
    let bytes = random_bytes(64).unwrap();
    assert!(bytes.iter().any(|b| *b != 0));
    assert_ne!(random_bytes(32).unwrap(), random_bytes(32).unwrap());
}

#[test]
fn verifier_has_64_unreserved_characters() {
    for _ in 0..50 {
        let verifier = get_random_string().unwrap();
        assert_eq!(verifier.chars().count(), 64);
        assert!(verifier.len() >= 43 && verifier.len() <= 128);
        assert!(verifier.chars().all(unreserved));
        assert!(verifier.chars().all(|c| c.is_ascii_alphanumeric()));
    }
}

#[test]
fn pair_binds_the_challenge_to_the_verifier() {
    for _ in 0..20 {
        let (verifier, challenge) = generate_pair().unwrap();
        assert_eq!(verifier.len(), 64);
        assert!(verifier.chars().all(unreserved));
        assert_eq!(challenge, generate_challenge(&verifier));
        assert_eq!(challenge.len(), 43);
    }
}

#[test]
fn verifiers_do_not_repeat() {
    let mut seen = HashSet::new();
    for _ in 0..200 {
        assert!(seen.insert(get_random_string().unwrap()));
    }
}

#[test]
fn state_has_22_url_safe_characters() {
    let state = generate_state().unwrap();
    assert_eq!(state.len(), 22);
    assert!(state
        .chars()
        .all(|c| c.is_ascii_alphanumeric() || c == '-' || c == '_'));
}

#[test]
fn states_do_not_repeat() {
    let mut seen = HashSet::new();
    for _ in 0..1000 {
        assert!(seen.insert(generate_state().unwrap()));
    }
}

#[test]
fn consecutive_states_differ() {
    let first = generate_state().unwrap();
    let second = generate_state().unwrap();
    assert_ne!(first, second);
}
