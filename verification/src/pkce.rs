//! Proof Key for Code Exchange: the random verifier, the challenge derived
//! from it, and the state value that guards the redirect.
//!
//! A verifier symbol is chosen by reducing one random byte modulo the size
//! of a 62-symbol alphabet. The first eight symbols are therefore slightly
//! more likely than the rest (5/256 against 4/256); removing that bias is
//! not a goal of this module.

use crate::base64::{alphabet, alphabet_char, base64_encode, encode, is_alphabet_char};
use crate::entropy::random_bytes;
use crate::error::AuthError;
use crate::sha256::{sha256, sha256_bytes};
use vstd::prelude::*;
use vstd::utf8::encode_utf8;

verus! {

/// Number of characters of a generated verifier.
pub const VERIFIER_LEN: usize = 64;

/// Number of random bytes behind a generated state value: 128 bits.
pub const STATE_BYTES: usize = 16;

/// Number of symbols a verifier is drawn from: `A`-`Z`, `a`-`z`, `0`-`9`.
pub const SYMBOLS: u8 = 62;

/// The characters that may occur in a verifier: letters, digits, `-`, `.`,
/// `_` and `~`.
pub open spec fn is_unreserved(c: char) -> bool {
    ('A' <= c && c <= 'Z') || ('a' <= c && c <= 'z') || ('0' <= c && c <= '9') || c == '-' || c
        == '.' || c == '_' || c == '~'
}

/// A well-formed verifier: 43 to 128 unreserved characters.
pub open spec fn is_verifier(s: Seq<char>) -> bool {
    &&& 43 <= s.len() <= 128
    &&& forall|i: int| 0 <= i < s.len() ==> is_unreserved(#[trigger] s[i])
}

/// The verifier symbol chosen by one random byte.
pub open spec fn symbol(b: u8) -> char {
    alphabet_char((b % SYMBOLS) as int)
}

/// The string of symbols chosen by a sequence of random bytes.
pub open spec fn symbols(bytes: Seq<u8>) -> Seq<char> {
    Seq::new(bytes.len(), |i: int| symbol(bytes[i]))
}

/// The challenge that belongs to a verifier: the unpadded URL-safe base64
/// of the SHA-256 digest of the verifier's bytes.
pub open spec fn challenge_of(verifier: Seq<char>) -> Seq<char> {
    encode(sha256(encode_utf8(verifier)))
}

/// Every symbol is a letter or a digit, hence unreserved.
pub proof fn lemma_symbol_unreserved(b: u8)
    ensures
        is_unreserved(symbol(b)),
{
}

/// Turns random bytes into verifier symbols, one symbol for each byte.
pub fn string_from_entropy(bytes: &[u8]) -> (out: String)
    ensures
        out@ == symbols(bytes@),
        out@.len() == bytes@.len(),
        forall|i: int| 0 <= i < out@.len() ==> is_unreserved(#[trigger] out@[i]),
{
    let mut out = String::new();
    let mut i: usize = 0;
    while i < bytes.len()
        invariant
            i <= bytes@.len(),
            out@.len() == i,
            forall|k: int| 0 <= k < i ==> #[trigger] out@[k] == symbol(bytes@[k]),
        decreases bytes@.len() - i,
    {
        out.push(alphabet(bytes[i] % SYMBOLS));
        i = i + 1;
    }
    proof {
        assert forall|k: int| 0 <= k < out@.len() implies is_unreserved(#[trigger] out@[k]) by {
            lemma_symbol_unreserved(bytes@[k]);
        }
    }
    out
}

/// Generates a fresh verifier of `VERIFIER_LEN` symbols from the system's
/// cryptographically secure random source.
pub fn get_random_string() -> (r: Result<String, AuthError>)
    ensures
        match r {
            Ok(s) => {
                &&& s@.len() == VERIFIER_LEN
                &&& is_verifier(s@)
                &&& exists|bytes: Seq<u8>| bytes.len() == VERIFIER_LEN && s@ == symbols(bytes)
            },
            Err(e) => e is EntropyUnavailable,
        },
{
    match random_bytes(VERIFIER_LEN) {
        Ok(bytes) => {
            let s = string_from_entropy(bytes.as_slice());
            Ok(s)
        },
        Err(e) => Err(e),
    }
}

/// Derives the challenge from a verifier.
pub fn generate_challenge(verifier: &str) -> (challenge: String)
    ensures
        challenge@ == challenge_of(verifier@),
        challenge@.len() == 43,
        forall|i: int| 0 <= i < challenge@.len() ==> is_alphabet_char(#[trigger] challenge@[i]),
{
    let hash = sha256_bytes(verifier);
    base64_encode(hash.as_slice())
}

/// Generates a verifier and its challenge.
pub fn generate_pair() -> (r: Result<(String, String), AuthError>)
    ensures
        match r {
            Ok((verifier, challenge)) => {
                &&& verifier@.len() == VERIFIER_LEN
                &&& is_verifier(verifier@)
                &&& challenge@ == challenge_of(verifier@)
            },
            Err(e) => e is EntropyUnavailable,
        },
{
    match get_random_string() {
        Ok(verifier) => {
            let challenge = generate_challenge(verifier.as_str());
            Ok((verifier, challenge))
        },
        Err(e) => Err(e),
    }
}

/// Generates a state value for one authorization attempt: the base64 of
/// `STATE_BYTES` fresh random bytes.
pub fn generate_state() -> (r: Result<String, AuthError>)
    ensures
        match r {
            Ok(s) => {
                &&& s@.len() == 22
                &&& forall|i: int| 0 <= i < s@.len() ==> is_alphabet_char(#[trigger] s@[i])
                &&& exists|bytes: Seq<u8>| bytes.len() == STATE_BYTES && s@ == encode(bytes)
            },
            Err(e) => e is EntropyUnavailable,
        },
{
    match random_bytes(STATE_BYTES) {
        Ok(bytes) => {
            let s = base64_encode(bytes.as_slice());
            Ok(s)
        },
        Err(e) => Err(e),
    }
}

} // verus!
