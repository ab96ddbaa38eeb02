//! Base64 with the URL-safe alphabet and without padding.

use vstd::prelude::*;

verus! {

/// The character that stands for the six-bit value `v` in the URL-safe
/// alphabet: `A`-`Z`, `a`-`z`, `0`-`9`, `-`, `_`.
pub open spec fn alphabet_char(v: int) -> char {
    if v < 26 {
        (65 + v) as u8 as char
    } else if v < 52 {
        (97 + (v - 26)) as u8 as char
    } else if v < 62 {
        (48 + (v - 52)) as u8 as char
    } else if v == 62 {
        '-'
    } else {
        '_'
    }
}

/// The byte at `i`, or zero past the end of the data.
pub open spec fn byte_or_zero(data: Seq<u8>, i: int) -> int {
    if 0 <= i < data.len() {
        data[i] as int
    } else {
        0
    }
}

/// The `k`-th group of six bits of `data`, read as a stream of bits, most
/// significant bit first, and followed by zero bits.
pub open spec fn sextet(data: Seq<u8>, k: int) -> int {
    let q = k / 4;
    let b0 = byte_or_zero(data, 3 * q);
    let b1 = byte_or_zero(data, 3 * q + 1);
    let b2 = byte_or_zero(data, 3 * q + 2);
    if k % 4 == 0 {
        b0 / 4
    } else if k % 4 == 1 {
        (b0 % 4) * 16 + b1 / 16
    } else if k % 4 == 2 {
        (b1 % 16) * 4 + b2 / 64
    } else {
        b2 % 64
    }
}

/// Number of characters that encode `n` bytes: one for every six bits,
/// rounded up.
pub open spec fn encoded_len(n: nat) -> nat {
    ((4 * n + 2) / 3) as nat
}

/// The encoding of `data`.
pub open spec fn encode(data: Seq<u8>) -> Seq<char> {
    Seq::new(encoded_len(data.len()), |k: int| alphabet_char(sextet(data, k)))
}

/// Whether `c` belongs to the URL-safe alphabet.
pub open spec fn is_alphabet_char(c: char) -> bool {
    ('A' <= c && c <= 'Z') || ('a' <= c && c <= 'z') || ('0' <= c && c <= '9') || c == '-' || c
        == '_'
}

/// The character for the six-bit value `v`.
pub fn alphabet(v: u8) -> (c: char)
    requires
        v < 64,
    ensures
        c == alphabet_char(v as int),
        is_alphabet_char(c),
{
    if v < 26 {
        (65 + v) as char
    } else if v < 52 {
        (97 + (v - 26)) as char
    } else if v < 62 {
        (48 + (v - 52)) as char
    } else if v == 62 {
        '-'
    } else {
        '_'
    }
}

/// Encodes `input` in base64 with the URL-safe alphabet and no padding.
pub fn base64_encode(input: &[u8]) -> (out: String)
    ensures
        out@ == encode(input@),
        out@.len() == encoded_len(input@.len()),
        forall|k: int| 0 <= k < out@.len() ==> is_alphabet_char(#[trigger] out@[k]),
{
    let n: usize = input.len();
    let mut out = String::new();
    let mut i: usize = 0;
    let ghost mut groups: int = 0;
    while n - i >= 3
        invariant
            n == input@.len(),
            i <= n,
            i == 3 * groups,
            out@.len() == 4 * groups,
            forall|k: int|
                0 <= k < 4 * groups ==> #[trigger] out@[k] == alphabet_char(sextet(input@, k)),
            forall|k: int| 0 <= k < 4 * groups ==> is_alphabet_char(#[trigger] out@[k]),
        decreases n - i,
    {
        let b0: u8 = input[i];
        let b1: u8 = input[i + 1];
        let b2: u8 = input[i + 2];
        out.push(alphabet(b0 / 4));
        out.push(alphabet((b0 % 4) * 16 + b1 / 16));
        out.push(alphabet((b1 % 16) * 4 + b2 / 64));
        out.push(alphabet(b2 % 64));
        proof {
            groups = groups + 1;
        }
        i = i + 3;
    }
    if n - i == 1 {
        let b0: u8 = input[i];
        out.push(alphabet(b0 / 4));
        out.push(alphabet((b0 % 4) * 16));
    } else if n - i == 2 {
        let b0: u8 = input[i];
        let b1: u8 = input[i + 1];
        out.push(alphabet(b0 / 4));
        out.push(alphabet((b0 % 4) * 16 + b1 / 16));
        out.push(alphabet((b1 % 16) * 4));
    }
    out
}

} // verus!
