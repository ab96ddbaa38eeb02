//! The `application/x-www-form-urlencoded` byte serializer, by which the
//! values of a URL's query are written.
//!
//! Letters, digits, `*`, `-`, `.` and `_` stand for themselves, a space
//! becomes `+`, and every other byte becomes `%` followed by its two
//! upper-case hexadecimal digits.

use vstd::prelude::*;
use vstd::utf8::encode_utf8;

verus! {

/// Whether the serializer writes the byte `b` unchanged.
pub open spec fn is_unchanged(b: u8) -> bool {
    (0x30 <= b && b <= 0x39) || (0x41 <= b && b <= 0x5a) || (0x61 <= b && b <= 0x7a) || b == 0x2a
        || b == 0x2d || b == 0x2e || b == 0x5f
}

/// The upper-case hexadecimal digit for `v`, where `v < 16`.
pub open spec fn hex_digit(v: int) -> char {
    if v < 10 {
        (0x30 + v) as u8 as char
    } else {
        (0x41 + (v - 10)) as u8 as char
    }
}

/// What the serializer writes for one byte.
pub open spec fn encode_byte(b: u8) -> Seq<char> {
    if is_unchanged(b) {
        seq![b as char]
    } else if b == 0x20 {
        seq!['+']
    } else {
        seq!['%', hex_digit(b as int / 16), hex_digit(b as int % 16)]
    }
}

/// What the serializer writes for a sequence of bytes: the encodings of the
/// bytes, one after another.
pub open spec fn encode_bytes(bytes: Seq<u8>) -> Seq<char>
    decreases bytes.len(),
{
    if bytes.len() == 0 {
        Seq::empty()
    } else {
        encode_bytes(bytes.drop_last()) + encode_byte(bytes.last())
    }
}

/// The encoding of a text: that of its UTF-8 bytes.
pub open spec fn form_encode(text: Seq<char>) -> Seq<char> {
    encode_bytes(encode_utf8(text))
}

/// The characters that can occur in an encoded value.
pub open spec fn is_encoded_char(c: char) -> bool {
    ('0' <= c && c <= '9') || ('A' <= c && c <= 'Z') || ('a' <= c && c <= 'z') || c == '*' || c
        == '-' || c == '.' || c == '_' || c == '+' || c == '%'
}

/// Every character of an encoding is a letter, a digit or one of `*`, `-`,
/// `.`, `_`, `+` and `%`. So an encoded value holds none of the characters
/// that separate the parts of a URL: no `&`, `=`, `?`, `#` and no space.
pub proof fn lemma_encoded_chars(bytes: Seq<u8>)
    ensures
        forall|i: int|
            0 <= i < encode_bytes(bytes).len() ==> is_encoded_char(#[trigger] encode_bytes(bytes)[i]),
    decreases bytes.len(),
{
    if bytes.len() > 0 {
        lemma_encoded_chars(bytes.drop_last());
        let head = encode_bytes(bytes.drop_last());
        assert forall|i: int| 0 <= i < encode_bytes(bytes).len() implies is_encoded_char(
            #[trigger] encode_bytes(bytes)[i],
        ) by {
            if i >= head.len() {
                assert(encode_bytes(bytes)[i] == encode_byte(bytes.last())[i - head.len()]);
            }
        }
    }
}

fn hex(v: u8) -> (c: char)
    requires
        v < 16,
    ensures
        c == hex_digit(v as int),
{
    if v < 10 {
        (0x30 + v) as char
    } else {
        (0x41 + (v - 10)) as char
    }
}

fn unchanged(b: u8) -> (r: bool)
    ensures
        r == is_unchanged(b),
{
    (0x30 <= b && b <= 0x39) || (0x41 <= b && b <= 0x5a) || (0x61 <= b && b <= 0x7a) || b == 0x2a
        || b == 0x2d || b == 0x2e || b == 0x5f
}

/// Appends the encoding of `bytes` to `out`.
pub fn append_encoded(out: &mut String, bytes: &[u8])
    ensures
        final(out)@ == old(out)@ + encode_bytes(bytes@),
{
    let ghost start = out@;
    let mut i: usize = 0;
    while i < bytes.len()
        invariant
            i <= bytes@.len(),
            out@ == start + encode_bytes(bytes@.take(i as int)),
        decreases bytes@.len() - i,
    {
        let b: u8 = bytes[i];
        if unchanged(b) {
            out.push(b as char);
        } else if b == 0x20 {
            out.push('+');
        } else {
            out.push('%');
            out.push(hex(b / 16));
            out.push(hex(b % 16));
        }
        assert(bytes@.take(i + 1).drop_last() =~= bytes@.take(i as int));
        i = i + 1;
    }
    assert(bytes@.take(i as int) =~= bytes@);
}

/// Encodes a text for use as a name or a value in a URL's query.
pub fn form_urlencode(text: &str) -> (out: String)
    ensures
        out@ == form_encode(text@),
{
    let mut out = String::new();
    append_encoded(&mut out, text.as_bytes());
    out
}

} // verus!
