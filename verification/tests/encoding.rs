use tuify::base64::base64_encode;
use tuify::urlencode::form_urlencode;

#[test]
fn base64_of_nothing_is_empty() {
    assert_eq!(base64_encode(b""), "");
}

#[test]
fn base64_of_one_byte_has_two_characters() {
    assert_eq!(base64_encode(b"f"), "Zg");
}

#[test]
fn base64_of_two_bytes_has_three_characters() {
    assert_eq!(base64_encode(b"fo"), "Zm8");
}

#[test]
fn base64_of_whole_groups() {
    assert_eq!(base64_encode(b"foo"), "Zm9v");
    assert_eq!(base64_encode(b"foobar"), "Zm9vYmFy");
    assert_eq!(base64_encode(b"Man"), "TWFu");
}

#[test]
fn base64_of_groups_with_a_rest() {
    assert_eq!(base64_encode(b"foob"), "Zm9vYg");
    assert_eq!(base64_encode(b"fooba"), "Zm9vYmE");
}

#[test]
fn base64_uses_the_url_safe_symbols() {
    assert_eq!(base64_encode(&[0xfb, 0xff]), "-_8");
    assert_eq!(base64_encode(&[0xff, 0xff, 0xff]), "____");
    assert_eq!(base64_encode(&[0xfb, 0xef, 0xbe]), "----");
    assert_eq!(base64_encode(&[0x00, 0x00, 0x00]), "AAAA");
}

#[test]
fn base64_never_pads() {
    for n in 0..50usize {
        let data = vec![0xa5u8; n];
        let out = base64_encode(&data);
        assert_eq!(out.len(), (4 * n + 2) / 3);
        assert!(out
            .chars()
            .all(|c| c.is_ascii_alphanumeric() || c == '-' || c == '_'));
    }
}

#[test]
fn base64_of_every_byte_value() {
    let data: Vec<u8> = (0..=255u8).collect();
    let expected = String::new()
        + "AAECAwQFBgcICQoLDA0ODxAREhMUFRYXGBkaGxwdHh8gISIjJCUmJygpKissLS4vMDEyMzQ1Njc4OTo7PD0-P0BBQkNERUZH"
        + "SElKS0xNTk9QUVJTVFVWV1hZWltcXV5fYGFiY2RlZmdoaWprbG1ub3BxcnN0dXZ3eHl6e3x9fn-AgYKDhIWGh4iJiouMjY6P"
        + "kJGSk5SVlpeYmZqbnJ2en6ChoqOkpaanqKmqq6ytrq-wsbKztLW2t7i5uru8vb6_wMHCw8TFxsfIycrLzM3Oz9DR0tPU1dbX"
        + "2Nna29zd3t_g4eLj5OXm5-jp6uvs7e7v8PHy8_T19vf4-fr7_P3-_w";
    assert_eq!(base64_encode(&data), expected);
}

#[test]
fn form_encoding_keeps_letters_digits_and_four_marks() {
    assert_eq!(form_urlencode("AZaz09*-._"), "AZaz09*-._");
}

#[test]
fn form_encoding_writes_a_space_as_plus() {
    assert_eq!(form_urlencode("a b  c"), "a+b++c");
}

#[test]
fn form_encoding_escapes_the_rest_in_upper_case_hex() {
    assert_eq!(form_urlencode("http://127.0.0.1:8080"), "http%3A%2F%2F127.0.0.1%3A8080");
    assert_eq!(form_urlencode("a&b=c?d#e+f~g%"), "a%26b%3Dc%3Fd%23e%2Bf%7Eg%25");
    assert_eq!(form_urlencode("\u{0}\u{7f}"), "%00%7F");
}

#[test]
fn form_encoding_escapes_each_byte_of_a_wide_character() {
    assert_eq!(form_urlencode("é"), "%C3%A9");
    assert_eq!(form_urlencode("€"), "%E2%82%AC");
}

#[test]
fn form_encoding_of_nothing_is_empty() {
    assert_eq!(form_urlencode(""), "");
}
