use tuify::callback::{classify, AuthCallback, CallbackResult};
use tuify::query::{get_param, parse_params};
use tuify::text::split;

fn pairs(list: &[(&str, &str)]) -> Vec<(String, String)> {
    list.iter().map(|(k, v)| (k.to_string(), v.to_string())).collect()
}

fn pieces(text: &str, sep: char) -> Vec<String> {
    let chars: Vec<char> = text.chars().collect();
    split(&chars, sep).into_iter().map(|p| p.into_iter().collect()).collect()
}

#[test]
fn split_gives_one_piece_more_than_separators() {
    assert_eq!(pieces("", '&'), vec![""]);
    assert_eq!(pieces("a", '&'), vec!["a"]);
    assert_eq!(pieces("a&b", '&'), vec!["a", "b"]);
    assert_eq!(pieces("&", '&'), vec!["", ""]);
    assert_eq!(pieces("a&&b&", '&'), vec!["a", "", "b", ""]);
}

#[test]
fn split_agrees_with_the_standard_library() {
    for text in ["", "x", "a=b", "=a", "a=", "a==b", "==", "/?code=1&state=2", "é=ü&ß"] {
        for sep in ['=', '&', '?'] {
            let expected: Vec<String> = text.split(sep).map(|p| p.to_string()).collect();
            assert_eq!(pieces(text, sep), expected);
        }
    }
}

#[test]
fn params_of_a_redirect() {
    assert_eq!(
        parse_params("/?code=abc&state=xyz"),
        pairs(&[("code", "abc"), ("state", "xyz")])
    );
}

#[test]
fn params_without_a_query_are_one_empty_pair() {
    assert_eq!(parse_params("/favicon.ico"), pairs(&[("", "")]));
    assert_eq!(parse_params(""), pairs(&[("", "")]));
    assert_eq!(parse_params("/?"), pairs(&[("", "")]));
}

#[test]
fn params_keep_empty_parts_and_missing_values() {
    assert_eq!(
        parse_params("/cb?a=1&&b&c=&=d"),
        pairs(&[("a", "1"), ("", ""), ("b", ""), ("c", ""), ("", "d")])
    );
}

#[test]
fn params_value_ends_at_a_second_equals_sign() {
    assert_eq!(parse_params("/?a=b=c"), pairs(&[("a", "b")]));
}

#[test]
fn params_query_ends_at_a_second_question_mark() {
    assert_eq!(parse_params("/?a=1?b=2"), pairs(&[("a", "1")]));
}

#[test]
fn params_are_not_decoded() {
    assert_eq!(
        parse_params("/?error=access%20denied&x=a+b"),
        pairs(&[("error", "access%20denied"), ("x", "a+b")])
    );
}

#[test]
fn first_occurrence_of_a_key_wins() {
    let params = parse_params("/?code=first&state=s&code=second");
    assert_eq!(get_param(&params, "code"), Some("first".to_string()));
    assert_eq!(get_param(&params, "state"), Some("s".to_string()));
    assert_eq!(get_param(&params, "error"), None);
    assert_eq!(get_param(&params, "cod"), None);
}

#[test]
fn new_callback_has_received_nothing() {
    let callback = AuthCallback::new();
    assert_eq!(callback.code, None);
    assert_eq!(callback.state, None);
    assert_eq!(callback.error, None);
    assert!(!callback.received);
    assert_eq!(callback.result(), None);
}

#[test]
fn capture_of_a_success() {
    let callback = AuthCallback::capture("/?code=abc&state=xyz");
    assert_eq!(callback.code, Some("abc".to_string()));
    assert_eq!(callback.state, Some("xyz".to_string()));
    assert_eq!(callback.error, None);
    assert!(callback.received);
}

#[test]
fn capture_of_an_error_hides_code_and_state() {
    let callback = AuthCallback::capture("/?code=abc&error=access_denied&state=xyz");
    assert_eq!(callback.code, None);
    assert_eq!(callback.state, None);
    assert_eq!(callback.error, Some("access_denied".to_string()));
    assert!(callback.received);
}

#[test]
fn capture_of_a_code_without_state_settles_nothing() {
    let callback = AuthCallback::capture("/?code=abc");
    assert_eq!(callback.code, Some("abc".to_string()));
    assert_eq!(callback.state, None);
    assert!(!callback.received);
    assert_eq!(callback.result(), None);
}

#[test]
fn classify_code_and_state_as_success() {
    assert_eq!(
        classify("/?code=abc&state=xyz"),
        Some(CallbackResult::Success { code: "abc".to_string(), state: "xyz".to_string() })
    );
    assert_eq!(
        classify("/callback?state=xyz&code=abc"),
        Some(CallbackResult::Success { code: "abc".to_string(), state: "xyz".to_string() })
    );
}

#[test]
fn classify_error_as_error() {
    assert_eq!(
        classify("/?error=access_denied"),
        Some(CallbackResult::Error { reason: "access_denied".to_string() })
    );
    assert_eq!(
        classify("/?code=abc&state=xyz&error=server_error"),
        Some(CallbackResult::Error { reason: "server_error".to_string() })
    );
    assert_eq!(classify("/?error"), Some(CallbackResult::Error { reason: "".to_string() }));
}

#[test]
fn classify_anything_else_as_unrelated() {
    assert_eq!(classify("/favicon.ico"), None);
    assert_eq!(classify("/"), None);
    assert_eq!(classify("/?code=abc"), None);
    assert_eq!(classify("/?state=xyz"), None);
    assert_eq!(classify("/?foo=bar"), None);
    assert_eq!(classify("/?Code=abc&State=xyz"), None);
}
