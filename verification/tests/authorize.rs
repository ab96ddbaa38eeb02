use tuify::authorize::{build_authorization_url, AuthFlow};
use tuify::config::{join_scopes, listen_address, SpotifyConfig};
use tuify::error::AuthError;
use tuify::pkce::generate_challenge;

const VERIFIER: &str = "dBjftJeZ4CVP-mB92K27uhbUJU1p1r_wW1gFWFOEjXk";
const CHALLENGE: &str = "E9Melhoa2OwvFrEMTJguCHaoeK1t8URWbuGJSstw-cM";

fn scopes(list: &[&str]) -> Vec<String> {
    list.iter().map(|s| s.to_string()).collect()
}

#[test]
fn config_has_the_loopback_redirect_and_two_scopes() {
    let config = SpotifyConfig::new("abc123".to_string());
    assert_eq!(config.client_id, "abc123");
    assert_eq!(config.redirect_uri, "http://127.0.0.1:8080");
    assert_eq!(
        config.scopes,
        vec!["user-library-read".to_string(), "playlist-read-private".to_string()]
    );
    assert_eq!(config.scope(), "user-library-read playlist-read-private");
    assert_eq!(config.max_wait, 300);
}

#[test]
fn scopes_are_joined_with_single_spaces() {
    assert_eq!(join_scopes(&scopes(&[])), "");
    assert_eq!(join_scopes(&scopes(&["a"])), "a");
    assert_eq!(join_scopes(&scopes(&["a", "b"])), "a b");
    assert_eq!(join_scopes(&scopes(&["a", "", "c"])), "a  c");
}

#[test]
fn url_carries_every_parameter_in_order() {
    let url = build_authorization_url(
        "abc123",
        "http://127.0.0.1:8080",
        &scopes(&["user-library-read", "playlist-read-private"]),
        CHALLENGE,
        "xyz",
    );
    assert_eq!(
        url,
        String::new()
            + "https://accounts.spotify.com/authorize?response_type=code&client_id=abc123"
            + "&state=xyz&code_challenge=E9Melhoa2OwvFrEMTJguCHaoeK1t8URWbuGJSstw-cM"
            + "&code_challenge_method=S256&redirect_uri=http%3A%2F%2F127.0.0.1%3A8080"
            + "&scope=user-library-read+playlist-read-private"
    );
}

#[test]
fn url_without_scopes_has_no_scope_parameter() {
    let url = build_authorization_url("id", "http://localhost", &scopes(&[]), "c", "s");
    assert_eq!(
        url,
        String::new()
            + "https://accounts.spotify.com/authorize?response_type=code&client_id=id&state=s"
            + "&code_challenge=c&code_challenge_method=S256&redirect_uri=http%3A%2F%2Flocalhost"
    );
}

#[test]
fn url_encodes_every_value() {
    let url = build_authorization_url("a b&c", "x=y", &scopes(&["s/1"]), "c+d", "e?f");
    assert_eq!(
        url,
        String::new()
            + "https://accounts.spotify.com/authorize?response_type=code&client_id=a+b%26c"
            + "&state=e%3Ff&code_challenge=c%2Bd&code_challenge_method=S256&redirect_uri=x%3Dy"
            + "&scope=s%2F1"
    );
}

#[test]
fn url_is_the_same_for_the_same_inputs() {
    let list = scopes(&["one", "two"]);
    let first = build_authorization_url("id", "http://127.0.0.1:8080", &list, CHALLENGE, "st");
    let second = build_authorization_url("id", "http://127.0.0.1:8080", &list, CHALLENGE, "st");
    assert_eq!(first, second);
}

#[test]
fn attempt_with_given_secrets_builds_its_url_from_them() {
    let config = SpotifyConfig::new("abc123".to_string());
    let flow = AuthFlow::with_secrets(&config, VERIFIER.to_string(), "xyz".to_string());
    assert_eq!(flow.state(), "xyz");
    assert_eq!(
        flow.url(),
        build_authorization_url(
            "abc123",
            "http://127.0.0.1:8080",
            &config.scopes,
            CHALLENGE,
            "xyz"
        )
    );
}

#[test]
fn fresh_attempt_names_the_challenge_method() {
    let config = SpotifyConfig::new("abc123".to_string());
    let flow = AuthFlow::new(&config).unwrap();
    assert!(flow.url().contains("code_challenge_method=S256"));
    assert!(flow.url().contains(&format!("&state={}&", flow.state())));
    assert!(flow
        .url()
        .starts_with("https://accounts.spotify.com/authorize?response_type=code&client_id=abc123"));
    assert_eq!(flow.state().len(), 22);
}

#[test]
fn fresh_attempts_have_fresh_states() {
    let config = SpotifyConfig::new("abc123".to_string());
    let first = AuthFlow::new(&config).unwrap();
    let second = AuthFlow::new(&config).unwrap();
    assert_ne!(first.state(), second.state());
    assert_ne!(first.url(), second.url());
}

#[test]
fn exchange_with_the_own_state_hands_out_the_request() {
    let config = SpotifyConfig::new("abc123".to_string());
    let flow = AuthFlow::with_secrets(&config, VERIFIER.to_string(), "xyz".to_string());
    let request = flow.exchange("the-code", "xyz").unwrap();
    assert_eq!(request.code, "the-code");
    assert_eq!(request.code_verifier, VERIFIER);
    assert_eq!(request.redirect_uri, "http://127.0.0.1:8080");
    assert_eq!(request.client_id, "abc123");
    assert_eq!(generate_challenge(&request.code_verifier), CHALLENGE);
}

#[test]
fn exchange_with_another_state_is_a_csrf_mismatch() {
    let config = SpotifyConfig::new("abc123".to_string());
    let flow = AuthFlow::with_secrets(&config, VERIFIER.to_string(), "xyz".to_string());
    assert_eq!(flow.exchange("the-code", "xyZ").err(), Some(AuthError::CsrfMismatch));
    let flow = AuthFlow::with_secrets(&config, VERIFIER.to_string(), "xyz".to_string());
    assert_eq!(flow.exchange("the-code", "").err(), Some(AuthError::CsrfMismatch));
    let flow = AuthFlow::with_secrets(&config, VERIFIER.to_string(), "xyz".to_string());
    assert_eq!(flow.exchange("the-code", "xyz ").err(), Some(AuthError::CsrfMismatch));
}

#[test]
fn listen_address_is_host_and_port_of_the_redirect_uri() {
    assert_eq!(listen_address("http://127.0.0.1:8080"), Some("127.0.0.1:8080".to_string()));
    assert_eq!(listen_address("http://127.0.0.1:8080/"), Some("127.0.0.1:8080".to_string()));
    assert_eq!(listen_address("http://localhost:9000/cb?x=1"), Some("localhost:9000".to_string()));
    assert_eq!(listen_address("http://localhost:9000?x=1#f"), Some("localhost:9000".to_string()));
    assert_eq!(listen_address("http://localhost:9000#f/"), Some("localhost:9000".to_string()));
    assert_eq!(listen_address("http://"), None);
    assert_eq!(listen_address("http:///path"), None);
    assert_eq!(listen_address("https://127.0.0.1:8080"), None);
    assert_eq!(listen_address("127.0.0.1:8080"), None);
    assert_eq!(listen_address(""), None);
    assert_eq!(
        SpotifyConfig::new("id".to_string()).listen_address(),
        Some("127.0.0.1:8080".to_string())
    );
}
