use tuify::config::SpotifyConfig;
use tuify::error::AuthError;
use tuify::token::{
    complete_exchange, expiry, is_authorized, refresh, refresh_request, token_from_response, Token,
    TokenReply, TokenResponse,
};

const NOW: u64 = 1_700_000_000;

fn config() -> SpotifyConfig {
    SpotifyConfig::new("abc123".to_string())
}

fn token(expires_at: u64) -> Token {
    Token {
        access_token: "A1".to_string(),
        refresh_token: Some("R1".to_string()),
        expires_at,
        scope: "s".to_string(),
    }
}

fn grant(refresh_token: Option<&str>, expires_in: Option<u64>) -> TokenResponse {
    TokenResponse {
        access_token: "A2".to_string(),
        refresh_token: refresh_token.map(|r| r.to_string()),
        expires_in,
    }
}

#[test]
fn token_expires_at_the_second_it_names() {
    assert!(!token(NOW + 1).is_expired(NOW));
    assert!(token(NOW).is_expired(NOW));
    assert!(token(NOW - 1).is_expired(NOW));
    assert!(token(0).is_expired(0));
    assert!(!token(u64::MAX).is_expired(u64::MAX - 1));
    assert!(token(u64::MAX).is_expired(u64::MAX));
}

#[test]
fn token_issued_for_an_hour_is_not_expired_at_once() {
    let issued = token_from_response(grant(None, None), "s".to_string(), NOW);
    assert_eq!(issued.expires_at, NOW + 3600);
    assert!(!issued.is_expired(NOW));
    assert!(!issued.is_expired(NOW + 3599));
    assert!(issued.is_expired(NOW + 3600));
}

#[test]
fn authorized_means_stored_and_not_expired() {
    assert!(is_authorized(&Some(token(NOW + 1)), NOW));
    assert!(!is_authorized(&Some(token(NOW)), NOW));
    assert!(!is_authorized(&None, NOW));
}

#[test]
fn expiry_adds_the_lifetime_or_the_default() {
    assert_eq!(expiry(Some(60), NOW), Some(NOW + 60));
    assert_eq!(expiry(None, NOW), Some(NOW + 3600));
    assert_eq!(expiry(Some(0), NOW), Some(NOW));
    assert_eq!(expiry(Some(u64::MAX), 0), Some(u64::MAX));
    assert_eq!(expiry(Some(u64::MAX), 1), None);
    assert_eq!(expiry(None, u64::MAX - 3599), None);
    assert_eq!(expiry(None, u64::MAX - 3600), Some(u64::MAX));
}

#[test]
fn token_from_response_takes_every_field() {
    let issued = token_from_response(grant(Some("R2"), Some(120)), "a b".to_string(), NOW);
    assert_eq!(
        issued,
        Token {
            access_token: "A2".to_string(),
            refresh_token: Some("R2".to_string()),
            expires_at: NOW + 120,
            scope: "a b".to_string(),
        }
    );
    let issued = token_from_response(grant(None, Some(120)), "a b".to_string(), NOW);
    assert_eq!(issued.refresh_token, None);
}

#[test]
fn exchange_granted_yields_a_record_for_the_configured_scopes() {
    let reply = TokenReply::Granted(grant(Some("R2"), None));
    assert_eq!(
        complete_exchange(&config(), reply, NOW),
        Ok(Token {
            access_token: "A2".to_string(),
            refresh_token: Some("R2".to_string()),
            expires_at: NOW + 3600,
            scope: "user-library-read playlist-read-private".to_string(),
        })
    );
}

#[test]
fn exchange_rejected_is_a_token_endpoint_error() {
    let reply = TokenReply::Rejected("invalid_grant".to_string());
    assert_eq!(
        complete_exchange(&config(), reply, NOW),
        Err(AuthError::TokenEndpointError("invalid_grant".to_string()))
    );
}

#[test]
fn exchange_unreachable_is_a_network_error() {
    let reply = TokenReply::Unreachable("connection refused".to_string());
    assert_eq!(
        complete_exchange(&config(), reply, NOW),
        Err(AuthError::NetworkError("connection refused".to_string()))
    );
}

#[test]
fn exchange_with_a_lifetime_out_of_range_is_a_token_endpoint_error() {
    let reply = TokenReply::Granted(grant(None, Some(u64::MAX)));
    assert_eq!(
        complete_exchange(&config(), reply, NOW),
        Err(AuthError::TokenEndpointError("token lifetime out of range".to_string()))
    );
}

#[test]
fn refresh_request_carries_the_token_and_the_client() {
    let request = refresh_request(&config(), "R1");
    assert_eq!(request.refresh_token, "R1");
    assert_eq!(request.client_id, "abc123");
}

#[test]
fn refresh_keeps_the_prior_refresh_token_when_none_comes() {
    let reply = TokenReply::Granted(grant(None, Some(3600)));
    let refreshed = refresh(&config(), "R1", reply, NOW).unwrap();
    assert_eq!(refreshed.refresh_token, Some("R1".to_string()));
    assert_eq!(refreshed.access_token, "A2");
    assert_eq!(refreshed.expires_at, NOW + 3600);
    assert_eq!(refreshed.scope, "user-library-read playlist-read-private");
}

#[test]
fn refresh_takes_the_new_refresh_token_when_one_comes() {
    let reply = TokenReply::Granted(grant(Some("R2"), None));
    let refreshed = refresh(&config(), "R1", reply, NOW).unwrap();
    assert_eq!(refreshed.refresh_token, Some("R2".to_string()));
    assert_eq!(refreshed.expires_at, NOW + 3600);
}

#[test]
fn refresh_failures_are_surfaced() {
    assert_eq!(
        refresh(&config(), "R1", TokenReply::Rejected("invalid_grant".to_string()), NOW),
        Err(AuthError::TokenEndpointError("invalid_grant".to_string()))
    );
    assert_eq!(
        refresh(&config(), "R1", TokenReply::Unreachable("timed out".to_string()), NOW),
        Err(AuthError::NetworkError("timed out".to_string()))
    );
    assert_eq!(
        refresh(&config(), "R1", TokenReply::Granted(grant(None, None)), u64::MAX),
        Err(AuthError::TokenEndpointError("token lifetime out of range".to_string()))
    );
}
