//! The token record, its expiry, and how a reply of the token endpoint
//! becomes a record.
//!
//! A record is never edited in place: an exchange or a refresh makes a new
//! one. The clock is an input: every function that needs the time takes
//! `now`, in seconds since the Unix epoch.

use crate::config::{joined, SpotifyConfig};
use crate::error::{AuthError, AuthErrorView};
use crate::text::opt_text;
use vstd::prelude::*;

verus! {

/// The lifetime assumed for a token when the endpoint's reply names none:
/// one hour, the lifetime that the provider documents for its tokens.
pub const DEFAULT_EXPIRES_IN: u64 = 3600;

/// The text of the failure for a reply whose lifetime, added to the current
/// time, is beyond what a timestamp can hold.
pub const LIFETIME_OUT_OF_RANGE: &'static str = "token lifetime out of range";

/// The credential that an exchange or a refresh yields.
#[derive(Debug, Clone, PartialEq, Eq)]
pub struct Token {
    pub access_token: String,
    pub refresh_token: Option<String>,
    /// When the access token expires, in seconds since the Unix epoch.
    pub expires_at: u64,
    pub scope: String,
}

/// A token record as plain values.
pub struct TokenView {
    pub access_token: Seq<char>,
    pub refresh_token: Option<Seq<char>>,
    pub expires_at: int,
    pub scope: Seq<char>,
}

impl View for Token {
    type V = TokenView;

    open spec fn view(&self) -> TokenView {
        TokenView {
            access_token: self.access_token@,
            refresh_token: opt_text(self.refresh_token),
            expires_at: self.expires_at as int,
            scope: self.scope@,
        }
    }
}

/// What the token endpoint grants: the fields of its reply that a record is
/// made from.
#[derive(Debug, Clone, PartialEq, Eq)]
pub struct TokenResponse {
    pub access_token: String,
    pub refresh_token: Option<String>,
    /// The token's lifetime in seconds, if the reply names one.
    pub expires_in: Option<u64>,
}

/// A grant as plain values.
pub struct TokenResponseView {
    pub access_token: Seq<char>,
    pub refresh_token: Option<Seq<char>>,
    pub expires_in: Option<u64>,
}

impl View for TokenResponse {
    type V = TokenResponseView;

    open spec fn view(&self) -> TokenResponseView {
        TokenResponseView {
            access_token: self.access_token@,
            refresh_token: opt_text(self.refresh_token),
            expires_in: self.expires_in,
        }
    }
}

/// How one request to the token endpoint ended.
#[derive(Debug, Clone, PartialEq, Eq)]
pub enum TokenReply {
    /// A success response with a readable body.
    Granted(TokenResponse),
    /// A response outside the 2xx range, or a body that could not be read.
    Rejected(String),
    /// No response: the transport failed.
    Unreachable(String),
}

/// A reply as plain values.
pub enum TokenReplyView {
    Granted(TokenResponseView),
    Rejected(Seq<char>),
    Unreachable(Seq<char>),
}

impl View for TokenReply {
    type V = TokenReplyView;

    open spec fn view(&self) -> TokenReplyView {
        match self {
            TokenReply::Granted(response) => TokenReplyView::Granted(response@),
            TokenReply::Rejected(m) => TokenReplyView::Rejected(m@),
            TokenReply::Unreachable(m) => TokenReplyView::Unreachable(m@),
        }
    }
}

/// A refresh that is ready to be sent to the token endpoint, with the grant
/// type `refresh_token`.
pub struct RefreshRequest {
    pub refresh_token: String,
    pub client_id: String,
}

/// A refresh as plain values.
pub struct RefreshRequestView {
    pub refresh_token: Seq<char>,
    pub client_id: Seq<char>,
}

impl View for RefreshRequest {
    type V = RefreshRequestView;

    open spec fn view(&self) -> RefreshRequestView {
        RefreshRequestView { refresh_token: self.refresh_token@, client_id: self.client_id@ }
    }
}

/// The view of the outcome of a token request.
pub open spec fn outcome_view(r: Result<Token, AuthError>) -> Result<TokenView, AuthErrorView> {
    match r {
        Ok(token) => Ok(token@),
        Err(e) => Err(e@),
    }
}

/// A record is expired from the second it names onward: there is no grace
/// period.
pub open spec fn expired(token: TokenView, now: u64) -> bool {
    token.expires_at <= now
}

/// The lifetime of a grant in seconds: the one the reply names, or the
/// default.
pub open spec fn lifetime(expires_in: Option<u64>) -> int {
    match expires_in {
        Some(seconds) => seconds as int,
        None => DEFAULT_EXPIRES_IN as int,
    }
}

/// Whether a grant received at `now` expires at a time that a record can
/// hold.
pub open spec fn fits(expires_in: Option<u64>, now: u64) -> bool {
    now + lifetime(expires_in) <= u64::MAX
}

/// The record made from a grant received at `now` for the scope `scope`.
pub open spec fn issued(response: TokenResponseView, scope: Seq<char>, now: u64) -> TokenView {
    TokenView {
        access_token: response.access_token,
        refresh_token: response.refresh_token,
        expires_at: now + lifetime(response.expires_in),
        scope,
    }
}

/// The refresh token after a refresh: the new one if the reply brought one,
/// else the one the refresh was made with.
pub open spec fn carried_forward(fresh: Option<Seq<char>>, prior: Seq<char>) -> Option<Seq<char>> {
    match fresh {
        Some(token) => Some(token),
        None => Some(prior),
    }
}

/// The record made from a grant that answered a refresh made with `prior`.
pub open spec fn reissued(
    response: TokenResponseView,
    prior: Seq<char>,
    scope: Seq<char>,
    now: u64,
) -> TokenView {
    TokenView {
        access_token: response.access_token,
        refresh_token: carried_forward(response.refresh_token, prior),
        expires_at: now + lifetime(response.expires_in),
        scope,
    }
}

/// What a code exchange yields for each reply of the endpoint.
pub open spec fn exchange_outcome(scope: Seq<char>, reply: TokenReplyView, now: u64) -> Result<
    TokenView,
    AuthErrorView,
> {
    match reply {
        TokenReplyView::Granted(response) => if fits(response.expires_in, now) {
            Ok(issued(response, scope, now))
        } else {
            Err(AuthErrorView::TokenEndpointError(LIFETIME_OUT_OF_RANGE@))
        },
        TokenReplyView::Rejected(m) => Err(AuthErrorView::TokenEndpointError(m)),
        TokenReplyView::Unreachable(m) => Err(AuthErrorView::NetworkError(m)),
    }
}

/// What a refresh made with `prior` yields for each reply of the endpoint.
pub open spec fn refresh_outcome(
    scope: Seq<char>,
    prior: Seq<char>,
    reply: TokenReplyView,
    now: u64,
) -> Result<TokenView, AuthErrorView> {
    match reply {
        TokenReplyView::Granted(response) => if fits(response.expires_in, now) {
            Ok(reissued(response, prior, scope, now))
        } else {
            Err(AuthErrorView::TokenEndpointError(LIFETIME_OUT_OF_RANGE@))
        },
        TokenReplyView::Rejected(m) => Err(AuthErrorView::TokenEndpointError(m)),
        TokenReplyView::Unreachable(m) => Err(AuthErrorView::NetworkError(m)),
    }
}

impl Token {
    /// Whether the record is expired at `now`.
    pub fn is_expired(&self, now: u64) -> (r: bool)
        ensures
            r == expired(self@, now),
            r == (self.expires_at <= now),
    {
        now >= self.expires_at
    }
}

/// Whether a stored record, if there is one, can be used as it is at `now`.
pub fn is_authorized(stored: &Option<Token>, now: u64) -> (r: bool)
    ensures
        r == (stored matches Some(token) && !expired(token@, now)),
{
    match stored {
        Some(token) => !token.is_expired(now),
        None => false,
    }
}

/// The time at which a grant received at `now` expires, if a timestamp can
/// hold it.
pub fn expiry(expires_in: Option<u64>, now: u64) -> (r: Option<u64>)
    ensures
        match r {
            Some(at) => fits(expires_in, now) && at == now + lifetime(expires_in),
            None => !fits(expires_in, now),
        },
{
    let seconds: u64 = match expires_in {
        Some(seconds) => seconds,
        None => DEFAULT_EXPIRES_IN,
    };
    now.checked_add(seconds)
}

/// Makes the record for a grant that answered a code exchange.
pub fn token_from_response(response: TokenResponse, scope: String, now: u64) -> (token: Token)
    requires
        fits(response.expires_in, now),
    ensures
        token@ == issued(response@, scope@, now),
{
    let seconds: u64 = match response.expires_in {
        Some(seconds) => seconds,
        None => DEFAULT_EXPIRES_IN,
    };
    Token {
        access_token: response.access_token,
        refresh_token: response.refresh_token,
        expires_at: now + seconds,
        scope,
    }
}

/// Ends a code exchange: turns the endpoint's reply into a record for the
/// configured scopes, or into the failure to surface. A grant whose expiry
/// no timestamp can hold counts as a reply that could not be read.
pub fn complete_exchange(config: &SpotifyConfig, reply: TokenReply, now: u64) -> (r: Result<
    Token,
    AuthError,
>)
    ensures
        outcome_view(r) == exchange_outcome(joined(config@.scopes), reply@, now),
{
    match reply {
        TokenReply::Granted(response) => {
            match expiry(response.expires_in, now) {
                Some(_) => Ok(token_from_response(response, config.scope(), now)),
                None => Err(AuthError::TokenEndpointError(LIFETIME_OUT_OF_RANGE.to_owned())),
            }
        },
        TokenReply::Rejected(m) => Err(AuthError::TokenEndpointError(m)),
        TokenReply::Unreachable(m) => Err(AuthError::NetworkError(m)),
    }
}

/// The refresh to send for a stored refresh token.
pub fn refresh_request(config: &SpotifyConfig, refresh_token: &str) -> (request: RefreshRequest)
    ensures
        request@ == (RefreshRequestView {
            refresh_token: refresh_token@,
            client_id: config@.client_id,
        }),
{
    RefreshRequest { refresh_token: refresh_token.to_owned(), client_id: config.client_id.clone() }
}

/// Ends a refresh made with `refresh_token`: turns the endpoint's reply
/// into a new record, or into the failure to surface. Where the reply
/// brings no refresh token, the record keeps the one the refresh was made
/// with.
pub fn refresh(config: &SpotifyConfig, refresh_token: &str, reply: TokenReply, now: u64) -> (r:
    Result<Token, AuthError>)
    ensures
        outcome_view(r) == refresh_outcome(joined(config@.scopes), refresh_token@, reply@, now),
{
    match reply {
        TokenReply::Granted(response) => {
            match expiry(response.expires_in, now) {
                Some(expires_at) => {
                    let kept = match response.refresh_token {
                        Some(fresh) => Some(fresh),
                        None => Some(refresh_token.to_owned()),
                    };
                    Ok(
                        Token {
                            access_token: response.access_token,
                            refresh_token: kept,
                            expires_at,
                            scope: config.scope(),
                        },
                    )
                },
                None => Err(AuthError::TokenEndpointError(LIFETIME_OUT_OF_RANGE.to_owned())),
            }
        },
        TokenReply::Rejected(m) => Err(AuthError::TokenEndpointError(m)),
        TokenReply::Unreachable(m) => Err(AuthError::NetworkError(m)),
    }
}

/// A record made from a grant with a positive lifetime is not expired at
/// the moment of the exchange. In particular a grant that names no lifetime
/// yields a record that expires 3600 seconds later.
pub proof fn lemma_fresh_token_not_expired(response: TokenResponseView, scope: Seq<char>, now: u64)
    requires
        lifetime(response.expires_in) > 0,
    ensures
        !expired(issued(response, scope, now), now),
        response.expires_in is None ==> issued(response, scope, now).expires_at == now + 3600,
{
}

/// A refresh whose reply brings no refresh token yields a record that
/// carries the prior refresh token.
pub proof fn lemma_refresh_keeps_prior_token(
    scope: Seq<char>,
    prior: Seq<char>,
    response: TokenResponseView,
    now: u64,
)
    requires
        response.refresh_token is None,
        fits(response.expires_in, now),
    ensures
        refresh_outcome(scope, prior, TokenReplyView::Granted(response), now) matches Ok(token)
            && token.refresh_token == Some(prior),
{
}

} // verus!
