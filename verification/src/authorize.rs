//! One authorization attempt: its secrets, the URL that the user's browser
//! is sent to, and what is made of the redirect that comes back.

use crate::config::{join_scopes, joined, SpotifyConfig, SpotifyConfigView, AUTHORIZE_ENDPOINT};
use crate::error::AuthError;
use crate::pkce::{challenge_of, generate_challenge, generate_state, is_verifier};
use crate::query::{
    all_plain, append_parameter, is_plain, lemma_round_trip, parameter, params_of, serialized,
};
use crate::text::{free_of, same_text, texts};
use crate::urlencode::{form_encode, form_urlencode, lemma_encoded_chars};
use vstd::prelude::*;
use vstd::string::StringExecFns;

verus! {

/// The parameter that names the challenge method.
pub const METHOD_PARAMETER: &'static str = "code_challenge_method=S256";

/// The parameters of an authorization request, in the order in which they
/// stand in the URL: the response type `code`, the client id, the state,
/// the challenge, the challenge method `S256`, the redirect URI and, unless
/// it is empty, the scope. Every value that the caller gives is
/// form-encoded.
pub open spec fn authorization_pairs(
    client_id: Seq<char>,
    redirect_uri: Seq<char>,
    scope: Seq<char>,
    challenge: Seq<char>,
    state: Seq<char>,
) -> Seq<(Seq<char>, Seq<char>)> {
    let fixed = seq![
        ("response_type"@, "code"@),
        ("client_id"@, form_encode(client_id)),
        ("state"@, form_encode(state)),
        ("code_challenge"@, form_encode(challenge)),
        ("code_challenge_method"@, "S256"@),
        ("redirect_uri"@, form_encode(redirect_uri)),
    ];
    if scope.len() == 0 {
        fixed
    } else {
        fixed.push(("scope"@, form_encode(scope)))
    }
}

/// The authorization URL: the provider's endpoint, `?`, and the query that
/// carries the parameters of the request.
pub open spec fn authorization_url(
    client_id: Seq<char>,
    redirect_uri: Seq<char>,
    scope: Seq<char>,
    challenge: Seq<char>,
    state: Seq<char>,
) -> Seq<char> {
    AUTHORIZE_ENDPOINT@.push('?') + serialized(
        authorization_pairs(client_id, redirect_uri, scope, challenge, state),
    )
}

/// Whether `needle` occurs in `text` as a run of neighbouring characters.
pub open spec fn contains_text(text: Seq<char>, needle: Seq<char>) -> bool {
    exists|i: int|
        0 <= i && i + needle.len() <= text.len() && #[trigger] text.subrange(
            i,
            i + needle.len(),
        ) == needle
}

/// Every authorization URL names the challenge method `S256`.
pub proof fn lemma_url_names_method(
    client_id: Seq<char>,
    redirect_uri: Seq<char>,
    scope: Seq<char>,
    challenge: Seq<char>,
    state: Seq<char>,
)
    ensures
        contains_text(
            authorization_url(client_id, redirect_uri, scope, challenge, state),
            METHOD_PARAMETER@,
        ),
{
    reveal_strlit("code_challenge_method=S256");
    reveal_strlit("code_challenge_method");
    reveal_strlit("S256");
    reveal_with_fuel(serialized, 8);
    let pairs = authorization_pairs(client_id, redirect_uri, scope, challenge, state);
    let url = authorization_url(client_id, redirect_uri, scope, challenge, state);
    let before = AUTHORIZE_ENDPOINT@.push('?') + serialized(pairs.take(4)).push('&');
    let i = before.len() as int;
    assert(url.subrange(i, i + METHOD_PARAMETER@.len()) =~= METHOD_PARAMETER@);
}

/// An encoded value can stand in a query.
pub proof fn lemma_encoded_is_plain(text: Seq<char>)
    ensures
        is_plain(form_encode(text)),
{
    lemma_encoded_chars(vstd::utf8::encode_utf8(text));
}

/// The query of an authorization URL carries the parameters of the
/// request and nothing else: read back, it gives each name with its encoded
/// value, in order. Whatever the client id, the redirect URI, the scope,
/// the challenge and the state hold, none of them adds a parameter or
/// changes another.
pub proof fn lemma_url_parameters(
    client_id: Seq<char>,
    redirect_uri: Seq<char>,
    scope: Seq<char>,
    challenge: Seq<char>,
    state: Seq<char>,
)
    ensures
        params_of(authorization_url(client_id, redirect_uri, scope, challenge, state))
            == authorization_pairs(client_id, redirect_uri, scope, challenge, state),
{
    reveal_strlit("https://accounts.spotify.com/authorize");
    reveal_strlit("response_type");
    reveal_strlit("code");
    reveal_strlit("client_id");
    reveal_strlit("state");
    reveal_strlit("code_challenge");
    reveal_strlit("code_challenge_method");
    reveal_strlit("S256");
    reveal_strlit("redirect_uri");
    reveal_strlit("scope");
    lemma_encoded_is_plain(client_id);
    lemma_encoded_is_plain(redirect_uri);
    lemma_encoded_is_plain(scope);
    lemma_encoded_is_plain(challenge);
    lemma_encoded_is_plain(state);
    let pairs = authorization_pairs(client_id, redirect_uri, scope, challenge, state);
    lemma_round_trip(AUTHORIZE_ENDPOINT@, pairs);
}

/// Builds the authorization URL from the client id, the redirect URI, the
/// scopes, the PKCE challenge and the state.
pub fn build_authorization_url(
    client_id: &str,
    redirect_uri: &str,
    scopes: &Vec<String>,
    challenge: &str,
    state: &str,
) -> (url: String)
    ensures
        url@ == authorization_url(
            client_id@,
            redirect_uri@,
            joined(texts(scopes@)),
            challenge@,
            state@,
        ),
{
    let scope = join_scopes(scopes);
    let mut url = AUTHORIZE_ENDPOINT.to_owned();
    url.push('?');
    append_parameter(&mut url, true, "response_type", "code");
    append_parameter(&mut url, false, "client_id", form_urlencode(client_id).as_str());
    append_parameter(&mut url, false, "state", form_urlencode(state).as_str());
    append_parameter(&mut url, false, "code_challenge", form_urlencode(challenge).as_str());
    append_parameter(&mut url, false, "code_challenge_method", "S256");
    append_parameter(&mut url, false, "redirect_uri", form_urlencode(redirect_uri).as_str());
    if !scope.as_str().is_empty() {
        append_parameter(&mut url, false, "scope", form_urlencode(scope.as_str()).as_str());
    }
    proof {
        reveal_with_fuel(serialized, 8);
    }
    url
}

/// A code exchange that is ready to be sent to the token endpoint, with the
/// grant type `authorization_code`.
pub struct ExchangeRequest {
    pub code: String,
    pub code_verifier: String,
    pub redirect_uri: String,
    pub client_id: String,
}

/// A code exchange as plain values.
pub struct ExchangeRequestView {
    pub code: Seq<char>,
    pub code_verifier: Seq<char>,
    pub redirect_uri: Seq<char>,
    pub client_id: Seq<char>,
}

impl View for ExchangeRequest {
    type V = ExchangeRequestView;

    open spec fn view(&self) -> ExchangeRequestView {
        ExchangeRequestView {
            code: self.code@,
            code_verifier: self.code_verifier@,
            redirect_uri: self.redirect_uri@,
            client_id: self.client_id@,
        }
    }
}

/// One authorization attempt in flight. It owns the verifier, which never
/// leaves memory, and the state that the redirect must bring back.
pub struct AuthFlow {
    pkce_verifier: String,
    csrf_token: String,
    auth_url: String,
    client_id: String,
    redirect_uri: String,
}

/// An attempt as plain values.
pub struct AuthFlowView {
    pub verifier: Seq<char>,
    pub state: Seq<char>,
    pub url: Seq<char>,
    pub client_id: Seq<char>,
    pub redirect_uri: Seq<char>,
}

impl View for AuthFlow {
    type V = AuthFlowView;

    closed spec fn view(&self) -> AuthFlowView {
        AuthFlowView {
            verifier: self.pkce_verifier@,
            state: self.csrf_token@,
            url: self.auth_url@,
            client_id: self.client_id@,
            redirect_uri: self.redirect_uri@,
        }
    }
}

/// The attempt that a configuration, a verifier and a state determine: its
/// URL carries the challenge of that verifier and that state.
pub open spec fn attempt_of(config: SpotifyConfigView, verifier: Seq<char>, state: Seq<char>)
    -> AuthFlowView {
    AuthFlowView {
        verifier,
        state,
        url: authorization_url(
            config.client_id,
            config.redirect_uri,
            joined(config.scopes),
            challenge_of(verifier),
            state,
        ),
        client_id: config.client_id,
        redirect_uri: config.redirect_uri,
    }
}

/// An attempt is coherent when its URL is an authorization URL for its own
/// client, redirect URI and state, and carries the challenge of its own
/// verifier.
pub open spec fn coherent(attempt: AuthFlowView) -> bool {
    exists|scope: Seq<char>|
        attempt.url == #[trigger] authorization_url(
            attempt.client_id,
            attempt.redirect_uri,
            scope,
            challenge_of(attempt.verifier),
            attempt.state,
        )
}

/// What `exchange` answers to a redirect that carries `code` and
/// `received_state`: the request for the token endpoint if the state is the
/// attempt's own, and nothing otherwise.
pub open spec fn checked_exchange(
    attempt: AuthFlowView,
    code: Seq<char>,
    received_state: Seq<char>,
) -> Option<ExchangeRequestView> {
    if received_state == attempt.state {
        Some(
            ExchangeRequestView {
                code,
                code_verifier: attempt.verifier,
                redirect_uri: attempt.redirect_uri,
                client_id: attempt.client_id,
            },
        )
    } else {
        None
    }
}

impl AuthFlow {
    #[verifier::type_invariant]
    closed spec fn inv(self) -> bool {
        coherent(self@)
    }

    /// Starts an attempt with the given verifier and state.
    pub fn with_secrets(config: &SpotifyConfig, pkce_verifier: String, csrf_token: String) -> (flow:
        AuthFlow)
        ensures
            flow@ == attempt_of(config@, pkce_verifier@, csrf_token@),
            coherent(flow@),
    {
        let challenge = generate_challenge(pkce_verifier.as_str());
        let auth_url = build_authorization_url(
            config.client_id.as_str(),
            config.redirect_uri.as_str(),
            &config.scopes,
            challenge.as_str(),
            csrf_token.as_str(),
        );
        let client_id = config.client_id.clone();
        let redirect_uri = config.redirect_uri.clone();
        proof {
            let view = AuthFlowView {
                verifier: pkce_verifier@,
                state: csrf_token@,
                url: auth_url@,
                client_id: client_id@,
                redirect_uri: redirect_uri@,
            };
            assert(view.url == authorization_url(
                view.client_id,
                view.redirect_uri,
                joined(config@.scopes),
                challenge_of(view.verifier),
                view.state,
            ));
        }
        AuthFlow { pkce_verifier, csrf_token, auth_url, client_id, redirect_uri }
    }

    /// Starts an attempt with a fresh verifier and a fresh state. Fails
    /// only when the system's entropy source does.
    pub fn new(config: &SpotifyConfig) -> (r: Result<AuthFlow, AuthError>)
        ensures
            match r {
                Ok(flow) => {
                    &&& flow@ == attempt_of(config@, flow@.verifier, flow@.state)
                    &&& coherent(flow@)
                    &&& is_verifier(flow@.verifier)
                    &&& flow@.state.len() == 22
                    &&& is_plain(flow@.state)
                },
                Err(e) => e is EntropyUnavailable,
            },
    {
        let verifier = match crate::pkce::get_random_string() {
            Ok(v) => v,
            Err(e) => {
                return Err(e);
            },
        };
        let state = match generate_state() {
            Ok(s) => s,
            Err(e) => {
                return Err(e);
            },
        };
        Ok(AuthFlow::with_secrets(config, verifier, state))
    }

    /// The URL to open in the user's browser. It names the challenge
    /// method `S256`.
    pub fn url(&self) -> (url: &str)
        ensures
            url@ == self@.url,
            coherent(self@),
            contains_text(url@, METHOD_PARAMETER@),
    {
        proof {
            use_type_invariant(self);
            let scope = choose|scope: Seq<char>|
                self@.url == #[trigger] authorization_url(
                    self@.client_id,
                    self@.redirect_uri,
                    scope,
                    challenge_of(self@.verifier),
                    self@.state,
                );
            lemma_url_names_method(
                self@.client_id,
                self@.redirect_uri,
                scope,
                challenge_of(self@.verifier),
                self@.state,
            );
        }
        self.auth_url.as_str()
    }

    /// The state that the redirect must bring back.
    pub fn state(&self) -> (state: &str)
        ensures
            state@ == self@.state,
    {
        self.csrf_token.as_str()
    }

    /// Checks the state that came with a redirect and, if it is the
    /// attempt's own, hands out the code exchange to send. With any other
    /// state the attempt ends in `CsrfMismatch` and no exchange exists.
    pub fn exchange(self, code: &str, received_state: &str) -> (r: Result<
        ExchangeRequest,
        AuthError,
    >)
        ensures
            match r {
                Ok(request) => checked_exchange(self@, code@, received_state@) == Some(request@),
                Err(e) => checked_exchange(self@, code@, received_state@) is None
                    && e is CsrfMismatch,
            },
    {
        if !same_text(received_state, self.csrf_token.as_str()) {
            return Err(AuthError::CsrfMismatch);
        }
        Ok(
            ExchangeRequest {
                code: code.to_owned(),
                code_verifier: self.pkce_verifier,
                redirect_uri: self.redirect_uri,
                client_id: self.client_id,
            },
        )
    }
}

} // verus!
