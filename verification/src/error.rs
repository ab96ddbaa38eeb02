//! The failures of an authorization attempt.

use vstd::prelude::*;
use vstd::string::StringExecFns;

verus! {

/// Why an authorization attempt, a token request or a store access failed.
#[derive(Debug, Clone, PartialEq, Eq)]
pub enum AuthError {
    /// The system's entropy source gave no random bytes; the attempt cannot
    /// proceed.
    EntropyUnavailable,
    /// The local listener could not be bound; the text says why.
    BindFailure(String),
    /// The redirect carried a `state` other than the attempt's own. The code
    /// that came with it is not exchanged.
    CsrfMismatch,
    /// The provider reported an error in the redirect; the text is its
    /// `error` parameter, unchanged.
    ProviderDenied(String),
    /// The token endpoint could not be reached.
    NetworkError(String),
    /// The token endpoint refused the request or sent a body that could not
    /// be read.
    TokenEndpointError(String),
    /// The token store could not be written.
    IoError(String),
    /// The channel from a background listener closed before a result came.
    ListenerDisconnected,
    /// The attempt was given up while the listener was waiting: by the
    /// caller, or because the redirect did not come in time.
    Abandoned,
}

/// A failure as plain values.
pub enum AuthErrorView {
    EntropyUnavailable,
    BindFailure(Seq<char>),
    CsrfMismatch,
    ProviderDenied(Seq<char>),
    NetworkError(Seq<char>),
    TokenEndpointError(Seq<char>),
    IoError(Seq<char>),
    ListenerDisconnected,
    Abandoned,
}

impl View for AuthError {
    type V = AuthErrorView;

    open spec fn view(&self) -> AuthErrorView {
        match self {
            AuthError::EntropyUnavailable => AuthErrorView::EntropyUnavailable,
            AuthError::BindFailure(m) => AuthErrorView::BindFailure(m@),
            AuthError::CsrfMismatch => AuthErrorView::CsrfMismatch,
            AuthError::ProviderDenied(m) => AuthErrorView::ProviderDenied(m@),
            AuthError::NetworkError(m) => AuthErrorView::NetworkError(m@),
            AuthError::TokenEndpointError(m) => AuthErrorView::TokenEndpointError(m@),
            AuthError::IoError(m) => AuthErrorView::IoError(m@),
            AuthError::ListenerDisconnected => AuthErrorView::ListenerDisconnected,
            AuthError::Abandoned => AuthErrorView::Abandoned,
        }
    }
}

/// The sentence that tells a user of a failure. The provider's own word
/// for a denial, and the reason of any other failure, stand in it unchanged.
pub open spec fn description(error: AuthErrorView) -> Seq<char> {
    match error {
        AuthErrorView::EntropyUnavailable => "The system's random source is unavailable"@,
        AuthErrorView::BindFailure(m) => "Failed to bind the local listener: "@ + m,
        AuthErrorView::CsrfMismatch => "State mismatch - possible CSRF attack"@,
        AuthErrorView::ProviderDenied(m) => "Authorization denied by the provider: "@ + m,
        AuthErrorView::NetworkError(m) => "Token endpoint unreachable: "@ + m,
        AuthErrorView::TokenEndpointError(m) => "Token request failed: "@ + m,
        AuthErrorView::IoError(m) => "Failed to write token file: "@ + m,
        AuthErrorView::ListenerDisconnected => "The listener stopped without a result"@,
        AuthErrorView::Abandoned => "Authorization abandoned"@,
    }
}

/// `prefix` followed by `reason`.
fn explained(prefix: &str, reason: &String) -> (out: String)
    ensures
        out@ == prefix@ + reason@,
{
    let mut out = prefix.to_owned();
    out.append(reason.as_str());
    out
}

impl AuthError {
    /// The sentence that tells a user of this failure.
    pub fn describe(&self) -> (out: String)
        ensures
            out@ == description(self@),
    {
        match self {
            AuthError::EntropyUnavailable => "The system's random source is unavailable".to_owned(),
            AuthError::BindFailure(m) => explained("Failed to bind the local listener: ", m),
            AuthError::CsrfMismatch => "State mismatch - possible CSRF attack".to_owned(),
            AuthError::ProviderDenied(m) => explained("Authorization denied by the provider: ", m),
            AuthError::NetworkError(m) => explained("Token endpoint unreachable: ", m),
            AuthError::TokenEndpointError(m) => explained("Token request failed: ", m),
            AuthError::IoError(m) => explained("Failed to write token file: ", m),
            AuthError::ListenerDisconnected => "The listener stopped without a result".to_owned(),
            AuthError::Abandoned => "Authorization abandoned".to_owned(),
        }
    }
}

} // verus!
