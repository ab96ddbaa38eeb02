//! What the loopback listener makes of a request: the parameters of the
//! redirect read as the outcome of the authorization.

use crate::query::{
    get_param, is_plain, lemma_round_trip, lookup, params_of, parse_params, serialized,
};
use crate::text::{free_of, lemma_split_free, opt_text};
use vstd::prelude::*;

verus! {

/// The outcome of an authorization as the redirect reports it.
#[derive(Debug, Clone, PartialEq, Eq)]
pub enum CallbackResult {
    /// The provider issued a code; `state` is the value it sent back.
    Success { code: String, state: String },
    /// The provider reported an error; `reason` is its `error` parameter.
    Error { reason: String },
}

/// An outcome as plain values.
pub enum CallbackResultView {
    Success { code: Seq<char>, state: Seq<char> },
    Error { reason: Seq<char> },
}

impl View for CallbackResult {
    type V = CallbackResultView;

    open spec fn view(&self) -> CallbackResultView {
        match self {
            CallbackResult::Success { code, state } => CallbackResultView::Success {
                code: code@,
                state: state@,
            },
            CallbackResult::Error { reason } => CallbackResultView::Error { reason: reason@ },
        }
    }
}

/// The view of an optional outcome.
pub open spec fn opt_result(o: Option<CallbackResult>) -> Option<CallbackResultView> {
    match o {
        Some(result) => Some(result@),
        None => None,
    }
}

/// What one request told the listener: the parameters of the redirect that
/// it carried, and whether they settle the authorization.
#[derive(Debug, Clone, PartialEq, Eq)]
pub struct AuthCallback {
    pub code: Option<String>,
    pub state: Option<String>,
    pub error: Option<String>,
    pub received: bool,
}

/// A callback as plain values.
pub struct AuthCallbackView {
    pub code: Option<Seq<char>>,
    pub state: Option<Seq<char>>,
    pub error: Option<Seq<char>>,
    pub received: bool,
}

impl View for AuthCallback {
    type V = AuthCallbackView;

    open spec fn view(&self) -> AuthCallbackView {
        AuthCallbackView {
            code: opt_text(self.code),
            state: opt_text(self.state),
            error: opt_text(self.error),
            received: self.received,
        }
    }
}

/// What a request with the URL `url` tells the listener. An `error`
/// parameter settles the authorization and hides `code` and `state`;
/// without it, `code` and `state` settle it when both are there.
pub open spec fn captured(url: Seq<char>) -> AuthCallbackView {
    let params = params_of(url);
    let error = lookup(params, "error"@);
    let code = lookup(params, "code"@);
    let state = lookup(params, "state"@);
    if error is Some {
        AuthCallbackView { code: None, state: None, error, received: true }
    } else {
        AuthCallbackView { code, state, error: None, received: code is Some && state is Some }
    }
}

/// The outcome that a callback stands for, if it settles the
/// authorization.
pub open spec fn result_of(callback: AuthCallbackView) -> Option<CallbackResultView> {
    if callback.error is Some {
        Some(CallbackResultView::Error { reason: callback.error.unwrap() })
    } else if callback.code is Some && callback.state is Some {
        Some(
            CallbackResultView::Success {
                code: callback.code.unwrap(),
                state: callback.state.unwrap(),
            },
        )
    } else {
        None
    }
}

/// How the listener classifies a request with the URL `url`: as a reported
/// error, as a success, or, with `None`, as unrelated to the authorization.
pub open spec fn classified(url: Seq<char>) -> Option<CallbackResultView> {
    result_of(captured(url))
}

impl AuthCallback {
    /// A callback that has captured nothing yet.
    pub fn new() -> (callback: AuthCallback)
        ensures
            callback@ == (AuthCallbackView {
                code: None,
                state: None,
                error: None,
                received: false,
            }),
            result_of(callback@) is None,
    {
        AuthCallback { code: None, state: None, error: None, received: false }
    }

    /// A callback is consistent when `received` says whether it settles
    /// the authorization.
    pub open spec fn consistent(&self) -> bool {
        self.received == (result_of(self@) is Some)
    }

    /// Captures the parameters of the request with the URL `url`.
    pub fn capture(url: &str) -> (callback: AuthCallback)
        ensures
            callback@ == captured(url@),
            callback.consistent(),
    {
        let params = parse_params(url);
        let error = get_param(&params, "error");
        if error.is_some() {
            return AuthCallback { code: None, state: None, error, received: true };
        }
        let code = get_param(&params, "code");
        let state = get_param(&params, "state");
        let received = code.is_some() && state.is_some();
        AuthCallback { code, state, error: None, received }
    }

    /// The outcome that the callback stands for, if it settles the
    /// authorization.
    pub fn result(self) -> (r: Option<CallbackResult>)
        ensures
            opt_result(r) == result_of(self@),
    {
        match self.error {
            Some(reason) => Some(CallbackResult::Error { reason }),
            None => match (self.code, self.state) {
                (Some(code), Some(state)) => Some(CallbackResult::Success { code, state }),
                _ => None,
            },
        }
    }
}

/// Classifies the request with the URL `url`.
pub fn classify(url: &str) -> (r: Option<CallbackResult>)
    ensures
        opt_result(r) == classified(url@),
{
    AuthCallback::capture(url).result()
}

/// The URL of a redirect that brings a code and a state.
pub open spec fn success_redirect(path: Seq<char>, code: Seq<char>, state: Seq<char>) -> Seq<char> {
    path.push('?') + serialized(seq![("code"@, code), ("state"@, state)])
}

/// The URL of a redirect that brings an error.
pub open spec fn error_redirect(path: Seq<char>, reason: Seq<char>) -> Seq<char> {
    path.push('?') + serialized(seq![("error"@, reason)])
}

/// A redirect that brings a code and a state is classified as a success
/// with that code and that state, whatever the path and whatever the two
/// values, as long as they can stand in a query.
pub proof fn lemma_success_is_classified(path: Seq<char>, code: Seq<char>, state: Seq<char>)
    requires
        free_of(path, '?'),
        is_plain(code),
        is_plain(state),
    ensures
        classified(success_redirect(path, code, state)) == Some(
            CallbackResultView::Success { code, state },
        ),
{
    reveal_strlit("code");
    reveal_strlit("state");
    reveal_strlit("error");
    lemma_round_trip(path, seq![("code"@, code), ("state"@, state)]);
    assert("state"@[0] != "error"@[0]);
    reveal_with_fuel(lookup, 3);
}

/// A redirect that brings an error is classified as that error, whatever
/// the path and whatever the provider's word for it, as long as it can
/// stand in a query.
pub proof fn lemma_error_is_classified(path: Seq<char>, reason: Seq<char>)
    requires
        free_of(path, '?'),
        is_plain(reason),
    ensures
        classified(error_redirect(path, reason)) == Some(CallbackResultView::Error { reason }),
{
    reveal_strlit("error");
    lemma_round_trip(path, seq![("error"@, reason)]);
    reveal_with_fuel(lookup, 2);
}

/// A request without a query is unrelated to the authorization.
pub proof fn lemma_no_query_is_unrelated(url: Seq<char>)
    requires
        free_of(url, '?'),
    ensures
        classified(url) is None,
{
    reveal_strlit("error");
    reveal_strlit("code");
    reveal_strlit("state");
    lemma_split_free(url, '?');
    let empty = Seq::<char>::empty();
    lemma_split_free(empty, '&');
    lemma_split_free(empty, '=');
    reveal_with_fuel(lookup, 2);
}

} // verus!
