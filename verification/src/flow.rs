//! The orchestrator: it decides, from what the token store holds and from
//! what the listener and the token endpoint answer, what is done next. The
//! program around this library loads and saves the store, opens the
//! browser, runs the listener and sends the requests; after each of these
//! it hands the outcome to `Flow::step` and performs the action it gets
//! back.
//!
//! Policy: a stored record that is still valid is used as it is; an expired
//! one is refreshed if it carries a refresh token; a refresh that fails, for
//! whatever reason, falls back to a full authorization; every record is
//! saved before the flow is done; an attempt whose redirect has not come
//! when the configured wait is over is given up, as is one that the caller
//! reports as `Abandoned`.

use crate::authorize::{
    attempt_of, checked_exchange, AuthFlow, AuthFlowView, ExchangeRequest, ExchangeRequestView,
};
use crate::callback::{
    lemma_success_is_classified, success_redirect, CallbackResult, CallbackResultView,
};
use crate::config::{joined, SpotifyConfig, SpotifyConfigView};
use crate::error::{AuthError, AuthErrorView};
use crate::listener::{
    listener_step, ListenerAction, ListenerEventView, ListenerView, Page,
};
use crate::pkce::is_verifier;
use crate::query::is_plain;
use crate::text::free_of;
use crate::token::{
    complete_exchange, exchange_outcome, expired, refresh, refresh_outcome, refresh_request,
    RefreshRequest, RefreshRequestView, Token, TokenReply, TokenReplyView, TokenView,
};
use vstd::prelude::*;

verus! {

/// What a non-blocking look at a background listener's channel found.
#[derive(Debug, Clone, PartialEq, Eq)]
pub enum Poll {
    /// Nothing has arrived yet.
    NotYet,
    /// The listener delivered its result.
    Ready(CallbackResult),
    /// The channel closed without a result.
    Disconnected,
}

/// A poll as plain values.
pub enum PollView {
    NotYet,
    Ready(CallbackResultView),
    Disconnected,
}

impl View for Poll {
    type V = PollView;

    open spec fn view(&self) -> PollView {
        match self {
            Poll::NotYet => PollView::NotYet,
            Poll::Ready(result) => PollView::Ready(result@),
            Poll::Disconnected => PollView::Disconnected,
        }
    }
}

/// Where the flow stands.
pub enum Flow {
    /// The store has not been read yet.
    Start,
    /// A refresh made with `refresh_token` is on its way.
    Refreshing { refresh_token: String },
    /// The browser was sent to the attempt's URL and the listener waits for
    /// the redirect, until the time `deadline` at the latest.
    Waiting { attempt: AuthFlow, deadline: u64 },
    /// The code exchange is on its way.
    Exchanging,
    /// `token` is being written to the store.
    Saving { token: Token },
    /// `token` is saved and valid.
    Done { token: Token },
    /// The flow ended without a token.
    Failed { error: AuthError },
}

/// The flow's state as plain values.
pub enum FlowView {
    Start,
    Refreshing { refresh_token: Seq<char> },
    Waiting { attempt: AuthFlowView, deadline: u64 },
    Exchanging,
    Saving { token: TokenView },
    Done { token: TokenView },
    Failed { error: AuthErrorView },
}

impl View for Flow {
    type V = FlowView;

    open spec fn view(&self) -> FlowView {
        match self {
            Flow::Start => FlowView::Start,
            Flow::Refreshing { refresh_token } => FlowView::Refreshing {
                refresh_token: refresh_token@,
            },
            Flow::Waiting { attempt, deadline } => FlowView::Waiting {
                attempt: attempt@,
                deadline: *deadline,
            },
            Flow::Exchanging => FlowView::Exchanging,
            Flow::Saving { token } => FlowView::Saving { token: token@ },
            Flow::Done { token } => FlowView::Done { token: token@ },
            Flow::Failed { error } => FlowView::Failed { error: error@ },
        }
    }
}

/// What the program reports back to the flow.
pub enum FlowEvent {
    /// The store was read; it held this record, or none.
    Loaded(Option<Token>),
    /// The listener could not bind its socket.
    ListenerFailed(String),
    /// The listener's channel was looked at.
    Polled(Poll),
    /// The caller gives the attempt up.
    Abandoned,
    /// The token endpoint answered the request that was on its way.
    Replied(TokenReply),
    /// The record was written to the store.
    Saved,
    /// The record could not be written; the text says why.
    SaveFailed(String),
}

/// An event as plain values.
pub enum FlowEventView {
    Loaded(Option<TokenView>),
    ListenerFailed(Seq<char>),
    Polled(PollView),
    Abandoned,
    Replied(TokenReplyView),
    Saved,
    SaveFailed(Seq<char>),
}

impl View for FlowEvent {
    type V = FlowEventView;

    open spec fn view(&self) -> FlowEventView {
        match self {
            FlowEvent::Loaded(stored) => FlowEventView::Loaded(
                match stored {
                    Some(token) => Some(token@),
                    None => None,
                },
            ),
            FlowEvent::ListenerFailed(reason) => FlowEventView::ListenerFailed(reason@),
            FlowEvent::Polled(poll) => FlowEventView::Polled(poll@),
            FlowEvent::Abandoned => FlowEventView::Abandoned,
            FlowEvent::Replied(reply) => FlowEventView::Replied(reply@),
            FlowEvent::Saved => FlowEventView::Saved,
            FlowEvent::SaveFailed(reason) => FlowEventView::SaveFailed(reason@),
        }
    }
}

/// What the program is to do next.
pub enum FlowAction {
    /// Open the browser at the attempt's URL and start the listener; a
    /// browser that cannot be opened does not end the attempt.
    Authorize,
    /// Look at the listener's channel again.
    Wait,
    /// Send this code exchange to the token endpoint.
    Exchange(ExchangeRequest),
    /// Send this refresh to the token endpoint.
    Refresh(RefreshRequest),
    /// Write the record of the `Saving` state to the store.
    Save,
    /// Hand the record of the `Done` state to the caller.
    Finish,
    /// Release the listener and report the failure of the `Failed` state.
    Abort,
    /// Do nothing: the event does not concern a flow in this state.
    Ignore,
}

/// An action as plain values.
pub enum FlowActionView {
    Authorize,
    Wait,
    Exchange(ExchangeRequestView),
    Refresh(RefreshRequestView),
    Save,
    Finish,
    Abort,
    Ignore,
}

impl View for FlowAction {
    type V = FlowActionView;

    open spec fn view(&self) -> FlowActionView {
        match self {
            FlowAction::Authorize => FlowActionView::Authorize,
            FlowAction::Wait => FlowActionView::Wait,
            FlowAction::Exchange(request) => FlowActionView::Exchange(request@),
            FlowAction::Refresh(request) => FlowActionView::Refresh(request@),
            FlowAction::Save => FlowActionView::Save,
            FlowAction::Finish => FlowActionView::Finish,
            FlowAction::Abort => FlowActionView::Abort,
            FlowAction::Ignore => FlowActionView::Ignore,
        }
    }
}

/// What the flow decides on an event.
pub enum Decision {
    /// The state that follows, and what is to be done.
    Next(FlowView, FlowActionView),
    /// A full authorization begins, with secrets that are yet to be drawn.
    Begin,
}

/// The flow ends in failure.
pub open spec fn fail(error: AuthErrorView) -> Decision {
    Decision::Next(FlowView::Failed { error }, FlowActionView::Abort)
}

/// The flow goes on to save `token`.
pub open spec fn save(token: TokenView) -> Decision {
    Decision::Next(FlowView::Saving { token }, FlowActionView::Save)
}

/// What the flow decides in `state` on `event` at the time `now`.
pub open spec fn decide(
    config: SpotifyConfigView,
    state: FlowView,
    event: FlowEventView,
    now: u64,
) -> Decision {
    match (state, event) {
        (FlowView::Start, FlowEventView::Loaded(None)) => Decision::Begin,
        (FlowView::Start, FlowEventView::Loaded(Some(token))) => if !expired(token, now) {
            save(token)
        } else {
            match token.refresh_token {
                Some(refresh_token) => Decision::Next(
                    FlowView::Refreshing { refresh_token },
                    FlowActionView::Refresh(
                        RefreshRequestView { refresh_token, client_id: config.client_id },
                    ),
                ),
                None => Decision::Begin,
            }
        },
        (FlowView::Refreshing { refresh_token }, FlowEventView::Replied(reply)) => {
            match refresh_outcome(joined(config.scopes), refresh_token, reply, now) {
                Ok(token) => save(token),
                Err(_) => Decision::Begin,
            }
        },
        (FlowView::Waiting { attempt, deadline }, FlowEventView::ListenerFailed(reason)) => fail(
            AuthErrorView::BindFailure(reason),
        ),
        (FlowView::Waiting { attempt, deadline }, FlowEventView::Abandoned) => fail(
            AuthErrorView::Abandoned,
        ),
        (FlowView::Waiting { attempt, deadline }, FlowEventView::Polled(PollView::NotYet)) => if now
            >= deadline {
            fail(AuthErrorView::Abandoned)
        } else {
            Decision::Next(state, FlowActionView::Wait)
        },
        (
            FlowView::Waiting { attempt, deadline },
            FlowEventView::Polled(PollView::Disconnected),
        ) => fail(AuthErrorView::ListenerDisconnected),
        (
            FlowView::Waiting { attempt, deadline },
            FlowEventView::Polled(PollView::Ready(CallbackResultView::Error { reason })),
        ) => fail(AuthErrorView::ProviderDenied(reason)),
        (
            FlowView::Waiting { attempt, deadline },
            FlowEventView::Polled(PollView::Ready(CallbackResultView::Success { code, state })),
        ) => match checked_exchange(attempt, code, state) {
            Some(request) => Decision::Next(
                FlowView::Exchanging,
                FlowActionView::Exchange(request),
            ),
            None => fail(AuthErrorView::CsrfMismatch),
        },
        (FlowView::Exchanging, FlowEventView::Replied(reply)) => {
            match exchange_outcome(joined(config.scopes), reply, now) {
                Ok(token) => save(token),
                Err(error) => fail(error),
            }
        },
        (FlowView::Saving { token }, FlowEventView::Saved) => Decision::Next(
            FlowView::Done { token },
            FlowActionView::Finish,
        ),
        (FlowView::Saving { token }, FlowEventView::SaveFailed(reason)) => fail(
            AuthErrorView::IoError(reason),
        ),
        _ => Decision::Next(state, FlowActionView::Ignore),
    }
}

/// The time at which an attempt begun at `now` is given up: the configured
/// wait later, or at the end of time where that is sooner.
pub open spec fn deadline_of(config: SpotifyConfigView, now: u64) -> u64 {
    if now + config.max_wait <= u64::MAX {
        (now + config.max_wait) as u64
    } else {
        u64::MAX
    }
}

/// How a full authorization begins at `now`: with a fresh attempt for the
/// configuration, whose URL the browser is sent to and whose state can
/// stand in the query of a redirect, or, where no entropy is to be had,
/// with the end of the flow.
pub open spec fn began(
    config: SpotifyConfigView,
    now: u64,
    next: FlowView,
    action: FlowActionView,
) -> bool {
    ||| {
        &&& next matches FlowView::Waiting { attempt, deadline }
        &&& attempt == attempt_of(config, attempt.verifier, attempt.state)
        &&& is_verifier(attempt.verifier)
        &&& is_plain(attempt.state)
        &&& deadline == deadline_of(config, now)
        &&& action == FlowActionView::Authorize
    }
    ||| {
        &&& next == FlowView::Failed { error: AuthErrorView::EntropyUnavailable }
        &&& action == FlowActionView::Abort
    }
}

/// Whether `next` and `action` are what `decision`, taken at `now`, asks
/// for.
pub open spec fn follows(
    config: SpotifyConfigView,
    now: u64,
    decision: Decision,
    next: FlowView,
    action: FlowActionView,
) -> bool {
    match decision {
        Decision::Next(state, act) => next == state && action == act,
        Decision::Begin => began(config, now, next, action),
    }
}

/// Begins a full authorization at `now`.
fn begin(config: &SpotifyConfig, now: u64) -> (r: (Flow, FlowAction))
    ensures
        began(config@, now, r.0@, r.1@),
{
    match AuthFlow::new(config) {
        Ok(attempt) => (
            Flow::Waiting { attempt, deadline: now.saturating_add(config.max_wait) },
            FlowAction::Authorize,
        ),
        Err(error) => (Flow::Failed { error }, FlowAction::Abort),
    }
}

impl Flow {
    /// A flow that has not read the store yet.
    pub fn new() -> (flow: Flow)
        ensures
            flow@ == FlowView::Start,
    {
        Flow::Start
    }

    /// Takes the outcome of what the program did last, at the time `now`,
    /// and says where the flow stands then and what is to be done next.
    pub fn step(self, config: &SpotifyConfig, event: FlowEvent, now: u64) -> (r: (
        Flow,
        FlowAction,
    ))
        ensures
            follows(config@, now, decide(config@, self@, event@, now), r.0@, r.1@),
    {
        match self {
            Flow::Start => match event {
                FlowEvent::Loaded(None) => begin(config, now),
                FlowEvent::Loaded(Some(token)) => {
                    if !token.is_expired(now) {
                        (Flow::Saving { token }, FlowAction::Save)
                    } else {
                        match token.refresh_token {
                            Some(refresh_token) => {
                                let request = refresh_request(config, refresh_token.as_str());
                                (Flow::Refreshing { refresh_token }, FlowAction::Refresh(request))
                            },
                            None => begin(config, now),
                        }
                    }
                },
                _ => (Flow::Start, FlowAction::Ignore),
            },
            Flow::Refreshing { refresh_token } => match event {
                FlowEvent::Replied(reply) => {
                    match refresh(config, refresh_token.as_str(), reply, now) {
                        Ok(token) => (Flow::Saving { token }, FlowAction::Save),
                        Err(_) => begin(config, now),
                    }
                },
                _ => (Flow::Refreshing { refresh_token }, FlowAction::Ignore),
            },
            Flow::Waiting { attempt, deadline } => match event {
                FlowEvent::ListenerFailed(reason) => (
                    Flow::Failed { error: AuthError::BindFailure(reason) },
                    FlowAction::Abort,
                ),
                FlowEvent::Abandoned => (
                    Flow::Failed { error: AuthError::Abandoned },
                    FlowAction::Abort,
                ),
                FlowEvent::Polled(Poll::NotYet) => {
                    if now >= deadline {
                        (Flow::Failed { error: AuthError::Abandoned }, FlowAction::Abort)
                    } else {
                        (Flow::Waiting { attempt, deadline }, FlowAction::Wait)
                    }
                },
                FlowEvent::Polled(Poll::Disconnected) => (
                    Flow::Failed { error: AuthError::ListenerDisconnected },
                    FlowAction::Abort,
                ),
                FlowEvent::Polled(Poll::Ready(CallbackResult::Error { reason })) => (
                    Flow::Failed { error: AuthError::ProviderDenied(reason) },
                    FlowAction::Abort,
                ),
                FlowEvent::Polled(Poll::Ready(CallbackResult::Success { code, state })) => {
                    match attempt.exchange(code.as_str(), state.as_str()) {
                        Ok(request) => (Flow::Exchanging, FlowAction::Exchange(request)),
                        Err(error) => (Flow::Failed { error }, FlowAction::Abort),
                    }
                },
                _ => (Flow::Waiting { attempt, deadline }, FlowAction::Ignore),
            },
            Flow::Exchanging => match event {
                FlowEvent::Replied(reply) => match complete_exchange(config, reply, now) {
                    Ok(token) => (Flow::Saving { token }, FlowAction::Save),
                    Err(error) => (Flow::Failed { error }, FlowAction::Abort),
                },
                _ => (Flow::Exchanging, FlowAction::Ignore),
            },
            Flow::Saving { token } => match event {
                FlowEvent::Saved => (Flow::Done { token }, FlowAction::Finish),
                FlowEvent::SaveFailed(reason) => (
                    Flow::Failed { error: AuthError::IoError(reason) },
                    FlowAction::Abort,
                ),
                _ => (Flow::Saving { token }, FlowAction::Ignore),
            },
            Flow::Done { token } => (Flow::Done { token }, FlowAction::Ignore),
            Flow::Failed { error } => (Flow::Failed { error }, FlowAction::Ignore),
        }
    }
}

/// A redirect whose state is not the attempt's own ends the flow in
/// `CsrfMismatch`, and no code exchange is asked for.
pub proof fn lemma_csrf_enforced(
    config: SpotifyConfigView,
    attempt: AuthFlowView,
    deadline: u64,
    code: Seq<char>,
    state: Seq<char>,
    now: u64,
)
    requires
        state != attempt.state,
    ensures
        decide(
            config,
            FlowView::Waiting { attempt, deadline },
            FlowEventView::Polled(PollView::Ready(CallbackResultView::Success { code, state })),
            now,
        ) == fail(AuthErrorView::CsrfMismatch),
{
}

/// A code exchange is asked for only on a redirect that brings the
/// attempt's own state back, and it carries the attempt's verifier.
pub proof fn lemma_exchange_only_for_own_state(
    config: SpotifyConfigView,
    state: FlowView,
    event: FlowEventView,
    now: u64,
    next: FlowView,
    request: ExchangeRequestView,
)
    requires
        decide(config, state, event, now) == Decision::Next(next, FlowActionView::Exchange(request)),
    ensures
        state matches FlowView::Waiting { attempt, .. } && event matches FlowEventView::Polled(
            PollView::Ready(CallbackResultView::Success { code, state: received }),
        ) && received == attempt.state && request.code == code && request.code_verifier
            == attempt.verifier,
{
}

/// The redirect that answers an attempt leads to the exchange of its
/// code: a listening listener resolves on it with the code and the
/// attempt's state and shows the success page, and the flow, given that
/// result, asks for the exchange of that code with the attempt's verifier.
pub proof fn lemma_own_redirect_is_exchanged(
    config: SpotifyConfigView,
    attempt: AuthFlowView,
    deadline: u64,
    path: Seq<char>,
    code: Seq<char>,
    now: u64,
)
    requires
        free_of(path, '?'),
        is_plain(code),
        is_plain(attempt.state),
    ensures
        ({
            let redirect = success_redirect(path, code, attempt.state);
            let result = CallbackResultView::Success { code, state: attempt.state };
            &&& listener_step(ListenerView::Listening, ListenerEventView::Request(redirect)) == (
                ListenerView::Resolved(result),
                ListenerAction::Respond { page: Page::Success, stop: true },
            )
            &&& decide(
                config,
                FlowView::Waiting { attempt, deadline },
                FlowEventView::Polled(PollView::Ready(result)),
                now,
            ) == Decision::Next(
                FlowView::Exchanging,
                FlowActionView::Exchange(
                    ExchangeRequestView {
                        code,
                        code_verifier: attempt.verifier,
                        redirect_uri: attempt.redirect_uri,
                        client_id: attempt.client_id,
                    },
                ),
            )
        }),
{
    lemma_success_is_classified(path, code, attempt.state);
}

/// The flow is done only after its record was saved: the step into `Done`
/// starts from `Saving` with the same record, on the store's confirmation.
pub proof fn lemma_done_only_after_save(
    config: SpotifyConfigView,
    state: FlowView,
    event: FlowEventView,
    now: u64,
    token: TokenView,
    action: FlowActionView,
)
    requires
        !(state is Done),
        decide(config, state, event, now) == Decision::Next(FlowView::Done { token }, action),
    ensures
        state == (FlowView::Saving { token }),
        event == FlowEventView::Saved,
        action == FlowActionView::Finish,
{
}

/// No attempt waits beyond its deadline: a look at the channel that finds
/// nothing, at the deadline or later, gives the attempt up.
pub proof fn lemma_wait_is_bounded(
    config: SpotifyConfigView,
    attempt: AuthFlowView,
    deadline: u64,
    now: u64,
)
    requires
        now >= deadline,
    ensures
        decide(
            config,
            FlowView::Waiting { attempt, deadline },
            FlowEventView::Polled(PollView::NotYet),
            now,
        ) == fail(AuthErrorView::Abandoned),
{
}

/// A stored record that is not expired is used as it is.
pub proof fn lemma_valid_record_is_reused(config: SpotifyConfigView, token: TokenView, now: u64)
    requires
        !expired(token, now),
    ensures
        decide(config, FlowView::Start, FlowEventView::Loaded(Some(token)), now) == save(token),
{
}

/// A missing record, and an expired one without refresh token, lead to a
/// full authorization; an expired one with a refresh token is refreshed.
pub proof fn lemma_start_policy(config: SpotifyConfigView, stored: Option<TokenView>, now: u64)
    ensures
        stored is None ==> decide(config, FlowView::Start, FlowEventView::Loaded(stored), now)
            == Decision::Begin,
        stored is Some && expired(stored.unwrap(), now) && stored.unwrap().refresh_token is None
            ==> decide(config, FlowView::Start, FlowEventView::Loaded(stored), now)
            == Decision::Begin,
        stored is Some && expired(stored.unwrap(), now) && stored.unwrap().refresh_token is Some
            ==> decide(config, FlowView::Start, FlowEventView::Loaded(stored), now)
            == Decision::Next(
            FlowView::Refreshing { refresh_token: stored.unwrap().refresh_token.unwrap() },
            FlowActionView::Refresh(
                RefreshRequestView {
                    refresh_token: stored.unwrap().refresh_token.unwrap(),
                    client_id: config.client_id,
                },
            ),
        ),
{
}

/// A refresh that fails, for whatever reason, falls back to a full
/// authorization.
pub proof fn lemma_failed_refresh_falls_back(
    config: SpotifyConfigView,
    refresh_token: Seq<char>,
    reply: TokenReplyView,
    now: u64,
)
    requires
        refresh_outcome(joined(config.scopes), refresh_token, reply, now) is Err,
    ensures
        decide(config, FlowView::Refreshing { refresh_token }, FlowEventView::Replied(reply), now)
            == Decision::Begin,
{
}

} // verus!
