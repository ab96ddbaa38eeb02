//! The loopback listener as a state machine. The socket is bound, read and
//! written by the program around this library; the listener decides, for
//! each thing that happens to the socket, what state follows and what is to
//! be done. A blocking caller and a background thread drive the same
//! machine.

use crate::callback::{classified, classify, CallbackResult, CallbackResultView};
use vstd::prelude::*;

verus! {

/// The page shown after the provider reported a success.
pub const SUCCESS_PAGE: &'static str =
    "Authorization successful! You can close this window and return to the app.";

/// The page shown after the provider reported an error.
pub const FAILURE_PAGE: &'static str = "Authorization failed. You can close this window.";

/// The page shown for a request that is not the redirect.
pub const WAITING_PAGE: &'static str = "Waiting for authorization...";

/// The page that answers a request.
#[derive(Debug, Clone, Copy, PartialEq, Eq)]
pub enum Page {
    Success,
    Failure,
    Waiting,
}

/// The text of a page.
pub open spec fn page_body(page: Page) -> Seq<char> {
    match page {
        Page::Success => SUCCESS_PAGE@,
        Page::Failure => FAILURE_PAGE@,
        Page::Waiting => WAITING_PAGE@,
    }
}

impl Page {
    /// The text to write to the browser. It is never empty.
    pub fn body(&self) -> (body: &'static str)
        ensures
            body@ == page_body(*self),
            body@.len() > 0,
    {
        proof {
            reveal_strlit(
                "Authorization successful! You can close this window and return to the app.",
            );
            reveal_strlit("Authorization failed. You can close this window.");
            reveal_strlit("Waiting for authorization...");
        }
        match self {
            Page::Success => SUCCESS_PAGE,
            Page::Failure => FAILURE_PAGE,
            Page::Waiting => WAITING_PAGE,
        }
    }
}

/// The state of a listener.
#[derive(Debug, Clone, PartialEq, Eq)]
pub enum Listener {
    /// Nothing is bound yet.
    Idle,
    /// The socket is bound and requests are accepted.
    Listening,
    /// A request settled the authorization; the socket is released.
    Resolved(CallbackResult),
    /// The socket could not be bound; the text says why.
    Failed(String),
    /// The caller gave the attempt up; the socket is released.
    Cancelled,
}

/// A listener's state as plain values.
pub enum ListenerView {
    Idle,
    Listening,
    Resolved(CallbackResultView),
    Failed(Seq<char>),
    Cancelled,
}

impl View for Listener {
    type V = ListenerView;

    open spec fn view(&self) -> ListenerView {
        match self {
            Listener::Idle => ListenerView::Idle,
            Listener::Listening => ListenerView::Listening,
            Listener::Resolved(result) => ListenerView::Resolved(result@),
            Listener::Failed(reason) => ListenerView::Failed(reason@),
            Listener::Cancelled => ListenerView::Cancelled,
        }
    }
}

/// What happened to the socket.
#[derive(Debug, Clone, PartialEq, Eq)]
pub enum ListenerEvent {
    /// The socket was bound.
    Bound,
    /// Binding failed; the text says why.
    BindFailed(String),
    /// A request came in; the text is its URL.
    Request(String),
    /// The caller gives the attempt up.
    Cancel,
}

/// An event as plain values.
pub enum ListenerEventView {
    Bound,
    BindFailed(Seq<char>),
    Request(Seq<char>),
    Cancel,
}

impl View for ListenerEvent {
    type V = ListenerEventView;

    open spec fn view(&self) -> ListenerEventView {
        match self {
            ListenerEvent::Bound => ListenerEventView::Bound,
            ListenerEvent::BindFailed(reason) => ListenerEventView::BindFailed(reason@),
            ListenerEvent::Request(url) => ListenerEventView::Request(url@),
            ListenerEvent::Cancel => ListenerEventView::Cancel,
        }
    }
}

/// What is to be done with the socket.
#[derive(Debug, Clone, Copy, PartialEq, Eq)]
pub enum ListenerAction {
    /// Accept the next request.
    Accept,
    /// Answer the request with `page`; then, if `stop` is set, release the
    /// socket and deliver the result, else accept the next request.
    Respond { page: Page, stop: bool },
    /// Report the bind failure to the caller; nothing is retried.
    Report,
    /// Release the socket without a result.
    Release,
    /// Do nothing: the event does not concern a listener in this state.
    Ignore,
}

/// Whether a listener in this state has ended.
pub open spec fn is_terminal(state: ListenerView) -> bool {
    state is Resolved || state is Failed || state is Cancelled
}

/// The state that follows `state` on `event`, and what is to be done.
pub open spec fn listener_step(state: ListenerView, event: ListenerEventView) -> (
    ListenerView,
    ListenerAction,
) {
    match (state, event) {
        (ListenerView::Idle, ListenerEventView::Bound) => (
            ListenerView::Listening,
            ListenerAction::Accept,
        ),
        (ListenerView::Idle, ListenerEventView::BindFailed(reason)) => (
            ListenerView::Failed(reason),
            ListenerAction::Report,
        ),
        (ListenerView::Idle, ListenerEventView::Cancel) => (
            ListenerView::Cancelled,
            ListenerAction::Release,
        ),
        (ListenerView::Listening, ListenerEventView::Cancel) => (
            ListenerView::Cancelled,
            ListenerAction::Release,
        ),
        (ListenerView::Listening, ListenerEventView::Request(url)) => match classified(url) {
            Some(CallbackResultView::Error { reason }) => (
                ListenerView::Resolved(CallbackResultView::Error { reason }),
                ListenerAction::Respond { page: Page::Failure, stop: true },
            ),
            Some(CallbackResultView::Success { code, state }) => (
                ListenerView::Resolved(CallbackResultView::Success { code, state }),
                ListenerAction::Respond { page: Page::Success, stop: true },
            ),
            None => (
                ListenerView::Listening,
                ListenerAction::Respond { page: Page::Waiting, stop: false },
            ),
        },
        _ => (state, ListenerAction::Ignore),
    }
}

/// The state of a listener after a sequence of events.
pub open spec fn listener_run(state: ListenerView, events: Seq<ListenerEventView>) -> ListenerView
    decreases events.len(),
{
    if events.len() == 0 {
        state
    } else {
        listener_step(listener_run(state, events.drop_last()), events.last()).0
    }
}

impl Listener {
    /// A listener that has not bound its socket yet.
    pub fn new() -> (listener: Listener)
        ensures
            listener@ == ListenerView::Idle,
    {
        Listener::Idle
    }

    /// Takes one event and says what state follows and what is to be done.
    pub fn handle(self, event: ListenerEvent) -> (r: (Listener, ListenerAction))
        ensures
            (r.0@, r.1) == listener_step(self@, event@),
    {
        match self {
            Listener::Idle => match event {
                ListenerEvent::Bound => (Listener::Listening, ListenerAction::Accept),
                ListenerEvent::BindFailed(reason) => (
                    Listener::Failed(reason),
                    ListenerAction::Report,
                ),
                ListenerEvent::Cancel => (Listener::Cancelled, ListenerAction::Release),
                ListenerEvent::Request(_) => (Listener::Idle, ListenerAction::Ignore),
            },
            Listener::Listening => match event {
                ListenerEvent::Cancel => (Listener::Cancelled, ListenerAction::Release),
                ListenerEvent::Request(url) => match classify(url.as_str()) {
                    Some(CallbackResult::Error { reason }) => (
                        Listener::Resolved(CallbackResult::Error { reason }),
                        ListenerAction::Respond { page: Page::Failure, stop: true },
                    ),
                    Some(CallbackResult::Success { code, state }) => (
                        Listener::Resolved(CallbackResult::Success { code, state }),
                        ListenerAction::Respond { page: Page::Success, stop: true },
                    ),
                    None => (
                        Listener::Listening,
                        ListenerAction::Respond { page: Page::Waiting, stop: false },
                    ),
                },
                _ => (Listener::Listening, ListenerAction::Ignore),
            },
            Listener::Resolved(result) => (Listener::Resolved(result), ListenerAction::Ignore),
            Listener::Failed(reason) => (Listener::Failed(reason), ListenerAction::Ignore),
            Listener::Cancelled => (Listener::Cancelled, ListenerAction::Ignore),
        }
    }

    /// The result, once a request has settled the authorization.
    pub fn result(&self) -> (r: Option<&CallbackResult>)
        ensures
            match r {
                Some(result) => self@ == ListenerView::Resolved(result@),
                None => !(self@ is Resolved),
            },
    {
        match self {
            Listener::Resolved(result) => Some(result),
            _ => None,
        }
    }
}

/// A listener that has ended takes no further event: the state stays as it
/// is and nothing is done. In particular a second request to a resolved
/// listener is not processed.
pub proof fn lemma_terminal_is_final(state: ListenerView, event: ListenerEventView)
    requires
        is_terminal(state),
    ensures
        listener_step(state, event) == (state, ListenerAction::Ignore),
{
}

/// The socket is released with a result exactly when the step resolves the
/// listener, and a resolving step starts from a listening one.
pub proof fn lemma_stop_iff_resolving(state: ListenerView, event: ListenerEventView)
    ensures
        (listener_step(state, event).1 matches ListenerAction::Respond { stop, .. } && stop) <==> (
        !(state is Resolved) && listener_step(state, event).0 is Resolved),
        !(state is Resolved) && listener_step(state, event).0 is Resolved ==> state is Listening,
{
}

/// Over a whole lifetime a listener resolves at most once: whatever
/// follows the events that resolved it changes nothing.
pub proof fn lemma_resolves_once(
    state: ListenerView,
    events: Seq<ListenerEventView>,
    more: Seq<ListenerEventView>,
)
    requires
        is_terminal(listener_run(state, events)),
    ensures
        listener_run(state, events + more) == listener_run(state, events),
    decreases more.len(),
{
    if more.len() > 0 {
        lemma_resolves_once(state, events, more.drop_last());
        assert((events + more).drop_last() =~= events + more.drop_last());
    }
}

} // verus!
