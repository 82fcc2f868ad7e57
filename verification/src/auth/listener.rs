//! The loopback callback listener.
//!
//! The listener serves one redirect on a fixed local address, hands the
//! authorization code it carries to the waiting login, and shuts down. Its
//! life cycle is a state machine: the caller performs the action the machine
//! asks for (bind the port, wait for the code, signal shutdown, wait for the
//! server to stop) and feeds back what happened. The machine decides what
//! comes next and with which result the wait ends.

use vstd::prelude::*;

use crate::auth::error::{AuthError, AuthErrorView};

verus! {

/// The local address the listener binds.
pub const CALLBACK_ADDRESS: &'static str = "localhost:8080";

/// The path the provider redirects to.
pub const CALLBACK_PATH: &'static str = "/callback";

/// The status of every answer to a callback request.
pub const CALLBACK_STATUS: u16 = 200;

/// The page shown when the code reached the waiting login.
pub const SUCCESS_PAGE: &'static str =
    "<h1>Authentication successful!</h1><p>You can now close this window.</p>";

/// The page shown when nobody was left to take the code.
pub const FAILURE_PAGE: &'static str =
    "<h1>Authentication failed</h1><p>The authentication session may have timed out. Please try again.</p>";

/// What the browser is sent in answer to a callback request.
pub struct CallbackReply {
    pub status: u16,
    pub body: &'static str,
}

/// The answer to a callback request, given whether the hand-off channel took
/// the code: the success page if it did, the failure page if not, both with
/// the same status.
pub fn callback_reply(delivered: bool) -> (reply: CallbackReply)
    ensures
        reply.status == CALLBACK_STATUS,
        delivered ==> reply.body@ == SUCCESS_PAGE@,
        !delivered ==> reply.body@ == FAILURE_PAGE@,
{
    if delivered {
        CallbackReply { status: CALLBACK_STATUS, body: SUCCESS_PAGE }
    } else {
        CallbackReply { status: CALLBACK_STATUS, body: FAILURE_PAGE }
    }
}

/// Mathematical value of a [`ListenerState`].
pub enum ListenerStateView {
    Idle,
    Listening,
    Delivered { code: Seq<char> },
    ShuttingDown { code: Seq<char> },
    Stopped,
}

/// Where the listener stands in its life cycle.
#[derive(Debug, PartialEq, Eq)]
pub enum ListenerState {
    /// Nothing is bound yet.
    Idle,
    /// The port is bound and the server accepts connections.
    Listening,
    /// The waiting login holds the code; the server still runs.
    Delivered { code: String },
    /// Shutdown was signalled; in-flight answers are being completed.
    ShuttingDown { code: String },
    /// The server is gone and the port is free.
    Stopped,
}

impl View for ListenerState {
    type V = ListenerStateView;

    open spec fn view(&self) -> ListenerStateView {
        match self {
            ListenerState::Idle => ListenerStateView::Idle,
            ListenerState::Listening => ListenerStateView::Listening,
            ListenerState::Delivered { code } => ListenerStateView::Delivered { code: code@ },
            ListenerState::ShuttingDown { code } => ListenerStateView::ShuttingDown { code: code@ },
            ListenerState::Stopped => ListenerStateView::Stopped,
        }
    }
}

/// Mathematical value of a [`ListenerEvent`].
pub enum ListenerEventView {
    Bound,
    BindFailed { cause: Seq<char> },
    CodeReceived { code: Seq<char> },
    ChannelClosed,
    ShutdownSignalled,
    ServerStopped,
    ServerTaskFailed { cause: Seq<char> },
}

/// What the caller reports back after performing an action.
#[derive(Debug, PartialEq, Eq)]
pub enum ListenerEvent {
    /// The port was bound and the server started.
    Bound,
    /// The port could not be bound.
    BindFailed { cause: String },
    /// The hand-off channel yielded a code.
    CodeReceived { code: String },
    /// The hand-off channel closed without yielding a code.
    ChannelClosed,
    /// The shutdown signal was issued.
    ShutdownSignalled,
    /// The server task ran to completion.
    ServerStopped,
    /// The server task ended abnormally.
    ServerTaskFailed { cause: String },
}

impl View for ListenerEvent {
    type V = ListenerEventView;

    open spec fn view(&self) -> ListenerEventView {
        match self {
            ListenerEvent::Bound => ListenerEventView::Bound,
            ListenerEvent::BindFailed { cause } => ListenerEventView::BindFailed { cause: cause@ },
            ListenerEvent::CodeReceived { code } => ListenerEventView::CodeReceived { code: code@ },
            ListenerEvent::ChannelClosed => ListenerEventView::ChannelClosed,
            ListenerEvent::ShutdownSignalled => ListenerEventView::ShutdownSignalled,
            ListenerEvent::ServerStopped => ListenerEventView::ServerStopped,
            ListenerEvent::ServerTaskFailed { cause } => ListenerEventView::ServerTaskFailed {
                cause: cause@,
            },
        }
    }
}

/// Mathematical value of a [`ListenerAction`].
pub enum ListenerActionView {
    Bind,
    AwaitCode,
    SignalShutdown,
    AwaitStop,
    Finish { outcome: Result<Seq<char>, AuthErrorView> },
    Ignore,
}

/// What the caller is to do next.
#[derive(Debug, PartialEq, Eq)]
pub enum ListenerAction {
    /// Bind [`CALLBACK_ADDRESS`] and start serving [`CALLBACK_PATH`].
    Bind,
    /// Wait on the hand-off channel for the first code.
    AwaitCode,
    /// Tell the server to shut down gracefully.
    SignalShutdown,
    /// Wait until the server task has ended.
    AwaitStop,
    /// Return `outcome` to whoever waits for the authorization code.
    Finish { outcome: Result<String, AuthError> },
    /// The event does not belong to the current state; nothing changes.
    Ignore,
}

/// Mathematical value of the result of waiting for the authorization code.
pub open spec fn code_outcome_view(outcome: Result<String, AuthError>) -> Result<
    Seq<char>,
    AuthErrorView,
> {
    match outcome {
        Ok(code) => Ok(code@),
        Err(error) => Err(error@),
    }
}

impl View for ListenerAction {
    type V = ListenerActionView;

    open spec fn view(&self) -> ListenerActionView {
        match self {
            ListenerAction::Bind => ListenerActionView::Bind,
            ListenerAction::AwaitCode => ListenerActionView::AwaitCode,
            ListenerAction::SignalShutdown => ListenerActionView::SignalShutdown,
            ListenerAction::AwaitStop => ListenerActionView::AwaitStop,
            ListenerAction::Finish { outcome } => ListenerActionView::Finish {
                outcome: code_outcome_view(*outcome),
            },
            ListenerAction::Ignore => ListenerActionView::Ignore,
        }
    }
}

/// The listener's transition relation: the state and the action that follow
/// when `event` is reported in `state`.
///
/// - Idle: a successful bind leads to Listening; a failed one ends the wait
///   with `ListenerBindError`.
/// - Listening: the first code leads to Delivered and asks for the shutdown
///   signal; a closed channel ends the wait with `CallbackChannelClosed`.
/// - Delivered: once shutdown is signalled the listener is ShuttingDown.
/// - ShuttingDown: when the server has stopped the wait ends with the code;
///   if its task failed, with `ListenerTaskFailed`.
/// - Any other pairing leaves the state as it is.
pub open spec fn listener_transition(state: ListenerStateView, event: ListenerEventView) -> (
    ListenerStateView,
    ListenerActionView,
) {
    match (state, event) {
        (ListenerStateView::Idle, ListenerEventView::Bound) => (
            ListenerStateView::Listening,
            ListenerActionView::AwaitCode,
        ),
        (ListenerStateView::Idle, ListenerEventView::BindFailed { cause }) => (
            ListenerStateView::Stopped,
            ListenerActionView::Finish {
                outcome: Err(AuthErrorView::ListenerBindError { cause }),
            },
        ),
        (ListenerStateView::Listening, ListenerEventView::CodeReceived { code }) => (
            ListenerStateView::Delivered { code },
            ListenerActionView::SignalShutdown,
        ),
        (ListenerStateView::Listening, ListenerEventView::ChannelClosed) => (
            ListenerStateView::Stopped,
            ListenerActionView::Finish { outcome: Err(AuthErrorView::CallbackChannelClosed) },
        ),
        (ListenerStateView::Delivered { code }, ListenerEventView::ShutdownSignalled) => (
            ListenerStateView::ShuttingDown { code },
            ListenerActionView::AwaitStop,
        ),
        (ListenerStateView::ShuttingDown { code }, ListenerEventView::ServerStopped) => (
            ListenerStateView::Stopped,
            ListenerActionView::Finish { outcome: Ok(code) },
        ),
        (ListenerStateView::ShuttingDown { code }, ListenerEventView::ServerTaskFailed { cause }) => (
            ListenerStateView::Stopped,
            ListenerActionView::Finish {
                outcome: Err(AuthErrorView::ListenerTaskFailed { cause }),
            },
        ),
        _ => (state, ListenerActionView::Ignore),
    }
}

/// The listener before anything has happened, and the first thing to do.
pub fn listener_start() -> (first: (ListenerState, ListenerAction))
    ensures
        first.0@ == ListenerStateView::Idle,
        first.1@ == ListenerActionView::Bind,
{
    (ListenerState::Idle, ListenerAction::Bind)
}

/// Advances the listener by one reported event.
pub fn listener_step(state: ListenerState, event: ListenerEvent) -> (next: (
    ListenerState,
    ListenerAction,
))
    ensures
        (next.0@, next.1@) == listener_transition(state@, event@),
{
    match state {
        ListenerState::Idle => match event {
            ListenerEvent::Bound => (ListenerState::Listening, ListenerAction::AwaitCode),
            ListenerEvent::BindFailed { cause } => (
                ListenerState::Stopped,
                ListenerAction::Finish { outcome: Err(AuthError::ListenerBindError { cause }) },
            ),
            _ => (ListenerState::Idle, ListenerAction::Ignore),
        },
        ListenerState::Listening => match event {
            ListenerEvent::CodeReceived { code } => (
                ListenerState::Delivered { code },
                ListenerAction::SignalShutdown,
            ),
            ListenerEvent::ChannelClosed => (
                ListenerState::Stopped,
                ListenerAction::Finish { outcome: Err(AuthError::CallbackChannelClosed) },
            ),
            _ => (ListenerState::Listening, ListenerAction::Ignore),
        },
        ListenerState::Delivered { code } => match event {
            ListenerEvent::ShutdownSignalled => (
                ListenerState::ShuttingDown { code },
                ListenerAction::AwaitStop,
            ),
            _ => (ListenerState::Delivered { code }, ListenerAction::Ignore),
        },
        ListenerState::ShuttingDown { code } => match event {
            ListenerEvent::ServerStopped => (
                ListenerState::Stopped,
                ListenerAction::Finish { outcome: Ok(code) },
            ),
            ListenerEvent::ServerTaskFailed { cause } => (
                ListenerState::Stopped,
                ListenerAction::Finish { outcome: Err(AuthError::ListenerTaskFailed { cause }) },
            ),
            _ => (ListenerState::ShuttingDown { code }, ListenerAction::Ignore),
        },
        ListenerState::Stopped => (ListenerState::Stopped, ListenerAction::Ignore),
    }
}

/// The code the waiting login holds in `state`, if it holds one.
pub open spec fn held_code(state: ListenerStateView) -> Option<Seq<char>> {
    match state {
        ListenerStateView::Delivered { code } => Some(code),
        ListenerStateView::ShuttingDown { code } => Some(code),
        _ => None,
    }
}

/// The state reached from `state` after `events` were reported in order.
pub open spec fn listener_run(
    state: ListenerStateView,
    events: Seq<ListenerEventView>,
) -> ListenerStateView
    decreases events.len(),
{
    if events.len() == 0 {
        state
    } else {
        listener_run(listener_transition(state, events[0]).0, events.drop_first())
    }
}

/// The shutdown signal is asked for only at the moment a code is delivered:
/// the listener was Listening, the event carried the code, and the code is
/// now held for the caller.
pub proof fn lemma_shutdown_follows_delivery(state: ListenerStateView, event: ListenerEventView)
    requires
        listener_transition(state, event).1 is SignalShutdown,
    ensures
        state is Listening,
        event is CodeReceived,
        listener_transition(state, event).0 == (ListenerStateView::Delivered {
            code: event->CodeReceived_code,
        }),
{
}

/// The wait ends with a code only once the server has stopped after a
/// shutdown, and the code it ends with is the one that was delivered.
pub proof fn lemma_success_follows_stop(
    state: ListenerStateView,
    event: ListenerEventView,
    code: Seq<char>,
)
    requires
        listener_transition(state, event).1 == (ListenerActionView::Finish { outcome: Ok(code) }),
    ensures
        state == (ListenerStateView::ShuttingDown { code }),
        event is ServerStopped,
        listener_transition(state, event).0 is Stopped,
{
}

/// The wait ends exactly when the listener becomes Stopped.
pub proof fn lemma_finish_iff_stopping(state: ListenerStateView, event: ListenerEventView)
    ensures
        listener_transition(state, event).1 is Finish <==> (!(state is Stopped)
            && listener_transition(state, event).0 is Stopped),
{
}

/// Stopped is final: every event is ignored there.
pub proof fn lemma_stopped_is_final(event: ListenerEventView)
    ensures
        listener_transition(ListenerStateView::Stopped, event) == (
            ListenerStateView::Stopped,
            ListenerActionView::Ignore,
        ),
{
}

/// Only the first code is accepted: once a code is held, whatever is reported
/// afterwards, the listener either still holds that same code or has stopped.
pub proof fn lemma_first_code_is_kept(
    state: ListenerStateView,
    events: Seq<ListenerEventView>,
    code: Seq<char>,
)
    requires
        held_code(state) == Some(code),
    ensures
        held_code(listener_run(state, events)) == Some(code) || listener_run(state, events)
            is Stopped,
    decreases events.len(),
{
    if events.len() > 0 {
        let next = listener_transition(state, events[0]).0;
        if next is Stopped {
            lemma_stopped_absorbs(events.drop_first());
        } else {
            lemma_first_code_is_kept(next, events.drop_first(), code);
        }
    }
}

/// No sequence of events leaves Stopped.
pub proof fn lemma_stopped_absorbs(events: Seq<ListenerEventView>)
    ensures
        listener_run(ListenerStateView::Stopped, events) is Stopped,
    decreases events.len(),
{
    if events.len() > 0 {
        lemma_stopped_absorbs(events.drop_first());
    }
}

/// How often the wait ends while `events` are reported in order from `state`.
pub open spec fn finish_count(state: ListenerStateView, events: Seq<ListenerEventView>) -> nat
    decreases events.len(),
{
    if events.len() == 0 {
        0
    } else {
        let step = listener_transition(state, events[0]);
        let here: nat = if step.1 is Finish {
            1
        } else {
            0
        };
        here + finish_count(step.0, events.drop_first())
    }
}

/// How often shutdown is asked for while `events` are reported in order from
/// `state`.
pub open spec fn shutdown_count(state: ListenerStateView, events: Seq<ListenerEventView>) -> nat
    decreases events.len(),
{
    if events.len() == 0 {
        0
    } else {
        let step = listener_transition(state, events[0]);
        let here: nat = if step.1 is SignalShutdown {
            1
        } else {
            0
        };
        here + shutdown_count(step.0, events.drop_first())
    }
}

/// Whatever is reported, in whatever order, the wait ends at most once.
pub proof fn lemma_wait_ends_at_most_once(state: ListenerStateView, events: Seq<ListenerEventView>)
    ensures
        finish_count(state, events) <= 1,
        state is Stopped ==> finish_count(state, events) == 0,
    decreases events.len(),
{
    if events.len() > 0 {
        let step = listener_transition(state, events[0]);
        lemma_wait_ends_at_most_once(step.0, events.drop_first());
    }
}

/// Whatever is reported, in whatever order, shutdown is asked for at most
/// once, and never again once a code has been delivered.
pub proof fn lemma_shutdown_signalled_at_most_once(
    state: ListenerStateView,
    events: Seq<ListenerEventView>,
)
    ensures
        shutdown_count(state, events) <= 1,
        !(state is Idle || state is Listening) ==> shutdown_count(state, events) == 0,
    decreases events.len(),
{
    if events.len() > 0 {
        let step = listener_transition(state, events[0]);
        lemma_shutdown_signalled_at_most_once(step.0, events.drop_first());
    }
}

/// A callback that carries `code` is answered in full: bind, receive the
/// code, signal shutdown, see the server stop, and the wait ends with `code`
/// in the Stopped state.
pub proof fn lemma_callback_delivers_code(code: Seq<char>)
    ensures
        ({
            let bound = listener_transition(ListenerStateView::Idle, ListenerEventView::Bound);
            let received = listener_transition(bound.0, ListenerEventView::CodeReceived { code });
            let signalled = listener_transition(received.0, ListenerEventView::ShutdownSignalled);
            let stopped = listener_transition(signalled.0, ListenerEventView::ServerStopped);
            &&& bound.1 is AwaitCode
            &&& received.1 is SignalShutdown
            &&& signalled.1 is AwaitStop
            &&& stopped == (
                ListenerStateView::Stopped,
                ListenerActionView::Finish { outcome: Ok(code) },
            )
        }),
{
}

/// A listener whose hand-off channel closes before any code arrives ends the
/// wait with `CallbackChannelClosed`.
pub proof fn lemma_closed_channel_fails()
    ensures
        ({
            let bound = listener_transition(ListenerStateView::Idle, ListenerEventView::Bound);
            listener_transition(bound.0, ListenerEventView::ChannelClosed) == (
                ListenerStateView::Stopped,
                ListenerActionView::Finish { outcome: Err(AuthErrorView::CallbackChannelClosed) },
            )
        }),
{
}

} // verus!
