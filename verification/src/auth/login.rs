//! The login flow as a state machine.
//!
//! A login generates a PKCE pair, brings up the callback listener, shows the
//! authorization URL once the listener is bound, waits for the code, lets the
//! listener stop, exchanges the code together with the verifier of the same
//! attempt, and stores the tokens. The first step that fails ends the login
//! with that step's error.
//!
//! The machine embeds the listener's machine: listener events are passed on
//! to it, and what it asks for is either passed out or, at the two points
//! where the login takes over, replaced by the login's own action.

use vstd::prelude::*;

use crate::auth::error::{AuthError, AuthErrorView, StoreError, StoreErrorView};
use crate::auth::listener::{
    listener_start, listener_step, listener_transition, ListenerAction, ListenerActionView,
    ListenerEvent, ListenerEventView, ListenerState, ListenerStateView,
};
use crate::auth::oauth::{
    authorization_url, authorization_url_text, exchange_outcome, exchange_rule, token_request_for,
    ExchangeReply, ExchangeReplyView, OAuthClient, OAuthClientView, TokenRequest, TokenRequestView,
};
use crate::auth::pkce::{PkceChallenge, PkceView};
use crate::auth::token_store::unit_result_view;
use crate::auth::{Tokens, TokensView};

verus! {

/// Mathematical value of a [`LoginState`].
pub enum LoginStateView {
    Listening { pkce: PkceView, listener: ListenerStateView },
    Exchanging,
    Persisting,
    Finished,
}

/// Where a login attempt stands.
#[derive(Debug, PartialEq, Eq)]
pub enum LoginState {
    /// The listener is being brought up, is waiting, or is shutting down.
    /// The PKCE pair of this attempt is kept until the exchange.
    Listening { pkce: PkceChallenge, listener: ListenerState },
    /// The token request is on its way.
    Exchanging,
    /// The tokens are being stored.
    Persisting,
    /// The login has ended.
    Finished,
}

impl View for LoginState {
    type V = LoginStateView;

    open spec fn view(&self) -> LoginStateView {
        match self {
            LoginState::Listening { pkce, listener } => LoginStateView::Listening {
                pkce: pkce@,
                listener: listener@,
            },
            LoginState::Exchanging => LoginStateView::Exchanging,
            LoginState::Persisting => LoginStateView::Persisting,
            LoginState::Finished => LoginStateView::Finished,
        }
    }
}

/// Mathematical value of a [`LoginEvent`].
pub enum LoginEventView {
    Listener { event: ListenerEventView },
    Exchanged { reply: ExchangeReplyView },
    Persisted { result: Result<(), StoreErrorView> },
}

/// What is reported back to the login.
#[derive(Debug, PartialEq, Eq)]
pub enum LoginEvent {
    /// Something happened at the listener.
    Listener { event: ListenerEvent },
    /// The token request was answered, or failed to be.
    Exchanged { reply: ExchangeReply },
    /// The token store has saved the tokens, or failed to.
    Persisted { result: Result<(), StoreError> },
}

impl View for LoginEvent {
    type V = LoginEventView;

    open spec fn view(&self) -> LoginEventView {
        match self {
            LoginEvent::Listener { event } => LoginEventView::Listener { event: event@ },
            LoginEvent::Exchanged { reply } => LoginEventView::Exchanged { reply: reply@ },
            LoginEvent::Persisted { result } => LoginEventView::Persisted {
                result: unit_result_view(*result),
            },
        }
    }
}

/// Mathematical value of a [`LoginAction`].
pub enum LoginActionView {
    Listener { action: ListenerActionView },
    PresentAndAwait { url: Seq<char> },
    Exchange { request: TokenRequestView },
    Persist { tokens: TokensView },
    Finish { outcome: Result<(), AuthErrorView> },
    Ignore,
}

/// What is to be done next for the login.
#[derive(Debug, PartialEq, Eq)]
pub enum LoginAction {
    /// Perform this action at the listener.
    Listener { action: ListenerAction },
    /// Show `url` to the user, then wait on the hand-off channel for the code.
    PresentAndAwait { url: String },
    /// Post `request` to the token endpoint, once.
    Exchange { request: TokenRequest },
    /// Save `tokens` in the token store.
    Persist { tokens: Tokens },
    /// The login is over with `outcome`.
    Finish { outcome: Result<(), AuthError> },
    /// The event does not belong to the current state; nothing changes.
    Ignore,
}

/// Mathematical value of the result of a login.
pub open spec fn login_outcome_view(outcome: Result<(), AuthError>) -> Result<(), AuthErrorView> {
    match outcome {
        Ok(_) => Ok(()),
        Err(error) => Err(error@),
    }
}

impl View for LoginAction {
    type V = LoginActionView;

    open spec fn view(&self) -> LoginActionView {
        match self {
            LoginAction::Listener { action } => LoginActionView::Listener { action: action@ },
            LoginAction::PresentAndAwait { url } => LoginActionView::PresentAndAwait { url: url@ },
            LoginAction::Exchange { request } => LoginActionView::Exchange { request: request@ },
            LoginAction::Persist { tokens } => LoginActionView::Persist { tokens: tokens@ },
            LoginAction::Finish { outcome } => LoginActionView::Finish {
                outcome: login_outcome_view(*outcome),
            },
            LoginAction::Ignore => LoginActionView::Ignore,
        }
    }
}

/// The result of the login, by the result of saving the tokens: a failed
/// save is a persistence error of its own, so that a login whose exchange
/// succeeded is told apart from one that never got tokens.
pub open spec fn persist_rule(result: Result<(), StoreErrorView>) -> Result<(), AuthErrorView> {
    match result {
        Ok(_) => Ok(()),
        Err(failure) => Err(AuthErrorView::TokenPersistenceError { failure }),
    }
}

/// What the login makes of what the listener asks for.
///
/// - When the listener has bound and wants to wait for the code, the URL is
///   shown first: it carries this attempt's challenge.
/// - When the listener has stopped and yields the code, the code is
///   exchanged together with this attempt's verifier.
/// - When the listener ends with an error, the login ends with that error.
/// - Everything else the listener asks for is passed out as it is.
pub open spec fn login_after_listener(
    client: OAuthClientView,
    pkce: PkceView,
    listener: ListenerStateView,
    action: ListenerActionView,
) -> (LoginStateView, LoginActionView) {
    match action {
        ListenerActionView::AwaitCode => (
            LoginStateView::Listening { pkce, listener },
            LoginActionView::PresentAndAwait {
                url: authorization_url_text(client.client_id, pkce.challenge),
            },
        ),
        ListenerActionView::Finish { outcome: Ok(code) } => (
            LoginStateView::Exchanging,
            LoginActionView::Exchange { request: token_request_for(code, pkce.verifier, client) },
        ),
        ListenerActionView::Finish { outcome: Err(error) } => (
            LoginStateView::Finished,
            LoginActionView::Finish { outcome: Err(error) },
        ),
        ListenerActionView::Ignore => (
            LoginStateView::Listening { pkce, listener },
            LoginActionView::Ignore,
        ),
        _ => (LoginStateView::Listening { pkce, listener }, LoginActionView::Listener { action }),
    }
}

/// The login's transition relation: the state and the action that follow
/// when `event` is reported in `state`.
///
/// - Listening: a listener event moves the embedded listener, and
///   [`login_after_listener`] decides what follows.
/// - Exchanging: the reply is read by [`exchange_rule`]; tokens are to be
///   stored, an error ends the login.
/// - Persisting: the login ends as [`persist_rule`] says.
/// - Any other pairing leaves the state as it is.
pub open spec fn login_transition(
    client: OAuthClientView,
    state: LoginStateView,
    event: LoginEventView,
) -> (LoginStateView, LoginActionView) {
    match (state, event) {
        (LoginStateView::Listening { pkce, listener }, LoginEventView::Listener { event }) => {
            let moved = listener_transition(listener, event);
            login_after_listener(client, pkce, moved.0, moved.1)
        },
        (LoginStateView::Exchanging, LoginEventView::Exchanged { reply }) => {
            match exchange_rule(reply) {
                Ok(tokens) => (LoginStateView::Persisting, LoginActionView::Persist { tokens }),
                Err(error) => (
                    LoginStateView::Finished,
                    LoginActionView::Finish { outcome: Err(error) },
                ),
            }
        },
        (LoginStateView::Persisting, LoginEventView::Persisted { result }) => (
            LoginStateView::Finished,
            LoginActionView::Finish { outcome: persist_rule(result) },
        ),
        _ => (state, LoginActionView::Ignore),
    }
}

/// The state and the action a login with the pair `pkce` starts with: the
/// listener is idle and is to be bound. No URL has been shown yet.
pub open spec fn login_opening(pkce: PkceView) -> (LoginStateView, LoginActionView) {
    (
        LoginStateView::Listening { pkce, listener: ListenerStateView::Idle },
        LoginActionView::Listener { action: ListenerActionView::Bind },
    )
}

/// Starts a login with a given PKCE pair.
pub fn login_start(pkce: PkceChallenge) -> (first: (LoginState, LoginAction))
    ensures
        (first.0@, first.1@) == login_opening(pkce@),
{
    let (listener, action) = listener_start();
    (LoginState::Listening { pkce, listener }, LoginAction::Listener { action })
}

/// The result of the login, given the result of saving the tokens.
pub fn persist_outcome(result: Result<(), StoreError>) -> (outcome: Result<(), AuthError>)
    ensures
        login_outcome_view(outcome) == persist_rule(unit_result_view(result)),
{
    match result {
        Ok(_) => Ok(()),
        Err(failure) => Err(AuthError::TokenPersistenceError { failure }),
    }
}

/// Advances the login by one reported event.
pub fn login_step(client: &OAuthClient, state: LoginState, event: LoginEvent) -> (next: (
    LoginState,
    LoginAction,
))
    ensures
        (next.0@, next.1@) == login_transition(client@, state@, event@),
{
    match state {
        LoginState::Listening { pkce, listener } => match event {
            LoginEvent::Listener { event } => {
                let (listener, action) = listener_step(listener, event);
                match action {
                    ListenerAction::AwaitCode => {
                        let url = authorization_url(client.client_id(), pkce.challenge());
                        (
                            LoginState::Listening { pkce, listener },
                            LoginAction::PresentAndAwait { url },
                        )
                    },
                    ListenerAction::Finish { outcome } => match outcome {
                        Ok(code) => {
                            let request = TokenRequest::new(
                                code.as_str(),
                                pkce.code_verifier(),
                                client,
                            );
                            (LoginState::Exchanging, LoginAction::Exchange { request })
                        },
                        Err(error) => (
                            LoginState::Finished,
                            LoginAction::Finish { outcome: Err(error) },
                        ),
                    },
                    ListenerAction::Ignore => (
                        LoginState::Listening { pkce, listener },
                        LoginAction::Ignore,
                    ),
                    action => (
                        LoginState::Listening { pkce, listener },
                        LoginAction::Listener { action },
                    ),
                }
            },
            _ => (LoginState::Listening { pkce, listener }, LoginAction::Ignore),
        },
        LoginState::Exchanging => match event {
            LoginEvent::Exchanged { reply } => match exchange_outcome(reply) {
                Ok(tokens) => (LoginState::Persisting, LoginAction::Persist { tokens }),
                Err(error) => (LoginState::Finished, LoginAction::Finish { outcome: Err(error) }),
            },
            _ => (LoginState::Exchanging, LoginAction::Ignore),
        },
        LoginState::Persisting => match event {
            LoginEvent::Persisted { result } => (
                LoginState::Finished,
                LoginAction::Finish { outcome: persist_outcome(result) },
            ),
            _ => (LoginState::Persisting, LoginAction::Ignore),
        },
        LoginState::Finished => (LoginState::Finished, LoginAction::Ignore),
    }
}

/// The URL is shown only once the port is bound: the action arises from an
/// idle listener on a successful bind and from nothing else, so a bind
/// failure ends the login before any URL is shown. The URL carries the
/// challenge of this attempt.
pub proof fn lemma_url_follows_bind(
    client: OAuthClientView,
    state: LoginStateView,
    event: LoginEventView,
)
    requires
        login_transition(client, state, event).1 is PresentAndAwait,
    ensures
        state is Listening,
        state->listener is Idle,
        event == (LoginEventView::Listener { event: ListenerEventView::Bound }),
        login_transition(client, state, event) == (
            LoginStateView::Listening { pkce: state->pkce, listener: ListenerStateView::Listening },
            LoginActionView::PresentAndAwait {
                url: authorization_url_text(client.client_id, state->pkce.challenge),
            },
        ),
{
}

/// A bind failure ends the login at once with `ListenerBindError`.
pub proof fn lemma_bind_failure_ends_login(
    client: OAuthClientView,
    pkce: PkceView,
    cause: Seq<char>,
)
    ensures
        login_transition(
            client,
            login_opening(pkce).0,
            LoginEventView::Listener { event: ListenerEventView::BindFailed { cause } },
        ) == (
            LoginStateView::Finished,
            LoginActionView::Finish { outcome: Err(AuthErrorView::ListenerBindError { cause }) },
        ),
{
}

/// The exchange is asked for only when the listener has stopped after a
/// shutdown, and the request binds the code that was delivered to the
/// verifier of the same attempt.
pub proof fn lemma_exchange_binds_session(
    client: OAuthClientView,
    state: LoginStateView,
    event: LoginEventView,
)
    requires
        login_transition(client, state, event).1 is Exchange,
    ensures
        state is Listening,
        state->listener is ShuttingDown,
        event == (LoginEventView::Listener { event: ListenerEventView::ServerStopped }),
        login_transition(client, state, event) == (
            LoginStateView::Exchanging,
            LoginActionView::Exchange {
                request: token_request_for(
                    state->listener->ShuttingDown_code,
                    state->pkce.verifier,
                    client,
                ),
            },
        ),
{
}

/// What a step passes out for the listener is always work to be done there:
/// the shutdown signal or the wait for the server to stop. Binding is asked
/// for by the opening alone, and the wait for the code only together with
/// the URL. The tokens are never stored before they were exchanged.
pub proof fn lemma_passed_out_actions(
    client: OAuthClientView,
    state: LoginStateView,
    event: LoginEventView,
)
    ensures
        login_transition(client, state, event).1 matches LoginActionView::Listener { action }
            ==> action is SignalShutdown || action is AwaitStop,
        login_transition(client, state, event).1 is Persist ==> state is Exchanging,
{
}

/// The PKCE pair of an attempt never changes while the listener runs.
pub proof fn lemma_pair_is_kept(client: OAuthClientView, state: LoginStateView, event: LoginEventView)
    requires
        state is Listening,
        login_transition(client, state, event).0 is Listening,
    ensures
        login_transition(client, state, event).0->pkce == state->pkce,
{
}

/// The first failing step ends the login with that step's own error,
/// unchanged. Here: the listener ends with `error`.
pub proof fn lemma_listener_error_ends_login(
    client: OAuthClientView,
    pkce: PkceView,
    listener: ListenerStateView,
    event: ListenerEventView,
    error: AuthErrorView,
)
    requires
        listener_transition(listener, event).1 == (ListenerActionView::Finish {
            outcome: Err(error),
        }),
    ensures
        login_transition(
            client,
            LoginStateView::Listening { pkce, listener },
            LoginEventView::Listener { event },
        ) == (LoginStateView::Finished, LoginActionView::Finish { outcome: Err(error) }),
{
}

/// The first failing step ends the login with that step's own error,
/// unchanged. Here: the exchange fails with `error`.
pub proof fn lemma_exchange_error_ends_login(
    client: OAuthClientView,
    reply: ExchangeReplyView,
    error: AuthErrorView,
)
    requires
        exchange_rule(reply) == Err::<TokensView, AuthErrorView>(error),
    ensures
        login_transition(client, LoginStateView::Exchanging, LoginEventView::Exchanged { reply })
            == (LoginStateView::Finished, LoginActionView::Finish { outcome: Err(error) }),
{
}

/// A failed save after a successful exchange is reported as a persistence
/// error of its own, which holds the store's failure.
pub proof fn lemma_persist_error_ends_login(client: OAuthClientView, failure: StoreErrorView)
    ensures
        login_transition(
            client,
            LoginStateView::Persisting,
            LoginEventView::Persisted { result: Err(failure) },
        ) == (
            LoginStateView::Finished,
            LoginActionView::Finish {
                outcome: Err(AuthErrorView::TokenPersistenceError { failure }),
            },
        ),
{
}

/// The login ends exactly when it becomes Finished, and Finished is final.
pub proof fn lemma_finish_iff_finished(
    client: OAuthClientView,
    state: LoginStateView,
    event: LoginEventView,
)
    ensures
        login_transition(client, state, event).1 is Finish <==> (!(state is Finished)
            && login_transition(client, state, event).0 is Finished),
        state is Finished ==> login_transition(client, state, event) == (
            state,
            LoginActionView::Ignore,
        ),
{
}

/// How often the token request is to be posted while `events` are reported
/// in order from `state`.
pub open spec fn exchange_count(
    client: OAuthClientView,
    state: LoginStateView,
    events: Seq<LoginEventView>,
) -> nat
    decreases events.len(),
{
    if events.len() == 0 {
        0
    } else {
        let step = login_transition(client, state, events[0]);
        let here: nat = if step.1 is Exchange {
            1
        } else {
            0
        };
        here + exchange_count(client, step.0, events.drop_first())
    }
}

/// How often the URL is to be shown while `events` are reported in order
/// from `state`.
pub open spec fn present_count(
    client: OAuthClientView,
    state: LoginStateView,
    events: Seq<LoginEventView>,
) -> nat
    decreases events.len(),
{
    if events.len() == 0 {
        0
    } else {
        let step = login_transition(client, state, events[0]);
        let here: nat = if step.1 is PresentAndAwait {
            1
        } else {
            0
        };
        here + present_count(client, step.0, events.drop_first())
    }
}

/// How often the login ends while `events` are reported in order from
/// `state`.
pub open spec fn login_finish_count(
    client: OAuthClientView,
    state: LoginStateView,
    events: Seq<LoginEventView>,
) -> nat
    decreases events.len(),
{
    if events.len() == 0 {
        0
    } else {
        let step = login_transition(client, state, events[0]);
        let here: nat = if step.1 is Finish {
            1
        } else {
            0
        };
        here + login_finish_count(client, step.0, events.drop_first())
    }
}

/// A single attempt, never a retry: whatever is reported, in whatever order,
/// the token request is posted at most once in a login.
pub proof fn lemma_exchange_at_most_once(
    client: OAuthClientView,
    state: LoginStateView,
    events: Seq<LoginEventView>,
)
    ensures
        exchange_count(client, state, events) <= 1,
        !(state is Listening) ==> exchange_count(client, state, events) == 0,
    decreases events.len(),
{
    if events.len() > 0 {
        let step = login_transition(client, state, events[0]);
        lemma_exchange_at_most_once(client, step.0, events.drop_first());
    }
}

/// Whatever is reported, in whatever order, the URL is shown at most once in
/// a login, and only while the listener is idle before.
pub proof fn lemma_url_shown_at_most_once(
    client: OAuthClientView,
    state: LoginStateView,
    events: Seq<LoginEventView>,
)
    ensures
        present_count(client, state, events) <= 1,
        !(state is Listening && state->listener is Idle) ==> present_count(client, state, events)
            == 0,
    decreases events.len(),
{
    if events.len() > 0 {
        let step = login_transition(client, state, events[0]);
        lemma_url_shown_at_most_once(client, step.0, events.drop_first());
    }
}

/// Whatever is reported, in whatever order, a login ends at most once.
pub proof fn lemma_login_ends_at_most_once(
    client: OAuthClientView,
    state: LoginStateView,
    events: Seq<LoginEventView>,
)
    ensures
        login_finish_count(client, state, events) <= 1,
        state is Finished ==> login_finish_count(client, state, events) == 0,
    decreases events.len(),
{
    if events.len() > 0 {
        let step = login_transition(client, state, events[0]);
        lemma_login_ends_at_most_once(client, step.0, events.drop_first());
    }
}

/// A login in which every step succeeds. For any pair, code, and reply with
/// a success status and a token set: the port is bound first; the URL with
/// the pair's challenge is shown next; the code is received, shutdown is
/// signalled and awaited; the code is exchanged with the pair's verifier;
/// the tokens of the reply are the ones to be stored; and once they are
/// stored the login ends with success.
pub proof fn lemma_login_completes(
    client: OAuthClientView,
    pkce: PkceView,
    code: Seq<char>,
    status: u16,
    body: Seq<char>,
    tokens: TokensView,
)
    requires
        200 <= status <= 299,
    ensures
        ({
            let opening = login_opening(pkce);
            let bound = login_transition(
                client,
                opening.0,
                LoginEventView::Listener { event: ListenerEventView::Bound },
            );
            let received = login_transition(
                client,
                bound.0,
                LoginEventView::Listener { event: ListenerEventView::CodeReceived { code } },
            );
            let signalled = login_transition(
                client,
                received.0,
                LoginEventView::Listener { event: ListenerEventView::ShutdownSignalled },
            );
            let stopped = login_transition(
                client,
                signalled.0,
                LoginEventView::Listener { event: ListenerEventView::ServerStopped },
            );
            let exchanged = login_transition(
                client,
                stopped.0,
                LoginEventView::Exchanged {
                    reply: ExchangeReplyView::Response { status, body, tokens: Some(tokens) },
                },
            );
            let persisted = login_transition(
                client,
                exchanged.0,
                LoginEventView::Persisted { result: Ok(()) },
            );
            &&& opening.1 == (LoginActionView::Listener { action: ListenerActionView::Bind })
            &&& bound.1 == (LoginActionView::PresentAndAwait {
                url: authorization_url_text(client.client_id, pkce.challenge),
            })
            &&& received.1 == (LoginActionView::Listener {
                action: ListenerActionView::SignalShutdown,
            })
            &&& signalled.1 == (LoginActionView::Listener { action: ListenerActionView::AwaitStop })
            &&& stopped.1 == (LoginActionView::Exchange {
                request: token_request_for(code, pkce.verifier, client),
            })
            &&& exchanged.1 == (LoginActionView::Persist { tokens })
            &&& persisted == (LoginStateView::Finished, LoginActionView::Finish { outcome: Ok(()) })
        }),
{
}

} // verus!
