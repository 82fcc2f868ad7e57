//! Authentication: the token set and the login orchestrator.

use vstd::prelude::*;

use crate::auth::error::StoreErrorView;
use crate::auth::login::{
    login_opening, login_start, login_step, login_transition, persist_rule, LoginAction,
    LoginActionView, LoginEvent, LoginState, LoginStateView,
};
use crate::auth::oauth::OAuthClient;
use crate::auth::pkce::{generate_pkce_challenge, is_generated_pair, PkceView};
use crate::auth::token_store::{unit_result_view, TokenStore};

pub mod error;
pub mod listener;
pub mod login;
pub mod oauth;
pub mod pkce;
pub mod token_store;

verus! {

/// Mathematical value of a [`Tokens`].
pub struct TokensView {
    pub access_token: Seq<char>,
    pub refresh_token: Seq<char>,
    pub expires_in: u64,
}

/// The credential material issued by the token endpoint.
#[derive(Debug, PartialEq, Eq)]
pub struct Tokens {
    access_token: String,
    refresh_token: String,
    expires_in: u64,
}

impl View for Tokens {
    type V = TokensView;

    closed spec fn view(&self) -> TokensView {
        TokensView {
            access_token: self.access_token@,
            refresh_token: self.refresh_token@,
            expires_in: self.expires_in,
        }
    }
}

impl Tokens {
    /// Builds a token set from its three parts.
    pub fn new(access_token: String, refresh_token: String, expires_in: u64) -> (tokens: Tokens)
        ensures
            tokens@ == (TokensView {
                access_token: access_token@,
                refresh_token: refresh_token@,
                expires_in: expires_in,
            }),
    {
        Tokens { access_token, refresh_token, expires_in }
    }

    /// The bearer token presented to the service.
    pub fn access_token(&self) -> (text: &str)
        ensures
            text@ == self@.access_token,
    {
        self.access_token.as_str()
    }

    /// The token that obtains a fresh access token.
    pub fn refresh_token(&self) -> (text: &str)
        ensures
            text@ == self@.refresh_token,
    {
        self.refresh_token.as_str()
    }

    /// Lifetime of the access token in seconds.
    pub fn expires_in(&self) -> (seconds: u64)
        ensures
            seconds == self@.expires_in,
    {
        self.expires_in
    }
}

impl Clone for Tokens {
    /// An independent copy with the same value.
    fn clone(&self) -> (copy: Tokens)
        ensures
            copy@ == self@,
    {
        Tokens {
            access_token: self.access_token.clone(),
            refresh_token: self.refresh_token.clone(),
            expires_in: self.expires_in,
        }
    }
}

/// The login orchestrator. It owns the token store and depends on nothing
/// of it but the [`TokenStore`] capability.
pub struct Auth<S> where S: TokenStore {
    token_store: S,
}

impl<S> Auth<S> where S: TokenStore {
    /// The token store this orchestrator saves to.
    pub closed spec fn store(&self) -> S {
        self.token_store
    }

    /// An orchestrator that stores its tokens in `token_store`.
    pub fn new(token_store: S) -> (auth: Self)
        ensures
            auth.store() == token_store,
    {
        Auth { token_store }
    }

    /// The token store.
    pub fn token_store(&self) -> (store: &S)
        ensures
            *store == self.store(),
    {
        &self.token_store
    }

    /// Starts a login attempt with a freshly generated PKCE pair. Every
    /// attempt starts anew: nothing is resumed.
    pub fn begin(&self) -> (first: (LoginState, LoginAction))
        ensures
            exists|pkce: PkceView|
                is_generated_pair(pkce) && (first.0@, first.1@) == #[trigger] login_opening(pkce),
    {
        let pkce = generate_pkce_challenge();
        login_start(pkce)
    }

    /// Advances a login attempt by one reported event.
    ///
    /// The attempt moves as [`login_transition`] says. Where that asks for
    /// the tokens to be stored, they are handed to the token store at once
    /// and the login ends as [`persist_rule`] says of what the store
    /// returned: with success if it saved them, with a persistence error that
    /// holds its failure if it did not. In every other case the store is left
    /// as it was. The caller is never asked to store the tokens itself.
    pub fn advance(&mut self, client: &OAuthClient, state: LoginState, event: LoginEvent) -> (next:
        (LoginState, LoginAction))
        ensures
            match login_transition(client@, state@, event@).1 {
                LoginActionView::Persist { .. } => exists|result: Result<(), StoreErrorView>|
                    {
                        &&& next.0@ == LoginStateView::Finished
                        &&& next.1@ == (LoginActionView::Finish {
                            outcome: #[trigger] persist_rule(result),
                        })
                    },
                _ => {
                    &&& (next.0@, next.1@) == login_transition(client@, state@, event@)
                    &&& final(self).store() == old(self).store()
                },
            },
            !(next.1@ is Persist),
    {
        let (state, action) = login_step(client, state, event);
        match action {
            LoginAction::Persist { tokens } => {
                let result = self.token_store.save_tokens(&tokens);
                let ghost reported = unit_result_view(result);
                let next = login_step(client, state, LoginEvent::Persisted { result });
                assert(next.1@ == (LoginActionView::Finish { outcome: persist_rule(reported) }));
                next
            },
            action => (state, action),
        }
    }
}

} // verus!
