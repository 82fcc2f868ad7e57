//! The two messages of the authorization-code flow: the authorization URL the
//! user opens, and the token request that trades the code for tokens, with
//! the reading of the token endpoint's reply.

use vstd::prelude::*;

use crate::auth::error::{AuthError, AuthErrorView};
use crate::auth::{Tokens, TokensView};

verus! {

/// The token endpoint the code is exchanged at.
pub const TOKEN_ENDPOINT: &'static str = "https://oauth2.googleapis.com/token";

/// Where the provider sends the browser back to.
pub const REDIRECT_URI: &'static str = "http://localhost:8080/callback";

/// The grant type of the token request.
pub const GRANT_TYPE: &'static str = "authorization_code";

/// The provider's authorization endpoint.
pub const AUTHORIZATION_ENDPOINT: &'static str = "https://accounts.google.com/o/oauth2/v2/auth";

/// The kind of response asked for: an authorization code.
pub const RESPONSE_TYPE: &'static str = "code";

/// The scopes asked for, `openid email profile`, as they are written in a
/// query string.
pub const SCOPE: &'static str = "openid%20email%20profile";

/// The method by which the challenge was derived from the verifier.
pub const CHALLENGE_METHOD: &'static str = "S256";

/// Mathematical value of an [`OAuthClient`].
pub struct OAuthClientView {
    pub client_id: Seq<char>,
    pub client_secret: Seq<char>,
}

/// The identity of this client at the provider. It is fixed when the tool is
/// built and handed to whoever needs it; nothing changes it.
#[derive(Debug, PartialEq, Eq)]
pub struct OAuthClient {
    client_id: String,
    client_secret: String,
}

impl View for OAuthClient {
    type V = OAuthClientView;

    closed spec fn view(&self) -> OAuthClientView {
        OAuthClientView { client_id: self.client_id@, client_secret: self.client_secret@ }
    }
}

impl OAuthClient {
    /// The client with the given id and secret.
    pub fn new(client_id: String, client_secret: String) -> (client: OAuthClient)
        ensures
            client@ == (OAuthClientView { client_id: client_id@, client_secret: client_secret@ }),
    {
        OAuthClient { client_id, client_secret }
    }

    /// The public identifier of the client.
    pub fn client_id(&self) -> (text: &str)
        ensures
            text@ == self@.client_id,
    {
        self.client_id.as_str()
    }

    /// The secret that goes with the identifier.
    pub fn client_secret(&self) -> (text: &str)
        ensures
            text@ == self@.client_secret,
    {
        self.client_secret.as_str()
    }
}

/// The authorization URL for a client and a challenge: the endpoint, then
/// the query parameters `client_id`, `redirect_uri`, `response_type`, `scope`,
/// `code_challenge` and `code_challenge_method`, in this order.
pub open spec fn authorization_url_text(client_id: Seq<char>, challenge: Seq<char>) -> Seq<char> {
    AUTHORIZATION_ENDPOINT@ + "?client_id="@ + client_id + "&redirect_uri="@ + REDIRECT_URI@
        + "&response_type="@ + RESPONSE_TYPE@ + "&scope="@ + SCOPE@ + "&code_challenge="@
        + challenge + "&code_challenge_method="@ + CHALLENGE_METHOD@
}

/// Composes the URL at which the user grants access.
pub fn authorization_url(client_id: &str, challenge: &str) -> (url: String)
    ensures
        url@ == authorization_url_text(client_id@, challenge@),
{
    let mut url = String::from_str(AUTHORIZATION_ENDPOINT);
    url.append("?client_id=");
    url.append(client_id);
    url.append("&redirect_uri=");
    url.append(REDIRECT_URI);
    url.append("&response_type=");
    url.append(RESPONSE_TYPE);
    url.append("&scope=");
    url.append(SCOPE);
    url.append("&code_challenge=");
    url.append(challenge);
    url.append("&code_challenge_method=");
    url.append(CHALLENGE_METHOD);
    url
}

/// Whether `part` occurs in `text` as a contiguous piece.
pub open spec fn occurs_in(part: Seq<char>, text: Seq<char>) -> bool {
    exists|start: int|
        0 <= start && start + part.len() <= text.len() && #[trigger] text.subrange(
            start,
            start + part.len(),
        ) == part
}

/// The authorization URL carries the challenge it was built for, as the
/// value of `code_challenge`, and names `S256` as the challenge method.
pub proof fn lemma_url_carries_challenge(client_id: Seq<char>, challenge: Seq<char>)
    ensures
        occurs_in(
            "&code_challenge="@ + challenge + "&code_challenge_method="@ + CHALLENGE_METHOD@,
            authorization_url_text(client_id, challenge),
        ),
        occurs_in(challenge, authorization_url_text(client_id, challenge)),
        occurs_in(
            "code_challenge_method="@ + CHALLENGE_METHOD@,
            authorization_url_text(client_id, challenge),
        ),
{
    let url = authorization_url_text(client_id, challenge);
    let head = AUTHORIZATION_ENDPOINT@ + "?client_id="@ + client_id + "&redirect_uri="@
        + REDIRECT_URI@ + "&response_type="@ + RESPONSE_TYPE@ + "&scope="@ + SCOPE@;
    let key = "&code_challenge="@;
    let method = "&code_challenge_method="@ + CHALLENGE_METHOD@;
    assert(url =~= head + key + challenge + method);
    let at_key = head.len() as int;
    let at_value = at_key + key.len();
    let at_method = at_value + challenge.len();
    assert(url.subrange(at_key, at_key + (key + challenge + method).len()) =~= key + challenge
        + method);
    assert(key + challenge + method =~= "&code_challenge="@ + challenge
        + "&code_challenge_method="@ + CHALLENGE_METHOD@);
    assert(url.subrange(at_value, at_value + challenge.len()) =~= challenge);
    reveal_strlit("&code_challenge_method=");
    reveal_strlit("code_challenge_method=");
    let name = "code_challenge_method="@ + CHALLENGE_METHOD@;
    assert(method.subrange(1, method.len() as int) =~= name);
    assert(url.subrange(at_method + 1, at_method + 1 + name.len()) =~= name);
}

/// The redirect URI points at the callback listener: it is `http://`, the
/// address the listener binds, and the path it serves.
pub proof fn lemma_redirect_targets_listener()
    ensures
        REDIRECT_URI@ == "http://"@ + crate::auth::listener::CALLBACK_ADDRESS@
            + crate::auth::listener::CALLBACK_PATH@,
{
    reveal_strlit("http://localhost:8080/callback");
    reveal_strlit("http://");
    reveal_strlit("localhost:8080");
    reveal_strlit("/callback");
    assert(REDIRECT_URI@ =~= "http://"@ + crate::auth::listener::CALLBACK_ADDRESS@
        + crate::auth::listener::CALLBACK_PATH@);
}

/// Mathematical value of a [`TokenRequest`].
pub struct TokenRequestView {
    pub code: Seq<char>,
    pub client_id: Seq<char>,
    pub client_secret: Seq<char>,
    pub code_verifier: Seq<char>,
    pub redirect_uri: Seq<char>,
    pub grant_type: Seq<char>,
}

/// The fields posted to the token endpoint.
#[derive(Debug, PartialEq, Eq)]
pub struct TokenRequest {
    code: String,
    client_id: String,
    client_secret: String,
    code_verifier: String,
    redirect_uri: String,
    grant_type: String,
}

impl View for TokenRequest {
    type V = TokenRequestView;

    closed spec fn view(&self) -> TokenRequestView {
        TokenRequestView {
            code: self.code@,
            client_id: self.client_id@,
            client_secret: self.client_secret@,
            code_verifier: self.code_verifier@,
            redirect_uri: self.redirect_uri@,
            grant_type: self.grant_type@,
        }
    }
}

/// The request that exchanges `code`, proved by `code_verifier`, on behalf of
/// `client`.
pub open spec fn token_request_for(
    code: Seq<char>,
    code_verifier: Seq<char>,
    client: OAuthClientView,
) -> TokenRequestView {
    TokenRequestView {
        code,
        client_id: client.client_id,
        client_secret: client.client_secret,
        code_verifier,
        redirect_uri: REDIRECT_URI@,
        grant_type: GRANT_TYPE@,
    }
}

/// The form fields of a request, in the order they are posted.
pub open spec fn form_of(request: TokenRequestView) -> Seq<(Seq<char>, Seq<char>)> {
    seq![
        ("code"@, request.code),
        ("client_id"@, request.client_id),
        ("client_secret"@, request.client_secret),
        ("code_verifier"@, request.code_verifier),
        ("redirect_uri"@, request.redirect_uri),
        ("grant_type"@, request.grant_type),
    ]
}

/// Mathematical value of a list of form fields.
pub open spec fn fields_view(fields: Seq<(String, String)>) -> Seq<(Seq<char>, Seq<char>)> {
    fields.map_values(|field: (String, String)| (field.0@, field.1@))
}

fn field(name: &str, value: &str) -> (pair: (String, String))
    ensures
        pair.0@ == name@,
        pair.1@ == value@,
{
    (String::from_str(name), String::from_str(value))
}

impl TokenRequest {
    /// The request for an authorization code and the verifier of the same
    /// login attempt.
    pub fn new(code: &str, code_verifier: &str, client: &OAuthClient) -> (request: TokenRequest)
        ensures
            request@ == token_request_for(code@, code_verifier@, client@),
    {
        Self {
            code: String::from_str(code),
            client_id: String::from_str(client.client_id()),
            client_secret: String::from_str(client.client_secret()),
            code_verifier: String::from_str(code_verifier),
            redirect_uri: String::from_str(REDIRECT_URI),
            grant_type: String::from_str(GRANT_TYPE),
        }
    }

    /// The name and value of each form field, in posting order.
    pub fn form_fields(&self) -> (fields: Vec<(String, String)>)
        ensures
            fields_view(fields@) == form_of(self@),
    {
        let mut fields: Vec<(String, String)> = Vec::new();
        fields.push(field("code", self.code.as_str()));
        fields.push(field("client_id", self.client_id.as_str()));
        fields.push(field("client_secret", self.client_secret.as_str()));
        fields.push(field("code_verifier", self.code_verifier.as_str()));
        fields.push(field("redirect_uri", self.redirect_uri.as_str()));
        fields.push(field("grant_type", self.grant_type.as_str()));
        assert(fields_view(fields@) =~= form_of(self@));
        fields
    }
}

/// Mathematical value of an [`ExchangeReply`].
pub enum ExchangeReplyView {
    TransportFailed { cause: Seq<char> },
    Response { status: u16, body: Seq<char>, tokens: Option<TokensView> },
}

/// What came of posting the token request.
#[derive(Debug, PartialEq, Eq)]
pub enum ExchangeReply {
    /// No answer arrived.
    TransportFailed { cause: String },
    /// The endpoint answered with `status` and `body`; `tokens` is the token
    /// set the body spells, if it spells one.
    Response { status: u16, body: String, tokens: Option<Tokens> },
}

impl View for ExchangeReply {
    type V = ExchangeReplyView;

    open spec fn view(&self) -> ExchangeReplyView {
        match self {
            ExchangeReply::TransportFailed { cause } => ExchangeReplyView::TransportFailed {
                cause: cause@,
            },
            ExchangeReply::Response { status, body, tokens } => ExchangeReplyView::Response {
                status: *status,
                body: body@,
                tokens: match tokens {
                    Some(tokens) => Some(tokens@),
                    None => None,
                },
            },
        }
    }
}

/// Whether an HTTP status reports success: 200 to 299.
pub open spec fn is_success_status(status: u16) -> bool {
    200 <= status <= 299
}

/// The result of the exchange, by what came of the request: the tokens when
/// the endpoint answered with success and a well-formed token set; a
/// protocol error that keeps the raw status and body when the status is no
/// success or the body spells no token set; a transport error when no answer
/// arrived.
pub open spec fn exchange_rule(reply: ExchangeReplyView) -> Result<TokensView, AuthErrorView> {
    match reply {
        ExchangeReplyView::TransportFailed { cause } => Err(
            AuthErrorView::ExchangeTransportError { cause },
        ),
        ExchangeReplyView::Response { status, body, tokens } => {
            if is_success_status(status) && tokens is Some {
                Ok(tokens->Some_0)
            } else {
                Err(AuthErrorView::ExchangeProtocolError { status, body })
            }
        },
    }
}

/// Mathematical value of the result of an exchange.
pub open spec fn exchange_result_view(result: Result<Tokens, AuthError>) -> Result<
    TokensView,
    AuthErrorView,
> {
    match result {
        Ok(tokens) => Ok(tokens@),
        Err(error) => Err(error@),
    }
}

/// Reads the reply to the token request. There is a single attempt: nothing
/// is retried.
pub fn exchange_outcome(reply: ExchangeReply) -> (result: Result<Tokens, AuthError>)
    ensures
        exchange_result_view(result) == exchange_rule(reply@),
{
    match reply {
        ExchangeReply::TransportFailed { cause } => Err(
            AuthError::ExchangeTransportError { cause },
        ),
        ExchangeReply::Response { status, body, tokens } => {
            if 200 <= status && status <= 299 {
                match tokens {
                    Some(tokens) => Ok(tokens),
                    None => Err(AuthError::ExchangeProtocolError { status, body }),
                }
            } else {
                Err(AuthError::ExchangeProtocolError { status, body })
            }
        },
    }
}

} // verus!
