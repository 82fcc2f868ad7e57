use overdrip::auth::error::AuthError;
use overdrip::auth::oauth::{
    authorization_url, exchange_outcome, ExchangeReply, OAuthClient, TokenRequest,
    AUTHORIZATION_ENDPOINT, CHALLENGE_METHOD, GRANT_TYPE, REDIRECT_URI, RESPONSE_TYPE, SCOPE,
    TOKEN_ENDPOINT,
};
use overdrip::auth::Tokens;

fn client() -> OAuthClient {
    OAuthClient::new("client-1".to_string(), "secret-1".to_string())
}

fn tokens_in(body: &str) -> Option<Tokens> {
    let value: serde_json::Value = serde_json::from_str(body).ok()?;
    Some(Tokens::new(
        value.get("access_token")?.as_str()?.to_string(),
        value.get("refresh_token")?.as_str()?.to_string(),
        value.get("expires_in")?.as_u64()?,
    ))
}

fn response(status: u16, body: &str) -> ExchangeReply {
    ExchangeReply::Response { status, body: body.to_string(), tokens: tokens_in(body) }
}

#[test]
fn endpoints_and_fixed_parameters() {
    assert_eq!(AUTHORIZATION_ENDPOINT, "https://accounts.google.com/o/oauth2/v2/auth");
    assert_eq!(TOKEN_ENDPOINT, "https://oauth2.googleapis.com/token");
    assert_eq!(REDIRECT_URI, "http://localhost:8080/callback");
    assert_eq!(RESPONSE_TYPE, "code");
    assert_eq!(SCOPE, "openid%20email%20profile");
    assert_eq!(CHALLENGE_METHOD, "S256");
    assert_eq!(GRANT_TYPE, "authorization_code");
}

#[test]
fn authorization_url_has_the_documented_form() {
    assert_eq!(
        authorization_url("my-id", "my-challenge"),
        "https://accounts.google.com/o/oauth2/v2/auth?client_id=my-id&redirect_uri=http://localhost:8080/callback&response_type=code&scope=openid%20email%20profile&code_challenge=my-challenge&code_challenge_method=S256"
    );
}

#[test]
fn authorization_url_with_empty_parts() {
    assert_eq!(
        authorization_url("", ""),
        "https://accounts.google.com/o/oauth2/v2/auth?client_id=&redirect_uri=http://localhost:8080/callback&response_type=code&scope=openid%20email%20profile&code_challenge=&code_challenge_method=S256"
    );
}

#[test]
fn authorization_url_carries_the_challenge_and_the_method() {
    let url = authorization_url("id", "O_wmlZTvZJIo6adLqwDwQu_JHVrMb77jGjgugNQjiP4");
    assert!(url.contains("&code_challenge=O_wmlZTvZJIo6adLqwDwQu_JHVrMb77jGjgugNQjiP4&"));
    assert!(url.ends_with("&code_challenge_method=S256"));
}

#[test]
fn oauth_client_keeps_id_and_secret() {
    let client = client();
    assert_eq!(client.client_id(), "client-1");
    assert_eq!(client.client_secret(), "secret-1");
}

#[test]
fn token_request_posts_six_fields_in_order() {
    let request = TokenRequest::new("the-code", "the-verifier", &client());
    let expected: Vec<(String, String)> = [
        ("code", "the-code"),
        ("client_id", "client-1"),
        ("client_secret", "secret-1"),
        ("code_verifier", "the-verifier"),
        ("redirect_uri", "http://localhost:8080/callback"),
        ("grant_type", "authorization_code"),
    ]
    .iter()
    .map(|(name, value)| (name.to_string(), value.to_string()))
    .collect();
    assert_eq!(request.form_fields(), expected);
}

#[test]
fn token_request_tells_code_and_verifier_apart() {
    let one = TokenRequest::new("a", "b", &client());
    let other = TokenRequest::new("b", "a", &client());
    assert_ne!(one, other);
    assert_eq!(one.form_fields()[0], ("code".to_string(), "a".to_string()));
    assert_eq!(one.form_fields()[3], ("code_verifier".to_string(), "b".to_string()));
}

#[test]
fn exchange_returns_the_tokens_of_a_success_reply() {
    let body = r#"{"access_token":"a","refresh_token":"b","expires_in":3600}"#;
    let tokens = exchange_outcome(response(200, body)).unwrap();
    assert_eq!(tokens.access_token(), "a");
    assert_eq!(tokens.refresh_token(), "b");
    assert_eq!(tokens.expires_in(), 3600);
    assert_eq!(tokens, Tokens::new("a".to_string(), "b".to_string(), 3600));
}

#[test]
fn exchange_fails_with_protocol_error_on_http_400() {
    let body = r#"{"error":"invalid_grant"}"#;
    assert_eq!(
        exchange_outcome(response(400, body)),
        Err(AuthError::ExchangeProtocolError { status: 400, body: body.to_string() })
    );
}

#[test]
fn exchange_fails_with_protocol_error_on_a_failure_status_even_with_tokens() {
    let body = r#"{"access_token":"a","refresh_token":"b","expires_in":3600}"#;
    assert_eq!(
        exchange_outcome(response(400, body)),
        Err(AuthError::ExchangeProtocolError { status: 400, body: body.to_string() })
    );
}

#[test]
fn exchange_fails_with_protocol_error_on_a_body_that_is_no_token_set() {
    for body in ["", "not json", "{}", r#"{"access_token":"a","expires_in":3600}"#] {
        assert_eq!(
            exchange_outcome(response(200, body)),
            Err(AuthError::ExchangeProtocolError { status: 200, body: body.to_string() })
        );
    }
}

#[test]
fn exchange_fails_with_transport_error_when_no_answer_arrived() {
    assert_eq!(
        exchange_outcome(ExchangeReply::TransportFailed { cause: "timed out".to_string() }),
        Err(AuthError::ExchangeTransportError { cause: "timed out".to_string() })
    );
}

#[test]
fn success_is_status_200_to_299() {
    let body = r#"{"access_token":"a","refresh_token":"b","expires_in":1}"#;
    for status in [0u16, 100, 199, 300, 301, 404, 500, 65535] {
        assert_eq!(
            exchange_outcome(response(status, body)),
            Err(AuthError::ExchangeProtocolError { status, body: body.to_string() })
        );
    }
    for status in [200u16, 201, 204, 299] {
        assert_eq!(
            exchange_outcome(response(status, body)),
            Ok(Tokens::new("a".to_string(), "b".to_string(), 1))
        );
    }
}
