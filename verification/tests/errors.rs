use overdrip::auth::error::{decimal, AuthError, StoreError};

#[test]
fn decimal_writes_numbers_without_leading_zeros() {
    assert_eq!(decimal(0), "0");
    assert_eq!(decimal(7), "7");
    assert_eq!(decimal(9), "9");
    assert_eq!(decimal(10), "10");
    assert_eq!(decimal(99), "99");
    assert_eq!(decimal(100), "100");
    assert_eq!(decimal(400), "400");
    assert_eq!(decimal(12345), "12345");
    assert_eq!(decimal(65535), "65535");
}

#[test]
fn decimal_agrees_with_the_standard_formatting() {
    for n in 0..=u16::MAX {
        assert_eq!(decimal(n), n.to_string());
    }
}

#[test]
fn store_error_messages() {
    let cause = || "disk full".to_string();
    assert_eq!(
        StoreError::Encode { cause: cause() }.message(),
        "Failed to serialize tokens: disk full"
    );
    assert_eq!(
        StoreError::NoParentDirectory.message(),
        "Failed to get parent directory for auth token file path"
    );
    assert_eq!(
        StoreError::CreateDirectory { cause: cause() }.message(),
        "Failed to create parent directory for auth token file: disk full"
    );
    assert_eq!(
        StoreError::Open { cause: cause() }.message(),
        "Failed to open auth token file for writing: disk full"
    );
    assert_eq!(StoreError::Write { cause: cause() }.message(), "Failed to write auth data: disk full");
    assert_eq!(StoreError::Read { cause: cause() }.message(), "Failed to read auth tokens: disk full");
    assert_eq!(
        StoreError::Malformed { cause: cause() }.message(),
        "Failed to parse auth tokens: disk full"
    );
    assert_eq!(
        StoreError::Remove { cause: cause() }.message(),
        "Failed to remove auth token file: disk full"
    );
}

#[test]
fn auth_error_messages_name_the_phase_and_the_cause() {
    assert_eq!(
        AuthError::ListenerBindError { cause: "address in use".to_string() }.message(),
        "Failed to bind the callback listener: address in use"
    );
    assert_eq!(
        AuthError::CallbackChannelClosed.message(),
        "Channel closed before receiving auth code"
    );
    assert_eq!(
        AuthError::ListenerTaskFailed { cause: "boom".to_string() }.message(),
        "Server task panicked: boom"
    );
    assert_eq!(
        AuthError::ExchangeTransportError { cause: "no route".to_string() }.message(),
        "Failed to reach the token endpoint: no route"
    );
    assert_eq!(
        AuthError::ExchangeProtocolError { status: 400, body: "{\"error\":1}".to_string() }
            .message(),
        "Token endpoint refused the exchange with status 400: {\"error\":1}"
    );
    assert_eq!(
        AuthError::TokenPersistenceError {
            failure: StoreError::Write { cause: "disk full".to_string() }
        }
        .message(),
        "Failed to save tokens: Failed to write auth data: disk full"
    );
}

#[test]
fn messages_with_empty_causes() {
    assert_eq!(
        AuthError::ExchangeProtocolError { status: 0, body: String::new() }.message(),
        "Token endpoint refused the exchange with status 0: "
    );
    assert_eq!(StoreError::Read { cause: String::new() }.message(), "Failed to read auth tokens: ");
}
