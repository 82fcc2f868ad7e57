//! The failures of a login attempt and of token persistence, with the text
//! shown to the user for each.

use vstd::prelude::*;

verus! {

/// Mathematical value of a [`StoreError`].
pub enum StoreErrorView {
    Encode { cause: Seq<char> },
    NoParentDirectory,
    CreateDirectory { cause: Seq<char> },
    Open { cause: Seq<char> },
    Write { cause: Seq<char> },
    Read { cause: Seq<char> },
    Malformed { cause: Seq<char> },
    Remove { cause: Seq<char> },
}

/// Why a token store could not save, load or clear.
#[derive(Debug, PartialEq, Eq)]
pub enum StoreError {
    /// The token set could not be turned into its persisted form.
    Encode { cause: String },
    /// The token file's path names no parent directory.
    NoParentDirectory,
    /// The parent directory of the token file could not be created.
    CreateDirectory { cause: String },
    /// The token file could not be opened for writing.
    Open { cause: String },
    /// The token file was opened but could not be written.
    Write { cause: String },
    /// The token file exists but could not be read.
    Read { cause: String },
    /// The token file was read but does not hold a token set.
    Malformed { cause: String },
    /// The token file could not be removed.
    Remove { cause: String },
}

impl View for StoreError {
    type V = StoreErrorView;

    open spec fn view(&self) -> StoreErrorView {
        match self {
            StoreError::Encode { cause } => StoreErrorView::Encode { cause: cause@ },
            StoreError::NoParentDirectory => StoreErrorView::NoParentDirectory,
            StoreError::CreateDirectory { cause } => StoreErrorView::CreateDirectory {
                cause: cause@,
            },
            StoreError::Open { cause } => StoreErrorView::Open { cause: cause@ },
            StoreError::Write { cause } => StoreErrorView::Write { cause: cause@ },
            StoreError::Read { cause } => StoreErrorView::Read { cause: cause@ },
            StoreError::Malformed { cause } => StoreErrorView::Malformed { cause: cause@ },
            StoreError::Remove { cause } => StoreErrorView::Remove { cause: cause@ },
        }
    }
}

/// The text that describes a store failure: what was attempted, then the cause.
pub open spec fn store_error_text(error: StoreErrorView) -> Seq<char> {
    match error {
        StoreErrorView::Encode { cause } => "Failed to serialize tokens: "@ + cause,
        StoreErrorView::NoParentDirectory => {
            "Failed to get parent directory for auth token file path"@
        },
        StoreErrorView::CreateDirectory { cause } => {
            "Failed to create parent directory for auth token file: "@ + cause
        },
        StoreErrorView::Open { cause } => "Failed to open auth token file for writing: "@ + cause,
        StoreErrorView::Write { cause } => "Failed to write auth data: "@ + cause,
        StoreErrorView::Read { cause } => "Failed to read auth tokens: "@ + cause,
        StoreErrorView::Malformed { cause } => "Failed to parse auth tokens: "@ + cause,
        StoreErrorView::Remove { cause } => "Failed to remove auth token file: "@ + cause,
    }
}

/// The decimal digit for a value below ten.
pub open spec fn digit_char(digit: nat) -> char {
    if digit == 0 {
        '0'
    } else if digit == 1 {
        '1'
    } else if digit == 2 {
        '2'
    } else if digit == 3 {
        '3'
    } else if digit == 4 {
        '4'
    } else if digit == 5 {
        '5'
    } else if digit == 6 {
        '6'
    } else if digit == 7 {
        '7'
    } else if digit == 8 {
        '8'
    } else {
        '9'
    }
}

/// A number written in decimal, without leading zeros.
pub open spec fn decimal_text(n: nat) -> Seq<char>
    decreases n,
{
    if n < 10 {
        seq![digit_char(n)]
    } else {
        decimal_text(n / 10) + seq![digit_char(n % 10)]
    }
}

fn digit_str(digit: u16) -> (text: &'static str)
    requires
        digit < 10,
    ensures
        text@ == seq![digit_char(digit as nat)],
{
    proof {
        reveal_strlit("0");
        reveal_strlit("1");
        reveal_strlit("2");
        reveal_strlit("3");
        reveal_strlit("4");
        reveal_strlit("5");
        reveal_strlit("6");
        reveal_strlit("7");
        reveal_strlit("8");
        reveal_strlit("9");
    }
    let text = if digit == 0 {
        "0"
    } else if digit == 1 {
        "1"
    } else if digit == 2 {
        "2"
    } else if digit == 3 {
        "3"
    } else if digit == 4 {
        "4"
    } else if digit == 5 {
        "5"
    } else if digit == 6 {
        "6"
    } else if digit == 7 {
        "7"
    } else if digit == 8 {
        "8"
    } else {
        "9"
    };
    assert(text@ =~= seq![digit_char(digit as nat)]);
    text
}

/// Writes `n` in decimal.
pub fn decimal(n: u16) -> (text: String)
    ensures
        text@ == decimal_text(n as nat),
    decreases n,
{
    if n < 10 {
        String::from_str(digit_str(n))
    } else {
        let mut text = decimal(n / 10);
        text.append(digit_str(n % 10));
        text
    }
}

/// `prefix` followed by `cause`.
fn prefixed(prefix: &str, cause: &str) -> (text: String)
    ensures
        text@ == prefix@ + cause@,
{
    let mut text = String::from_str(prefix);
    text.append(cause);
    text
}

impl StoreError {
    /// The message for the user.
    pub fn message(&self) -> (text: String)
        ensures
            text@ == store_error_text(self@),
    {
        match self {
            StoreError::Encode { cause } => prefixed("Failed to serialize tokens: ", cause.as_str()),
            StoreError::NoParentDirectory => {
                String::from_str("Failed to get parent directory for auth token file path")
            },
            StoreError::CreateDirectory { cause } => prefixed(
                "Failed to create parent directory for auth token file: ",
                cause.as_str(),
            ),
            StoreError::Open { cause } => prefixed(
                "Failed to open auth token file for writing: ",
                cause.as_str(),
            ),
            StoreError::Write { cause } => prefixed("Failed to write auth data: ", cause.as_str()),
            StoreError::Read { cause } => prefixed("Failed to read auth tokens: ", cause.as_str()),
            StoreError::Malformed { cause } => prefixed(
                "Failed to parse auth tokens: ",
                cause.as_str(),
            ),
            StoreError::Remove { cause } => prefixed(
                "Failed to remove auth token file: ",
                cause.as_str(),
            ),
        }
    }
}

/// Mathematical value of an [`AuthError`].
pub enum AuthErrorView {
    ListenerBindError { cause: Seq<char> },
    CallbackChannelClosed,
    ListenerTaskFailed { cause: Seq<char> },
    ExchangeTransportError { cause: Seq<char> },
    ExchangeProtocolError { status: u16, body: Seq<char> },
    TokenPersistenceError { failure: StoreErrorView },
}

/// Why a login attempt failed. Each variant names the phase that failed.
///
/// A failure of the entropy source while the PKCE pair is generated is fatal
/// and is not a value of this type.
#[derive(Debug, PartialEq, Eq)]
pub enum AuthError {
    /// The loopback port could not be bound.
    ListenerBindError { cause: String },
    /// The hand-off channel closed before any authorization code arrived.
    CallbackChannelClosed,
    /// The listener's background task ended abnormally.
    ListenerTaskFailed { cause: String },
    /// The token request never got an answer.
    ExchangeTransportError { cause: String },
    /// The token endpoint answered with a failure status, or with a body that
    /// is no token set. The raw status and body are kept for diagnosis.
    ExchangeProtocolError { status: u16, body: String },
    /// The tokens were obtained but could not be stored.
    TokenPersistenceError { failure: StoreError },
}

impl View for AuthError {
    type V = AuthErrorView;

    open spec fn view(&self) -> AuthErrorView {
        match self {
            AuthError::ListenerBindError { cause } => AuthErrorView::ListenerBindError {
                cause: cause@,
            },
            AuthError::CallbackChannelClosed => AuthErrorView::CallbackChannelClosed,
            AuthError::ListenerTaskFailed { cause } => AuthErrorView::ListenerTaskFailed {
                cause: cause@,
            },
            AuthError::ExchangeTransportError { cause } => AuthErrorView::ExchangeTransportError {
                cause: cause@,
            },
            AuthError::ExchangeProtocolError { status, body } => {
                AuthErrorView::ExchangeProtocolError { status: *status, body: body@ }
            },
            AuthError::TokenPersistenceError { failure } => AuthErrorView::TokenPersistenceError {
                failure: failure@,
            },
        }
    }
}

/// The single message shown for a failed login: the phase, then the cause.
pub open spec fn auth_error_text(error: AuthErrorView) -> Seq<char> {
    match error {
        AuthErrorView::ListenerBindError { cause } => {
            "Failed to bind the callback listener: "@ + cause
        },
        AuthErrorView::CallbackChannelClosed => "Channel closed before receiving auth code"@,
        AuthErrorView::ListenerTaskFailed { cause } => "Server task panicked: "@ + cause,
        AuthErrorView::ExchangeTransportError { cause } => {
            "Failed to reach the token endpoint: "@ + cause
        },
        AuthErrorView::ExchangeProtocolError { status, body } => {
            "Token endpoint refused the exchange with status "@ + decimal_text(status as nat)
                + ": "@ + body
        },
        AuthErrorView::TokenPersistenceError { failure } => {
            "Failed to save tokens: "@ + store_error_text(failure)
        },
    }
}

impl AuthError {
    /// The message for the user.
    pub fn message(&self) -> (text: String)
        ensures
            text@ == auth_error_text(self@),
    {
        match self {
            AuthError::ListenerBindError { cause } => prefixed(
                "Failed to bind the callback listener: ",
                cause.as_str(),
            ),
            AuthError::CallbackChannelClosed => {
                String::from_str("Channel closed before receiving auth code")
            },
            AuthError::ListenerTaskFailed { cause } => prefixed(
                "Server task panicked: ",
                cause.as_str(),
            ),
            AuthError::ExchangeTransportError { cause } => prefixed(
                "Failed to reach the token endpoint: ",
                cause.as_str(),
            ),
            AuthError::ExchangeProtocolError { status, body } => {
                let number = decimal(*status);
                let mut text = prefixed(
                    "Token endpoint refused the exchange with status ",
                    number.as_str(),
                );
                text.append(": ");
                text.append(body.as_str());
                text
            },
            AuthError::TokenPersistenceError { failure } => {
                let detail = failure.message();
                prefixed("Failed to save tokens: ", detail.as_str())
            },
        }
    }

}

} // verus!
