//! The failures that the crate reports, by the layer that finds them.

use vstd::prelude::*;
use vstd::string::StringExecFns;

verus! {

/// A fault in what the operator configured, found before any request is made.
#[derive(Debug, Copy, Clone, PartialEq, Eq, Structural)]
pub enum ConfigError {
    /// The page size is not in the range that the API accepts.
    TopOutOfRange,
    /// The configured scope string names no scope.
    EmptyScopes,
    /// The password flow was chosen and no user name was given.
    MissingUsername,
    /// The password flow was chosen and no password was given.
    MissingPassword,
}

/// The exchange with the identity provider in which a sign-in failed.
#[derive(Debug, Copy, Clone, PartialEq, Eq, Structural)]
pub enum Step {
    /// Asking for a device code.
    DeviceCode,
    /// Polling the token endpoint during the device flow.
    DevicePoll,
    /// Exchanging an authorization code for a token.
    CodeExchange,
    /// Exchanging a user name and password for a token.
    PasswordExchange,
}

/// Why a sign-in attempt ended without a token. Each is final for the attempt.
#[derive(Debug, Copy, Clone, PartialEq, Eq, Structural)]
pub enum AuthError {
    /// The configuration does not allow the flow to start.
    Config(ConfigError),
    /// The chosen flow is declared and not provided.
    UnsupportedFlow,
    /// An endpoint of the tenant is no absolute URL.
    InvalidEndpoint,
    /// The pasted redirect is no absolute URL.
    RedirectUnreadable,
    /// The pasted redirect carries no `code` parameter.
    RedirectWithoutCode,
    /// The pasted redirect does not echo the state that was sent.
    StateMismatch,
    /// The operator refused the request of a device flow.
    AccessDenied,
    /// The provider reports the device code as expired.
    DeviceCodeExpired,
    /// The lifetime of the device code ran out while polling.
    TimedOut,
    /// The provider could not be reached.
    Transport(Step),
    /// The provider answered with an error.
    Rejected(Step),
    /// The provider's answer could not be read.
    Malformed(Step),
}

/// Why a call to the directory API failed.
#[derive(Debug, Copy, Clone, PartialEq, Eq, Structural)]
pub enum ApiError {
    /// The probe that precedes every call was refused: the token is not valid.
    TokenNotValid,
    /// The API could not be reached.
    Transport,
    /// The API refused the request.
    RequestFailed,
    /// The body of the answer is not the JSON that was expected.
    MalformedBody,
    /// The request URL cannot be built from the base path and the query.
    InvalidUrl,
    /// No client exists for the requested API version.
    UnsupportedVersion,
}

impl ConfigError {
    /// What the operator is told.
    pub open spec fn message(self) -> Seq<char> {
        match self {
            ConfigError::TopOutOfRange => "top not in range 1-999"@,
            ConfigError::EmptyScopes => "At least one scope is required"@,
            ConfigError::MissingUsername | ConfigError::MissingPassword =>
                "Username and password are required for password authentication flow"@,
        }
    }

    /// What the operator is told.
    pub fn describe(&self) -> (r: String)
        ensures
            r@ == self.message(),
    {
        match self {
            ConfigError::TopOutOfRange => String::from_str("top not in range 1-999"),
            ConfigError::EmptyScopes => String::from_str("At least one scope is required"),
            ConfigError::MissingUsername | ConfigError::MissingPassword => String::from_str(
                "Username and password are required for password authentication flow",
            ),
        }
    }
}

impl Step {
    /// The name of the step in messages.
    pub open spec fn label(self) -> Seq<char> {
        match self {
            Step::DeviceCode => "device code request"@,
            Step::DevicePoll => "device poll"@,
            Step::CodeExchange => "code exchange"@,
            Step::PasswordExchange => "password exchange"@,
        }
    }

    /// The name of the step in messages.
    pub fn name(&self) -> (r: &'static str)
        ensures
            r@ == self.label(),
    {
        match self {
            Step::DeviceCode => "device code request",
            Step::DevicePoll => "device poll",
            Step::CodeExchange => "code exchange",
            Step::PasswordExchange => "password exchange",
        }
    }
}

impl AuthError {
    /// What the operator is told. A failure of an exchange names the step.
    pub open spec fn message(self) -> Seq<char> {
        match self {
            AuthError::Config(e) => e.message(),
            AuthError::UnsupportedFlow => "This authentication flow is not supported"@,
            AuthError::InvalidEndpoint => "The tenant has no valid authorization endpoint"@,
            AuthError::RedirectUnreadable => "The redirect is not a URL"@,
            AuthError::RedirectWithoutCode => "The redirect carries no authorization code"@,
            AuthError::StateMismatch => "The redirect does not belong to this sign-in"@,
            AuthError::AccessDenied => "Access was denied"@,
            AuthError::DeviceCodeExpired => "The device code has expired"@,
            AuthError::TimedOut => "The device code ran out before the sign-in was completed"@,
            AuthError::Transport(step) => "The identity provider could not be reached: "@
                + step.label(),
            AuthError::Rejected(step) => "The identity provider refused the request: "@
                + step.label(),
            AuthError::Malformed(step) => "The identity provider sent a malformed response: "@
                + step.label(),
        }
    }

    /// What the operator is told.
    pub fn describe(&self) -> (r: String)
        ensures
            r@ == self.message(),
    {
        match self {
            AuthError::Config(e) => e.describe(),
            AuthError::UnsupportedFlow => String::from_str(
                "This authentication flow is not supported",
            ),
            AuthError::InvalidEndpoint => String::from_str(
                "The tenant has no valid authorization endpoint",
            ),
            AuthError::RedirectUnreadable => String::from_str("The redirect is not a URL"),
            AuthError::RedirectWithoutCode => String::from_str(
                "The redirect carries no authorization code",
            ),
            AuthError::StateMismatch => String::from_str(
                "The redirect does not belong to this sign-in",
            ),
            AuthError::AccessDenied => String::from_str("Access was denied"),
            AuthError::DeviceCodeExpired => String::from_str("The device code has expired"),
            AuthError::TimedOut => String::from_str(
                "The device code ran out before the sign-in was completed",
            ),
            AuthError::Transport(step) => String::from_str(
                "The identity provider could not be reached: ",
            ).concat(step.name()),
            AuthError::Rejected(step) => String::from_str(
                "The identity provider refused the request: ",
            ).concat(step.name()),
            AuthError::Malformed(step) => String::from_str(
                "The identity provider sent a malformed response: ",
            ).concat(step.name()),
        }
    }
}

impl ApiError {
    /// What the operator is told.
    pub open spec fn message(self) -> Seq<char> {
        match self {
            ApiError::TokenNotValid => "Access token is not valid"@,
            ApiError::Transport => "The API could not be reached"@,
            ApiError::RequestFailed => "The API refused the request"@,
            ApiError::MalformedBody => "The API sent a malformed response"@,
            ApiError::InvalidUrl => "The request URL is not valid"@,
            ApiError::UnsupportedVersion => "This API version is not supported"@,
        }
    }

    /// What the operator is told.
    pub fn describe(&self) -> (r: String)
        ensures
            r@ == self.message(),
    {
        match self {
            ApiError::TokenNotValid => String::from_str("Access token is not valid"),
            ApiError::Transport => String::from_str("The API could not be reached"),
            ApiError::RequestFailed => String::from_str("The API refused the request"),
            ApiError::MalformedBody => String::from_str("The API sent a malformed response"),
            ApiError::InvalidUrl => String::from_str("The request URL is not valid"),
            ApiError::UnsupportedVersion => String::from_str("This API version is not supported"),
        }
    }
}

} // verus!
