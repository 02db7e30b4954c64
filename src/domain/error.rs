use vstd::prelude::*;
use crate::domain::email::EmailError;
use crate::domain::password::PasswordError;

verus! {

/// The failures that the service reports to its callers.
#[derive(Debug, Clone, Copy, PartialEq, Eq)]
pub enum AuthAPIError {
    UserAlreadyExists,
    InvalidCredentials,
    IncorrectCredentials,
    UnexpectedError,
    MissingToken,
    InvalidToken,
}

/// The HTTP status that stands for each failure.
pub open spec fn status_of(e: AuthAPIError) -> u16 {
    match e {
        AuthAPIError::UserAlreadyExists => 409,
        AuthAPIError::InvalidCredentials => 400,
        AuthAPIError::IncorrectCredentials => 401,
        AuthAPIError::UnexpectedError => 500,
        AuthAPIError::MissingToken => 400,
        AuthAPIError::InvalidToken => 401,
    }
}

/// The reason text of each failure.
pub open spec fn reason_of(e: AuthAPIError) -> Seq<char> {
    match e {
        AuthAPIError::UserAlreadyExists => "User already exists"@,
        AuthAPIError::InvalidCredentials => "Invalid credentials"@,
        AuthAPIError::IncorrectCredentials => "Incorrect credentials"@,
        AuthAPIError::UnexpectedError => "Unexpected error"@,
        AuthAPIError::MissingToken => "Missing token"@,
        AuthAPIError::InvalidToken => "Invalid token"@,
    }
}

impl AuthAPIError {
    /// The HTTP status of the failure.
    pub fn status_code(&self) -> (r: u16)
        ensures
            r == status_of(*self),
    {
        match self {
            AuthAPIError::UserAlreadyExists => 409,
            AuthAPIError::InvalidCredentials => 400,
            AuthAPIError::IncorrectCredentials => 401,
            AuthAPIError::UnexpectedError => 500,
            AuthAPIError::MissingToken => 400,
            AuthAPIError::InvalidToken => 401,
        }
    }

    /// The short, stable reason given to the client; no internal detail.
    pub fn reason(&self) -> (r: &'static str)
        ensures
            r@ == reason_of(*self),
    {
        match self {
            AuthAPIError::UserAlreadyExists => "User already exists",
            AuthAPIError::InvalidCredentials => "Invalid credentials",
            AuthAPIError::IncorrectCredentials => "Incorrect credentials",
            AuthAPIError::UnexpectedError => "Unexpected error",
            AuthAPIError::MissingToken => "Missing token",
            AuthAPIError::InvalidToken => "Invalid token",
        }
    }
}

impl From<EmailError> for AuthAPIError {
    fn from(value: EmailError) -> (r: AuthAPIError) {
        AuthAPIError::InvalidCredentials
    }
}

impl vstd::std_specs::convert::FromSpecImpl<EmailError> for AuthAPIError {
    open spec fn obeys_from_spec() -> bool {
        true
    }

    open spec fn from_spec(v: EmailError) -> AuthAPIError {
        AuthAPIError::InvalidCredentials
    }
}

impl From<PasswordError> for AuthAPIError {
    fn from(value: PasswordError) -> (r: AuthAPIError) {
        AuthAPIError::InvalidCredentials
    }
}

impl vstd::std_specs::convert::FromSpecImpl<PasswordError> for AuthAPIError {
    open spec fn obeys_from_spec() -> bool {
        true
    }

    open spec fn from_spec(v: PasswordError) -> AuthAPIError {
        AuthAPIError::InvalidCredentials
    }
}

} // verus!
