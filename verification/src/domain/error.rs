use vstd::prelude::*;

verus! {

/// Every failure a workflow can surface to a caller. Internal
/// distinctions (user not found versus wrong secret) are collapsed into
/// `IncorrectCredentials` before they reach this type, so callers learn
/// nothing that would let them enumerate accounts.
#[derive(Clone, Copy, Debug, PartialEq, Eq, Structural)]
pub enum AuthAPIError {
    UserAlreadyExists,
    InvalidCredentials,
    IncorrectCredentials,
    MissingToken,
    InvalidToken,
    UnexpectedError,
}

impl AuthAPIError {
    /// The status code each failure maps to at the transport boundary.
    pub fn status_code(&self) -> (r: u16)
        ensures
            r == match self {
                AuthAPIError::UserAlreadyExists => 409u16,
                AuthAPIError::InvalidCredentials => 400u16,
                AuthAPIError::IncorrectCredentials => 401u16,
                AuthAPIError::MissingToken => 400u16,
                AuthAPIError::InvalidToken => 401u16,
                AuthAPIError::UnexpectedError => 500u16,
            },
    {
        match self {
            AuthAPIError::UserAlreadyExists => 409,
            AuthAPIError::InvalidCredentials => 400,
            AuthAPIError::IncorrectCredentials => 401,
            AuthAPIError::MissingToken => 400,
            AuthAPIError::InvalidToken => 401,
            AuthAPIError::UnexpectedError => 500,
        }
    }

    /// The one line of text each failure maps to.
    pub fn error_message(&self) -> (r: &'static str)
        ensures
            r@ == match self {
                AuthAPIError::UserAlreadyExists => "User already exists"@,
                AuthAPIError::InvalidCredentials => "Invalid credentials"@,
                AuthAPIError::IncorrectCredentials => "Incorrect credentials"@,
                AuthAPIError::MissingToken => "Missing auth token"@,
                AuthAPIError::InvalidToken => "Invalid auth token"@,
                AuthAPIError::UnexpectedError => "Unexpected error"@,
            },
    {
        match self {
            AuthAPIError::UserAlreadyExists => "User already exists",
            AuthAPIError::InvalidCredentials => "Invalid credentials",
            AuthAPIError::IncorrectCredentials => "Incorrect credentials",
            AuthAPIError::MissingToken => "Missing auth token",
            AuthAPIError::InvalidToken => "Invalid auth token",
            AuthAPIError::UnexpectedError => "Unexpected error",
        }
    }
}

} // verus!
