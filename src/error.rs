use vstd::prelude::*;

verus! {

/// Why a token was not accepted by the codec.
#[derive(Debug, Clone, Copy, PartialEq, Eq, Structural)]
pub enum TokenError {
    /// The token is not a well-formed signed token, or its claims are unreadable.
    Malformed,
    /// The signature does not match the token under the signing secret.
    BadSignature,
    /// The signature is good but the expiry is not in the future.
    Expired,
}

/// The user store could not answer.
#[derive(Debug, Clone, Copy, PartialEq, Eq, Structural)]
pub struct StoreError;

/// Outcome classes of the login, registration and guard decisions.
#[derive(Debug, Clone, Copy, PartialEq, Eq, Structural)]
pub enum AuthError {
    /// Unknown email or wrong password: both look the same to the client.
    InvalidCredentials,
    /// A registration for an email that is already taken.
    AlreadyExists,
    /// A protected request carried no token.
    MissingToken,
    /// A protected request carried a token that is malformed, badly signed,
    /// expired, or whose subject no longer exists.
    InvalidToken,
    /// The user store failed.
    StoreUnavailable,
    /// Hashing failed.
    Internal,
}

impl AuthError {
    /// The HTTP status the error is answered with.
    pub open spec fn status_spec(self) -> u16 {
        match self {
            AuthError::InvalidCredentials => 400,
            AuthError::AlreadyExists => 409,
            AuthError::MissingToken => 401,
            AuthError::InvalidToken => 401,
            AuthError::StoreUnavailable => 500,
            AuthError::Internal => 500,
        }
    }

    pub fn status_code(&self) -> (r: u16)
        ensures
            r == self.status_spec(),
    {
        match self {
            AuthError::InvalidCredentials => 400,
            AuthError::AlreadyExists => 409,
            AuthError::MissingToken => 401,
            AuthError::InvalidToken => 401,
            AuthError::StoreUnavailable => 500,
            AuthError::Internal => 500,
        }
    }

    /// The client-visible text of each error; it never says which internal
    /// check failed.
    pub open spec fn message_spec(self) -> Seq<char> {
        match self {
            AuthError::InvalidCredentials => "Invalid email or password."@,
            AuthError::AlreadyExists => "Email address is already in use."@,
            AuthError::MissingToken => "You are not logged in, please provide token."@,
            AuthError::InvalidToken => "Invalid token."@,
            AuthError::StoreUnavailable => "The user store is unavailable."@,
            AuthError::Internal => "Internal server error."@,
        }
    }

    pub fn message(&self) -> (r: String)
        ensures
            r@ == self.message_spec(),
    {
        match self {
            AuthError::InvalidCredentials => "Invalid email or password.".to_string(),
            AuthError::AlreadyExists => "Email address is already in use.".to_string(),
            AuthError::MissingToken => "You are not logged in, please provide token.".to_string(),
            AuthError::InvalidToken => "Invalid token.".to_string(),
            AuthError::StoreUnavailable => "The user store is unavailable.".to_string(),
            AuthError::Internal => "Internal server error.".to_string(),
        }
    }
}

} // verus!
