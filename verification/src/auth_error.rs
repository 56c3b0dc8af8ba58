//! The error taxonomy surfaced by login endpoints.

use vstd::prelude::*;

verus! {

/// HTTP status code for a request that presented no usable credential.
pub const STATUS_UNAUTHORIZED: u16 = 401;

/// HTTP status code for an application-level authorization refusal.
pub const STATUS_FORBIDDEN: u16 = 403;

/// HTTP status code for a request rejected as malformed or stale.
pub const STATUS_BAD_REQUEST: u16 = 400;

/// HTTP status code for an internal failure of the identity handler.
pub const STATUS_INTERNAL_SERVER_ERROR: u16 = 500;

/// Why a login attempt or a token operation was rejected.
#[derive(Debug, Clone, PartialEq, Eq, Structural)]
pub enum AuthError {
    Internal,
    NoSuchUser,
    InvalidPassword,
    InvalidAccessToken,
    UserNotLoggedIn,
}

impl AuthError {
    /// The HTTP status code that reports this error to a client: an
    /// internal failure is a server error, every other variant is the
    /// client's fault.
    pub open spec fn status_code_spec(self) -> u16 {
        match self {
            AuthError::Internal => STATUS_INTERNAL_SERVER_ERROR,
            AuthError::NoSuchUser => STATUS_BAD_REQUEST,
            AuthError::InvalidPassword => STATUS_BAD_REQUEST,
            AuthError::InvalidAccessToken => STATUS_BAD_REQUEST,
            AuthError::UserNotLoggedIn => STATUS_BAD_REQUEST,
        }
    }

    /// Maps this error to the HTTP status code sent to the client.
    pub fn status_code(&self) -> (r: u16)
        ensures
            r == self.status_code_spec(),
    {
        match self {
            AuthError::Internal => STATUS_INTERNAL_SERVER_ERROR,
            AuthError::NoSuchUser => STATUS_BAD_REQUEST,
            AuthError::InvalidPassword => STATUS_BAD_REQUEST,
            AuthError::InvalidAccessToken => STATUS_BAD_REQUEST,
            AuthError::UserNotLoggedIn => STATUS_BAD_REQUEST,
        }
    }
}

} // verus!
