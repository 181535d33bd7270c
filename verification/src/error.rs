//! The failure taxonomy of the service and its mapping to HTTP statuses.

use vstd::prelude::*;

verus! {

/// Every way a request can fail.
#[derive(Clone, Copy, Debug, PartialEq, Eq, Structural)]
pub enum ApiError {
    /// No usable bearer token in the authorization header.
    MissingToken,
    /// The token is malformed, carries a bad signature, or has expired.
    InvalidToken,
    /// The caller is authenticated but does not own the note.
    Forbidden,
    /// The note does not exist.
    NotFound,
    /// The username is already registered.
    DuplicateUsername,
    /// Unknown username or wrong password at login.
    InvalidCredentials,
    /// Any failure of the store or of the machinery around it.
    StorageFailure,
}

impl ApiError {
    /// The HTTP status that reports this failure.
    pub open spec fn status_code(self) -> u16 {
        match self {
            ApiError::MissingToken => 401,
            ApiError::InvalidToken => 401,
            ApiError::InvalidCredentials => 401,
            ApiError::Forbidden => 403,
            ApiError::NotFound => 404,
            ApiError::DuplicateUsername => 409,
            ApiError::StorageFailure => 500,
        }
    }

    /// The text sent to the client. It never carries detail from the store.
    pub open spec fn message_text(self) -> Seq<char> {
        match self {
            ApiError::MissingToken => "Missing token"@,
            ApiError::InvalidToken => "Invalid token"@,
            ApiError::InvalidCredentials => "Invalid credentials"@,
            ApiError::Forbidden => "Not authorized"@,
            ApiError::NotFound => "Note not found"@,
            ApiError::DuplicateUsername => "Username already taken"@,
            ApiError::StorageFailure => "Internal server error"@,
        }
    }

    /// Whether the failure belongs to the "unauthenticated" response class:
    /// the request never got past token extraction and verification.
    pub open spec fn is_unauthenticated(self) -> bool {
        self == ApiError::MissingToken || self == ApiError::InvalidToken
    }

    pub fn status(&self) -> (code: u16)
        ensures
            code == self.status_code(),
    {
        match self {
            ApiError::MissingToken => 401,
            ApiError::InvalidToken => 401,
            ApiError::InvalidCredentials => 401,
            ApiError::Forbidden => 403,
            ApiError::NotFound => 404,
            ApiError::DuplicateUsername => 409,
            ApiError::StorageFailure => 500,
        }
    }

    pub fn message(&self) -> (text: &'static str)
        ensures
            text@ == self.message_text(),
    {
        match self {
            ApiError::MissingToken => "Missing token",
            ApiError::InvalidToken => "Invalid token",
            ApiError::InvalidCredentials => "Invalid credentials",
            ApiError::Forbidden => "Not authorized",
            ApiError::NotFound => "Note not found",
            ApiError::DuplicateUsername => "Username already taken",
            ApiError::StorageFailure => "Internal server error",
        }
    }
}

/// Both token failures are reported with the same status.
pub proof fn unauthenticated_is_401(e: ApiError)
    requires
        e.is_unauthenticated(),
    ensures
        e.status_code() == 401,
{
}

} // verus!
