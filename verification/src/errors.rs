//! Error taxonomy surfaced by the service.  The decision core itself
//! produces only `InvalidRequest` (malformed input, rejected before any
//! store access) and `DatabaseOperationFailed` (a directory-store failure,
//! propagated rather than coerced to a deny decision); the remaining
//! variants belong to the administrative and transport surface built on
//! the same storage.

use vstd::prelude::*;

verus! {

#[derive(Debug, Clone, PartialEq)]
pub enum Error {
    NotFound,
    Unauthorized,
    InvalidToken,
    ValidationError(String),
    DatabaseOperationFailed(String),
    MissingHeader(String),
    InvalidRequest,
    InvalidClient,
    InvalidGrant,
    UnauthorizedClient,
    UnsupportedGrantType,
    InvalidScope,
    ServerError,
    InvalidUrn,
    NotModified,
}

/// The characters of an error's human-readable description.
pub open spec fn spec_message(e: Error) -> Seq<char> {
    match e {
        Error::NotFound => "Not found"@,
        Error::Unauthorized => "Unauthorized"@,
        Error::InvalidToken => "Invalid token"@,
        Error::ValidationError(msg) => "Validation error(s): "@ + msg@,
        Error::DatabaseOperationFailed(msg) => "Database: "@ + msg@,
        Error::MissingHeader(header) => "Missing header: "@ + header@,
        Error::InvalidRequest => "Invalid request"@,
        Error::InvalidClient => "Invalid client"@,
        Error::InvalidGrant => "Invalid grant"@,
        Error::UnauthorizedClient => "Unauthorized client"@,
        Error::UnsupportedGrantType => "Unsupported grant type"@,
        Error::InvalidScope => "Invalid scope"@,
        Error::ServerError => "Internal server error"@,
        Error::InvalidUrn => "Invalid URN"@,
        Error::NotModified => "Not modified"@,
    }
}

impl Error {
    /// A human-readable description of the error, in place of `Display`.
    pub fn message(&self) -> (r: String)
        ensures
            r@ == spec_message(*self),
    {
        match self {
            Error::NotFound => String::from_str("Not found"),
            Error::Unauthorized => String::from_str("Unauthorized"),
            Error::InvalidToken => String::from_str("Invalid token"),
            Error::ValidationError(msg) => {
                String::from_str("Validation error(s): ").concat(msg.as_str())
            },
            Error::DatabaseOperationFailed(msg) => {
                String::from_str("Database: ").concat(msg.as_str())
            },
            Error::MissingHeader(header) => {
                String::from_str("Missing header: ").concat(header.as_str())
            },
            Error::InvalidRequest => String::from_str("Invalid request"),
            Error::InvalidClient => String::from_str("Invalid client"),
            Error::InvalidGrant => String::from_str("Invalid grant"),
            Error::UnauthorizedClient => String::from_str("Unauthorized client"),
            Error::UnsupportedGrantType => String::from_str("Unsupported grant type"),
            Error::InvalidScope => String::from_str("Invalid scope"),
            Error::ServerError => String::from_str("Internal server error"),
            Error::InvalidUrn => String::from_str("Invalid URN"),
            Error::NotModified => String::from_str("Not modified"),
        }
    }
}

} // verus!
