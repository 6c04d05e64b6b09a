//! Classified failures of the authentication subsystem and the generic
//! handler error that carries an HTTP status, a stable machine code and a
//! human-readable detail.

use vstd::prelude::*;

verus! {

/// Failures of the token signer and of the token guard.
#[derive(Debug, Clone, Copy, PartialEq, Eq, Structural)]
pub enum AuthError {
    /// The presented credentials do not belong to the principal.
    WrongCredentials,
    /// No bearer credential was presented, or the scheme was wrong.
    MissingCredentials,
    /// The signing path itself failed; an unexpected, internal fault.
    TokenCreation,
    /// The token is malformed, not signed under the current key, of the
    /// wrong claims variant, or expired.
    InvalidToken,
}

impl AuthError {
    /// The HTTP status this failure maps to.
    pub open spec fn spec_status_code(self) -> u16 {
        match self {
            AuthError::WrongCredentials => 401,
            AuthError::MissingCredentials => 400,
            AuthError::TokenCreation => 500,
            AuthError::InvalidToken => 400,
        }
    }

    /// The stable human-readable message for this failure.
    pub open spec fn spec_message(self) -> Seq<char> {
        match self {
            AuthError::WrongCredentials => "Wrong credentials"@,
            AuthError::MissingCredentials => "Missing credentials"@,
            AuthError::TokenCreation => "Token creation error"@,
            AuthError::InvalidToken => "Invalid token"@,
        }
    }

    /// The HTTP status this failure maps to.
    pub fn status_code(&self) -> (r: u16)
        ensures
            r == self.spec_status_code(),
    {
        match self {
            AuthError::WrongCredentials => 401,
            AuthError::MissingCredentials => 400,
            AuthError::TokenCreation => 500,
            AuthError::InvalidToken => 400,
        }
    }

    /// The stable human-readable message for this failure.
    pub fn message(&self) -> (r: String)
        ensures
            r@ == self.spec_message(),
    {
        match self {
            AuthError::WrongCredentials => String::from_str("Wrong credentials"),
            AuthError::MissingCredentials => String::from_str("Missing credentials"),
            AuthError::TokenCreation => String::from_str("Token creation error"),
            AuthError::InvalidToken => String::from_str("Invalid token"),
        }
    }
}

/// An error as a request handler reports it: an HTTP status, a stable
/// machine-readable code, and a human-readable detail.
#[derive(Debug)]
pub struct AppError {
    pub status_code: u16,
    pub code: String,
    pub detail: String,
}

impl AppError {
    /// An error with the given status, code and detail.
    pub fn new(status_code: u16, code: &str, detail: String) -> (r: AppError)
        ensures
            r.status_code == status_code,
            r.code@ == code@,
            r.detail == detail,
    {
        AppError { status_code, code: String::from_str(code), detail }
    }

    /// The internal-fault error every unclassified failure collapses to.
    pub fn unknown(detail: String) -> (r: AppError)
        ensures
            r.status_code == 500,
            r.code@ == "unknown_error"@,
            r.detail == detail,
    {
        AppError {
            status_code: 500,
            code: String::from_str("unknown_error"),
            detail,
        }
    }

    /// How an authentication failure surfaces from a handler: as an
    /// internal unclassified error carrying the failure's message.
    pub fn from_auth(e: AuthError) -> (r: AppError)
        ensures
            r.status_code == 500,
            r.code@ == "unknown_error"@,
            r.detail@ == e.spec_message(),
    {
        AppError::unknown(e.message())
    }

    /// The detail line the response body carries.
    pub fn response_detail(&self) -> (r: String)
        ensures
            r@ == "Something went wrong: "@ + self.detail@,
    {
        let mut s = String::from_str("Something went wrong: ");
        s.append(self.detail.as_str());
        s
    }
}

impl Default for AppError {
    /// The error a handler reports when nothing more precise is known.
    fn default() -> (r: AppError)
        ensures
            r.status_code == 500,
            r.code@ == "unknown_error"@,
            r.detail@ == "Unknown error"@,
    {
        AppError::unknown(String::from_str("Unknown error"))
    }
}

} // verus!
