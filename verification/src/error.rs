//! What can go wrong, and how each failure is shown to a client.
//!
//! Failures of hashing, signing and storage are shown with a fixed text:
//! nothing of the lower layers reaches the client. Only a body that could not
//! be decoded or encoded carries the reason along.

use vstd::prelude::*;
use vstd::string::StringExecFns;

verus! {

/// A failure of a request.
#[derive(Clone, Debug, PartialEq, Eq)]
pub enum Error {
    /// No such route.
    InvalidRoute,
    /// The request body could not be decoded; the reason is kept.
    DecodeBody(String),
    /// The response body could not be encoded; the reason is kept.
    EncodeBody(String),
    /// The password could not be hashed.
    Hash,
    /// The stored password hash is corrupt.
    InvalidPasswordHash,
    /// The bot challenge token is missing from the request.
    MissingTurnstileToken,
    /// The bot challenge secret is missing from the configuration.
    MissingTurnstileSecret,
    /// The bot challenge was not passed.
    InvalidTurnstileToken,
    /// No token could be issued.
    JwtGeneration,
    /// Unknown user or wrong password: the two are not told apart.
    InvalidCredentials,
    /// The store failed or holds something unexpected.
    KvStoreError,
    /// The request carries no authorization header.
    MissingAuthToken,
    /// The authorization header is not of the bearer scheme.
    InvalidAuthFormat,
    /// The token was not accepted.
    InvalidJwtToken,
    /// The token has expired.
    ExpiredJwtToken,
    /// Registration under a name that is taken.
    UserExists,
    /// Renaming to a name that is taken.
    UsernameExists,
    /// An update that names neither a new username nor a new password.
    MissingUpdateFields,
}

/// Value of an [`Error`].
pub enum ErrorView {
    InvalidRoute,
    DecodeBody(Seq<char>),
    EncodeBody(Seq<char>),
    Hash,
    InvalidPasswordHash,
    MissingTurnstileToken,
    MissingTurnstileSecret,
    InvalidTurnstileToken,
    JwtGeneration,
    InvalidCredentials,
    KvStoreError,
    MissingAuthToken,
    InvalidAuthFormat,
    InvalidJwtToken,
    ExpiredJwtToken,
    UserExists,
    UsernameExists,
    MissingUpdateFields,
}

impl View for Error {
    type V = ErrorView;

    open spec fn view(&self) -> ErrorView {
        match self {
            Error::InvalidRoute => ErrorView::InvalidRoute,
            Error::DecodeBody(reason) => ErrorView::DecodeBody(reason@),
            Error::EncodeBody(reason) => ErrorView::EncodeBody(reason@),
            Error::Hash => ErrorView::Hash,
            Error::InvalidPasswordHash => ErrorView::InvalidPasswordHash,
            Error::MissingTurnstileToken => ErrorView::MissingTurnstileToken,
            Error::MissingTurnstileSecret => ErrorView::MissingTurnstileSecret,
            Error::InvalidTurnstileToken => ErrorView::InvalidTurnstileToken,
            Error::JwtGeneration => ErrorView::JwtGeneration,
            Error::InvalidCredentials => ErrorView::InvalidCredentials,
            Error::KvStoreError => ErrorView::KvStoreError,
            Error::MissingAuthToken => ErrorView::MissingAuthToken,
            Error::InvalidAuthFormat => ErrorView::InvalidAuthFormat,
            Error::InvalidJwtToken => ErrorView::InvalidJwtToken,
            Error::ExpiredJwtToken => ErrorView::ExpiredJwtToken,
            Error::UserExists => ErrorView::UserExists,
            Error::UsernameExists => ErrorView::UsernameExists,
            Error::MissingUpdateFields => ErrorView::MissingUpdateFields,
        }
    }
}

/// The HTTP status that answers a failure.
///
/// Bad input is a 400, a failed authentication a 401, a name that is taken a
/// 409, an unknown route a 404, and a failure of the server's own parts a 500.
pub open spec fn status_of(error: ErrorView) -> u16 {
    match error {
        ErrorView::InvalidRoute => 404,
        ErrorView::DecodeBody(_) => 400,
        ErrorView::EncodeBody(_) => 500,
        ErrorView::Hash => 500,
        ErrorView::InvalidPasswordHash => 500,
        ErrorView::MissingTurnstileToken => 400,
        ErrorView::MissingTurnstileSecret => 500,
        ErrorView::InvalidTurnstileToken => 401,
        ErrorView::JwtGeneration => 500,
        ErrorView::InvalidCredentials => 401,
        ErrorView::KvStoreError => 500,
        ErrorView::MissingAuthToken => 401,
        ErrorView::InvalidAuthFormat => 401,
        ErrorView::InvalidJwtToken => 401,
        ErrorView::ExpiredJwtToken => 401,
        ErrorView::UserExists => 409,
        ErrorView::UsernameExists => 409,
        ErrorView::MissingUpdateFields => 400,
    }
}

/// The text that answers a failure.
pub open spec fn message_of(error: ErrorView) -> Seq<char> {
    match error {
        ErrorView::InvalidRoute => "Route not found"@,
        ErrorView::DecodeBody(reason) => "Failed to decode request body: "@ + reason,
        ErrorView::EncodeBody(reason) => "Failed to encode response body: "@ + reason,
        ErrorView::Hash => "Failed to hash password"@,
        ErrorView::InvalidPasswordHash => "Invalid password hash"@,
        ErrorView::MissingTurnstileToken => "Missing Turnstile token in cf-turnstile-response header"@,
        ErrorView::MissingTurnstileSecret => "Missing Turnstile secret key in environment"@,
        ErrorView::InvalidTurnstileToken => "Invalid Turnstile token"@,
        ErrorView::JwtGeneration => "Failed to generate JWT"@,
        ErrorView::InvalidCredentials => "Invalid credentials"@,
        ErrorView::KvStoreError => "Internal server error"@,
        ErrorView::MissingAuthToken => "Missing Authorization header"@,
        ErrorView::InvalidAuthFormat => "Invalid Authorization format. Use 'Bearer <token>'"@,
        ErrorView::InvalidJwtToken => "Invalid JWT token"@,
        ErrorView::ExpiredJwtToken => "JWT token has expired"@,
        ErrorView::UserExists => "User already exists"@,
        ErrorView::UsernameExists => "Username already exists"@,
        ErrorView::MissingUpdateFields =>
            "At least one field (new_username or new_password) must be provided"@,
    }
}

impl Error {
    /// The HTTP status that answers this failure.
    pub fn status(&self) -> (code: u16)
        ensures
            code == status_of(self@),
    {
        match self {
            Error::InvalidRoute => 404,
            Error::DecodeBody(_) => 400,
            Error::EncodeBody(_) => 500,
            Error::Hash => 500,
            Error::InvalidPasswordHash => 500,
            Error::MissingTurnstileToken => 400,
            Error::MissingTurnstileSecret => 500,
            Error::InvalidTurnstileToken => 401,
            Error::JwtGeneration => 500,
            Error::InvalidCredentials => 401,
            Error::KvStoreError => 500,
            Error::MissingAuthToken => 401,
            Error::InvalidAuthFormat => 401,
            Error::InvalidJwtToken => 401,
            Error::ExpiredJwtToken => 401,
            Error::UserExists => 409,
            Error::UsernameExists => 409,
            Error::MissingUpdateFields => 400,
        }
    }

    /// The text that answers this failure.
    pub fn message(&self) -> (text: String)
        ensures
            text@ == message_of(self@),
    {
        match self {
            Error::InvalidRoute => "Route not found".to_owned(),
            Error::DecodeBody(reason) => "Failed to decode request body: ".to_owned().concat(
                reason.as_str(),
            ),
            Error::EncodeBody(reason) => "Failed to encode response body: ".to_owned().concat(
                reason.as_str(),
            ),
            Error::Hash => "Failed to hash password".to_owned(),
            Error::InvalidPasswordHash => "Invalid password hash".to_owned(),
            Error::MissingTurnstileToken =>
                "Missing Turnstile token in cf-turnstile-response header".to_owned(),
            Error::MissingTurnstileSecret => "Missing Turnstile secret key in environment".to_owned(),
            Error::InvalidTurnstileToken => "Invalid Turnstile token".to_owned(),
            Error::JwtGeneration => "Failed to generate JWT".to_owned(),
            Error::InvalidCredentials => "Invalid credentials".to_owned(),
            Error::KvStoreError => "Internal server error".to_owned(),
            Error::MissingAuthToken => "Missing Authorization header".to_owned(),
            Error::InvalidAuthFormat => "Invalid Authorization format. Use 'Bearer <token>'".to_owned(),
            Error::InvalidJwtToken => "Invalid JWT token".to_owned(),
            Error::ExpiredJwtToken => "JWT token has expired".to_owned(),
            Error::UserExists => "User already exists".to_owned(),
            Error::UsernameExists => "Username already exists".to_owned(),
            Error::MissingUpdateFields =>
                "At least one field (new_username or new_password) must be provided".to_owned(),
        }
    }
}

} // verus!
