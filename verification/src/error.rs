//! Error taxonomy: client-visible denials and internal faults.
//!
//! A `ClientError` is safe to show to a caller as a short code; every other
//! `Error` variant is an internal fault that callers only ever see as an
//! opaque failure (a generic message and a 500 status).

use vstd::prelude::*;

verus! {

/// Errors that map to a deliberate, client-visible denial.
#[derive(Clone, Debug, PartialEq, Eq)]
pub enum ClientError {
    BadRequest(String),
    EmailTaken,
    EmailNotFound,
    InvalidPassword,
    TopicNotFound,
    ReplyNotFound,
    Unauthorized,
}

/// All failures of the library. `Client` carries a deliberate denial;
/// the other variants are internal faults.
#[derive(Clone, Debug, PartialEq, Eq)]
pub enum Error {
    /// A fault inside the token codec that is not ordinary invalidity.
    JsonWebToken,
    /// A fault inside the password-hashing primitive.
    Bcrypt,
    /// A required configuration variable is absent.
    MissingEnv(String),
    /// The store acknowledged a create without returning the new record.
    RecordNotCreated(String),
    /// A deliberate, client-visible denial.
    Client(ClientError),
}

impl ClientError {
    /// The short code shown to clients for this denial.
    pub open spec fn spec_code(&self) -> Seq<char> {
        match self {
            ClientError::BadRequest(_) => "BAD_REQUEST"@,
            ClientError::EmailTaken => "EMAIL_TAKEN"@,
            ClientError::EmailNotFound => "EMAIL_NOT_FOUND"@,
            ClientError::InvalidPassword => "INVALID_PASSWORD"@,
            ClientError::TopicNotFound => "TOPIC_NOT_FOUND"@,
            ClientError::ReplyNotFound => "REPLY_NOT_FOUND"@,
            ClientError::Unauthorized => "UNAUTHORIZED"@,
        }
    }

    /// The HTTP status that this denial is reported with.
    pub open spec fn spec_status(&self) -> u16 {
        match self {
            ClientError::BadRequest(_) => 400,
            ClientError::EmailTaken => 409,
            ClientError::EmailNotFound => 404,
            ClientError::InvalidPassword => 400,
            ClientError::TopicNotFound => 404,
            ClientError::ReplyNotFound => 404,
            ClientError::Unauthorized => 401,
        }
    }

    pub fn code(&self) -> (r: String)
        ensures
            r@ == self.spec_code(),
    {
        match self {
            ClientError::BadRequest(_) => String::from_str("BAD_REQUEST"),
            ClientError::EmailTaken => String::from_str("EMAIL_TAKEN"),
            ClientError::EmailNotFound => String::from_str("EMAIL_NOT_FOUND"),
            ClientError::InvalidPassword => String::from_str("INVALID_PASSWORD"),
            ClientError::TopicNotFound => String::from_str("TOPIC_NOT_FOUND"),
            ClientError::ReplyNotFound => String::from_str("REPLY_NOT_FOUND"),
            ClientError::Unauthorized => String::from_str("UNAUTHORIZED"),
        }
    }

    pub fn status_code(&self) -> (r: u16)
        ensures
            r == self.spec_status(),
    {
        match self {
            ClientError::BadRequest(_) => 400,
            ClientError::EmailTaken => 409,
            ClientError::EmailNotFound => 404,
            ClientError::InvalidPassword => 400,
            ClientError::TopicNotFound => 404,
            ClientError::ReplyNotFound => 404,
            ClientError::Unauthorized => 401,
        }
    }
}

impl Error {
    /// The message shown to callers: the client code for a denial, an
    /// opaque fixed message for every internal fault.
    pub open spec fn spec_message(&self) -> Seq<char> {
        match self {
            Error::Client(c) => c.spec_code(),
            _ => "Internal Server Error"@,
        }
    }

    /// The HTTP status of this failure: the denial's own status, or 500.
    pub open spec fn spec_status(&self) -> u16 {
        match self {
            Error::Client(c) => c.spec_status(),
            _ => 500,
        }
    }

    pub fn message(&self) -> (r: String)
        ensures
            r@ == self.spec_message(),
    {
        match self {
            Error::Client(c) => c.code(),
            _ => String::from_str("Internal Server Error"),
        }
    }

    pub fn status_code(&self) -> (r: u16)
        ensures
            r == self.spec_status(),
    {
        match self {
            Error::Client(c) => c.status_code(),
            _ => 500,
        }
    }
}

} // verus!
