//! The failures that the core reports, and how the HTTP layer shows them.

use vstd::prelude::*;

verus! {

/// Why a token whose signature was not at fault has been turned away.
#[derive(Clone, Copy, Debug, PartialEq, Eq, Structural)]
pub enum RejectReason {
    /// The token lacks the id, the nickname or the email of the identity,
    /// or holds one of them in another shape.
    Malformed,
    /// The token names no issuer, or another one.
    WrongIssuer,
    /// The token names no audience, or another one.
    WrongAudience,
    /// The token carries no expiry instant.
    MissingExpiry,
    /// The expiry instant has been reached.
    Expired,
}

/// What the user store can report instead of a record.
#[derive(Clone, Copy, Debug, PartialEq, Eq, Structural)]
pub enum StoreError {
    /// No record matches the query.
    NotFound,
    /// The insert would repeat a username or an email.
    UniqueViolation,
    /// Any other failure of the store.
    Other,
}

/// Every failure of the core.
#[derive(Clone, Copy, Debug, PartialEq, Eq, Structural)]
pub enum AppError {
    /// A PEM text does not hold the expected key.
    KeyLoadError,
    /// The password could not be hashed.
    HashingFailed,
    /// A stored digest is not a PHC string.
    MalformedDigest,
    /// Unknown email or wrong password; callers cannot tell which.
    InvalidCredentials,
    /// The username or the email is already registered.
    DuplicateAccount,
    /// The user store failed.
    PersistenceError,
    /// A token could not be issued.
    SigningFailed,
    /// The text is no token, or its signature does not belong to its
    /// content under the key.
    InvalidSignature,
    /// The token is well signed but not acceptable.
    TokenRejected(RejectReason),
}

/// The HTTP status that stands for `e`.
pub open spec fn status_of(e: AppError) -> u16 {
    match e {
        AppError::PersistenceError | AppError::DuplicateAccount => 500,
        AppError::HashingFailed | AppError::MalformedDigest => 422,
        AppError::KeyLoadError
        | AppError::SigningFailed
        | AppError::InvalidSignature
        | AppError::TokenRejected(_)
        | AppError::InvalidCredentials => 403,
    }
}

/// The words that stand for `e` in a reply.
pub open spec fn message_of(e: AppError) -> Seq<char> {
    match e {
        AppError::PersistenceError => "sql error"@,
        AppError::DuplicateAccount => "account already exists"@,
        AppError::HashingFailed | AppError::MalformedDigest => "password hash error"@,
        AppError::InvalidCredentials => "password is not correct"@,
        AppError::KeyLoadError
        | AppError::SigningFailed
        | AppError::InvalidSignature
        | AppError::TokenRejected(_) => "jwt error"@,
    }
}

impl AppError {
    /// The words that a reply carries for the failure. A wrong password and
    /// an unknown email get the same words, as they get the same failure.
    pub fn message(&self) -> (text: String)
        ensures
            text@ == message_of(*self),
    {
        match self {
            AppError::PersistenceError => "sql error".to_owned(),
            AppError::DuplicateAccount => "account already exists".to_owned(),
            AppError::HashingFailed | AppError::MalformedDigest => "password hash error".to_owned(),
            AppError::InvalidCredentials => "password is not correct".to_owned(),
            _ => "jwt error".to_owned(),
        }
    }

    /// The HTTP status with which the failure is answered: 500 for what the
    /// store refused or failed at, 422 for digests, 403 for credentials and
    /// tokens.
    pub fn status_code(&self) -> (code: u16)
        ensures
            code == status_of(*self),
    {
        match self {
            AppError::PersistenceError | AppError::DuplicateAccount => 500,
            AppError::HashingFailed | AppError::MalformedDigest => 422,
            _ => 403,
        }
    }

    /// What the store's failure means to a caller: a repeated key is a
    /// duplicate account, anything else a persistence failure.
    pub fn from_store(e: StoreError) -> (r: AppError)
        ensures
            r == store_failure(e),
    {
        match e {
            StoreError::UniqueViolation => AppError::DuplicateAccount,
            _ => AppError::PersistenceError,
        }
    }
}

/// The failure that a caller sees for a failure of the store.
pub open spec fn store_failure(e: StoreError) -> AppError {
    if e == StoreError::UniqueViolation {
        AppError::DuplicateAccount
    } else {
        AppError::PersistenceError
    }
}

} // verus!
