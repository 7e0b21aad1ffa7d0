//! Error kinds of the account service.
use vstd::prelude::*;

verus! {

/// What went wrong in an account operation.
#[derive(Debug, Clone, Copy, PartialEq, Eq, Structural)]
pub enum Error {
    /// Every identifier drawn within the retry limit was already in use.
    CreateIdRetryLimitExceeded,
    /// No account has the given identifier.
    AccountNotFound,
    /// No pending change has the given code for the given account.
    AccountChangeNotFound,
    /// A pending change was presented at a phase it does not belong to.
    StepMismatch,
    /// A value that must be unique (identifier, username, email) is taken.
    DuplicateKey,
    /// The password hasher failed (bad cost, bad stored hash, no randomness).
    CryptoFailure,
    /// The password does not match the stored hash.
    PlainNotEqualToEncryptedString,
    /// Signing a token failed.
    CreateJwt,
    /// The account's change stamp is at its largest value and the clock has
    /// not passed it, so no change can be confirmed.
    StampExhausted,
    /// The token is malformed, forged, or no longer matches the account.
    InvalidToken,
    /// A configuration variable is not set.
    MissingConfigVariable,
    /// A numeric configuration variable does not hold a number in range.
    InvalidConfigVariable,
}

/// Failures of the outbound mail transport.
#[derive(Debug, Clone, PartialEq, Eq)]
pub enum EmailError {
    Build(String),
    ParseSenderAddress(String),
    ParseRecipientAddress(String),
    StartRelayConnection(String),
    Send(String),
}

/// Failures of the password hasher.
#[derive(Debug, Clone, PartialEq, Eq)]
pub enum EncryptionError {
    EncryptString(String),
    ComparePlainToEncryptedString(String),
}

/// Failures around bearer tokens.
#[derive(Debug, Clone, PartialEq, Eq)]
pub enum TokenError {
    CreateToken(String),
    DecodeToken(String),
    MissingAuthorizationHeader(String),
    InvalidToken,
}

/// Failures of the picture bucket.
#[derive(Debug, Clone, PartialEq, Eq)]
pub enum S3Error {
    InstantiateBucket(String),
    HeadObject(String),
    BucketNotFound,
    PutObject(String),
}

/// Failures of row lookups.
#[derive(Debug, Clone, PartialEq, Eq)]
pub enum DatabaseError {
    FetchOne(String),
    RowNotFound,
}

} // verus!
