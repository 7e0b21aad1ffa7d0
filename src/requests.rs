//! The bodies of the requests and responses that the service exchanges.
use vstd::prelude::*;

verus! {

/// A bearer token handed to a client.
#[derive(Debug, Clone, PartialEq, Eq)]
pub struct Token {
    pub token: String,
}

/// A confirmation code presented by a client.
#[derive(Debug, Clone, PartialEq, Eq)]
pub struct ConfirmationCode {
    pub confirmation_code: String,
}

/// The data of a signup.
#[derive(Debug, Clone, PartialEq, Eq)]
pub struct AccountInfo {
    pub username: String,
    pub email: String,
    pub password: String,
}

/// An account as shown to its owner.
#[derive(Debug, Clone, PartialEq, Eq)]
pub struct AccountInfoWithoutPassword {
    pub username: String,
    pub email: String,
    pub creation_timestamp: String,
}

/// A requested username.
#[derive(Debug, Clone, PartialEq, Eq)]
pub struct Username {
    pub username: String,
}

/// A requested email address.
#[derive(Debug, Clone, PartialEq, Eq)]
pub struct Email {
    pub email: String,
}

/// A requested password.
#[derive(Debug, Clone, PartialEq, Eq)]
pub struct Password {
    pub password: String,
}

/// A login by email and password.
#[derive(Debug, Clone, PartialEq, Eq)]
pub struct AuthenticationCredentials {
    pub email: String,
    pub password: String,
}

/// A login by email and an emailed code.
#[derive(Debug, Clone, PartialEq, Eq)]
pub struct EmailAndConfirmationCode {
    pub email: String,
    pub confirmation_code: String,
}

/// A request to sign up.
#[derive(Debug, Clone, PartialEq, Eq)]
pub struct CreateAccountRequest {
    pub username: String,
    pub email: String,
    pub password: String,
}

/// The token handed out at signup.
#[derive(Debug, Clone, PartialEq, Eq)]
pub struct CreateAccountResponse {
    pub token: String,
}

/// A request to confirm a signup.
#[derive(Debug, Clone, PartialEq, Eq)]
pub struct ConfirmAccountRequest {
    pub confirmation_code: String,
}

/// The token handed out once a signup is confirmed.
#[derive(Debug, Clone, PartialEq, Eq)]
pub struct ConfirmAccountResponse {
    pub token: String,
}

/// A request to confirm an account deletion.
#[derive(Debug, Clone, PartialEq, Eq)]
pub struct ConfirmDeleteAccountRequest {
    pub confirmation_code: String,
}

/// A request to change the username.
#[derive(Debug, Clone, PartialEq, Eq)]
pub struct UpdateUsernameRequest {
    pub username: String,
}

/// A request to confirm a username change.
#[derive(Debug, Clone, PartialEq, Eq)]
pub struct ConfirmUpdateUsernameRequest {
    pub confirmation_code: String,
}

/// The token handed out once a username change is confirmed.
#[derive(Debug, Clone, PartialEq, Eq)]
pub struct ConfirmUpdateUsernameResponse {
    pub token: String,
}

/// A request to change the password.
#[derive(Debug, Clone, PartialEq, Eq)]
pub struct UpdatePasswordRequest {
    pub password: String,
}

/// A request to confirm a password change.
#[derive(Debug, Clone, PartialEq, Eq)]
pub struct ConfirmUpdatePasswordRequest {
    pub confirmation_code: String,
}

/// The token handed out once a password change is confirmed.
#[derive(Debug, Clone, PartialEq, Eq)]
pub struct ConfirmUpdatePasswordResponse {
    pub token: String,
}

/// A request to change the email address.
#[derive(Debug, Clone, PartialEq, Eq)]
pub struct UpdateEmailRequest {
    pub email: String,
}

/// A request to confirm the first phase of an email change.
#[derive(Debug, Clone, PartialEq, Eq)]
pub struct ConfirmUpdateEmailStepOneRequest {
    pub confirmation_code: String,
}

/// A request to confirm the second phase of an email change.
#[derive(Debug, Clone, PartialEq, Eq)]
pub struct ConfirmUpdateEmailStepTwoRequest {
    pub confirmation_code: String,
}

/// The token handed out once an email change is confirmed.
#[derive(Debug, Clone, PartialEq, Eq)]
pub struct ConfirmUpdateEmailStepTwoResponse {
    pub token: String,
}

/// The identifier of an account.
#[derive(Debug, Clone, PartialEq, Eq)]
pub struct AccountId {
    pub account_id: String,
}

/// The email of an account.
#[derive(Debug, Clone, PartialEq, Eq)]
pub struct AccountEmail {
    pub email: String,
}

} // verus!
