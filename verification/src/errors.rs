//! The error taxonomy of the authentication core.

use vstd::prelude::*;

verus! {

/// The hashing or signing machinery could not do its work. Carries no
/// detail: none may reach a client.
#[derive(Clone, Copy, Debug, PartialEq, Eq, Structural)]
pub struct InternalFailure;

/// Why a session token was not accepted.
#[derive(Clone, Copy, Debug, PartialEq, Eq, Structural)]
pub enum TokenError {
    /// The text is no token, or its claims lack a subject or an expiry.
    Malformed,
    /// The signature does not belong to this token under the secret held.
    SignatureMismatch,
    /// The token was presented at or after its expiry.
    Expired,
}

/// An insertion found its key already taken.
#[derive(Clone, Copy, Debug, PartialEq, Eq, Structural)]
pub struct DuplicateKey;

/// Why a registration did not go through.
#[derive(Clone, Copy, Debug, PartialEq, Eq, Structural)]
pub enum RegisterError {
    /// The password and its confirmation differ.
    PasswordMismatch,
    /// An account is already filed under the email.
    EmailTaken,
    /// Hashing the password or signing the token failed.
    Internal,
}

/// Why a login did not go through.
#[derive(Clone, Copy, Debug, PartialEq, Eq, Structural)]
pub enum LoginError {
    /// No account under the email, or the password is not that account's.
    /// The two are not told apart, so that a caller cannot probe which
    /// emails are registered.
    InvalidCredentials,
    /// Signing the token failed.
    Internal,
}

impl RegisterError {
    /// The status that answers the failed request: 400 for what the
    /// client can mend, 500 for an internal failure.
    pub fn status(&self) -> (code: u16)
        ensures
            code == (match *self {
                RegisterError::PasswordMismatch => 400u16,
                RegisterError::EmailTaken => 400u16,
                RegisterError::Internal => 500u16,
            }),
    {
        match self {
            RegisterError::PasswordMismatch => 400,
            RegisterError::EmailTaken => 400,
            RegisterError::Internal => 500,
        }
    }

    /// The message that answers the failed request. None carries
    /// internal detail.
    pub fn message(&self) -> (text: &'static str)
        ensures
            text@ == (match *self {
                RegisterError::PasswordMismatch => "Passwords do not match"@,
                RegisterError::EmailTaken => "Registration failed"@,
                RegisterError::Internal => "Internal error"@,
            }),
    {
        match self {
            RegisterError::PasswordMismatch => "Passwords do not match",
            RegisterError::EmailTaken => "Registration failed",
            RegisterError::Internal => "Internal error",
        }
    }
}

impl LoginError {
    /// The status that answers the failed request.
    pub fn status(&self) -> (code: u16)
        ensures
            code == (match *self {
                LoginError::InvalidCredentials => 401u16,
                LoginError::Internal => 500u16,
            }),
    {
        match self {
            LoginError::InvalidCredentials => 401,
            LoginError::Internal => 500,
        }
    }

    /// The message that answers the failed request: one text for every
    /// way in which the credentials can be wrong.
    pub fn message(&self) -> (text: &'static str)
        ensures
            text@ == (match *self {
                LoginError::InvalidCredentials => "Invalid email or password"@,
                LoginError::Internal => "Internal error"@,
            }),
    {
        match self {
            LoginError::InvalidCredentials => "Invalid email or password",
            LoginError::Internal => "Internal error",
        }
    }
}

} // verus!
