use vstd::prelude::*;

verus! {

/// Why an operation was refused. None of them is fatal; a failed one-time code
/// is no error at all.
#[derive(Debug, Clone, Copy, PartialEq, Eq, Structural)]
pub enum AuthError {
    /// An account with the same email, up to letter case, exists.
    Conflict,
    /// No account has the email given or named by the session.
    NotFound,
    /// The password does not match.
    InvalidCredential,
    /// The operation needs a session record and there is none.
    Unauthorized,
    /// The session record exists but has not completed sign-in.
    Forbidden,
    /// The account has no one-time-password secret on file.
    PreconditionFailed,
    /// The one-time-password engine itself failed.
    TransportFailure,
}

impl AuthError {
    /// The text of each error.
    pub open spec fn message_spec(&self) -> &'static str {
        match self {
            AuthError::Conflict => "User with this email exists.",
            AuthError::NotFound => "User does not exist.",
            AuthError::InvalidCredential => "Invalid credential.",
            AuthError::Unauthorized => "No user found for the current session.",
            AuthError::Forbidden => "User has to sign in to disable 2FA.",
            AuthError::PreconditionFailed => "User does not have otp enabled.",
            AuthError::TransportFailure => "Error in the one-time-password engine.",
        }
    }

    /// A short text for the error response.
    pub fn message(&self) -> (r: &'static str)
        ensures
            r == self.message_spec(),
    {
        match self {
            AuthError::Conflict => "User with this email exists.",
            AuthError::NotFound => "User does not exist.",
            AuthError::InvalidCredential => "Invalid credential.",
            AuthError::Unauthorized => "No user found for the current session.",
            AuthError::Forbidden => "User has to sign in to disable 2FA.",
            AuthError::PreconditionFailed => "User does not have otp enabled.",
            AuthError::TransportFailure => "Error in the one-time-password engine.",
        }
    }
}

} // verus!
