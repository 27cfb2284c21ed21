use vstd::prelude::*;

verus! {

/// A registered account. The email is the key (unique up to letter case); the
/// password is kept and compared as given.
pub struct User {
    pub email: String,
    pub password: String,
    /// Base32 text of the shared one-time-password secret, when one was issued.
    pub otp_secret: Option<String>,
    /// `None`: no second factor; `Some(false)`: enrollment started;
    /// `Some(true)`: enrollment confirmed, sign-in asks for a code.
    pub otp_verified: Option<bool>,
}

/// What may be shown of a user outside the service: never the password or the
/// secret.
pub struct UserResponse {
    pub email: String,
    pub otp_enabled: bool,
}

/// Whether the record has a confirmed second factor.
pub open spec fn otp_enabled_spec(u: User) -> bool {
    u.otp_verified == Some(true)
}

/// The public view of a record.
pub open spec fn response_of(u: User) -> UserResponse {
    UserResponse { email: u.email, otp_enabled: otp_enabled_spec(u) }
}

/// The record with its second-factor fields replaced.
pub open spec fn with_otp(u: User, secret: Option<String>, verified: Option<bool>) -> User {
    User { otp_secret: secret, otp_verified: verified, ..u }
}

/// A copy of an optional text.
pub fn clone_opt_string(s: &Option<String>) -> (r: Option<String>)
    ensures
        r == *s,
{
    match s {
        Some(v) => Some(v.clone()),
        None => None,
    }
}

impl User {
    /// A record with no second factor.
    pub open spec fn new_spec(email: String, password: String) -> User {
        User { email, password, otp_secret: None, otp_verified: None }
    }

    /// A record with no second factor.
    pub fn new(email: String, password: String) -> (r: User)
        ensures
            r == User::new_spec(email, password),
    {
        User { email, password, otp_secret: None, otp_verified: None }
    }

    /// A field-for-field copy.
    pub fn duplicate(&self) -> (r: User)
        ensures
            r == *self,
    {
        User {
            email: self.email.clone(),
            password: self.password.clone(),
            otp_secret: clone_opt_string(&self.otp_secret),
            otp_verified: self.otp_verified,
        }
    }

    /// The public view: email and whether the second factor is confirmed.
    pub fn to_response_value(&self) -> (r: UserResponse)
        ensures
            r == response_of(*self),
    {
        let otp_enabled = match self.otp_verified {
            Some(b) => b,
            None => false,
        };
        UserResponse { email: self.email.clone(), otp_enabled }
    }
}

} // verus!
