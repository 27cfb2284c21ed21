use vstd::prelude::*;

verus! {

/// What the session of one client holds: whom it names, and whether that user
/// has completed sign-in (password and, where enrolled, the second factor).
pub struct SessionUserModel {
    pub email: String,
    pub signed_in: bool,
}

impl SessionUserModel {
    pub fn new(email: String, signed_in: bool) -> (r: SessionUserModel)
        ensures
            r.email == email,
            r.signed_in == signed_in,
    {
        SessionUserModel { email, signed_in }
    }

    /// A field-for-field copy.
    pub fn duplicate(&self) -> (r: SessionUserModel)
        ensures
            r == *self,
    {
        SessionUserModel { email: self.email.clone(), signed_in: self.signed_in }
    }
}

} // verus!
