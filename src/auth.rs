use vstd::prelude::*;
use totp_rs::Secret;
use crate::error::AuthError;
use crate::otp::{
    base32_decoded, base32_encoded, build_otp_response, generate_otp, is_base32_char, otp_buildable,
    provision_outcome, service_otp, OtpProvisioning,
};
use totp_rs::TOTP;
use crate::params::{OTPResponseType, OTPResponseTypeQueryParameter, RegisterSignInBodyParameter, VerifyOTPParameter};
use crate::session::SessionUserModel;
use crate::store::{folded_taken, index_of_email, lemma_index_of_email_bounds, UserStore};
use crate::user::{response_of, with_otp, User, UserResponse};

verus! {

/// The answer to a sign-in with the right password.
pub struct SignInResponse {
    /// The account has a confirmed second factor, so a code must follow.
    pub otp_verification_required: bool,
    /// The public view, withheld while a code is still owed.
    pub user: Option<UserResponse>,
}

/// The answer to a code check; a wrong code is no error.
pub struct OtpVerification {
    pub otp_verified: bool,
    pub user: Option<UserResponse>,
}

/// Whether sign-in with the right password must wait for a code.
pub open spec fn otp_verification_required_spec(u: User) -> bool {
    u.otp_verified == Some(true)
}

/// The session record of a fully signed-in `email`.
pub open spec fn signed_in_as(email: String) -> Option<SessionUserModel> {
    Some(SessionUserModel { email, signed_in: true })
}

/// The effect of a code check on the record at `i`: a valid code confirms the
/// second factor and signs the session in; an invalid one changes nothing.
pub open spec fn otp_check_applied(
    users: Seq<User>,
    users2: Seq<User>,
    session: Option<SessionUserModel>,
    session2: Option<SessionUserModel>,
    i: int,
    is_valid: bool,
    r: OtpVerification,
) -> bool {
    if is_valid {
        &&& users2 == users.update(i, with_otp(users[i], users[i].otp_secret, Some(true)))
        &&& session2 == signed_in_as(users[i].email)
        &&& r == (OtpVerification { otp_verified: true, user: Some(response_of(users2[i])) })
    } else {
        &&& users2 == users
        &&& session2 == session
        &&& r == (OtpVerification { otp_verified: false, user: None })
    }
}

/// A generator of this service for `email`, on a secret of 20 fresh bytes.
pub open spec fn fresh_service_otp(t: TOTP, email: Seq<char>) -> bool {
    service_otp(t, t.secret@, email) && t.secret@.len() == 20
}

/// Whether `key` is the base32 text of `t`'s secret, which reads back as that
/// secret.
pub open spec fn key_of(t: TOTP, key: Seq<char>) -> bool {
    &&& key == base32_encoded(t.secret@)
    &&& base32_decoded(key) == Some(t.secret@)
    &&& key.len() == 32
    &&& forall|c: int| 0 <= c < key.len() ==> is_base32_char(#[trigger] key[c])
}

/// Creates an account with no second factor and signs the session in, unless
/// the email is taken up to letter case.
pub fn register(
    store: &mut UserStore,
    session: &mut Option<SessionUserModel>,
    params: RegisterSignInBodyParameter,
) -> (r: Result<UserResponse, AuthError>)
    requires
        old(store).wf(),
    ensures
        final(store).wf(),
        (r is Err) <==> folded_taken(old(store)@, params.email@),
        match r {
            Ok(v) => {
                &&& final(store)@ == old(store)@.push(
                    User::new_spec(params.email, params.password),
                )
                &&& *final(session) == signed_in_as(params.email)
                &&& v == (UserResponse { email: params.email, otp_enabled: false })
            },
            Err(e) => e == AuthError::Conflict && final(store)@ == old(store)@ && *final(session)
                == *old(session),
        },
{
    let email = params.email.clone();
    let user = User::new(params.email, params.password);
    match store.insert(user) {
        Err(e) => Err(e),
        Ok(()) => {
            *session = Some(SessionUserModel::new(email.clone(), true));
            Ok(UserResponse { email, otp_enabled: false })
        },
    }
}

/// Checks the password of the account with exactly this email. With the right
/// password the session names the user, signed in unless a second factor is
/// confirmed; then a code is owed and the user is withheld.
pub fn signin(
    store: &UserStore,
    session: &mut Option<SessionUserModel>,
    params: RegisterSignInBodyParameter,
) -> (r: Result<SignInResponse, AuthError>)
    ensures
        match index_of_email(store@, params.email@) {
            None => r == Err::<SignInResponse, AuthError>(AuthError::NotFound) && *final(session)
                == *old(session),
            Some(i) => if store@[i].password@ != params.password@ {
                r == Err::<SignInResponse, AuthError>(AuthError::InvalidCredential)
                    && *final(session) == *old(session)
            } else {
                let required = otp_verification_required_spec(store@[i]);
                &&& r == Ok::<SignInResponse, AuthError>(
                    SignInResponse {
                        otp_verification_required: required,
                        user: if required {
                            None
                        } else {
                            Some(response_of(store@[i]))
                        },
                    },
                )
                &&& *final(session) == Some(
                    SessionUserModel { email: params.email, signed_in: !required },
                )
            },
        },
{
    proof {
        lemma_index_of_email_bounds(store@, params.email@);
    }
    let i = match store.position_of(&params.email) {
        Some(i) => i,
        None => {
            return Err(AuthError::NotFound);
        },
    };
    let user = store.get(i);
    if user.password != params.password {
        return Err(AuthError::InvalidCredential);
    }
    let required = match user.otp_verified {
        Some(b) => b,
        None => false,
    };
    *session = Some(SessionUserModel::new(params.email, !required));
    let shown = if required {
        None
    } else {
        Some(user.to_response_value())
    };
    Ok(SignInResponse { otp_verification_required: required, user: shown })
}

/// Clears the session's user.
pub fn signout(session: &mut Option<SessionUserModel>)
    ensures
        *final(session) is None,
{
    *session = None;
}

/// Issues a fresh secret to the session's user, marks enrollment as started,
/// and renders the secret as asked. Nothing changes unless the rendering
/// succeeds.
pub fn enable_otp(
    store: &mut UserStore,
    session: &Option<SessionUserModel>,
    params: &OTPResponseTypeQueryParameter,
) -> (r: Result<OtpProvisioning, AuthError>)
    requires
        old(store).wf(),
    ensures
        final(store).wf(),
        match *session {
            None => r == Err::<OtpProvisioning, AuthError>(AuthError::Unauthorized) && final(store)@
                == old(store)@,
            Some(s) => match index_of_email(old(store)@, s.email@) {
                None => r == Err::<OtpProvisioning, AuthError>(AuthError::NotFound) && final(store)@ == old(store)@,
                Some(i) => match r {
                    Ok(p) => {
                        let u = final(store)@[i];
                        &&& !s.email@.contains(':')
                        &&& u.otp_secret is Some
                        &&& final(store)@ == old(store)@.update(
                            i,
                            with_otp(old(store)@[i], u.otp_secret, Some(false)),
                        )
                        &&& exists|t: TOTP|
                            #[trigger] fresh_service_otp(t, s.email@) && key_of(
                                t,
                                u.otp_secret->0@,
                            ) && provision_outcome(t, params.response_type, r)
                    },
                    Err(e) => {
                        &&& e == AuthError::TransportFailure
                        &&& final(store)@ == old(store)@
                        &&& s.email@.contains(':') || exists|t: TOTP|
                            #[trigger] fresh_service_otp(t, s.email@) && provision_outcome(
                                t,
                                params.response_type,
                                r,
                            )
                    },
                },
            },
        },
{
    let s = match session {
        Some(s) => s,
        None => {
            return Err(AuthError::Unauthorized);
        },
    };
    proof {
        lemma_index_of_email_bounds(store@, s.email@);
    }
    let i = match store.position_of(&s.email) {
        Some(i) => i,
        None => {
            return Err(AuthError::NotFound);
        },
    };
    let otp = match generate_otp(store.get(i), None) {
        Ok(otp) => otp,
        Err(e) => {
            return Err(e);
        },
    };
    let key = otp.get_secret_base32();
    let rendered = match build_otp_response(&otp, params.response_type) {
        Ok(p) => p,
        Err(e) => {
            proof {
                assert(fresh_service_otp(otp, s.email@));
            }
            return Err(e);
        },
    };
    proof {
        assert(fresh_service_otp(otp, s.email@));
    }
    store.set_otp(i, Some(key), Some(false));
    Ok(rendered)
}

/// Removes the second factor of the session's user; the session must be fully
/// signed in.
pub fn disable_otp(store: &mut UserStore, session: &Option<SessionUserModel>) -> (r: Result<
    UserResponse,
    AuthError,
>)
    requires
        old(store).wf(),
    ensures
        final(store).wf(),
        match *session {
            None => r == Err::<UserResponse, AuthError>(AuthError::Unauthorized) && final(store)@
                == old(store)@,
            Some(s) => if !s.signed_in {
                r == Err::<UserResponse, AuthError>(AuthError::Forbidden) && final(store)@ == old(store)@
            } else {
                match index_of_email(old(store)@, s.email@) {
                    None => r == Err::<UserResponse, AuthError>(AuthError::NotFound) && final(store)@ == old(store)@,
                    Some(i) => {
                        &&& final(store)@ == old(store)@.update(
                            i,
                            with_otp(old(store)@[i], None, None),
                        )
                        &&& r == Ok::<UserResponse, AuthError>(response_of(final(store)@[i]))
                    },
                }
            },
        },
{
    let s = match session {
        Some(s) => s,
        None => {
            return Err(AuthError::Unauthorized);
        },
    };
    if !s.signed_in {
        return Err(AuthError::Forbidden);
    }
    proof {
        lemma_index_of_email_bounds(store@, s.email@);
    }
    let i = match store.position_of(&s.email) {
        Some(i) => i,
        None => {
            return Err(AuthError::NotFound);
        },
    };
    store.set_otp(i, None, None);
    Ok(store.get(i).to_response_value())
}

/// Applies the outcome of a code check to the record at `i`: a valid code
/// confirms the second factor and signs the session in as that user.
pub fn apply_otp_check(
    store: &mut UserStore,
    session: &mut Option<SessionUserModel>,
    i: usize,
    is_valid: bool,
) -> (r: OtpVerification)
    requires
        old(store).wf(),
        i < old(store)@.len(),
    ensures
        final(store).wf(),
        otp_check_applied(
            old(store)@,
            final(store)@,
            *old(session),
            *final(session),
            i as int,
            is_valid,
            r,
        ),
{
    if !is_valid {
        return OtpVerification { otp_verified: false, user: None };
    }
    let secret = crate::user::clone_opt_string(&store.get(i).otp_secret);
    store.set_otp(i, secret, Some(true));
    let user = store.get(i);
    *session = Some(SessionUserModel::new(user.email.clone(), true));
    OtpVerification { otp_verified: true, user: Some(user.to_response_value()) }
}

/// Checks a code against the secret on file for the session's user, at the
/// current time with one step of tolerance either way.
pub fn verify_otp(
    store: &mut UserStore,
    session: &mut Option<SessionUserModel>,
    params: &VerifyOTPParameter,
) -> (r: Result<OtpVerification, AuthError>)
    requires
        old(store).wf(),
    ensures
        final(store).wf(),
        match *old(session) {
            None => r == Err::<OtpVerification, AuthError>(AuthError::Unauthorized) && final(store)@ == old(store)@ && *final(session) == *old(session),
            Some(s) => match index_of_email(old(store)@, s.email@) {
                None => r == Err::<OtpVerification, AuthError>(AuthError::NotFound) && final(store)@ == old(store)@ && *final(session) == *old(session),
                Some(i) => if old(store)@[i].otp_secret is None {
                    r == Err::<OtpVerification, AuthError>(AuthError::PreconditionFailed) && final(store)@ == old(store)@ && *final(session) == *old(session)
                } else {
                    let key = old(store)@[i].otp_secret->0@;
                    match r {
                        Ok(v) => base32_decoded(key) is Some && otp_buildable(
                            base32_decoded(key)->0,
                            s.email@,
                        ) && otp_check_applied(
                            old(store)@,
                            final(store)@,
                            *old(session),
                            *final(session),
                            i,
                            v.otp_verified,
                            v,
                        ),
                        Err(e) => e == AuthError::TransportFailure && final(store)@ == old(store)@
                            && *final(session) == *old(session),
                    }
                },
            },
        },
{
    let email = match session {
        Some(s) => s.email.clone(),
        None => {
            return Err(AuthError::Unauthorized);
        },
    };
    proof {
        lemma_index_of_email_bounds(store@, email@);
    }
    let i = match store.position_of(&email) {
        Some(i) => i,
        None => {
            return Err(AuthError::NotFound);
        },
    };
    let saved = match &store.get(i).otp_secret {
        Some(k) => k.clone(),
        None => {
            return Err(AuthError::PreconditionFailed);
        },
    };
    let otp = match generate_otp(store.get(i), Some(Secret::Encoded(saved))) {
        Ok(otp) => otp,
        Err(e) => {
            return Err(e);
        },
    };
    let is_valid = match otp.check_current(params.otp_token.as_str()) {
        Ok(b) => b,
        Err(_) => {
            return Err(AuthError::TransportFailure);
        },
    };
    Ok(apply_otp_check(store, session, i, is_valid))
}

} // verus!
