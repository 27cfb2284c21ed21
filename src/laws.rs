use vstd::prelude::*;
use crate::auth::{key_of, otp_verification_required_spec};
use crate::otp::base32_decoded;
use totp_rs::TOTP;
use crate::store::{
    emails_distinct, folded_taken, index_of_email, lemma_index_of_email_bounds,
    lemma_index_of_email_found, lower_of,
};
use crate::user::{with_otp, User};

verus! {

/// Once an account is registered, a later registration of the same email in
/// any letter case finds it taken, so it is refused with a conflict and
/// changes nothing.
pub proof fn law_registered_email_conflicts(
    users: Seq<User>,
    first: String,
    password: String,
    second: Seq<char>,
)
    requires
        lower_of(first@) == lower_of(second),
    ensures
        folded_taken(users.push(User::new_spec(first, password)), second),
{
    let s = users.push(User::new_spec(first, password));
    assert(lower_of(s[users.len() as int].email@) == lower_of(second));
}

/// Enabling the second factor twice leaves the key of the second call on file,
/// with enrollment reset, and the first key no longer: each key reads back as
/// the secret it was issued for, so keys of different secrets differ.
pub proof fn law_enable_twice_keeps_latest(
    users: Seq<User>,
    i: int,
    first: TOTP,
    first_key: String,
    second: TOTP,
    second_key: String,
)
    requires
        0 <= i < users.len(),
        key_of(first, first_key@),
        key_of(second, second_key@),
        first.secret@ != second.secret@,
    ensures
        ({
            let once = users.update(i, with_otp(users[i], Some(first_key), Some(false)));
            let twice = once.update(i, with_otp(once[i], Some(second_key), Some(false)));
            &&& twice[i].otp_secret == Some(second_key)
            &&& twice[i].otp_verified == Some(false)
            &&& twice[i].otp_secret->0@ != first_key@
            &&& base32_decoded(twice[i].otp_secret->0@) == Some(second.secret@)
        }),
{
}

/// After the second factor is removed, the user's record is still the one that
/// sign-in finds under its email, and sign-in with it no longer asks for a code.
pub proof fn law_signin_after_disable(users: Seq<User>, i: int)
    requires
        emails_distinct(users),
        0 <= i < users.len(),
    ensures
        ({
            let after = users.update(i, with_otp(users[i], None, None));
            &&& emails_distinct(after)
            &&& index_of_email(after, users[i].email@) == Some(i)
            &&& !otp_verification_required_spec(after[i])
        }),
{
    let after = users.update(i, with_otp(users[i], None, None));
    let email = users[i].email@;
    assert forall|a: int, b: int| 0 <= a < b < after.len() implies lower_of(
        #[trigger] after[a].email@,
    ) != lower_of(#[trigger] after[b].email@) by {
        assert(after[a].email == users[a].email);
        assert(after[b].email == users[b].email);
    }
    lemma_index_of_email_found(after, email, i);
    lemma_index_of_email_bounds(after, email);
    let j = index_of_email(after, email)->0;
    if j != i {
        assert(after[j].email == users[j].email);
        if j < i {
            assert(lower_of(users[j].email@) != lower_of(users[i].email@));
        } else {
            assert(lower_of(users[i].email@) != lower_of(users[j].email@));
        }
    }
}

} // verus!
