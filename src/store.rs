use vstd::prelude::*;
use crate::error::AuthError;
use crate::user::{with_otp, User};

verus! {

/// The lower-case form of a text, as std's Unicode case mapping gives it.
pub uninterp spec fn lower_of(s: Seq<char>) -> Seq<char>;

/// Relies on str::to_lowercase: the result depends on the characters alone.
#[verifier::external_body]
fn lowercase(s: &str) -> (r: String)
    ensures
        r@ == lower_of(s@),
{
    s.to_lowercase()
}

/// Whether `key` is one of `keys`, compared as text.
pub fn contains_key(keys: &Vec<String>, key: &String) -> (r: bool)
    ensures
        r == exists|j: int| 0 <= j < keys@.len() && #[trigger] keys@[j]@ == key@,
{
    let mut k: usize = 0;
    while k < keys.len()
        invariant
            k <= keys@.len(),
            forall|j: int| 0 <= j < k ==> #[trigger] keys@[j]@ != key@,
        decreases keys@.len() - k,
    {
        if keys[k] == *key {
            return true;
        }
        k = k + 1;
    }
    false
}

/// Whether some record's email equals `email` up to letter case.
pub open spec fn folded_taken(users: Seq<User>, email: Seq<char>) -> bool {
    exists|i: int| 0 <= i < users.len() && #[trigger] lower_of(users[i].email@) == lower_of(email)
}

/// No two records share an email up to letter case.
pub open spec fn emails_distinct(users: Seq<User>) -> bool {
    forall|i: int, j: int|
        0 <= i < j < users.len() ==> lower_of(#[trigger] users[i].email@) != lower_of(
            #[trigger] users[j].email@,
        )
}

/// The position of the first record whose email is exactly `email`.
pub open spec fn index_of_email(users: Seq<User>, email: Seq<char>) -> Option<int>
    decreases users.len(),
{
    if users.len() == 0 {
        None
    } else {
        match index_of_email(users.drop_last(), email) {
            Some(i) => Some(i),
            None => if users.last().email@ == email {
                Some(users.len() - 1)
            } else {
                None
            },
        }
    }
}

pub proof fn lemma_index_of_email_bounds(users: Seq<User>, email: Seq<char>)
    ensures
        match index_of_email(users, email) {
            Some(i) => 0 <= i < users.len() && users[i].email@ == email,
            None => true,
        },
    decreases users.len(),
{
    if users.len() > 0 {
        lemma_index_of_email_bounds(users.drop_last(), email);
    }
}

/// A record whose email is exactly `email` makes the lookup succeed.
pub proof fn lemma_index_of_email_found(users: Seq<User>, email: Seq<char>, k: int)
    requires
        0 <= k < users.len(),
        users[k].email@ == email,
    ensures
        index_of_email(users, email) is Some,
    decreases users.len(),
{
    if k < users.len() - 1 {
        assert(users.drop_last()[k] == users[k]);
        lemma_index_of_email_found(users.drop_last(), email, k);
    }
}

/// A match found in a prefix is the first match of the whole sequence.
pub proof fn lemma_index_of_email_prefix(users: Seq<User>, email: Seq<char>, n: int)
    requires
        0 <= n <= users.len(),
        index_of_email(users.take(n), email) is Some,
    ensures
        index_of_email(users, email) == index_of_email(users.take(n), email),
    decreases users.len(),
{
    if n < users.len() {
        assert(users.drop_last().take(n) =~= users.take(n));
        lemma_index_of_email_prefix(users.drop_last(), email, n);
    } else {
        assert(users.take(n) =~= users);
    }
}

/// The directory of accounts, in order of registration.
pub struct UserStore {
    users: Vec<User>,
}

impl View for UserStore {
    type V = Seq<User>;

    closed spec fn view(&self) -> Seq<User> {
        self.users@
    }
}

impl UserStore {
    /// Emails stay distinct up to letter case.
    pub open spec fn wf(&self) -> bool {
        emails_distinct(self@)
    }

    /// An empty directory.
    pub fn new() -> (r: UserStore)
        ensures
            r@ == Seq::<User>::empty(),
            r.wf(),
    {
        UserStore { users: Vec::new() }
    }

    pub fn len(&self) -> (r: usize)
        ensures
            r == self@.len(),
    {
        self.users.len()
    }

    pub fn get(&self, i: usize) -> (r: &User)
        requires
            i < self@.len(),
        ensures
            *r == self@[i as int],
    {
        &self.users[i]
    }

    /// The position of the first record whose email is exactly `email`.
    pub fn position_of(&self, email: &String) -> (r: Option<usize>)
        ensures
            match r {
                Some(i) => index_of_email(self@, email@) == Some(i as int),
                None => index_of_email(self@, email@) is None,
            },
    {
        let mut k: usize = 0;
        while k < self.users.len()
            invariant
                k <= self.users@.len(),
                index_of_email(self.users@.take(k as int), email@) is None,
            decreases self.users@.len() - k,
        {
            assert(self.users@.take(k + 1).drop_last() =~= self.users@.take(k as int));
            if self.users[k].email == *email {
                proof {
                    lemma_index_of_email_prefix(self.users@, email@, k + 1);
                }
                return Some(k);
            }
            k = k + 1;
        }
        assert(self.users@.take(k as int) =~= self.users@);
        None
    }

    /// The first record whose email is exactly `email`.
    pub fn find_by_email(&self, email: &String) -> (r: Option<&User>)
        ensures
            match index_of_email(self@, email@) {
                Some(i) => r == Some(&self@[i]),
                None => r is None,
            },
    {
        proof {
            lemma_index_of_email_bounds(self@, email@);
        }
        match self.position_of(email) {
            Some(i) => Some(&self.users[i]),
            None => None,
        }
    }

    /// The lower-case form of every email, in order.
    pub fn folded_emails(&self) -> (r: Vec<String>)
        ensures
            r@.len() == self@.len(),
            forall|j: int| 0 <= j < r@.len() ==> #[trigger] r@[j]@ == lower_of(self@[j].email@),
    {
        let mut keys: Vec<String> = Vec::new();
        let mut k: usize = 0;
        while k < self.users.len()
            invariant
                k <= self.users@.len(),
                keys@.len() == k,
                forall|j: int| 0 <= j < k ==> #[trigger] keys@[j]@ == lower_of(self.users@[j].email@),
            decreases self.users@.len() - k,
        {
            keys.push(lowercase(self.users[k].email.as_str()));
            k = k + 1;
        }
        keys
    }

    /// Whether an email equal to `email` up to letter case is on file.
    pub fn contains_folded(&self, email: &String) -> (r: bool)
        ensures
            r == folded_taken(self@, email@),
    {
        let keys = self.folded_emails();
        let key = lowercase(email.as_str());
        let r = contains_key(&keys, &key);
        assert(r == folded_taken(self@, email@)) by {
            if r {
                let j = choose|j: int| 0 <= j < keys@.len() && keys@[j]@ == key@;
                assert(lower_of(self@[j].email@) == lower_of(email@));
            } else {
                assert forall|i: int| 0 <= i < self@.len() implies #[trigger] lower_of(
                    self@[i].email@,
                ) != lower_of(email@) by {
                    assert(keys@[i]@ != key@);
                }
            }
        }
        r
    }

    /// Adds a record unless its email is taken up to letter case.
    pub fn insert(&mut self, user: User) -> (r: Result<(), AuthError>)
        requires
            old(self).wf(),
        ensures
            final(self).wf(),
            match r {
                Ok(()) => !folded_taken(old(self)@, user.email@) && final(self)@ == old(self)@.push(
                    user,
                ),
                Err(e) => e == AuthError::Conflict && folded_taken(old(self)@, user.email@)
                    && final(self)@ == old(self)@,
            },
    {
        if self.contains_folded(&user.email) {
            return Err(AuthError::Conflict);
        }
        self.users.push(user);
        proof {
            let s = self.users@;
            assert forall|i: int, j: int| 0 <= i < j < s.len() implies lower_of(
                #[trigger] s[i].email@,
            ) != lower_of(#[trigger] s[j].email@) by {
                if j == s.len() - 1 {
                    assert(0 <= i < old(self)@.len() && lower_of(old(self)@[i].email@) == lower_of(
                        old(self)@[i].email@,
                    ));
                }
            }
        }
        Ok(())
    }

    /// Replaces the second-factor fields of the record at `i`.
    pub fn set_otp(&mut self, i: usize, secret: Option<String>, verified: Option<bool>)
        requires
            old(self).wf(),
            i < old(self)@.len(),
        ensures
            final(self).wf(),
            final(self)@ == old(self)@.update(i as int, with_otp(old(self)@[i as int], secret, verified)),
    {
        let mut u = self.users[i].duplicate();
        u.otp_secret = secret;
        u.otp_verified = verified;
        self.users.set(i, u);
        proof {
            let s = self.users@;
            assert forall|a: int, b: int| 0 <= a < b < s.len() implies lower_of(
                #[trigger] s[a].email@,
            ) != lower_of(#[trigger] s[b].email@) by {
                assert(s[a].email == old(self)@[a].email);
                assert(s[b].email == old(self)@[b].email);
            }
        }
    }
}

} // verus!
