use vstd::prelude::*;
use crate::error::AuthError;
use crate::ids::ct_eq;
use crate::models::{clone_opt, BirthDate, ProfileDetails, UserProfile};
use crate::profile::{merge, merged, update_is_empty, UpdateProfilePayload};

verus! {

/// An account record.
#[derive(Debug, Clone, PartialEq, Eq)]
pub struct User {
    pub id: String,
    pub username: String,
    pub email: Option<String>,
    /// The PHC-format password hash.
    pub password: String,
    pub verified: bool,
    /// Slugs of the roles assigned to the account.
    pub roles: Vec<String>,
    pub details: ProfileDetails,
    pub created_at: u64,
    pub updated_at: u64,
}

/// Whether two optional emails name the same address.
pub open spec fn same_email(a: Option<String>, b: Option<String>) -> bool {
    a matches Some(x) && b matches Some(y) && x@ == y@
}

/// Whether `u` is reached by `identifier`, which is a username or an email.
pub open spec fn answers_to(u: User, identifier: Seq<char>) -> bool {
    u.username@ == identifier || (u.email matches Some(e) && e@ == identifier)
}

/// Whether some account in `s` has username `name`.
pub open spec fn username_taken(s: Seq<User>, name: Seq<char>) -> bool {
    exists|i: int| 0 <= i < s.len() && (#[trigger] s[i]).username@ == name
}

/// Whether some account in `s` has the email `email`.
pub open spec fn email_taken(s: Seq<User>, email: Option<String>) -> bool {
    exists|i: int| 0 <= i < s.len() && same_email((#[trigger] s[i]).email, email)
}

/// Whether some account in `s` has id `id`.
pub open spec fn id_taken(s: Seq<User>, id: Seq<char>) -> bool {
    exists|i: int| 0 <= i < s.len() && (#[trigger] s[i]).id@ == id
}

/// The accounts, with usernames, ids and emails each unique: the storage-level
/// constraint that keeps two sign-ups of one name from both succeeding.
pub struct UserStore {
    users: Vec<User>,
}

impl View for UserStore {
    type V = Seq<User>;

    closed spec fn view(&self) -> Seq<User> {
        self.users@
    }
}

/// The uniqueness constraints on a sequence of accounts.
pub open spec fn unique_accounts(s: Seq<User>) -> bool {
    forall|i: int, j: int|
        #![trigger s[i], s[j]]
        0 <= i < s.len() && 0 <= j < s.len() && i != j ==> s[i].username@ != s[j].username@
            && s[i].id@ != s[j].id@ && !same_email(s[i].email, s[j].email)
}

/// Whether an update of account `i` would take a username or an email that
/// another account holds.
pub open spec fn update_conflicts(s: Seq<User>, i: int, p: UpdateProfilePayload) -> bool {
    exists|j: int| 0 <= j < s.len() && j != i && (
        (p.username matches Some(n) && (#[trigger] s[j]).username@ == n@)
        || same_email(s[j].email, p.email))
}

/// Whether `after` is `before` with account `i` updated by `p` at `now`, the
/// new date of birth being `date_of_birth` where one is given: every present
/// field replaces the stored one, nothing else of any account changes.
pub open spec fn profile_updated(
    before: Seq<User>,
    after: Seq<User>,
    i: int,
    p: UpdateProfilePayload,
    date_of_birth: Option<BirthDate>,
    now: u64,
) -> bool {
    let u = before[i];
    let v = after[i];
    &&& after.len() == before.len()
    &&& forall|j: int| 0 <= j < before.len() && j != i ==> after[j] == before[j]
    &&& v.id == u.id && v.password == u.password && v.verified == u.verified && v.roles@ == u.roles@
    &&& v.username == (if p.username is Some { p.username.unwrap() } else { u.username })
    &&& v.email == merged(u.email, p.email)
    &&& v.details == (ProfileDetails {
        telephone: merged(u.details.telephone, p.telephone),
        salutation: merged(u.details.salutation, p.salutation),
        first_name: merged(u.details.first_name, p.first_name),
        middle_name: merged(u.details.middle_name, p.middle_name),
        last_name: merged(u.details.last_name, p.last_name),
        gender: merged(u.details.gender, p.gender),
        address_line_1: merged(u.details.address_line_1, p.address_line_1),
        address_line_2: merged(u.details.address_line_2, p.address_line_2),
        city: merged(u.details.city, p.city),
        state: merged(u.details.state, p.state),
        country: merged(u.details.country, p.country),
        date_of_birth: if date_of_birth is Some { date_of_birth.unwrap() } else { u.details.date_of_birth },
        configuration: merged(u.details.configuration, p.configuration),
    })
    &&& v.created_at == u.created_at && v.updated_at == now
}

impl UserStore {
    /// The store's invariant.
    pub open spec fn wf(&self) -> bool {
        unique_accounts(self@)
    }

    /// An empty store.
    pub fn new() -> (r: UserStore)
        ensures
            r.wf(),
            r@ == Seq::<User>::empty(),
    {
        UserStore { users: Vec::new() }
    }

    /// The number of accounts.
    pub fn len(&self) -> (r: usize)
        ensures
            r == self@.len(),
    {
        self.users.len()
    }

    /// The account at `i`.
    pub fn get(&self, i: usize) -> (r: &User)
        requires
            i < self@.len(),
        ensures
            *r == self@[i as int],
    {
        &self.users[i]
    }

    /// The index of the account with username `name`.
    pub fn find_by_username(&self, name: &str) -> (r: Option<usize>)
        ensures
            r matches Some(i) ==> i < self@.len() && self@[i as int].username@ == name@,
            r is None <==> !username_taken(self@, name@),
    {
        let mut i: usize = 0;
        while i < self.users.len()
            invariant
                i <= self@.len(),
                forall|j: int| 0 <= j < i ==> self@[j].username@ != name@,
            decreases self@.len() - i,
        {
            if ct_eq(self.users[i].username.as_str(), name) {
                return Some(i);
            }
            i = i + 1;
        }
        None
    }

    /// The index of the account with id `id`.
    pub fn find_by_id(&self, id: &str) -> (r: Option<usize>)
        ensures
            r matches Some(i) ==> i < self@.len() && self@[i as int].id@ == id@,
            r is None <==> !id_taken(self@, id@),
    {
        let mut i: usize = 0;
        while i < self.users.len()
            invariant
                i <= self@.len(),
                forall|j: int| 0 <= j < i ==> self@[j].id@ != id@,
            decreases self@.len() - i,
        {
            if ct_eq(self.users[i].id.as_str(), id) {
                return Some(i);
            }
            i = i + 1;
        }
        None
    }

    /// The index of an account with the email `email`.
    pub fn find_by_email(&self, email: &Option<String>) -> (r: Option<usize>)
        ensures
            r matches Some(i) ==> i < self@.len() && same_email(self@[i as int].email, *email),
            r is None <==> !email_taken(self@, *email),
    {
        let wanted = match email {
            Some(e) => e,
            None => {
                return None;
            },
        };
        let mut i: usize = 0;
        while i < self.users.len()
            invariant
                i <= self@.len(),
                *email == Some(*wanted),
                forall|j: int| 0 <= j < i ==> !same_email(#[trigger] self@[j].email, *email),
            decreases self@.len() - i,
        {
            match &self.users[i].email {
                Some(e) => {
                    if ct_eq(e.as_str(), wanted.as_str()) {
                        return Some(i);
                    }
                },
                None => {},
            }
            i = i + 1;
        }
        None
    }

    /// The index of the account that `identifier` names, as a username or
    /// else as an email.
    pub fn find_by_identifier(&self, identifier: &str) -> (r: Option<usize>)
        requires
            self.wf(),
        ensures
            r matches Some(i) ==> i < self@.len() && answers_to(self@[i as int], identifier@),
            username_taken(self@, identifier@) ==> (r matches Some(i) && self@[i as int].username@ == identifier@),
            r is None <==> !(exists|i: int| 0 <= i < self@.len() && answers_to(#[trigger] self@[i], identifier@)),
    {
        match self.find_by_username(identifier) {
            Some(i) => Some(i),
            None => {
                let wanted = Some(identifier.to_owned());
                let r = self.find_by_email(&wanted);
                proof {
                    if r is None {
                        assert forall|i: int| 0 <= i < self@.len() implies !answers_to(#[trigger] self@[i], identifier@) by {
                            assert(!same_email(self@[i].email, wanted));
                        }
                    }
                }
                r
            },
        }
    }

    /// Adds `user`, unless its username or email is taken (a conflict) or its
    /// id is taken (an internal fault).
    pub fn create(&mut self, user: User) -> (r: Result<(), AuthError>)
        requires
            old(self).wf(),
        ensures
            final(self).wf(),
            r is Ok ==> final(self)@ == old(self)@.push(user),
            r is Err ==> final(self)@ == old(self)@,
            r is Err ==> r == Err::<(), AuthError>(AuthError::Conflict) || r == Err::<(), AuthError>(AuthError::Internal),
            (username_taken(old(self)@, user.username@) || email_taken(old(self)@, user.email))
                <==> r == Err::<(), AuthError>(AuthError::Conflict),
            !(username_taken(old(self)@, user.username@) || email_taken(old(self)@, user.email)) ==> (
                id_taken(old(self)@, user.id@) <==> r == Err::<(), AuthError>(AuthError::Internal)),
    {
        if self.find_by_username(user.username.as_str()).is_some() {
            return Err(AuthError::Conflict);
        }
        if self.find_by_email(&user.email).is_some() {
            return Err(AuthError::Conflict);
        }
        if self.find_by_id(user.id.as_str()).is_some() {
            return Err(AuthError::Internal);
        }
        let ghost before = self@;
        self.users.push(user);
        proof {
            assert forall|i: int, j: int|
                0 <= i < self@.len() && 0 <= j < self@.len() && i != j implies self@[i].username@ != self@[j].username@
                    && self@[i].id@ != self@[j].id@ && !same_email(self@[i].email, self@[j].email) by {
                if i == before.len() as int {
                    assert(self@[j] == before[j]);
                } else if j == before.len() as int {
                    assert(self@[i] == before[i]);
                }
            }
        }
        Ok(())
    }

    /// Replaces the password hash of the account at `i`.
    pub fn set_password(&mut self, i: usize, hash: String, now: u64)
        requires
            old(self).wf(),
            i < old(self)@.len(),
        ensures
            final(self).wf(),
            final(self)@.len() == old(self)@.len(),
            final(self)@[i as int].password@ == hash@,
            final(self)@[i as int].verified == old(self)@[i as int].verified,
            final(self)@[i as int].id == old(self)@[i as int].id,
            final(self)@[i as int].username == old(self)@[i as int].username,
            forall|j: int| 0 <= j < old(self)@.len() && j != i ==> final(self)@[j] == old(self)@[j],
    {
        let u = &self.users[i];
        let updated = User {
            id: u.id.clone(),
            username: u.username.clone(),
            email: clone_opt(&u.email),
            password: hash,
            verified: u.verified,
            roles: clone_strings(&u.roles),
            details: u.details.duplicate(),
            created_at: u.created_at,
            updated_at: now,
        };
        let ghost before = self@;
        self.users.set(i, updated);
        assert forall|a: int| 0 <= a < self@.len() implies self@[a].username == before[a].username
            && self@[a].id == before[a].id && self@[a].email == before[a].email by {
            if a != i {
                assert(self@[a] == before[a]);
            }
        }
        assert(unique_accounts(before));
        assert forall|a: int, b: int|
            0 <= a < self@.len() && 0 <= b < self@.len() && a != b implies self@[a].username@ != self@[b].username@
                && self@[a].id@ != self@[b].id@ && !same_email(self@[a].email, self@[b].email) by {
            assert(before[a].username@ != before[b].username@ && before[a].id@ != before[b].id@);
        }
    }

    /// Marks the account at `i` as verified.
    pub fn mark_verified(&mut self, i: usize, now: u64)
        requires
            old(self).wf(),
            i < old(self)@.len(),
        ensures
            final(self).wf(),
            final(self)@.len() == old(self)@.len(),
            final(self)@[i as int].verified,
            final(self)@[i as int].password == old(self)@[i as int].password,
            final(self)@[i as int].id == old(self)@[i as int].id,
            final(self)@[i as int].username == old(self)@[i as int].username,
            forall|j: int| 0 <= j < old(self)@.len() && j != i ==> final(self)@[j] == old(self)@[j],
    {
        let u = &self.users[i];
        let updated = User {
            id: u.id.clone(),
            username: u.username.clone(),
            email: clone_opt(&u.email),
            password: u.password.clone(),
            verified: true,
            roles: clone_strings(&u.roles),
            details: u.details.duplicate(),
            created_at: u.created_at,
            updated_at: now,
        };
        let ghost before = self@;
        self.users.set(i, updated);
        assert forall|a: int| 0 <= a < self@.len() implies self@[a].username == before[a].username
            && self@[a].id == before[a].id && self@[a].email == before[a].email by {
            if a != i {
                assert(self@[a] == before[a]);
            }
        }
        assert(unique_accounts(before));
        assert forall|a: int, b: int|
            0 <= a < self@.len() && 0 <= b < self@.len() && a != b implies self@[a].username@ != self@[b].username@
                && self@[a].id@ != self@[b].id@ && !same_email(self@[a].email, self@[b].email) by {
            assert(before[a].username@ != before[b].username@ && before[a].id@ != before[b].id@);
        }
    }

    /// Applies a partial update to the account at `i`; `date_of_birth` is the
    /// new date, if one is given. A username or email that another account
    /// holds is a conflict and changes nothing.
    pub fn update_profile(&mut self, i: usize, p: &UpdateProfilePayload, date_of_birth: Option<BirthDate>, now: u64) -> (r: Result<(), AuthError>)
        requires
            old(self).wf(),
            i < old(self)@.len(),
        ensures
            final(self).wf(),
            r is Err ==> r == Err::<(), AuthError>(AuthError::Conflict) && final(self)@ == old(self)@,
            r is Err <==> update_conflicts(old(self)@, i as int, *p),
            update_is_empty(*p) ==> r is Ok && final(self)@ == old(self)@,
            r is Ok && !update_is_empty(*p) ==> profile_updated(old(self)@, final(self)@, i as int, *p, date_of_birth, now),
    {
        if p.to_pairs().len() == 0 {
            return Ok(());
        }
        let ghost before = self@;
        match &p.username {
            Some(n) => {
                match self.find_by_username(n.as_str()) {
                    Some(j) => {
                        if j != i {
                            return Err(AuthError::Conflict);
                        }
                    },
                    None => {},
                }
            },
            None => {},
        }
        match self.find_by_email(&p.email) {
            Some(j) => {
                if j != i {
                    return Err(AuthError::Conflict);
                }
            },
            None => {},
        }
        assert forall|j: int| 0 <= j < before.len() && j != i implies !((p.username matches Some(n) && (#[trigger] before[j]).username@ == n@)
            || same_email(before[j].email, p.email)) by {
            assert(before[i as int].username@ != before[j].username@);
        }
        let u = &self.users[i];
        let updated = User {
            id: u.id.clone(),
            username: match &p.username {
                Some(n) => n.clone(),
                None => u.username.clone(),
            },
            email: merge(&u.email, &p.email),
            password: u.password.clone(),
            verified: u.verified,
            roles: clone_strings(&u.roles),
            details: ProfileDetails {
                telephone: merge(&u.details.telephone, &p.telephone),
                salutation: merge(&u.details.salutation, &p.salutation),
                first_name: merge(&u.details.first_name, &p.first_name),
                middle_name: merge(&u.details.middle_name, &p.middle_name),
                last_name: merge(&u.details.last_name, &p.last_name),
                gender: merge(&u.details.gender, &p.gender),
                address_line_1: merge(&u.details.address_line_1, &p.address_line_1),
                address_line_2: merge(&u.details.address_line_2, &p.address_line_2),
                city: merge(&u.details.city, &p.city),
                state: merge(&u.details.state, &p.state),
                country: merge(&u.details.country, &p.country),
                date_of_birth: match date_of_birth {
                    Some(d) => d,
                    None => u.details.date_of_birth,
                },
                configuration: merge(&u.details.configuration, &p.configuration),
            },
            created_at: u.created_at,
            updated_at: now,
        };
        self.users.set(i, updated);
        assert forall|a: int, b: int|
            0 <= a < self@.len() && 0 <= b < self@.len() && a != b implies self@[a].username@ != self@[b].username@
                && self@[a].id@ != self@[b].id@ && !same_email(self@[a].email, self@[b].email) by {
            assert(before[a].username@ != before[b].username@ && before[a].id@ != before[b].id@);
            if a == i {
                assert(self@[b] == before[b]);
            } else if b == i {
                assert(self@[a] == before[a]);
            } else {
                assert(self@[a] == before[a] && self@[b] == before[b]);
            }
        }
        Ok(())
    }

    /// The public profile of the account at `i`.
    pub fn profile_at(&self, i: usize) -> (r: UserProfile)
        requires
            i < self@.len(),
        ensures
            r.id == self@[i as int].id,
            r.username == self@[i as int].username,
            r.email == self@[i as int].email,
            r.details == self@[i as int].details,
    {
        let u = &self.users[i];
        UserProfile {
            id: u.id.clone(),
            username: u.username.clone(),
            email: clone_opt(&u.email),
            details: u.details.duplicate(),
        }
    }
}

/// Whether some account in `s` has a role whose slug is `slug`.
pub open spec fn role_in_use(s: Seq<User>, slug: Seq<char>) -> bool {
    exists|i: int, k: int| 0 <= i < s.len() && 0 <= k < s[i].roles@.len() && (#[trigger] s[i].roles@[k])@ == slug
}

/// Whether `v` holds a string whose characters are `x`.
pub open spec fn lists(v: Seq<String>, x: Seq<char>) -> bool {
    exists|j: int| 0 <= j < v.len() && (#[trigger] v[j])@ == x
}

/// Whether `v` holds `x`.
fn contains_str(v: &Vec<String>, x: &str) -> (r: bool)
    ensures
        r == lists(v@, x@),
{
    let mut j: usize = 0;
    while j < v.len()
        invariant
            j <= v@.len(),
            forall|q: int| 0 <= q < j ==> (#[trigger] v@[q])@ != x@,
        decreases v@.len() - j,
    {
        if ct_eq(v[j].as_str(), x) {
            return true;
        }
        j = j + 1;
    }
    false
}

impl UserStore {
    /// The role slugs in use, each once.
    pub fn role_slugs(&self) -> (r: Vec<String>)
        ensures
            forall|a: int, b: int| 0 <= a < b < r@.len() ==> (#[trigger] r@[a])@ != (#[trigger] r@[b])@,
            forall|j: int| 0 <= j < r@.len() ==> role_in_use(self@, (#[trigger] r@[j])@),
            forall|i: int, k: int| 0 <= i < self@.len() && 0 <= k < self@[i].roles@.len()
                ==> lists(r@, (#[trigger] self@[i].roles@[k])@),
    {
        let mut out: Vec<String> = Vec::new();
        let mut i: usize = 0;
        while i < self.users.len()
            invariant
                i <= self@.len(),
                forall|a: int, b: int| 0 <= a < b < out@.len() ==> (#[trigger] out@[a])@ != (#[trigger] out@[b])@,
                forall|j: int| 0 <= j < out@.len() ==> role_in_use(self@, (#[trigger] out@[j])@),
                forall|u: int, k: int| 0 <= u < i && 0 <= k < self@[u].roles@.len()
                    ==> lists(out@, (#[trigger] self@[u].roles@[k])@),
            decreases self@.len() - i,
        {
            let roles = &self.users[i].roles;
            let mut k: usize = 0;
            while k < roles.len()
                invariant
                    i < self@.len(),
                    *roles == self@[i as int].roles,
                    k <= roles@.len(),
                    forall|a: int, b: int| 0 <= a < b < out@.len() ==> (#[trigger] out@[a])@ != (#[trigger] out@[b])@,
                    forall|j: int| 0 <= j < out@.len() ==> role_in_use(self@, (#[trigger] out@[j])@),
                    forall|u: int, q: int| 0 <= u < i && 0 <= q < self@[u].roles@.len()
                        ==> lists(out@, (#[trigger] self@[u].roles@[q])@),
                    forall|q: int| 0 <= q < k ==> lists(out@, (#[trigger] roles@[q])@),
                decreases roles@.len() - k,
            {
                let ghost before = out@;
                assert(role_in_use(self@, roles@[k as int]@)) by {
                    assert(self@[i as int].roles@[k as int] == roles@[k as int]);
                }
                if !contains_str(&out, roles[k].as_str()) {
                    out.push(roles[k].clone());
                    assert(out@[before.len() as int] == roles@[k as int]);
                    assert forall|x: Seq<char>| lists(before, x) implies lists(out@, x) by {
                        let j = choose|j: int| 0 <= j < before.len() && (#[trigger] before[j])@ == x;
                        assert(out@[j] == before[j]);
                    }
                }
                assert(lists(out@, roles@[k as int]@));
                k = k + 1;
            }
            assert forall|k: int| 0 <= k < self@[i as int].roles@.len() implies lists(out@, (#[trigger] self@[i as int].roles@[k])@) by {
                assert(roles@[k] == self@[i as int].roles@[k]);
            }
            i = i + 1;
        }
        out
    }
}

/// A copy of a list of strings.
pub fn clone_strings(v: &Vec<String>) -> (r: Vec<String>)
    ensures
        r@ == v@,
{
    let mut out: Vec<String> = Vec::new();
    let mut i: usize = 0;
    while i < v.len()
        invariant
            i <= v@.len(),
            out@ == v@.subrange(0, i as int),
        decreases v@.len() - i,
    {
        out.push(v[i].clone());
        i = i + 1;
    }
    out
}

} // verus!
