use vstd::prelude::*;
use vstd::string::StrSliceExecFns;
use crate::error::AuthError;
use crate::ids::ct_eq;
use crate::token::{claims_verdict, purpose_code, token_verdict, Claims, ClaimsView, Purpose, TokenCodec, jwt_signed};

verus! {

/// The scheme word that opens an `Authorization` header value.
pub open spec fn bearer_prefix() -> Seq<char> {
    seq!['B', 'e', 'a', 'r', 'e', 'r', ' ']
}

/// The blanks that may surround a token: space and tab.
pub open spec fn is_blank(c: char) -> bool {
    c == ' ' || c == '\t'
}

/// Whether `t` is `s` without its leading and trailing blanks.
pub open spec fn trims_to(s: Seq<char>, t: Seq<char>) -> bool {
    exists|a: int, b: int| {
        &&& 0 <= a <= b <= s.len()
        &&& t == s.subrange(a, b)
        &&& forall|k: int| 0 <= k < a ==> is_blank(#[trigger] s[k])
        &&& forall|k: int| b <= k < s.len() ==> is_blank(#[trigger] s[k])
        &&& a < b ==> !is_blank(s[a]) && !is_blank(s[b - 1])
    }
}

/// The text after the `Bearer ` prefix of a header value, if it has that prefix.
pub open spec fn after_prefix(h: Seq<char>) -> Option<Seq<char>> {
    if h.len() >= bearer_prefix().len() && h.subrange(0, bearer_prefix().len() as int) == bearer_prefix() {
        Some(h.subrange(bearer_prefix().len() as int, h.len() as int))
    } else {
        None
    }
}

/// The token that an `Authorization` header value carries: what follows the
/// `Bearer ` prefix with surrounding blanks removed, if that is not empty.
pub open spec fn bearer_of(h: Seq<char>) -> Option<Seq<char>> {
    match after_prefix(h) {
        Some(rest) => if exists|k: int| 0 <= k < rest.len() && !is_blank(#[trigger] rest[k]) {
            Some(choose|t: Seq<char>| t.len() > 0 && trims_to(rest, t))
        } else {
            None
        },
        None => None,
    }
}

/// A text has at most one non-empty trimmed form.
pub proof fn lemma_trim_unique(s: Seq<char>, t1: Seq<char>, t2: Seq<char>)
    requires
        t1.len() > 0 && trims_to(s, t1),
        t2.len() > 0 && trims_to(s, t2),
    ensures
        t1 == t2,
{
    let (a1, b1) = choose|a: int, b: int| {
        &&& 0 <= a <= b <= s.len()
        &&& t1 == s.subrange(a, b)
        &&& forall|k: int| 0 <= k < a ==> is_blank(#[trigger] s[k])
        &&& forall|k: int| b <= k < s.len() ==> is_blank(#[trigger] s[k])
        &&& a < b ==> !is_blank(s[a]) && !is_blank(s[b - 1])
    };
    let (a2, b2) = choose|a: int, b: int| {
        &&& 0 <= a <= b <= s.len()
        &&& t2 == s.subrange(a, b)
        &&& forall|k: int| 0 <= k < a ==> is_blank(#[trigger] s[k])
        &&& forall|k: int| b <= k < s.len() ==> is_blank(#[trigger] s[k])
        &&& a < b ==> !is_blank(s[a]) && !is_blank(s[b - 1])
    };
    assert(a1 < b1 && a2 < b2);
    if a1 < a2 {
        assert(is_blank(s[a1]));
    }
    if a2 < a1 {
        assert(is_blank(s[a2]));
    }
    if b1 < b2 {
        assert(is_blank(s[b2 - 1]));
    }
    if b2 < b1 {
        assert(is_blank(s[b1 - 1]));
    }
}

/// `s` without its leading and trailing blanks.
fn trim_blanks(s: &str) -> (r: &str)
    ensures
        trims_to(s@, r@),
{
    let n = s.unicode_len();
    let mut a: usize = 0;
    while a < n && is_blank_char(s.get_char(a))
        invariant
            n == s@.len(),
            a <= n,
            forall|k: int| 0 <= k < a ==> is_blank(#[trigger] s@[k]),
        decreases n - a,
    {
        a = a + 1;
    }
    let mut b: usize = n;
    while b > a && is_blank_char(s.get_char(b - 1))
        invariant
            n == s@.len(),
            a <= b <= n,
            forall|k: int| b <= k < n ==> is_blank(#[trigger] s@[k]),
        decreases b - a,
    {
        b = b - 1;
    }
    let r = s.substring_char(a, b);
    assert(trims_to(s@, r@)) by {
        if a < b {
            assert(!is_blank(s@[a as int]));
            assert(!is_blank(s@[b - 1]));
        }
    }
    r
}

fn is_blank_char(c: char) -> (r: bool)
    ensures
        r == is_blank(c),
{
    c == ' ' || c == '\t'
}

/// The rest of `s` after `prefix` if `s` starts with it, and `None` otherwise.
fn strip_prefix<'a>(s: &'a str, prefix: &str) -> (r: Option<&'a str>)
    ensures
        match r {
            Some(rest) => s@.len() >= prefix@.len() && s@.subrange(0, prefix@.len() as int) == prefix@
                && rest@ == s@.subrange(prefix@.len() as int, s@.len() as int),
            None => !(s@.len() >= prefix@.len() && s@.subrange(0, prefix@.len() as int) == prefix@),
        },
{
    let n = s.unicode_len();
    let m = prefix.unicode_len();
    if n < m {
        return None;
    }
    let mut k: usize = 0;
    while k < m
        invariant
            n == s@.len(),
            m == prefix@.len(),
            m <= n,
            k <= m,
            forall|q: int| 0 <= q < k ==> s@[q] == prefix@[q],
        decreases m - k,
    {
        if s.get_char(k) != prefix.get_char(k) {
            assert(s@.subrange(0, m as int)[k as int] != prefix@[k as int]);
            return None;
        }
        k = k + 1;
    }
    assert(s@.subrange(0, m as int) =~= prefix@);
    Some(s.substring_char(m, n))
}

/// Takes the bearer token out of an `Authorization` header value, without
/// surrounding blanks; a missing header, another scheme or an empty token is
/// unauthorized.
pub fn extract_bearer(header: Option<&str>) -> (r: Result<String, AuthError>)
    ensures
        match header {
            None => r == Err::<String, AuthError>(AuthError::Unauthorized),
            Some(h) => match bearer_of(h@) {
                Some(t) => r matches Ok(s) && s@ == t,
                None => r == Err::<String, AuthError>(AuthError::Unauthorized),
            },
        },
{
    let h = match header {
        Some(h) => h,
        None => {
            return Err(AuthError::Unauthorized);
        },
    };
    let prefix = "Bearer ";
    proof {
        reveal_strlit("Bearer ");
        assert(prefix@ == bearer_prefix());
    }
    match strip_prefix(h, prefix) {
        Some(rest) => {
            let t = trim_blanks(rest);
            if t.is_empty() {
                proof {
                    let (a, b) = choose|a: int, b: int| {
                        &&& 0 <= a <= b <= rest@.len()
                        &&& t@ == rest@.subrange(a, b)
                        &&& forall|k: int| 0 <= k < a ==> is_blank(#[trigger] rest@[k])
                        &&& forall|k: int| b <= k < rest@.len() ==> is_blank(#[trigger] rest@[k])
                        &&& a < b ==> !is_blank(rest@[a]) && !is_blank(rest@[b - 1])
                    };
                    assert(a == b);
                    assert(forall|k: int| 0 <= k < rest@.len() ==> is_blank(#[trigger] rest@[k]));
                    assert(after_prefix(h@) == Some(rest@));
                    assert(bearer_of(h@) is None);
                }
                Err(AuthError::Unauthorized)
            } else {
                proof {
                    let (a, b) = choose|a: int, b: int| {
                        &&& 0 <= a <= b <= rest@.len()
                        &&& t@ == rest@.subrange(a, b)
                        &&& forall|k: int| 0 <= k < a ==> is_blank(#[trigger] rest@[k])
                        &&& forall|k: int| b <= k < rest@.len() ==> is_blank(#[trigger] rest@[k])
                        &&& a < b ==> !is_blank(rest@[a]) && !is_blank(rest@[b - 1])
                    };
                    assert(!is_blank(rest@[a]));
                    assert(after_prefix(h@) == Some(rest@));
                    let ap = after_prefix(h@).unwrap();
                    assert(ap == rest@);
                    assert(!is_blank(ap[a]));
                    assert(exists|k: int| 0 <= k < ap.len() && !is_blank(#[trigger] ap[k]));
                    let tt = choose|x: Seq<char>| x.len() > 0 && trims_to(rest@, x);
                    lemma_trim_unique(rest@, t@, tt);
                    assert(bearer_of(h@) == Some(t@));
                }
                Ok(t.to_owned())
            }
        },
        None => {
            assert(after_prefix(h@) is None);
            Err(AuthError::Unauthorized)
        },
    }
}

struct Revoked {
    token: String,
    expires_at: u64,
}

/// Tokens revoked by sign-out before their natural expiry. An entry is kept
/// until the token would have expired anyway.
pub struct Denylist {
    revoked: Vec<Revoked>,
}

impl Denylist {
    /// Whether `token` has been revoked.
    pub closed spec fn holds(&self, token: Seq<char>) -> bool {
        exists|i: int| 0 <= i < self.revoked@.len() && (#[trigger] self.revoked@[i]).token@ == token
    }

    /// Whether `token` has been revoked and its entry is still needed at `now`.
    pub closed spec fn holds_at(&self, token: Seq<char>, now: u64) -> bool {
        exists|i: int| 0 <= i < self.revoked@.len() && (#[trigger] self.revoked@[i]).token@ == token
            && now <= self.revoked@[i].expires_at
    }

    /// An entry still needed at some time is an entry.
    pub proof fn lemma_live_entry_holds(&self, token: Seq<char>, now: u64)
        requires
            self.holds_at(token, now),
        ensures
            self.holds(token),
    {
    }

    /// An empty denylist.
    pub fn new() -> (r: Denylist)
        ensures
            forall|t: Seq<char>| !r.holds(t),
    {
        Denylist { revoked: Vec::new() }
    }

    /// Whether `token` has been revoked.
    pub fn contains(&self, token: &str) -> (r: bool)
        ensures
            r == self.holds(token@),
    {
        let mut i: usize = 0;
        while i < self.revoked.len()
            invariant
                i <= self.revoked@.len(),
                forall|j: int| 0 <= j < i ==> (#[trigger] self.revoked@[j]).token@ != token@,
            decreases self.revoked@.len() - i,
        {
            if ct_eq(self.revoked[i].token.as_str(), token) {
                return true;
            }
            i = i + 1;
        }
        false
    }

    /// Revokes `token`, whose natural expiry is `expires_at`.
    pub fn revoke(&mut self, token: &str, expires_at: u64)
        ensures
            final(self).holds(token@),
            forall|n: u64| n <= expires_at ==> final(self).holds_at(token@, n),
            forall|t: Seq<char>| old(self).holds(t) ==> final(self).holds(t),
            forall|t: Seq<char>, n: u64| old(self).holds_at(t, n) ==> final(self).holds_at(t, n),
            forall|t: Seq<char>| final(self).holds(t) ==> old(self).holds(t) || t == token@,
    {
        let ghost before = self.revoked@;
        self.revoked.push(Revoked { token: token.to_owned(), expires_at });
        let ghost last = before.len() as int;
        assert(self.revoked@[last].token@ == token@);
        assert forall|n: u64| n <= expires_at implies self.holds_at(token@, n) by {
            assert(self.revoked@[last].token@ == token@);
        }
        assert forall|t: Seq<char>| old(self).holds(t) implies self.holds(t) by {
            let i = choose|i: int| 0 <= i < before.len() && (#[trigger] before[i]).token@ == t;
            assert(self.revoked@[i] == before[i]);
        }
        assert forall|t: Seq<char>, n: u64| old(self).holds_at(t, n) implies self.holds_at(t, n) by {
            let i = choose|i: int| 0 <= i < before.len() && (#[trigger] before[i]).token@ == t && n <= before[i].expires_at;
            assert(self.revoked@[i] == before[i]);
        }
        assert forall|t: Seq<char>| self.holds(t) implies old(self).holds(t) || t == token@ by {
            let i = choose|i: int| 0 <= i < self.revoked@.len() && (#[trigger] self.revoked@[i]).token@ == t;
            if i < before.len() {
                assert(self.revoked@[i] == before[i]);
            }
        }
    }

    /// Drops the entries of tokens that have expired by `now`; they are
    /// refused for their expiry from then on.
    pub fn prune(&mut self, now: u64)
        ensures
            forall|t: Seq<char>| final(self).holds(t) <==> old(self).holds_at(t, now),
            forall|t: Seq<char>, n: u64| n >= now ==> (final(self).holds_at(t, n) <==> old(self).holds_at(t, n)),
    {
        let ghost before = self.revoked@;
        let mut kept: Vec<Revoked> = Vec::new();
        let mut i: usize = 0;
        while i < self.revoked.len()
            invariant
                self.revoked@ == before,
                i <= before.len(),
                forall|j: int| 0 <= j < kept@.len() ==> now <= (#[trigger] kept@[j]).expires_at
                    && exists|k: int| 0 <= k < i && before[k] == kept@[j],
                forall|k: int| 0 <= k < i && now <= (#[trigger] before[k]).expires_at ==> exists|j: int|
                    0 <= j < kept@.len() && kept@[j] == before[k],
            decreases before.len() - i,
        {
            let e = &self.revoked[i];
            if now <= e.expires_at {
                let ghost old_kept = kept@;
                kept.push(Revoked { token: e.token.clone(), expires_at: e.expires_at });
                assert(kept@[old_kept.len() as int] == before[i as int]);
                assert(forall|j: int| 0 <= j < old_kept.len() ==> kept@[j] == old_kept[j]);
            }
            i = i + 1;
        }
        self.revoked = kept;
        assert forall|t: Seq<char>, n: u64| n >= now implies (self.holds(t) <==> old(self).holds_at(t, now))
            && (self.holds_at(t, n) <==> old(self).holds_at(t, n)) by {
            if self.holds(t) {
                let j = choose|j: int| 0 <= j < self.revoked@.len() && (#[trigger] self.revoked@[j]).token@ == t;
                assert(now <= self.revoked@[j].expires_at);
            }
            if old(self).holds_at(t, now) {
                let k = choose|k: int| 0 <= k < before.len() && (#[trigger] before[k]).token@ == t && now <= before[k].expires_at;
                assert(now <= before[k].expires_at);
            }
            if self.holds_at(t, n) {
                let j = choose|j: int| 0 <= j < self.revoked@.len() && (#[trigger] self.revoked@[j]).token@ == t
                    && n <= self.revoked@[j].expires_at;
                assert(now <= self.revoked@[j].expires_at);
            }
            if old(self).holds_at(t, n) {
                let k = choose|k: int| 0 <= k < before.len() && (#[trigger] before[k]).token@ == t && n <= before[k].expires_at;
                assert(now <= before[k].expires_at);
            }
        }
    }
}

/// The token an optional header value carries.
pub open spec fn header_token(header: Option<&str>) -> Option<Seq<char>> {
    match header {
        Some(h) => bearer_of(h@),
        None => None,
    }
}

/// The claims that let a request through: those of an unrevoked access token
/// in the header that verifies at `now`; `None` for every other request.
pub open spec fn gate(codec: TokenCodec, denylist: Denylist, header: Option<&str>, now: u64) -> Option<ClaimsView> {
    match header_token(header) {
        Some(t) => if denylist.holds(t) {
            None
        } else {
            match token_verdict(t, codec.secret(), Purpose::Access, now) {
                Ok(c) => Some(c),
                Err(_) => None,
            }
        },
        None => None,
    }
}

/// What every protected route checks first: an `access` token from the header that
/// verifies at `now` and has not been revoked. No account lookup is made.
pub fn authenticate(codec: &TokenCodec, denylist: &Denylist, header: Option<&str>, now: u64) -> (r: Result<Claims, AuthError>)
    ensures
        r is Err ==> r == Err::<Claims, AuthError>(AuthError::Unauthorized),
        match gate(*codec, *denylist, header, now) {
            Some(c) => r matches Ok(x) && x@ == c,
            None => r is Err,
        },
        header is None ==> r is Err,
        header matches Some(h) ==> match bearer_of(h@) {
            None => r is Err,
            Some(t) => {
                &&& denylist.holds(t) ==> r is Err
                &&& forall|sub: Seq<char>, p: Purpose, iat: u64, exp: u64|
                    #[trigger] jwt_signed(sub, purpose_code(p), iat, exp, codec.secret()) == t ==> (
                        (r is Ok <==> !denylist.holds(t) && claims_verdict(sub, p, iat, exp, Purpose::Access, now) is Ok)
                        && (r matches Ok(c) ==> c@ == ClaimsView { sub, purpose: p, iat, exp }))
            },
        },
{
    let token = match extract_bearer(header) {
        Ok(t) => t,
        Err(e) => {
            return Err(e);
        },
    };
    let claims = match codec.verify(token.as_str(), Purpose::Access, now) {
        Ok(c) => c,
        Err(_) => {
            return Err(AuthError::Unauthorized);
        },
    };
    if denylist.contains(token.as_str()) {
        return Err(AuthError::Unauthorized);
    }
    Ok(claims)
}

} // verus!
