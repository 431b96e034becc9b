use vstd::prelude::*;
use vstd::string::StrSliceExecFns;
use crate::codes::{after_consume, after_issue, consume_ok, short_code, OneTimeCodeStore};
use crate::error::AuthError;
use crate::ids::generate_uuid;
use crate::middleware::{authenticate, bearer_of, extract_bearer, gate, header_token, Denylist};
use crate::models::{calendar_date_of, BirthDate, SignUpPayload, UserProfile};
use crate::profile::{update_is_empty, UpdateProfilePayload};
use crate::password::{hash_password, password_matches, verify_password};
use crate::token::{claims_verdict, jwt_signed, purpose_code, token_verdict, Claims, ClaimsView, Purpose, TokenCodec};
use crate::users::{answers_to, email_taken, id_taken, profile_updated, update_conflicts, username_taken, User, UserStore};

verus! {

/// Passwords of fewer characters than this are refused as weak.
pub const MIN_PASSWORD_CHARS: usize = 8;

/// Whether a password is too weak to accept.
pub open spec fn weak_password(p: Seq<char>) -> bool {
    p.len() < MIN_PASSWORD_CHARS
}

/// Whether a sign-up payload is malformed, given what its date reads as.
pub open spec fn malformed_sign_up(p: SignUpPayload, date: Option<(i32, u32, u32)>) -> bool {
    p.username@.len() == 0 || weak_password(p.password@) || date is None
}

/// Lifetimes, in seconds, of what the service issues.
#[derive(Debug, Clone, Copy, PartialEq, Eq, Structural)]
pub struct AuthConfig {
    pub access_ttl: u64,
    pub otp_ttl: u64,
    /// Lifetime of password-reset and account-verification codes.
    pub code_ttl: u64,
}

impl AuthConfig {
    /// One hour for access tokens, five minutes for passcodes, one day for
    /// reset and verification codes.
    pub fn defaults() -> (r: AuthConfig)
        ensures
            r.access_ttl == 3600 && r.otp_ttl == 300 && r.code_ttl == 86400,
    {
        AuthConfig { access_ttl: 3600, otp_ttl: 300, code_ttl: 86400 }
    }

    /// Whether every expiry computed from `now` fits in 64 bits.
    pub open spec fn fits(&self, now: u64) -> bool {
        now + self.access_ttl <= u64::MAX && now + self.otp_ttl <= u64::MAX && now + self.code_ttl <= u64::MAX
    }
}

/// The password-reset, email-verify or passcode lifetime that a purpose has.
pub open spec fn ttl_for(cfg: AuthConfig, p: Purpose) -> u64 {
    if p == Purpose::OtpChallenge {
        cfg.otp_ttl
    } else {
        cfg.code_ttl
    }
}

/// Relies on std's `SystemTime::elapsed` taken from `UNIX_EPOCH`: the system
/// clock's reading in whole seconds since the epoch, or `None` when the clock
/// reads before it. Nothing is known of the value.
#[verifier::external_body]
fn system_clock_seconds() -> (r: Option<u64>) {
    std::time::UNIX_EPOCH.elapsed().ok().map(|d| d.as_secs())
}

/// What a successful sign-up hands back: the new id and the code that
/// verifies the account, to be delivered out of band.
#[derive(Debug, Clone, PartialEq, Eq)]
pub struct SignUpReceipt {
    pub user_id: String,
    pub verify_code: String,
}

/// The orchestrator of every credential flow, over the stores it was given.
pub struct AuthService {
    pub codec: TokenCodec,
    pub config: AuthConfig,
    pub users: UserStore,
    pub codes: OneTimeCodeStore,
    pub denylist: Denylist,
}

/// The profile of a new account in a sign-up's outcome.
pub open spec fn created_as(u: User, p: SignUpPayload, receipt: SignUpReceipt, date: (i32, u32, u32), now: u64) -> bool {
    &&& u.id@ == receipt.user_id@
    &&& u.username@ == p.username@
    &&& u.email == p.email
    &&& !u.verified
    &&& password_matches(p.password@, u.password@)
    &&& u.roles@.len() == 1 && u.roles@[0]@ == seq!['u', 's', 'e', 'r']
    &&& u.details == p.details_spec(BirthDate { year: date.0, month: date.1, day: date.2 })
    &&& u.created_at == now
}

/// Checks the shape of a sign-up payload, given what its date of birth reads
/// as: a username, a password that is not weak, and a date.
pub fn validate_sign_up(payload: &SignUpPayload, date: Option<BirthDate>) -> (r: Result<BirthDate, AuthError>)
    ensures
        (payload.username@.len() == 0 || weak_password(payload.password@) || date is None) <==> r is Err,
        r is Err ==> r matches Err(AuthError::Validation(_)),
        r matches Ok(d) ==> date == Some(d),
{
    if payload.username.as_str().is_empty() {
        return Err(AuthError::Validation("username is required".to_owned()));
    }
    if payload.password.as_str().unicode_len() < MIN_PASSWORD_CHARS {
        return Err(AuthError::Validation("password is too weak".to_owned()));
    }
    match date {
        Some(d) => Ok(d),
        None => Err(AuthError::Validation("date of birth must be YYYY-MM-DD".to_owned())),
    }
}

impl AuthService {
    /// The stores' invariants.
    pub open spec fn wf(&self) -> bool {
        self.users.wf() && self.codes.wf()
    }

    /// A service with no accounts, codes or revocations.
    pub fn new(codec: TokenCodec, config: AuthConfig) -> (r: AuthService)
        ensures
            r.wf(),
            r.codec == codec,
            r.config == config,
            r.users@.len() == 0,
    {
        AuthService { codec, config, users: UserStore::new(), codes: OneTimeCodeStore::new(), denylist: Denylist::new() }
    }

    /// The current time in seconds since the Unix epoch. A clock reading
    /// before the epoch, or one from which an expiry would not fit in 64
    /// bits, is an internal error.
    pub fn current_time(&self) -> (r: Result<u64, AuthError>)
        ensures
            r matches Ok(t) ==> self.config.fits(t),
            r is Err ==> r == Err::<u64, AuthError>(AuthError::Internal),
    {
        let now = match system_clock_seconds() {
            Some(t) => t,
            None => {
                return Err(AuthError::Internal);
            },
        };
        if now > u64::MAX - self.config.access_ttl || now > u64::MAX - self.config.otp_ttl
            || now > u64::MAX - self.config.code_ttl {
            return Err(AuthError::Internal);
        }
        Ok(now)
    }

    /// Creates an unverified account with the default role and issues its
    /// email-verify code. A malformed payload is a validation error; a taken
    /// username or email is a conflict; nothing is written unless all succeeds.
    pub fn sign_up(&mut self, payload: &SignUpPayload, now: u64) -> (r: Result<SignUpReceipt, AuthError>)
        requires
            old(self).wf(),
            old(self).config.fits(now),
        ensures
            final(self).wf(),
            final(self).codec == old(self).codec && final(self).config == old(self).config,
            malformed_sign_up(*payload, calendar_date_of(payload.date_of_birth@)) <==> r matches Err(AuthError::Validation(_)),
            !malformed_sign_up(*payload, calendar_date_of(payload.date_of_birth@)) ==> (
                (username_taken(old(self).users@, payload.username@) || email_taken(old(self).users@, payload.email))
                    <==> r == Err::<SignUpReceipt, AuthError>(AuthError::Conflict)),
            r is Err ==> r == Err::<SignUpReceipt, AuthError>(AuthError::Conflict)
                || r == Err::<SignUpReceipt, AuthError>(AuthError::Internal) || r matches Err(AuthError::Validation(_)),
            r is Err ==> final(self).users@ == old(self).users@ && final(self).codes@ == old(self).codes@,
            r matches Ok(receipt) ==> {
                &&& final(self).users@.len() == old(self).users@.len() + 1
                &&& final(self).users@.drop_last() == old(self).users@
                &&& created_as(final(self).users@.last(), *payload, receipt, calendar_date_of(payload.date_of_birth@).unwrap(), now)
                &&& final(self).codes@ == after_issue(old(self).codes@, (receipt.user_id@, Purpose::EmailVerify),
                    receipt.verify_code@, (now + old(self).config.code_ttl) as u64)
            },
    {
        let date = match validate_sign_up(payload, BirthDate::parse(payload.date_of_birth.as_str())) {
            Ok(d) => d,
            Err(e) => {
                return Err(e);
            },
        };
        if self.users.find_by_username(payload.username.as_str()).is_some() || self.users.find_by_email(&payload.email).is_some() {
            return Err(AuthError::Conflict);
        }
        let hash = match hash_password(payload.password.as_str()) {
            Ok(h) => h,
            Err(e) => {
                return Err(e);
            },
        };
        let role = "user";
        proof {
            reveal_strlit("user");
            assert(role@ == seq!['u', 's', 'e', 'r']);
        }
        let mut roles: Vec<String> = Vec::new();
        roles.push(role.to_owned());
        let user = User {
            id: generate_uuid(),
            username: payload.username.clone(),
            email: crate::models::clone_opt(&payload.email),
            password: hash,
            verified: false,
            roles,
            details: payload.details(date),
            created_at: now,
            updated_at: now,
        };
        let user_id = user.id.clone();
        match self.users.create(user) {
            Ok(()) => {},
            Err(e) => {
                return Err(e);
            },
        }
        let verify_code = self.codes.issue(user_id.as_str(), Purpose::EmailVerify, now, self.config.code_ttl);
        assert(self.users@.drop_last() =~= old(self).users@);
        let receipt = SignUpReceipt { user_id, verify_code };
        Ok(receipt)
    }

    /// Issues an access token to a verified account whose password matches.
    /// An unknown username, a wrong password and an unverified account all
    /// get the same `Unauthorized`.
    pub fn sign_in(&self, username: &str, password: &str, now: u64) -> (r: Result<String, AuthError>)
        requires
            self.wf(),
            self.config.fits(now),
        ensures
            !username_taken(self.users@, username@) ==> r == Err::<String, AuthError>(AuthError::Unauthorized),
            forall|i: int| 0 <= i < self.users@.len() && (#[trigger] self.users@[i]).username@ == username@ ==> {
                &&& (!password_matches(password@, self.users@[i].password@) || !self.users@[i].verified)
                    <==> r == Err::<String, AuthError>(AuthError::Unauthorized)
                &&& (password_matches(password@, self.users@[i].password@) && self.users@[i].verified)
                    ==> (r matches Ok(t) && t@ == jwt_signed(self.users@[i].id@, purpose_code(Purpose::Access), now,
                    (now + self.config.access_ttl) as u64, self.codec.secret()))
            },
            r is Err ==> r == Err::<String, AuthError>(AuthError::Unauthorized),
    {
        let i = match self.users.find_by_username(username) {
            Some(i) => i,
            None => {
                return Err(AuthError::Unauthorized);
            },
        };
        let user = self.users.get(i);
        if !verify_password(password, user.password.as_str()) || !user.verified {
            return Err(AuthError::Unauthorized);
        }
        Ok(self.codec.issue(user.id.as_str(), Purpose::Access, now, self.config.access_ttl))
    }

    /// Issues a code of `purpose` to the account that `identifier` names. An
    /// unknown identifier gets `None`, shaped like success by the caller so
    /// that accounts cannot be enumerated.
    fn issue_code_for(&mut self, identifier: &str, purpose: Purpose, now: u64) -> (r: Option<String>)
        requires
            old(self).wf(),
            old(self).config.fits(now),
        ensures
            final(self).wf(),
            final(self).codec == old(self).codec && final(self).config == old(self).config,
            final(self).users@ == old(self).users@,
            r is None <==> !(exists|i: int| 0 <= i < old(self).users@.len() && answers_to(#[trigger] old(self).users@[i], identifier@)),
            r is None ==> final(self).codes@ == old(self).codes@,
            purpose == Purpose::OtpChallenge ==> (r matches Some(c) ==> short_code(c@)),
            r matches Some(c) ==> exists|i: int| 0 <= i < old(self).users@.len() && answers_to(#[trigger] old(self).users@[i], identifier@)
                && (username_taken(old(self).users@, identifier@) ==> old(self).users@[i].username@ == identifier@)
                && final(self).codes@ == after_issue(old(self).codes@, (old(self).users@[i].id@, purpose), c@,
                    (now + ttl_for(old(self).config, purpose)) as u64),
    {
        let i = match self.users.find_by_identifier(identifier) {
            Some(i) => i,
            None => {
                return None;
            },
        };
        let ttl = if purpose == Purpose::OtpChallenge { self.config.otp_ttl } else { self.config.code_ttl };
        let user_id = self.users.get(i).id.clone();
        let code = self.codes.issue(user_id.as_str(), purpose, now, ttl);
        assert(answers_to(self.users@[i as int], identifier@));
        Some(code)
    }

    /// Issues a one-time passcode to the account that `identifier` (a username
    /// or an email) names; `None` when it names none.
    pub fn request_otp(&mut self, identifier: &str, now: u64) -> (r: Option<String>)
        requires
            old(self).wf(),
            old(self).config.fits(now),
        ensures
            final(self).wf(),
            final(self).codec == old(self).codec && final(self).config == old(self).config,
            final(self).users@ == old(self).users@,
            r is None <==> !(exists|i: int| 0 <= i < old(self).users@.len() && answers_to(#[trigger] old(self).users@[i], identifier@)),
            r matches Some(c) ==> short_code(c@),
            r is None ==> final(self).codes@ == old(self).codes@,
            r matches Some(c) ==> exists|i: int| 0 <= i < old(self).users@.len() && answers_to(#[trigger] old(self).users@[i], identifier@)
                && (username_taken(old(self).users@, identifier@) ==> old(self).users@[i].username@ == identifier@)
                && final(self).codes@ == after_issue(old(self).codes@, (old(self).users@[i].id@, Purpose::OtpChallenge), c@,
                    (now + old(self).config.otp_ttl) as u64),
    {
        self.issue_code_for(identifier, Purpose::OtpChallenge, now)
    }

    /// Issues a password-reset code to the account that `identifier` names;
    /// `None` when it names none.
    pub fn forgot_password(&mut self, identifier: &str, now: u64) -> (r: Option<String>)
        requires
            old(self).wf(),
            old(self).config.fits(now),
        ensures
            final(self).wf(),
            final(self).codec == old(self).codec && final(self).config == old(self).config,
            final(self).users@ == old(self).users@,
            r is None <==> !(exists|i: int| 0 <= i < old(self).users@.len() && answers_to(#[trigger] old(self).users@[i], identifier@)),
            r is None ==> final(self).codes@ == old(self).codes@,
            r matches Some(c) ==> exists|i: int| 0 <= i < old(self).users@.len() && answers_to(#[trigger] old(self).users@[i], identifier@)
                && (username_taken(old(self).users@, identifier@) ==> old(self).users@[i].username@ == identifier@)
                && final(self).codes@ == after_issue(old(self).codes@, (old(self).users@[i].id@, Purpose::PasswordReset), c@,
                    (now + old(self).config.code_ttl) as u64),
    {
        self.issue_code_for(identifier, Purpose::PasswordReset, now)
    }

    /// Uses the passcode of the account that `identifier` names and issues an
    /// access token; an unknown account or a wrong, used or expired code is
    /// `Unauthorized` and changes nothing.
    pub fn verify_otp(&mut self, identifier: &str, code: &str, now: u64) -> (r: Result<String, AuthError>)
        requires
            old(self).wf(),
            old(self).config.fits(now),
        ensures
            final(self).wf(),
            final(self).codec == old(self).codec && final(self).config == old(self).config,
            final(self).users@ == old(self).users@,
            !(exists|i: int| 0 <= i < old(self).users@.len() && answers_to(#[trigger] old(self).users@[i], identifier@))
                ==> r == Err::<String, AuthError>(AuthError::Unauthorized),
            r is Err ==> final(self).codes@ == old(self).codes@,
            r is Err ==> r == Err::<String, AuthError>(AuthError::Unauthorized),
            forall|i: int| 0 <= i < old(self).users@.len() && answers_to(#[trigger] old(self).users@[i], identifier@)
                && (username_taken(old(self).users@, identifier@) ==> old(self).users@[i].username@ == identifier@) ==> {
                let k = (old(self).users@[i].id@, Purpose::OtpChallenge);
                &&& !consume_ok(old(self).codes@, k, code@, now) <==> r is Err
                &&& r is Ok ==> final(self).codes@ == after_consume(old(self).codes@, k)
                &&& consume_ok(old(self).codes@, k, code@, now) ==> (r matches Ok(t) && t@ == jwt_signed(old(self).users@[i].id@, purpose_code(Purpose::Access), now,
                    (now + old(self).config.access_ttl) as u64, old(self).codec.secret()))
            },
    {
        let i = match self.users.find_by_identifier(identifier) {
            Some(i) => i,
            None => {
                return Err(AuthError::Unauthorized);
            },
        };
        proof { self.lemma_identifier_target(identifier@, i as int); }
        let user_id = self.users.get(i).id.clone();
        if !self.codes.accepts(user_id.as_str(), Purpose::OtpChallenge, code, now) {
            return Err(AuthError::Unauthorized);
        }
        let token = self.codec.issue(user_id.as_str(), Purpose::Access, now, self.config.access_ttl);
        let used = self.codes.consume(user_id.as_str(), Purpose::OtpChallenge, code, now);
        assert(used);
        Ok(token)
    }

    /// Issues a purpose-tagged token for `user_id` and records it as the one
    /// live code of (`user_id`, `purpose`), so that it can be redeemed once;
    /// any earlier code of the pair is invalidated.
    pub fn issue_purpose_token(&mut self, user_id: &str, purpose: Purpose, now: u64) -> (r: String)
        requires
            old(self).wf(),
            old(self).config.fits(now),
        ensures
            final(self).wf(),
            final(self).codec == old(self).codec && final(self).config == old(self).config,
            final(self).users@ == old(self).users@,
            r@ == jwt_signed(user_id@, purpose_code(purpose), now, (now + ttl_for(old(self).config, purpose)) as u64,
                old(self).codec.secret()),
            final(self).codes@ == after_issue(old(self).codes@, (user_id@, purpose), r@,
                (now + ttl_for(old(self).config, purpose)) as u64),
    {
        let ttl = if purpose == Purpose::OtpChallenge { self.config.otp_ttl } else { self.config.code_ttl };
        let token = self.codec.issue(user_id, purpose, now, ttl);
        self.codes.issue_code(user_id, purpose, token.clone(), now + ttl);
        token
    }

    /// Redeems a purpose-tagged token for an operation that needs `purpose`:
    /// it must verify for that purpose at `now` and be the live, unused code
    /// of its subject and purpose, which it then uses up. Gives the subject.
    /// Every failure is the same `Unauthorized` and changes nothing.
    pub fn redeem_purpose_token(&mut self, token: &str, purpose: Purpose, now: u64) -> (r: Result<String, AuthError>)
        requires
            old(self).wf(),
        ensures
            final(self).wf(),
            final(self).codec == old(self).codec && final(self).config == old(self).config,
            final(self).users@ == old(self).users@,
            r is Err ==> r == Err::<String, AuthError>(AuthError::Unauthorized) && final(self).codes@ == old(self).codes@,
            match token_verdict(token@, old(self).codec.secret(), purpose, now) {
                Ok(c) => (r is Ok <==> consume_ok(old(self).codes@, (c.sub, purpose), token@, now))
                    && (r matches Ok(u) ==> u@ == c.sub && final(self).codes@ == after_consume(old(self).codes@, (c.sub, purpose))),
                Err(_) => r is Err,
            },
            forall|sub: Seq<char>, p: Purpose, iat: u64, exp: u64|
                #[trigger] jwt_signed(sub, purpose_code(p), iat, exp, old(self).codec.secret()) == token@ ==> {
                    &&& r is Ok <==> claims_verdict(sub, p, iat, exp, purpose, now) is Ok
                        && consume_ok(old(self).codes@, (sub, purpose), token@, now)
                    &&& r matches Ok(u) ==> u@ == sub && final(self).codes@ == after_consume(old(self).codes@, (sub, purpose))
                },
    {
        let claims = match self.codec.verify(token, purpose, now) {
            Ok(c) => c,
            Err(_) => {
                return Err(AuthError::Unauthorized);
            },
        };
        if !self.codes.consume(claims.sub.as_str(), purpose, token, now) {
            return Err(AuthError::Unauthorized);
        }
        Ok(claims.sub)
    }

    /// The accounts that an identifier can name under the lookup's priority
    /// are one and the same.
    proof fn lemma_identifier_target(&self, identifier: Seq<char>, i: int)
        requires
            self.wf(),
            0 <= i < self.users@.len(),
            answers_to(self.users@[i], identifier),
            username_taken(self.users@, identifier) ==> self.users@[i].username@ == identifier,
        ensures
            forall|j: int| 0 <= j < self.users@.len() && answers_to(#[trigger] self.users@[j], identifier)
                && (username_taken(self.users@, identifier) ==> self.users@[j].username@ == identifier) ==> j == i,
    {
        assert forall|j: int| 0 <= j < self.users@.len() && answers_to(#[trigger] self.users@[j], identifier)
            && (username_taken(self.users@, identifier) ==> self.users@[j].username@ == identifier) implies j == i by {
            if j != i {
                let s = self.users@;
                assert(s[i].username@ != s[j].username@ && !crate::users::same_email(s[i].email, s[j].email));
                if !username_taken(s, identifier) {
                    assert(s[i].username@ != identifier);
                    assert(s[j].username@ != identifier);
                }
            }
        }
    }

    /// Uses the reset code of the account that `identifier` names and stores
    /// the hash of `new_password`. A weak password is a validation error; an
    /// unknown account or a bad code is `Unauthorized`; a failure changes
    /// nothing.
    pub fn reset_password(&mut self, identifier: &str, code: &str, new_password: &str, now: u64) -> (r: Result<(), AuthError>)
        requires
            old(self).wf(),
        ensures
            final(self).wf(),
            final(self).codec == old(self).codec && final(self).config == old(self).config,
            weak_password(new_password@) <==> r matches Err(AuthError::Validation(_)),
            !weak_password(new_password@) && !(exists|i: int| 0 <= i < old(self).users@.len() && answers_to(#[trigger] old(self).users@[i], identifier@))
                ==> r == Err::<(), AuthError>(AuthError::Unauthorized),
            r is Err ==> final(self).users@ == old(self).users@ && final(self).codes@ == old(self).codes@,
            r is Err ==> r == Err::<(), AuthError>(AuthError::Unauthorized) || r == Err::<(), AuthError>(AuthError::Internal)
                || r matches Err(AuthError::Validation(_)),
            forall|i: int| 0 <= i < old(self).users@.len() && answers_to(#[trigger] old(self).users@[i], identifier@)
                && (username_taken(old(self).users@, identifier@) ==> old(self).users@[i].username@ == identifier@) ==> {
                let k = (old(self).users@[i].id@, Purpose::PasswordReset);
                &&& !weak_password(new_password@) ==> (!consume_ok(old(self).codes@, k, code@, now)
                    <==> r == Err::<(), AuthError>(AuthError::Unauthorized))
                &&& r is Ok ==> final(self).codes@ == after_consume(old(self).codes@, k)
                    && final(self).users@.len() == old(self).users@.len()
                    && password_matches(new_password@, final(self).users@[i].password@)
                    && final(self).users@[i].verified == old(self).users@[i].verified
                    && (forall|j: int| 0 <= j < old(self).users@.len() && j != i ==> final(self).users@[j] == old(self).users@[j])
            },
    {
        if new_password.unicode_len() < MIN_PASSWORD_CHARS {
            return Err(AuthError::Validation("password is too weak".to_owned()));
        }
        let i = match self.users.find_by_identifier(identifier) {
            Some(i) => i,
            None => {
                return Err(AuthError::Unauthorized);
            },
        };
        proof { self.lemma_identifier_target(identifier@, i as int); }
        let user_id = self.users.get(i).id.clone();
        if !self.codes.accepts(user_id.as_str(), Purpose::PasswordReset, code, now) {
            return Err(AuthError::Unauthorized);
        }
        let hash = match hash_password(new_password) {
            Ok(h) => h,
            Err(e) => {
                return Err(e);
            },
        };
        let used = self.codes.consume(user_id.as_str(), Purpose::PasswordReset, code, now);
        assert(used);
        self.users.set_password(i, hash, now);
        Ok(())
    }

    /// Uses the email-verify code of the account that `identifier` names and
    /// marks it verified; an unknown account or a bad code is `Unauthorized`
    /// and changes nothing.
    pub fn verify_account(&mut self, identifier: &str, code: &str, now: u64) -> (r: Result<(), AuthError>)
        requires
            old(self).wf(),
        ensures
            final(self).wf(),
            final(self).codec == old(self).codec && final(self).config == old(self).config,
            !(exists|i: int| 0 <= i < old(self).users@.len() && answers_to(#[trigger] old(self).users@[i], identifier@))
                ==> r == Err::<(), AuthError>(AuthError::Unauthorized),
            r is Err ==> r == Err::<(), AuthError>(AuthError::Unauthorized),
            r is Err ==> final(self).users@ == old(self).users@ && final(self).codes@ == old(self).codes@,
            forall|i: int| 0 <= i < old(self).users@.len() && answers_to(#[trigger] old(self).users@[i], identifier@)
                && (username_taken(old(self).users@, identifier@) ==> old(self).users@[i].username@ == identifier@) ==> {
                let k = (old(self).users@[i].id@, Purpose::EmailVerify);
                &&& consume_ok(old(self).codes@, k, code@, now) <==> r is Ok
                &&& r is Ok ==> final(self).codes@ == after_consume(old(self).codes@, k)
                    && final(self).users@.len() == old(self).users@.len()
                    && final(self).users@[i].verified
                    && final(self).users@[i].password == old(self).users@[i].password
                    && (forall|j: int| 0 <= j < old(self).users@.len() && j != i ==> final(self).users@[j] == old(self).users@[j])
            },
    {
        let i = match self.users.find_by_identifier(identifier) {
            Some(i) => i,
            None => {
                return Err(AuthError::Unauthorized);
            },
        };
        proof { self.lemma_identifier_target(identifier@, i as int); }
        let user_id = self.users.get(i).id.clone();
        if !self.codes.consume(user_id.as_str(), Purpose::EmailVerify, code, now) {
            return Err(AuthError::Unauthorized);
        }
        self.users.mark_verified(i, now);
        Ok(())
    }

    /// The claims of the request's access token: the check that every
    /// protected route makes first.
    pub fn authorize(&self, header: Option<&str>, now: u64) -> (r: Result<Claims, AuthError>)
        ensures
            r is Err ==> r == Err::<Claims, AuthError>(AuthError::Unauthorized),
            match gate(self.codec, self.denylist, header, now) {
                Some(c) => r matches Ok(x) && x@ == c,
                None => r is Err,
            },
            header is None ==> r is Err,
            header matches Some(h) ==> match bearer_of(h@) {
                None => r is Err,
                Some(t) => {
                    &&& self.denylist.holds(t) ==> r is Err
                    &&& forall|sub: Seq<char>, p: Purpose, iat: u64, exp: u64|
                        #[trigger] jwt_signed(sub, purpose_code(p), iat, exp, self.codec.secret()) == t ==> (
                            (r is Ok <==> !self.denylist.holds(t) && claims_verdict(sub, p, iat, exp, Purpose::Access, now) is Ok)
                            && (r matches Ok(c) ==> c@ == ClaimsView { sub, purpose: p, iat, exp }))
                },
            },
    {
        authenticate(&self.codec, &self.denylist, header, now)
    }

    /// Revokes the presented access token until its natural expiry; a
    /// missing or invalid token is `Unauthorized`.
    pub fn sign_out(&mut self, header: Option<&str>, now: u64) -> (r: Result<(), AuthError>)
        requires
            old(self).wf(),
        ensures
            final(self).wf(),
            final(self).codec == old(self).codec && final(self).config == old(self).config,
            final(self).users@ == old(self).users@ && final(self).codes@ == old(self).codes@,
            r is Err ==> r == Err::<(), AuthError>(AuthError::Unauthorized),
            r is Err ==> final(self).denylist == old(self).denylist,
            gate(old(self).codec, old(self).denylist, header, now) is None <==> r is Err,
            r is Ok ==> (header_token(header) matches Some(t) && final(self).denylist.holds(t)),
            forall|t: Seq<char>| old(self).denylist.holds_at(t, now) ==> final(self).denylist.holds(t),
            header is None ==> r is Err,
            header matches Some(h) ==> match bearer_of(h@) {
                None => r is Err,
                Some(t) => {
                    &&& r is Ok ==> final(self).denylist.holds(t)
                    &&& old(self).denylist.holds(t) ==> r is Err
                    &&& forall|sub: Seq<char>, p: Purpose, iat: u64, exp: u64, n: u64|
                        jwt_signed(sub, purpose_code(p), iat, exp, old(self).codec.secret()) == t && r is Ok
                        && n <= exp ==> #[trigger] final(self).denylist.holds_at(t, n) && #[trigger] jwt_signed(sub, purpose_code(p), iat, exp, old(self).codec.secret()) == t
                    &&& forall|sub: Seq<char>, p: Purpose, iat: u64, exp: u64|
                        #[trigger] jwt_signed(sub, purpose_code(p), iat, exp, old(self).codec.secret()) == t ==> (
                            r is Ok <==> !old(self).denylist.holds(t) && claims_verdict(sub, p, iat, exp, Purpose::Access, now) is Ok)
                },
            },
    {
        let claims = match authenticate(&self.codec, &self.denylist, header, now) {
            Ok(c) => c,
            Err(e) => {
                assert forall|t: Seq<char>| self.denylist.holds_at(t, now) implies self.denylist.holds(t) by {
                    self.denylist.lemma_live_entry_holds(t, now);
                }
                return Err(e);
            },
        };
        let token = match extract_bearer(header) {
            Ok(t) => t,
            Err(e) => {
                return Err(e);
            },
        };
        self.denylist.prune(now);
        self.denylist.revoke(token.as_str(), claims.exp);
        Ok(())
    }

    /// Applies a partial profile update to the account that the request's
    /// access token speaks for. A malformed update is a validation error; a
    /// username or email held by another account is a conflict; a failure
    /// changes nothing.
    pub fn update_profile(&mut self, header: Option<&str>, payload: &UpdateProfilePayload, now: u64) -> (r: Result<(), AuthError>)
        requires
            old(self).wf(),
        ensures
            final(self).wf(),
            final(self).codec == old(self).codec && final(self).config == old(self).config,
            final(self).codes@ == old(self).codes@,
            r is Err ==> final(self).users@ == old(self).users@,
            header is None ==> r == Err::<(), AuthError>(AuthError::Unauthorized),
            header matches Some(h) ==> match bearer_of(h@) {
                None => r == Err::<(), AuthError>(AuthError::Unauthorized),
                Some(t) => {
                    &&& old(self).denylist.holds(t) ==> r == Err::<(), AuthError>(AuthError::Unauthorized)
                    &&& forall|sub: Seq<char>, p: Purpose, iat: u64, exp: u64|
                        #[trigger] jwt_signed(sub, purpose_code(p), iat, exp, old(self).codec.secret()) == t ==> {
                            &&& (r == Err::<(), AuthError>(AuthError::Unauthorized)
                                <==> old(self).denylist.holds(t) || claims_verdict(sub, p, iat, exp, Purpose::Access, now) is Err)
                            &&& (!old(self).denylist.holds(t) && claims_verdict(sub, p, iat, exp, Purpose::Access, now) is Ok
                                && !id_taken(old(self).users@, sub)) ==> r == Err::<(), AuthError>(AuthError::NotFound)
                            &&& forall|i: int| 0 <= i < old(self).users@.len() && (#[trigger] old(self).users@[i]).id@ == sub
                                && !old(self).denylist.holds(t) && claims_verdict(sub, p, iat, exp, Purpose::Access, now) is Ok ==> {
                                &&& malformed_update(*payload) <==> (r matches Err(AuthError::Validation(_)))
                                &&& !malformed_update(*payload) ==> (update_conflicts(old(self).users@, i, *payload)
                                    <==> r == Err::<(), AuthError>(AuthError::Conflict))
                                &&& !malformed_update(*payload) && !update_conflicts(old(self).users@, i, *payload) ==> r is Ok
                                &&& r is Ok && !update_is_empty(*payload) ==> profile_updated(old(self).users@,
                                    final(self).users@, i, *payload, update_date_of(*payload), now)
                            }
                        }
                },
            },
            r is Err ==> r == Err::<(), AuthError>(AuthError::Unauthorized) || r == Err::<(), AuthError>(AuthError::NotFound)
                || r == Err::<(), AuthError>(AuthError::Conflict) || r matches Err(AuthError::Validation(_)),
            r matches Err(AuthError::Validation(_)) ==> malformed_update(*payload),
            update_is_empty(*payload) ==> final(self).users@ == old(self).users@,
            gate(old(self).codec, old(self).denylist, header, now) is None ==> r == Err::<(), AuthError>(AuthError::Unauthorized),
            gate(old(self).codec, old(self).denylist, header, now) matches Some(c) ==> {
                &&& r != Err::<(), AuthError>(AuthError::Unauthorized)
                &&& !id_taken(old(self).users@, c.sub) ==> r == Err::<(), AuthError>(AuthError::NotFound)
                &&& forall|i: int| 0 <= i < old(self).users@.len() && (#[trigger] old(self).users@[i]).id@ == c.sub ==> {
                    &&& malformed_update(*payload) <==> (r matches Err(AuthError::Validation(_)))
                    &&& !malformed_update(*payload) ==> (update_conflicts(old(self).users@, i, *payload)
                        <==> r == Err::<(), AuthError>(AuthError::Conflict))
                    &&& !malformed_update(*payload) && !update_conflicts(old(self).users@, i, *payload) ==> r is Ok
                    &&& r is Ok && !update_is_empty(*payload) ==> profile_updated(old(self).users@,
                        final(self).users@, i, *payload, update_date_of(*payload), now)
                }
            },
    {
        let claims = match self.authorize(header, now) {
            Ok(c) => c,
            Err(e) => {
                return Err(e);
            },
        };
        let i = match self.users.find_by_id(claims.sub.as_str()) {
            Some(i) => i,
            None => {
                return Err(AuthError::NotFound);
            },
        };
        let date = match update_date(payload) {
            Ok(d) => d,
            Err(e) => {
                return Err(e);
            },
        };
        self.users.update_profile(i, payload, date, now)
    }

    /// The profile of the account that the request's access token speaks for.
    pub fn user_profile(&self, header: Option<&str>, now: u64) -> (r: Result<UserProfile, AuthError>)
        requires
            self.wf(),
        ensures
            gate(self.codec, self.denylist, header, now) is None <==> r == Err::<UserProfile, AuthError>(AuthError::Unauthorized),
            gate(self.codec, self.denylist, header, now) matches Some(c) ==> {
                &&& r is Ok <==> id_taken(self.users@, c.sub)
                &&& !id_taken(self.users@, c.sub) ==> r == Err::<UserProfile, AuthError>(AuthError::NotFound)
                &&& forall|i: int| 0 <= i < self.users@.len() && (#[trigger] self.users@[i]).id@ == c.sub ==> (r matches Ok(prof)
                    && prof.id == self.users@[i].id && prof.username == self.users@[i].username
                    && prof.email == self.users@[i].email && prof.details == self.users@[i].details)
            },
            r is Err ==> r == Err::<UserProfile, AuthError>(AuthError::Unauthorized) || r == Err::<UserProfile, AuthError>(AuthError::NotFound),
            header is None ==> r == Err::<UserProfile, AuthError>(AuthError::Unauthorized),
            header matches Some(h) ==> match bearer_of(h@) {
                None => r == Err::<UserProfile, AuthError>(AuthError::Unauthorized),
                Some(t) => {
                    &&& self.denylist.holds(t) ==> r == Err::<UserProfile, AuthError>(AuthError::Unauthorized)
                    &&& forall|sub: Seq<char>, p: Purpose, iat: u64, exp: u64|
                        #[trigger] jwt_signed(sub, purpose_code(p), iat, exp, self.codec.secret()) == t ==> (
                            (r == Err::<UserProfile, AuthError>(AuthError::Unauthorized)
                                <==> self.denylist.holds(t) || claims_verdict(sub, p, iat, exp, Purpose::Access, now) is Err)
                            && (!self.denylist.holds(t) && claims_verdict(sub, p, iat, exp, Purpose::Access, now) is Ok ==> (
                                (r is Ok <==> id_taken(self.users@, sub))
                                && (!id_taken(self.users@, sub) ==> r == Err::<UserProfile, AuthError>(AuthError::NotFound))))
                            && (r matches Ok(prof) ==> prof.id@ == sub && (exists|i: int| 0 <= i < self.users@.len()
                                && #[trigger] self.users@[i].id@ == sub && prof.username == self.users@[i].username
                                && prof.email == self.users@[i].email && prof.details == self.users@[i].details)))
                },
            },
    {
        let claims = match self.authorize(header, now) {
            Ok(c) => c,
            Err(e) => {
                return Err(e);
            },
        };
        match self.users.find_by_id(claims.sub.as_str()) {
            Some(i) => Ok(self.users.profile_at(i)),
            None => Err(AuthError::NotFound),
        }
    }
}

/// Whether a profile update is malformed: an empty username, or a date of
/// birth that does not read as one.
pub open spec fn malformed_update(p: UpdateProfilePayload) -> bool {
    (p.username matches Some(n) && n@.len() == 0)
        || (p.date_of_birth matches Some(d) && calendar_date_of(d@) is None)
}

/// The date of birth that a well-formed profile update sets, if any.
pub open spec fn update_date_of(p: UpdateProfilePayload) -> Option<BirthDate> {
    match p.date_of_birth {
        None => None,
        Some(d) => Some(BirthDate {
            year: calendar_date_of(d@).unwrap().0,
            month: calendar_date_of(d@).unwrap().1,
            day: calendar_date_of(d@).unwrap().2,
        }),
    }
}

/// Reads the date of birth of a profile update, if it carries one.
fn update_date(p: &UpdateProfilePayload) -> (r: Result<Option<BirthDate>, AuthError>)
    ensures
        (p.username matches Some(n) && n@.len() == 0) || (p.date_of_birth matches Some(d) && calendar_date_of(d@) is None)
            <==> r is Err,
        r is Err ==> r matches Err(AuthError::Validation(_)),
        r matches Ok(o) ==> o == update_date_of(*p),
{
    match &p.username {
        Some(n) => {
            if n.as_str().is_empty() {
                return Err(AuthError::Validation("username is required".to_owned()));
            }
        },
        None => {},
    }
    match &p.date_of_birth {
        None => Ok(None),
        Some(d) => match BirthDate::parse(d.as_str()) {
            Some(b) => Ok(Some(b)),
            None => Err(AuthError::Validation("date of birth must be YYYY-MM-DD".to_owned())),
        },
    }
}

/// Once an account holds a username, a sign-up of that name is a conflict:
/// of two sign-ups with one name, only the first succeeds.
pub proof fn lemma_username_claimed(users: Seq<User>, created: User, name: Seq<char>)
    requires
        created.username@ == name,
    ensures
        username_taken(users.push(created), name),
{
    assert(users.push(created)[users.len() as int] == created);
}

} // verus!
