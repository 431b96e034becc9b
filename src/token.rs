use jsonwebtoken::errors::ErrorKind;
use jsonwebtoken::{Algorithm, DecodingKey, EncodingKey, Header, Validation};
use serde_json::Value;
use std::collections::BTreeMap;
use vstd::prelude::*;

verus! {

/// What a token or a one-time code may be used for.
#[derive(Debug, Clone, Copy, PartialEq, Eq, Structural)]
pub enum Purpose {
    Access,
    PasswordReset,
    EmailVerify,
    OtpChallenge,
}

/// The number that stands for a purpose in a token's `purpose` claim.
pub open spec fn purpose_code(p: Purpose) -> u64 {
    match p {
        Purpose::Access => 0,
        Purpose::PasswordReset => 1,
        Purpose::EmailVerify => 2,
        Purpose::OtpChallenge => 3,
    }
}

/// The purpose that a claim number stands for, if any.
pub open spec fn purpose_of_code(c: u64) -> Option<Purpose> {
    if c == 0 {
        Some(Purpose::Access)
    } else if c == 1 {
        Some(Purpose::PasswordReset)
    } else if c == 2 {
        Some(Purpose::EmailVerify)
    } else if c == 3 {
        Some(Purpose::OtpChallenge)
    } else {
        None
    }
}

impl Purpose {
    /// The claim number of this purpose.
    pub fn code(&self) -> (r: u64)
        ensures
            r == purpose_code(*self),
            purpose_of_code(r) == Some(*self),
    {
        match self {
            Purpose::Access => 0,
            Purpose::PasswordReset => 1,
            Purpose::EmailVerify => 2,
            Purpose::OtpChallenge => 3,
        }
    }

    /// The purpose that a claim number stands for.
    pub fn from_code(c: u64) -> (r: Option<Purpose>)
        ensures
            r == purpose_of_code(c),
    {
        if c == 0 {
            Some(Purpose::Access)
        } else if c == 1 {
            Some(Purpose::PasswordReset)
        } else if c == 2 {
            Some(Purpose::EmailVerify)
        } else if c == 3 {
            Some(Purpose::OtpChallenge)
        } else {
            None
        }
    }
}

/// The claims that a verified token carries.
#[derive(Debug, Clone, PartialEq, Eq)]
pub struct Claims {
    /// The user id the token speaks for.
    pub sub: String,
    pub purpose: Purpose,
    /// Issued-at, seconds since the Unix epoch.
    pub iat: u64,
    /// Expiry, seconds since the Unix epoch; the token is valid up to and including it.
    pub exp: u64,
}

/// The mathematical value of `Claims`.
pub struct ClaimsView {
    pub sub: Seq<char>,
    pub purpose: Purpose,
    pub iat: u64,
    pub exp: u64,
}

impl View for Claims {
    type V = ClaimsView;

    open spec fn view(&self) -> ClaimsView {
        ClaimsView { sub: self.sub@, purpose: self.purpose, iat: self.iat, exp: self.exp }
    }
}

/// Why a token was refused. The reasons stay distinct for logging even
/// though every one of them is an `Unauthorized` to the client.
#[derive(Debug, Clone, Copy, PartialEq, Eq, Structural)]
pub enum TokenError {
    /// The signature does not match the payload under this codec's secret.
    BadSignature,
    /// Not a token of this scheme, or a required claim is missing.
    Malformed,
    /// The expiry has passed.
    Expired,
    /// A valid token issued for another purpose.
    WrongPurpose,
}

/// How decoding failed before any claim was read.
#[derive(Debug, Clone, Copy, PartialEq, Eq, Structural)]
pub enum JwtFault {
    Signature,
    Format,
}

/// The claims of a token whose signature checked out, as they were found.
#[derive(Debug, Clone, PartialEq, Eq)]
pub struct JwtBody {
    pub sub: Option<String>,
    pub purpose: Option<u64>,
    pub iat: Option<u64>,
    pub exp: Option<u64>,
}

/// The claims of a decoded token, as plain values.
pub struct JwtBodyView {
    pub sub: Option<Seq<char>>,
    pub purpose: Option<u64>,
    pub iat: Option<u64>,
    pub exp: Option<u64>,
}

/// The plain value of a decoding outcome.
pub open spec fn body_view(d: Result<JwtBody, JwtFault>) -> Result<JwtBodyView, JwtFault> {
    match d {
        Ok(b) => Ok(JwtBodyView {
            sub: match b.sub {
                Some(s) => Some(s@),
                None => None,
            },
            purpose: b.purpose,
            iat: b.iat,
            exp: b.exp,
        }),
        Err(f) => Err(f),
    }
}

/// What jsonwebtoken's `decode` (HS256, no clock checks) finds in `token`
/// under `secret`: a function of the two alone.
pub uninterp spec fn jwt_opened(token: Seq<char>, secret: Seq<u8>) -> Result<JwtBodyView, JwtFault>;

/// The compact HS256 token that jsonwebtoken's `encode` makes of these claims
/// under `secret`: a function of its arguments.
pub uninterp spec fn jwt_signed(sub: Seq<char>, purpose: u64, iat: u64, exp: u64, secret: Seq<u8>) -> Seq<char>;

/// Whether a decoding outcome holds exactly the given claims.
pub open spec fn opens_to(r: Result<JwtBody, JwtFault>, sub: Seq<char>, purpose: u64, iat: u64, exp: u64) -> bool {
    match r {
        Ok(b) => b.sub matches Some(s) && s@ == sub && b.purpose == Some(purpose) && b.iat == Some(iat)
            && b.exp == Some(exp),
        Err(_) => false,
    }
}

#[verifier::external_type_specification]
#[verifier::external_body]
pub struct ExJwtError(jsonwebtoken::errors::Error);

/// Relies on jsonwebtoken's `encode` with the default HS256 header and an HMAC
/// key made from `secret`; the claims are a JSON object of four members. The
/// key's family matches the header's algorithm, a map with string keys always
/// serializes, and HMAC signing cannot fail, so a token always comes back.
#[verifier::external_body]
fn jwt_encode(sub: &str, purpose: u64, iat: u64, exp: u64, secret: &[u8]) -> (r: Result<String, jsonwebtoken::errors::Error>)
    ensures
        r is Ok,
        r matches Ok(t) ==> t@ == jwt_signed(sub@, purpose, iat, exp, secret@),
{
    let mut c = BTreeMap::new();
    c.insert("sub", Value::from(sub));
    c.insert("purpose", Value::from(purpose));
    c.insert("iat", Value::from(iat));
    c.insert("exp", Value::from(exp));
    jsonwebtoken::encode(&Header::default(), &c, &EncodingKey::from_secret(secret))
}

/// Relies on jsonwebtoken's `decode` (HS256 only, expiry and not-before not
/// checked, so the clock is never read): it checks the signature under
/// `secret` and reads the payload. A token that `encode` made of four claims
/// under the same secret decodes to them.
#[verifier::external_body]
fn jwt_decode(token: &str, secret: &[u8]) -> (r: Result<JwtBody, JwtFault>)
    ensures
        body_view(r) == jwt_opened(token@, secret@),
        forall|sub: Seq<char>, p: u64, iat: u64, exp: u64|
            #[trigger] jwt_signed(sub, p, iat, exp, secret@) == token@ ==> opens_to(r, sub, p, iat, exp),
{
    let mut v = Validation::new(Algorithm::HS256);
    v.validate_exp = false;
    match jsonwebtoken::decode::<BTreeMap<String, Value>>(token, &DecodingKey::from_secret(secret), &v) {
        Ok(d) => Ok(JwtBody {
            sub: d.claims.get("sub").and_then(Value::as_str).map(String::from),
            purpose: d.claims.get("purpose").and_then(Value::as_u64),
            iat: d.claims.get("iat").and_then(Value::as_u64),
            exp: d.claims.get("exp").and_then(Value::as_u64),
        }),
        Err(e) => Err(match e.kind() {
            ErrorKind::InvalidSignature => JwtFault::Signature,
            _ => JwtFault::Format,
        }),
    }
}

/// The verdict on a token that carries the given claims, verified at `now`
/// where `expected` is required: expiry first, then purpose. A token is
/// valid up to and including its expiry second.
pub open spec fn claims_verdict(sub: Seq<char>, purpose: Purpose, iat: u64, exp: u64, expected: Purpose, now: u64) -> Result<ClaimsView, TokenError> {
    if now > exp {
        Err(TokenError::Expired)
    } else if purpose != expected {
        Err(TokenError::WrongPurpose)
    } else {
        Ok(ClaimsView { sub, purpose, iat, exp })
    }
}

/// The verdict on a decoding outcome.
pub open spec fn decoded_verdict(d: Result<JwtBodyView, JwtFault>, expected: Purpose, now: u64) -> Result<ClaimsView, TokenError> {
    match d {
        Err(JwtFault::Signature) => Err(TokenError::BadSignature),
        Err(JwtFault::Format) => Err(TokenError::Malformed),
        Ok(b) => {
            if b.sub.is_none() || b.purpose.is_none() || b.iat.is_none() || b.exp.is_none() {
                Err(TokenError::Malformed)
            } else {
                match purpose_of_code(b.purpose.unwrap()) {
                    None => Err(TokenError::Malformed),
                    Some(p) => claims_verdict(b.sub.unwrap(), p, b.iat.unwrap(), b.exp.unwrap(), expected, now),
                }
            }
        },
    }
}

/// The view of a verification outcome.
pub open spec fn result_view(r: Result<Claims, TokenError>) -> Result<ClaimsView, TokenError> {
    match r {
        Ok(c) => Ok(c@),
        Err(e) => Err(e),
    }
}

/// The verdict on any text presented as a token under `secret`.
pub open spec fn token_verdict(token: Seq<char>, secret: Seq<u8>, expected: Purpose, now: u64) -> Result<ClaimsView, TokenError> {
    decoded_verdict(jwt_opened(token, secret), expected, now)
}

/// Turns a decoding outcome into verified claims: the signature and format
/// faults keep their own reasons, a missing claim or an unknown purpose is
/// malformed, then expiry, then purpose are checked.
pub fn check_claims(decoded: Result<JwtBody, JwtFault>, expected: Purpose, now: u64) -> (r: Result<Claims, TokenError>)
    ensures
        result_view(r) == decoded_verdict(body_view(decoded), expected, now),
{
    match decoded {
        Err(JwtFault::Signature) => Err(TokenError::BadSignature),
        Err(JwtFault::Format) => Err(TokenError::Malformed),
        Ok(b) => {
            match (b.sub, b.purpose, b.iat, b.exp) {
                (Some(sub), Some(code), Some(iat), Some(exp)) => {
                    match Purpose::from_code(code) {
                        None => Err(TokenError::Malformed),
                        Some(p) => {
                            if now > exp {
                                Err(TokenError::Expired)
                            } else if p != expected {
                                Err(TokenError::WrongPurpose)
                            } else {
                                Ok(Claims { sub, purpose: p, iat, exp })
                            }
                        },
                    }
                },
                _ => Err(TokenError::Malformed),
            }
        },
    }
}

/// Signs and verifies bearer tokens with one process-wide symmetric secret.
pub struct TokenCodec {
    secret: Vec<u8>,
}

impl TokenCodec {
    /// The signing secret.
    pub closed spec fn secret(&self) -> Seq<u8> {
        self.secret@
    }

    /// A codec over `secret`; an empty secret is refused.
    pub fn new(secret: &[u8]) -> (r: Option<TokenCodec>)
        ensures
            r is None <==> secret@.len() == 0,
            r matches Some(c) ==> c.secret() == secret@,
    {
        if secret.len() == 0 {
            None
        } else {
            Some(TokenCodec { secret: slice_to_vec(secret) })
        }
    }

    /// Issues a token for `sub` with `purpose`, valid from `now` for `ttl`
    /// seconds.
    pub fn issue(&self, sub: &str, purpose: Purpose, now: u64, ttl: u64) -> (r: String)
        requires
            now + ttl <= u64::MAX,
        ensures
            r@ == jwt_signed(sub@, purpose_code(purpose), now, (now + ttl) as u64, self.secret()),
    {
        match jwt_encode(sub, purpose.code(), now, now + ttl, self.secret.as_slice()) {
            Ok(t) => t,
            Err(_) => {
                proof {
                    assert(false);
                }
                String::new()
            },
        }
    }

    /// Verifies `token` at time `now` for an operation that needs `expected`.
    /// A token this codec issued is judged on its claims alone.
    pub fn verify(&self, token: &str, expected: Purpose, now: u64) -> (r: Result<Claims, TokenError>)
        ensures
            result_view(r) == token_verdict(token@, self.secret(), expected, now),
            forall|sub: Seq<char>, p: Purpose, iat: u64, exp: u64|
                #[trigger] jwt_signed(sub, purpose_code(p), iat, exp, self.secret()) == token@
                ==> result_view(r) == claims_verdict(sub, p, iat, exp, expected, now),
    {
        let decoded = jwt_decode(token, self.secret.as_slice());
        let r = check_claims(decoded, expected, now);
        assert forall|sub: Seq<char>, p: Purpose, iat: u64, exp: u64|
            #[trigger] jwt_signed(sub, purpose_code(p), iat, exp, self.secret()) == token@
            implies result_view(r) == claims_verdict(sub, p, iat, exp, expected, now) by {
            assert(opens_to(decoded, sub, purpose_code(p), iat, exp));
            assert(purpose_of_code(purpose_code(p)) == Some(p));
        }
        r
    }
}

/// Issues an access token for `user_id`, valid from `now` for `ttl` seconds.
pub fn generate_jwt(codec: &TokenCodec, user_id: &str, now: u64, ttl: u64) -> (r: String)
    requires
        now + ttl <= u64::MAX,
    ensures
        r@ == jwt_signed(user_id@, purpose_code(Purpose::Access), now, (now + ttl) as u64, codec.secret()),
{
    codec.issue(user_id, Purpose::Access, now, ttl)
}

/// Verifies an access token at `now`.
pub fn validate_jwt(codec: &TokenCodec, token: &str, now: u64) -> (r: Result<Claims, TokenError>)
    ensures
        result_view(r) == token_verdict(token@, codec.secret(), Purpose::Access, now),
        forall|sub: Seq<char>, p: Purpose, iat: u64, exp: u64|
            #[trigger] jwt_signed(sub, purpose_code(p), iat, exp, codec.secret()) == token@
            ==> result_view(r) == claims_verdict(sub, p, iat, exp, Purpose::Access, now),
{
    codec.verify(token, Purpose::Access, now)
}

/// A copy of a byte slice.
fn slice_to_vec(s: &[u8]) -> (r: Vec<u8>)
    ensures
        r@ == s@,
{
    let mut v: Vec<u8> = Vec::new();
    let mut i: usize = 0;
    while i < s.len()
        invariant
            i <= s@.len(),
            v@ == s@.subrange(0, i as int),
        decreases s@.len() - i,
    {
        v.push(s[i]);
        i = i + 1;
    }
    v
}

/// A token issued for one purpose is refused by a verifier that expects
/// another, whatever its other claims and whenever it is presented.
pub proof fn lemma_purpose_mismatch_rejected(sub: Seq<char>, issued: Purpose, expected: Purpose, iat: u64, exp: u64, now: u64)
    requires
        issued != expected,
    ensures
        claims_verdict(sub, issued, iat, exp, expected, now) is Err,
{
}

/// A token presented after its expiry is refused as expired, whatever
/// purpose the verifier expects.
pub proof fn lemma_expired_rejected(sub: Seq<char>, issued: Purpose, expected: Purpose, iat: u64, exp: u64, now: u64)
    requires
        now > exp,
    ensures
        claims_verdict(sub, issued, iat, exp, expected, now) == Err::<ClaimsView, TokenError>(TokenError::Expired),
{
}

} // verus!
