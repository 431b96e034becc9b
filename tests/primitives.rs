use authcore::codes::OneTimeCodeStore;
use authcore::error::{error_response, success_response, AuthError};
use authcore::profile::{ProfileField, UpdateProfilePayload};
use authcore::ids::{ct_eq, generate_uuid};
use authcore::middleware::{extract_bearer, Denylist};
use authcore::models::BirthDate;
use authcore::password::{hash_password, verify_password};
use authcore::token::{check_claims, generate_jwt, validate_jwt, JwtBody, JwtFault, Purpose, TokenCodec, TokenError};

fn codec() -> TokenCodec {
    TokenCodec::new(b"unit-test-secret").unwrap()
}

#[test]
fn hashed_password_verifies() {
    let h = hash_password("Secret123!").unwrap();
    assert!(h.starts_with("$argon2id$v=19$"));
    assert!(!h.contains("Secret123!"));
    assert_ne!(h, "Secret123!");
    assert!(verify_password("Secret123!", &h));
}

#[test]
fn other_password_does_not_verify() {
    let h = hash_password("Secret123!").unwrap();
    assert!(!verify_password("Secret123?", &h));
    assert!(!verify_password("", &h));
}

#[test]
fn malformed_stored_hash_never_verifies() {
    assert!(!verify_password("Secret123!", "Secret123!"));
    assert!(!verify_password("Secret123!", ""));
}

#[test]
fn two_hashes_of_one_password_differ_by_salt() {
    let a = hash_password("Secret123!").unwrap();
    let b = hash_password("Secret123!").unwrap();
    assert_ne!(a, b);
    assert!(verify_password("Secret123!", &a));
    assert!(verify_password("Secret123!", &b));
}

#[test]
fn empty_secret_is_refused() {
    assert!(TokenCodec::new(b"").is_none());
    assert!(TokenCodec::new(b"k").is_some());
}

#[test]
fn issued_token_verifies_with_its_claims() {
    let c = codec();
    let t = c.issue("user-1", Purpose::Access, 1_000, 3_600);
    assert_eq!(t.split('.').count(), 3);
    let claims = c.verify(&t, Purpose::Access, 1_000).unwrap();
    assert_eq!(claims.sub, "user-1");
    assert_eq!(claims.purpose, Purpose::Access);
    assert_eq!(claims.iat, 1_000);
    assert_eq!(claims.exp, 4_600);
    assert!(c.verify(&t, Purpose::Access, 4_600).is_ok());
    assert_eq!(c.verify(&t, Purpose::Access, 4_601), Err(TokenError::Expired));
}

#[test]
fn token_for_another_purpose_is_refused() {
    let c = codec();
    let t = c.issue("user-1", Purpose::PasswordReset, 1_000, 3_600);
    assert_eq!(c.verify(&t, Purpose::Access, 1_500), Err(TokenError::WrongPurpose));
    let a = c.issue("user-1", Purpose::Access, 1_000, 3_600);
    assert_eq!(c.verify(&a, Purpose::EmailVerify, 1_500), Err(TokenError::WrongPurpose));
    assert_eq!(c.verify(&a, Purpose::OtpChallenge, 1_500), Err(TokenError::WrongPurpose));
}

#[test]
fn token_after_its_ttl_is_expired() {
    let c = codec();
    let t = c.issue("user-1", Purpose::Access, 1_000, 60);
    assert!(c.verify(&t, Purpose::Access, 1_060).is_ok());
    assert_eq!(c.verify(&t, Purpose::Access, 1_061), Err(TokenError::Expired));
    assert_eq!(c.verify(&t, Purpose::Access, 9_999), Err(TokenError::Expired));
    assert_eq!(c.verify(&t, Purpose::PasswordReset, 9_999), Err(TokenError::Expired));
}

#[test]
fn token_under_another_secret_has_a_bad_signature() {
    let t = codec().issue("user-1", Purpose::Access, 1_000, 60);
    let other = TokenCodec::new(b"another-secret").unwrap();
    assert_eq!(other.verify(&t, Purpose::Access, 1_000), Err(TokenError::BadSignature));
}

#[test]
fn garbage_token_is_malformed() {
    let c = codec();
    assert_eq!(c.verify("not-a-token", Purpose::Access, 0), Err(TokenError::Malformed));
    assert_eq!(c.verify("", Purpose::Access, 0), Err(TokenError::Malformed));
}

fn body(sub: Option<&str>, purpose: Option<u64>, iat: Option<u64>, exp: Option<u64>) -> JwtBody {
    JwtBody { sub: sub.map(String::from), purpose, iat, exp }
}

#[test]
fn check_claims_maps_each_outcome() {
    let ok = check_claims(Ok(body(Some("u"), Some(0), Some(5), Some(10))), Purpose::Access, 9).unwrap();
    assert_eq!((ok.sub.as_str(), ok.purpose, ok.iat, ok.exp), ("u", Purpose::Access, 5, 10));
    assert!(check_claims(Ok(body(Some("u"), Some(0), Some(5), Some(10))), Purpose::Access, 10).is_ok());
    assert_eq!(check_claims(Ok(body(Some("u"), Some(0), Some(5), Some(10))), Purpose::Access, 11), Err(TokenError::Expired));
    assert_eq!(check_claims(Ok(body(Some("u"), Some(3), Some(5), Some(10))), Purpose::Access, 9), Err(TokenError::WrongPurpose));
    let otp = check_claims(Ok(body(Some("u"), Some(3), Some(5), Some(10))), Purpose::OtpChallenge, 9).unwrap();
    assert_eq!(otp.purpose, Purpose::OtpChallenge);
    assert_eq!(check_claims(Ok(body(Some("u"), Some(4), Some(5), Some(10))), Purpose::Access, 9), Err(TokenError::Malformed));
    assert_eq!(check_claims(Ok(body(None, Some(0), Some(5), Some(10))), Purpose::Access, 9), Err(TokenError::Malformed));
    assert_eq!(check_claims(Ok(body(Some("u"), Some(0), Some(5), None)), Purpose::Access, 9), Err(TokenError::Malformed));
    assert_eq!(check_claims(Err(JwtFault::Signature), Purpose::Access, 9), Err(TokenError::BadSignature));
    assert_eq!(check_claims(Err(JwtFault::Format), Purpose::Access, 9), Err(TokenError::Malformed));
}

#[test]
fn purpose_codes_round_trip() {
    for p in [Purpose::Access, Purpose::PasswordReset, Purpose::EmailVerify, Purpose::OtpChallenge] {
        assert_eq!(Purpose::from_code(p.code()), Some(p));
    }
    assert_eq!(Purpose::EmailVerify.code(), 2);
    assert_eq!(Purpose::from_code(7), None);
}

#[test]
fn code_is_consumed_exactly_once() {
    let mut s = OneTimeCodeStore::new();
    let code = s.issue("u1", Purpose::OtpChallenge, 100, 300);
    assert_eq!(code.len(), 8);
    assert!(code.chars().all(|c| c.is_ascii_hexdigit() && !c.is_ascii_uppercase()));
    assert!(s.accepts("u1", Purpose::OtpChallenge, &code, 150));
    assert!(s.consume("u1", Purpose::OtpChallenge, &code, 150));
    assert!(!s.consume("u1", Purpose::OtpChallenge, &code, 151));
    assert!(!s.accepts("u1", Purpose::OtpChallenge, &code, 151));
}

#[test]
fn reissued_code_invalidates_the_earlier_one() {
    let mut s = OneTimeCodeStore::new();
    let first = s.issue("u1", Purpose::PasswordReset, 100, 300);
    let second = s.issue("u1", Purpose::PasswordReset, 110, 300);
    assert_ne!(first, second);
    assert!(!s.consume("u1", Purpose::PasswordReset, &first, 120));
    assert!(s.consume("u1", Purpose::PasswordReset, &second, 120));
}

#[test]
fn code_fails_when_expired_wrong_or_misdirected() {
    let mut s = OneTimeCodeStore::new();
    s.issue_code("u1", Purpose::OtpChallenge, "123456".to_string(), 400);
    assert!(!s.consume("u1", Purpose::OtpChallenge, "123456", 401));
    assert!(!s.consume("u1", Purpose::OtpChallenge, "654321", 399));
    assert!(!s.consume("u2", Purpose::OtpChallenge, "123456", 399));
    assert!(!s.consume("u1", Purpose::EmailVerify, "123456", 399));
    assert!(s.consume("u1", Purpose::OtpChallenge, "123456", 400));
}

#[test]
fn codes_of_different_purposes_coexist() {
    let mut s = OneTimeCodeStore::new();
    s.issue_code("u1", Purpose::OtpChallenge, "a".to_string(), 100);
    s.issue_code("u1", Purpose::EmailVerify, "b".to_string(), 100);
    s.issue_code("u2", Purpose::OtpChallenge, "c".to_string(), 100);
    assert!(s.consume("u1", Purpose::EmailVerify, "b", 0));
    assert!(s.consume("u2", Purpose::OtpChallenge, "c", 0));
    assert!(s.consume("u1", Purpose::OtpChallenge, "a", 0));
}

#[test]
fn bearer_header_is_parsed() {
    assert_eq!(extract_bearer(Some("Bearer abc.def.ghi")), Ok("abc.def.ghi".to_string()));
    assert_eq!(extract_bearer(None), Err(AuthError::Unauthorized));
    assert_eq!(extract_bearer(Some("Bearer ")), Err(AuthError::Unauthorized));
    assert_eq!(extract_bearer(Some("Bearer  abc ")), Ok("abc".to_string()));
    assert_eq!(extract_bearer(Some("Bearer \tabc\t")), Ok("abc".to_string()));
    assert_eq!(extract_bearer(Some("Bearer    ")), Err(AuthError::Unauthorized));
    assert_eq!(extract_bearer(Some("Bearer a b")), Ok("a b".to_string()));
    assert_eq!(extract_bearer(Some("Basic abc")), Err(AuthError::Unauthorized));
    assert_eq!(extract_bearer(Some("bearer abc")), Err(AuthError::Unauthorized));
    assert_eq!(extract_bearer(Some("")), Err(AuthError::Unauthorized));
}

#[test]
fn denylist_holds_what_was_revoked() {
    let mut d = Denylist::new();
    assert!(!d.contains("t1"));
    d.revoke("t1", 100);
    assert!(d.contains("t1"));
    assert!(!d.contains("t2"));
}

#[test]
fn denylist_forgets_expired_entries() {
    let mut d = Denylist::new();
    d.revoke("t1", 100);
    d.revoke("t2", 200);
    d.prune(99);
    assert!(d.contains("t1") && d.contains("t2"));
    d.prune(100);
    assert!(d.contains("t1"));
    d.prune(101);
    assert!(!d.contains("t1"));
    assert!(d.contains("t2"));
    d.prune(500);
    assert!(!d.contains("t2"));
}

#[test]
fn constant_time_equality() {
    assert!(ct_eq("abc", "abc"));
    assert!(ct_eq("", ""));
    assert!(!ct_eq("abc", "abd"));
    assert!(!ct_eq("abc", "ab"));
    assert!(ct_eq("é", "é"));
    assert!(!ct_eq("é", "e"));
}

#[test]
fn uuids_are_fresh_and_hyphenated() {
    let a = generate_uuid();
    let b = generate_uuid();
    assert_eq!(a.len(), 36);
    assert_eq!(a.matches('-').count(), 4);
    for (k, ch) in a.chars().enumerate() {
        if [8, 13, 18, 23].contains(&k) {
            assert_eq!(ch, '-');
        } else {
            assert!(ch.is_ascii_hexdigit() && !ch.is_ascii_uppercase());
        }
    }
    assert_eq!(a.chars().nth(14), Some('4'));
    assert!("89ab".contains(a.chars().nth(19).unwrap()));
    assert_ne!(a, b);
}

#[test]
fn birth_dates_parse_strictly() {
    assert_eq!(BirthDate::parse("1990-02-28"), Some(BirthDate { year: 1990, month: 2, day: 28 }));
    assert_eq!(BirthDate::parse("2000-02-29"), Some(BirthDate { year: 2000, month: 2, day: 29 }));
    assert_eq!(BirthDate::parse("1990-02-30"), None);
    assert_eq!(BirthDate::parse("1990-13-01"), None);
    assert_eq!(BirthDate::parse("28/02/1990"), None);
    assert_eq!(BirthDate::parse(""), None);
}

#[test]
fn error_kinds_map_to_status_codes() {
    assert_eq!(AuthError::Validation("x".to_string()).status_code(), 400);
    assert_eq!(AuthError::Conflict.status_code(), 409);
    assert_eq!(AuthError::Unauthorized.status_code(), 401);
    assert_eq!(AuthError::NotFound.status_code(), 404);
    assert_eq!(AuthError::Internal.status_code(), 500);
}

#[test]
fn update_pairs_follow_column_order() {
    let mut u = UpdateProfilePayload::default();
    assert!(u.to_pairs().is_empty());
    u.city = Some("Oslo".to_string());
    u.username = Some("al".to_string());
    u.configuration = Some("{\"theme\":\"dark\"}".to_string());
    let pairs = u.to_pairs();
    assert_eq!(pairs.len(), 3);
    assert_eq!(pairs[0], (ProfileField::Username, "al".to_string()));
    assert_eq!(pairs[1], (ProfileField::City, "Oslo".to_string()));
    assert_eq!(pairs[2].0, ProfileField::Configuration);
    assert_eq!(pairs[1].0.column(), "city");
    assert_eq!(ProfileField::AddressLine1.column(), "address_line_1");
}

#[test]
fn envelopes_have_the_uniform_shape() {
    let ok = success_response(Some("{\"a\":1}".to_string()), "done", 200);
    assert_eq!(ok.status_code, 200);
    assert_eq!(ok.body.status, "success");
    assert_eq!(ok.body.message, "done");
    assert_eq!(ok.body.data, Some("{\"a\":1}".to_string()));
    let err = error_response("nope", 500);
    assert_eq!((err.status_code, err.body.status.as_str(), err.body.message.as_str()), (500, "error", "nope"));
    assert_eq!(err.body.data, None);
    let conflict = AuthError::Conflict.error_response();
    assert_eq!(conflict.status_code, 409);
    assert_eq!(conflict.body.message, "username or email already taken");
    let v = AuthError::Validation("password is too weak".to_string()).error_response();
    assert_eq!((v.status_code, v.body.message.as_str()), (400, "password is too weak"));
}

#[test]
fn access_token_helpers_round_trip() {
    let c = codec();
    let t = generate_jwt(&c, "user-9", 50, 10);
    let claims = validate_jwt(&c, &t, 59).unwrap();
    assert_eq!((claims.sub.as_str(), claims.purpose, claims.exp), ("user-9", Purpose::Access, 60));
    assert!(validate_jwt(&c, &t, 60).is_ok());
    assert_eq!(validate_jwt(&c, &t, 61), Err(TokenError::Expired));
    let reset = c.issue("user-9", Purpose::PasswordReset, 50, 10);
    assert_eq!(validate_jwt(&c, &reset, 55), Err(TokenError::WrongPurpose));
}

#[test]
fn reset_codes_are_whole_uuids() {
    let mut s = OneTimeCodeStore::new();
    let code = s.issue("u1", Purpose::PasswordReset, 100, 300);
    assert_eq!(code.len(), 36);
    assert_eq!(code.chars().nth(14), Some('4'));
}

#[test]
fn tampered_token_has_a_bad_signature() {
    let c = codec();
    let t = c.issue("user-1", Purpose::Access, 1_000, 60);
    let mut parts: Vec<String> = t.split('.').map(String::from).collect();
    let sig = parts[2].clone();
    let flipped = if sig.starts_with('A') { format!("B{}", &sig[1..]) } else { format!("A{}", &sig[1..]) };
    parts[2] = flipped;
    let bad = parts.join(".");
    assert_eq!(c.verify(&bad, Purpose::Access, 1_000), Err(TokenError::BadSignature));
    assert_eq!(c.verify(&bad, Purpose::Access, 1_000), c.verify(&bad, Purpose::Access, 1_000));
}
