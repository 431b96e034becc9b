use authcore::error::AuthError;
use authcore::models::{BirthDate, SignUpPayload};
use authcore::profile::UpdateProfilePayload;
use authcore::service::{validate_sign_up, AuthConfig, AuthService};
use authcore::token::{Purpose, TokenCodec};

const NOW: u64 = 1_700_000_000;

fn service() -> AuthService {
    AuthService::new(TokenCodec::new(b"flow-test-secret").unwrap(), AuthConfig::defaults())
}

fn payload(username: &str, password: &str) -> SignUpPayload {
    SignUpPayload::new(username.to_string(), password.to_string(), "1990-05-17".to_string())
}

fn bearer(token: &str) -> String {
    format!("Bearer {}", token)
}

/// Signs alice up and verifies her account.
fn with_alice(s: &mut AuthService) -> String {
    let receipt = s.sign_up(&payload("alice", "Secret123!"), NOW).unwrap();
    s.verify_account("alice", &receipt.verify_code, NOW + 1).unwrap();
    receipt.user_id
}

#[test]
fn second_sign_up_of_a_name_conflicts() {
    let mut s = service();
    assert!(s.sign_up(&payload("alice", "Secret123!"), NOW).is_ok());
    let second = s.sign_up(&payload("alice", "Another123!"), NOW);
    assert_eq!(second, Err(AuthError::Conflict));
    assert_eq!(second.unwrap_err().status_code(), 409);
}

#[test]
fn one_of_two_sign_ups_with_one_name_wins() {
    let mut s = service();
    let results = [s.sign_up(&payload("carol", "Secret123!"), NOW), s.sign_up(&payload("carol", "Secret456!"), NOW)];
    assert_eq!(results.iter().filter(|r| r.is_ok()).count(), 1);
    assert_eq!(results.iter().filter(|r| **r == Err(AuthError::Conflict)).count(), 1);
    assert!(s.sign_up(&payload("dave", "Secret123!"), NOW).is_ok());
}

#[test]
fn taken_email_conflicts() {
    let mut s = service();
    let mut a = payload("alice", "Secret123!");
    a.email = Some("a@example.com".to_string());
    let mut b = payload("bob", "Secret123!");
    b.email = Some("a@example.com".to_string());
    assert!(s.sign_up(&a, NOW).is_ok());
    assert_eq!(s.sign_up(&b, NOW), Err(AuthError::Conflict));
}

#[test]
fn malformed_sign_ups_are_validation_errors() {
    let mut s = service();
    for p in [
        payload("", "Secret123!"),
        payload("alice", "short"),
        SignUpPayload::new("alice".to_string(), "Secret123!".to_string(), "17/05/1990".to_string()),
    ] {
        let r = s.sign_up(&p, NOW);
        assert!(matches!(r, Err(AuthError::Validation(_))));
        assert_eq!(r.unwrap_err().status_code(), 400);
    }
    assert!(s.sign_up(&payload("alice", "Secret123!"), NOW).is_ok());
}

#[test]
fn sign_up_shape_check() {
    let d = BirthDate { year: 1990, month: 5, day: 17 };
    assert_eq!(validate_sign_up(&payload("alice", "Secret123!"), Some(d)), Ok(d));
    assert!(matches!(validate_sign_up(&payload("alice", "Secret123!"), None), Err(AuthError::Validation(_))));
    assert!(matches!(validate_sign_up(&payload("alice", "1234567"), Some(d)), Err(AuthError::Validation(_))));
    assert_eq!(validate_sign_up(&payload("alice", "12345678"), Some(d)), Ok(d));
    assert!(matches!(validate_sign_up(&payload("", "Secret123!"), Some(d)), Err(AuthError::Validation(_))));
}

#[test]
fn sign_in_and_read_profile() {
    let mut s = service();
    let mut p = payload("alice", "Secret123!");
    p.first_name = Some("Alice".to_string());
    p.email = Some("alice@example.com".to_string());
    let receipt = s.sign_up(&p, NOW).unwrap();
    s.verify_account("alice", &receipt.verify_code, NOW).unwrap();
    let token = s.sign_in("alice", "Secret123!", NOW).unwrap();
    let profile = s.user_profile(Some(&bearer(&token)), NOW + 10).unwrap();
    assert_eq!(profile.id, receipt.user_id);
    assert_eq!(profile.username, "alice");
    assert_eq!(profile.email, Some("alice@example.com".to_string()));
    assert_eq!(profile.details.first_name, Some("Alice".to_string()));
    assert_eq!(profile.details.date_of_birth, BirthDate { year: 1990, month: 5, day: 17 });
    let missing = s.user_profile(None, NOW + 10);
    assert_eq!(missing, Err(AuthError::Unauthorized));
    assert_eq!(missing.unwrap_err().status_code(), 401);
}

#[test]
fn unverified_account_cannot_sign_in() {
    let mut s = service();
    s.sign_up(&payload("alice", "Secret123!"), NOW).unwrap();
    assert_eq!(s.sign_in("alice", "Secret123!", NOW), Err(AuthError::Unauthorized));
}

#[test]
fn passcode_is_single_use() {
    let mut s = service();
    with_alice(&mut s);
    let code = s.request_otp("alice", NOW).unwrap();
    let token = s.verify_otp("alice", &code, NOW + 5).unwrap();
    assert!(s.authorize(Some(&bearer(&token)), NOW + 6).is_ok());
    let again = s.verify_otp("alice", &code, NOW + 6);
    assert_eq!(again, Err(AuthError::Unauthorized));
    assert_eq!(again.unwrap_err().status_code(), 401);
}

#[test]
fn passcode_expires() {
    let mut s = service();
    with_alice(&mut s);
    let code = s.request_otp("alice", NOW).unwrap();
    assert_eq!(s.verify_otp("alice", &code, NOW + 301), Err(AuthError::Unauthorized));
    let again = s.request_otp("alice", NOW).unwrap();
    assert!(s.verify_otp("alice", &again, NOW + 300).is_ok());
}

#[test]
fn passcode_request_for_unknown_identifier_issues_nothing() {
    let mut s = service();
    with_alice(&mut s);
    assert_eq!(s.request_otp("nobody", NOW), None);
    assert_eq!(s.forgot_password("nobody", NOW), None);
    assert_eq!(s.verify_otp("nobody", "whatever", NOW), Err(AuthError::Unauthorized));
}

#[test]
fn passcode_by_email_identifier() {
    let mut s = service();
    let mut p = payload("erin", "Secret123!");
    p.email = Some("erin@example.com".to_string());
    s.sign_up(&p, NOW).unwrap();
    let code = s.request_otp("erin@example.com", NOW).unwrap();
    assert!(s.verify_otp("erin", &code, NOW + 1).is_ok());
}

#[test]
fn wrong_password_looks_like_unknown_user() {
    let mut s = service();
    with_alice(&mut s);
    let wrong = s.sign_in("alice", "WrongPassword", NOW);
    let unknown = s.sign_in("bob", "WrongPassword", NOW);
    assert_eq!(wrong, Err(AuthError::Unauthorized));
    assert_eq!(wrong, unknown);
}

#[test]
fn sign_out_revokes_the_token() {
    let mut s = service();
    with_alice(&mut s);
    let token = s.sign_in("alice", "Secret123!", NOW).unwrap();
    let header = bearer(&token);
    assert!(s.user_profile(Some(&header), NOW + 1).is_ok());
    assert_eq!(s.sign_out(Some(&header), NOW + 2), Ok(()));
    assert_eq!(s.user_profile(Some(&header), NOW + 3), Err(AuthError::Unauthorized));
    assert_eq!(s.sign_out(Some(&header), NOW + 4), Err(AuthError::Unauthorized));
}

#[test]
fn sign_out_without_token_is_unauthorized() {
    let mut s = service();
    assert_eq!(s.sign_out(None, NOW), Err(AuthError::Unauthorized));
    assert_eq!(s.sign_out(Some("Bearer nonsense"), NOW), Err(AuthError::Unauthorized));
}

#[test]
fn access_token_expires() {
    let mut s = service();
    with_alice(&mut s);
    let token = s.sign_in("alice", "Secret123!", NOW).unwrap();
    assert!(s.authorize(Some(&bearer(&token)), NOW + 3600).is_ok());
    assert_eq!(s.authorize(Some(&bearer(&token)), NOW + 3601), Err(AuthError::Unauthorized));
}

#[test]
fn reset_token_is_no_access_token() {
    let mut s = service();
    let id = with_alice(&mut s);
    let reset = s.codec.issue(&id, Purpose::PasswordReset, NOW, 600);
    assert_eq!(s.authorize(Some(&bearer(&reset)), NOW + 1), Err(AuthError::Unauthorized));
}

#[test]
fn password_reset_flow() {
    let mut s = service();
    with_alice(&mut s);
    let code = s.forgot_password("alice", NOW).unwrap();
    assert!(matches!(s.reset_password("alice", &code, "short", NOW + 1), Err(AuthError::Validation(_))));
    assert_eq!(s.reset_password("alice", "not-the-code", "NewSecret456!", NOW + 1), Err(AuthError::Unauthorized));
    assert_eq!(s.reset_password("alice", &code, "NewSecret456!", NOW + 1), Ok(()));
    assert_eq!(s.reset_password("alice", &code, "Other789!!", NOW + 2), Err(AuthError::Unauthorized));
    assert_eq!(s.sign_in("alice", "Secret123!", NOW + 3), Err(AuthError::Unauthorized));
    assert!(s.sign_in("alice", "NewSecret456!", NOW + 3).is_ok());
}

#[test]
fn account_verification_needs_the_right_code() {
    let mut s = service();
    let receipt = s.sign_up(&payload("alice", "Secret123!"), NOW).unwrap();
    assert_eq!(s.verify_account("alice", "wrong", NOW), Err(AuthError::Unauthorized));
    assert_eq!(s.verify_account("bob", &receipt.verify_code, NOW), Err(AuthError::Unauthorized));
    assert_eq!(s.verify_account("alice", &receipt.verify_code, NOW), Ok(()));
    assert_eq!(s.verify_account("alice", &receipt.verify_code, NOW), Err(AuthError::Unauthorized));
    assert!(s.sign_in("alice", "Secret123!", NOW).is_ok());
}

#[test]
fn default_lifetimes() {
    let c = AuthConfig::defaults();
    assert_eq!((c.access_ttl, c.otp_ttl, c.code_ttl), (3600, 300, 86400));
}

#[test]
fn profile_update_sets_present_fields_only() {
    let mut s = service();
    let id = with_alice(&mut s);
    let token = s.sign_in("alice", "Secret123!", NOW).unwrap();
    let header = bearer(&token);
    let mut u = UpdateProfilePayload::default();
    u.first_name = Some("Alicia".to_string());
    u.date_of_birth = Some("1991-01-02".to_string());
    assert_eq!(s.update_profile(Some(&header), &u, NOW + 1), Ok(()));
    let p = s.user_profile(Some(&header), NOW + 2).unwrap();
    assert_eq!(p.id, id);
    assert_eq!(p.username, "alice");
    assert_eq!(p.details.first_name, Some("Alicia".to_string()));
    assert_eq!(p.details.last_name, None);
    assert_eq!(p.details.date_of_birth, BirthDate { year: 1991, month: 1, day: 2 });
}

#[test]
fn profile_update_refuses_taken_username_and_bad_date() {
    let mut s = service();
    with_alice(&mut s);
    s.sign_up(&payload("bob", "Secret123!"), NOW).unwrap();
    let token = s.sign_in("alice", "Secret123!", NOW).unwrap();
    let header = bearer(&token);
    let mut u = UpdateProfilePayload::default();
    u.username = Some("bob".to_string());
    assert_eq!(s.update_profile(Some(&header), &u, NOW + 1), Err(AuthError::Conflict));
    let mut d = UpdateProfilePayload::default();
    d.date_of_birth = Some("1991-02-31".to_string());
    assert!(matches!(s.update_profile(Some(&header), &d, NOW + 1), Err(AuthError::Validation(_))));
    let mut e = UpdateProfilePayload::default();
    e.username = Some(String::new());
    assert!(matches!(s.update_profile(Some(&header), &e, NOW + 1), Err(AuthError::Validation(_))));
    assert_eq!(s.update_profile(None, &UpdateProfilePayload::default(), NOW + 1), Err(AuthError::Unauthorized));
    let mut own = UpdateProfilePayload::default();
    own.username = Some("alice".to_string());
    assert_eq!(s.update_profile(Some(&header), &own, NOW + 1), Ok(()));
    assert_eq!(s.user_profile(Some(&header), NOW + 2).unwrap().username, "alice");
}

#[test]
fn renamed_account_signs_in_under_new_name() {
    let mut s = service();
    with_alice(&mut s);
    let token = s.sign_in("alice", "Secret123!", NOW).unwrap();
    let mut u = UpdateProfilePayload::default();
    u.username = Some("alice2".to_string());
    assert_eq!(s.update_profile(Some(&bearer(&token)), &u, NOW + 1), Ok(()));
    assert_eq!(s.sign_in("alice", "Secret123!", NOW + 2), Err(AuthError::Unauthorized));
    assert!(s.sign_in("alice2", "Secret123!", NOW + 2).is_ok());
}

#[test]
fn error_responses_do_not_tell_causes_apart() {
    let mut s = service();
    with_alice(&mut s);
    let wrong = s.sign_in("alice", "WrongPassword", NOW).unwrap_err().error_response();
    let unknown = s.sign_in("bob", "WrongPassword", NOW).unwrap_err().error_response();
    assert_eq!(wrong, unknown);
    assert_eq!(wrong.status_code, 401);
    assert_eq!(wrong.body.status, "error");
    assert_eq!(wrong.body.message, "invalid credentials");
    assert_eq!(wrong.body.data, None);
}

#[test]
fn role_slugs_are_listed_once() {
    let mut s = service();
    assert!(s.users.role_slugs().is_empty());
    s.sign_up(&payload("alice", "Secret123!"), NOW).unwrap();
    s.sign_up(&payload("bob", "Secret123!"), NOW).unwrap();
    assert_eq!(s.users.role_slugs(), vec!["user".to_string()]);
    assert_eq!(s.users.len(), 2);
}

#[test]
fn current_time_reads_the_clock() {
    let s = service();
    let t = s.current_time().unwrap();
    assert!(t > 1_600_000_000);
    let mut far = AuthConfig::defaults();
    far.code_ttl = u64::MAX;
    let tight = AuthService::new(TokenCodec::new(b"k").unwrap(), far);
    assert_eq!(tight.current_time(), Err(AuthError::Internal));
}

#[test]
fn profile_of_missing_account_is_not_found() {
    let mut s = service();
    with_alice(&mut s);
    let ghost = s.codec.issue("no-such-id", Purpose::Access, NOW, 60);
    assert_eq!(s.user_profile(Some(&bearer(&ghost)), NOW + 1), Err(AuthError::NotFound));
    assert_eq!(s.update_profile(Some(&bearer(&ghost)), &UpdateProfilePayload::default(), NOW + 1), Err(AuthError::NotFound));
}

#[test]
fn profile_update_leaves_other_accounts_alone() {
    let mut s = service();
    with_alice(&mut s);
    let rb = s.sign_up(&payload("bob", "Secret123!"), NOW).unwrap();
    s.verify_account("bob", &rb.verify_code, NOW).unwrap();
    let ta = s.sign_in("alice", "Secret123!", NOW).unwrap();
    let tb = s.sign_in("bob", "Secret123!", NOW).unwrap();
    let mut u = UpdateProfilePayload::default();
    u.city = Some("Lisbon".to_string());
    assert_eq!(s.update_profile(Some(&bearer(&ta)), &u, NOW + 1), Ok(()));
    assert_eq!(s.user_profile(Some(&bearer(&ta)), NOW + 2).unwrap().details.city, Some("Lisbon".to_string()));
    assert_eq!(s.user_profile(Some(&bearer(&tb)), NOW + 2).unwrap().details.city, None);
}

#[test]
fn bearer_with_extra_spaces_is_accepted() {
    let mut s = service();
    with_alice(&mut s);
    let token = s.sign_in("alice", "Secret123!", NOW).unwrap();
    let header = format!("Bearer   {}  ", token);
    assert_eq!(s.user_profile(Some(&header), NOW + 1).unwrap().username, "alice");
}

#[test]
fn purpose_token_is_redeemed_once() {
    let mut s = service();
    let id = with_alice(&mut s);
    let t = s.issue_purpose_token(&id, Purpose::PasswordReset, NOW);
    assert_eq!(s.redeem_purpose_token(&t, Purpose::EmailVerify, NOW + 1), Err(AuthError::Unauthorized));
    assert_eq!(s.redeem_purpose_token(&t, Purpose::PasswordReset, NOW + 1), Ok(id.clone()));
    assert_eq!(s.redeem_purpose_token(&t, Purpose::PasswordReset, NOW + 2), Err(AuthError::Unauthorized));
    assert_eq!(s.authorize(Some(&bearer(&t)), NOW + 2), Err(AuthError::Unauthorized));
}

#[test]
fn reissued_purpose_token_replaces_the_earlier_one() {
    let mut s = service();
    let id = with_alice(&mut s);
    let first = s.issue_purpose_token(&id, Purpose::OtpChallenge, NOW);
    let second = s.issue_purpose_token(&id, Purpose::OtpChallenge, NOW + 1);
    assert_ne!(first, second);
    assert_eq!(s.redeem_purpose_token(&first, Purpose::OtpChallenge, NOW + 2), Err(AuthError::Unauthorized));
    assert_eq!(s.redeem_purpose_token(&second, Purpose::OtpChallenge, NOW + 2), Ok(id));
}

#[test]
fn purpose_token_expires() {
    let mut s = service();
    let id = with_alice(&mut s);
    let t = s.issue_purpose_token(&id, Purpose::OtpChallenge, NOW);
    assert_eq!(s.redeem_purpose_token(&t, Purpose::OtpChallenge, NOW + 301), Err(AuthError::Unauthorized));
    let u = s.issue_purpose_token(&id, Purpose::OtpChallenge, NOW);
    assert!(s.redeem_purpose_token(&u, Purpose::OtpChallenge, NOW + 300).is_ok());
}

#[test]
fn forged_token_is_not_redeemed() {
    let mut s = service();
    let id = with_alice(&mut s);
    let forged = TokenCodec::new(b"other-secret").unwrap().issue(&id, Purpose::PasswordReset, NOW, 600);
    assert_eq!(s.redeem_purpose_token(&forged, Purpose::PasswordReset, NOW + 1), Err(AuthError::Unauthorized));
}

#[test]
fn empty_profile_update_changes_nothing() {
    let mut s = service();
    with_alice(&mut s);
    let token = s.sign_in("alice", "Secret123!", NOW).unwrap();
    let header = bearer(&token);
    let before = s.user_profile(Some(&header), NOW).unwrap();
    let stamp = s.users.get(0).updated_at;
    assert_eq!(s.update_profile(Some(&header), &UpdateProfilePayload::default(), NOW + 50), Ok(()));
    assert_eq!(s.user_profile(Some(&header), NOW + 51).unwrap(), before);
    assert_eq!(s.users.get(0).updated_at, stamp);
}

#[test]
fn forged_access_token_is_refused_everywhere() {
    let mut s = service();
    let id = with_alice(&mut s);
    let forged = TokenCodec::new(b"other-secret").unwrap().issue(&id, Purpose::Access, NOW, 600);
    let header = bearer(&forged);
    assert_eq!(s.authorize(Some(&header), NOW + 1), Err(AuthError::Unauthorized));
    assert_eq!(s.user_profile(Some(&header), NOW + 1), Err(AuthError::Unauthorized));
    let mut u = UpdateProfilePayload::default();
    u.city = Some("Nowhere".to_string());
    assert_eq!(s.update_profile(Some(&header), &u, NOW + 1), Err(AuthError::Unauthorized));
    assert_eq!(s.sign_out(Some(&header), NOW + 1), Err(AuthError::Unauthorized));
    assert_eq!(s.user_profile(Some("Bearer abc"), NOW + 1), Err(AuthError::Unauthorized));
}

#[test]
fn passcodes_are_short() {
    let mut s = service();
    with_alice(&mut s);
    assert_eq!(s.request_otp("alice", NOW).unwrap().len(), 8);
    assert_eq!(s.forgot_password("alice", NOW).unwrap().len(), 36);
}
