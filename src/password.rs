use argon2::PasswordHasher as _;
use argon2::PasswordVerifier as _;
use vstd::prelude::*;
use vstd::string::StringSliceAdditionalSpecFns;
use crate::error::AuthError;

verus! {

/// Whether `password` verifies against the PHC-format hash string `hash`:
/// the result of argon2's `verify_password`, a function of its arguments.
pub uninterp spec fn password_matches(password: Seq<char>, hash: Seq<char>) -> bool;

/// Whether `h` is a PHC string of Argon2id, version 19: it opens with
/// `$argon2id$v=19$`, followed by the parameters, the salt and the output.
pub open spec fn phc_argon2id_v19(h: Seq<char>) -> bool {
    h.len() > 15 && h.subrange(0, 15) == seq!['$', 'a', 'r', 'g', 'o', 'n', '2', 'i', 'd', '$', 'v', '=', '1', '9', '$']
}

#[verifier::external_type_specification]
#[verifier::external_body]
pub struct ExPasswordHashError(argon2::password_hash::Error);

/// Relies on argon2's `PasswordHasher::hash_password` (Argon2id, v19, default
/// parameters) with a fresh salt from the operating system's generator, which
/// panics only if the system has no randomness to give. The salt and
/// parameters are embedded in the PHC string, so the same password verifies
/// against it. The salt and output lengths are valid, so hashing fails only
/// on a password longer than `argon2::MAX_PWD_LEN` bytes; the PHC string
/// opens with the algorithm and version.
#[verifier::external_body]
fn argon2_hash(password: &str) -> (r: Result<String, argon2::password_hash::Error>)
    ensures
        r matches Ok(h) ==> password_matches(password@, h@),
        r matches Ok(h) ==> phc_argon2id_v19(h@),
        password.spec_bytes().len() <= 0xFFFF_FFFF ==> r is Ok,
{
    let salt = argon2::password_hash::SaltString::generate(&mut argon2::password_hash::rand_core::OsRng);
    argon2::Argon2::default().hash_password(password.as_bytes(), &salt).map(|h| h.to_string())
}

/// Relies on argon2's `PasswordHash::new` and `PasswordVerifier::verify_password`:
/// parses the stored PHC string and recomputes the hash with its salt and
/// parameters; the computed output is compared in constant time. The cost
/// parameters come from the stored string, which this library only ever
/// writes from `argon2_hash`.
#[verifier::external_body]
fn argon2_verify(password: &str, hash: &str) -> (r: bool)
    ensures
        r == password_matches(password@, hash@),
{
    argon2::PasswordHash::new(hash)
        .and_then(|h| argon2::Argon2::default().verify_password(password.as_bytes(), &h))
        .is_ok()
}

/// Hashes `password` with a fresh salt. A hash that comes back always
/// verifies against the password it was made from; a hashing failure is an
/// internal error, and comes only for a password over 4 GiB.
pub fn hash_password(password: &str) -> (r: Result<String, AuthError>)
    ensures
        r matches Ok(h) ==> password_matches(password@, h@),
        r matches Ok(h) ==> phc_argon2id_v19(h@),
        password.spec_bytes().len() <= 0xFFFF_FFFF ==> r is Ok,
        r matches Err(e) ==> e == AuthError::Internal,
{
    match argon2_hash(password) {
        Ok(h) => Ok(h),
        Err(_) => Err(AuthError::Internal),
    }
}

/// Checks `password` against a stored hash; a stored value that is not a
/// well-formed hash never verifies.
pub fn verify_password(password: &str, hashed_password: &str) -> (r: bool)
    ensures
        r == password_matches(password@, hashed_password@),
{
    argon2_verify(password, hashed_password)
}

} // verus!
