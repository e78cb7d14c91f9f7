//! Administrator passwords, hashed with Argon2 in the PHC string format.

use vstd::prelude::*;
use vstd::utf8::encode_utf8;

use argon2::password_hash::{Error as HashError, SaltString};
use argon2::{PasswordHasher, PasswordVerifier};

verus! {

/// A declared outside type: what hashing a password may fail with.
#[verifier::external_type_specification]
#[verifier::external_body]
pub struct ExHashError(HashError);

/// Whether Argon2 (default parameters) accepts `password` against the PHC
/// string `hash`: `PasswordHash::new(hash)` parses and
/// `Argon2::default().verify_password` returns `Ok`.
pub uninterp spec fn spec_password_matches(password: Seq<char>, hash: Seq<char>) -> bool;

/// Whether `s` has the first mark of a PHC string: it begins with `$`.
pub open spec fn phc_shaped(s: Seq<char>) -> bool {
    s.len() > 0 && s[0] == '$'
}

/// Calls `argon2::PasswordHash::new` on `hash` and, where it parses,
/// `Argon2::default().verify_password`; a hash that does not parse is a
/// mismatch. The answer is named `spec_password_matches`; claimed beside
/// it, as `PasswordHash::parse` shows: a string that is empty or does not
/// begin with `$` does not parse, so it matches nothing.
#[verifier::external_body]
fn argon2_matches(password: &str, hash: &str) -> (ok: bool)
    ensures
        ok == spec_password_matches(password@, hash@),
        !phc_shaped(hash@) ==> !ok,
{
    match argon2::PasswordHash::new(hash) {
        Ok(parsed) => argon2::Argon2::default().verify_password(password.as_bytes(), &parsed).is_ok(),
        Err(_) => false,
    }
}

/// The longest password, in bytes, that Argon2 hashes (argon2's
/// `MAX_PWD_LEN`).
pub open spec fn max_password_bytes() -> nat {
    0xFFFF_FFFF
}

/// Draws a salt with `SaltString::generate` from the operating system's
/// random source (`rand::rngs::OsRng`) and hashes `password` with it by
/// `Argon2::default().hash_password`, written as a PHC string. Claimed:
/// a string that comes back is accepted for the same password by
/// `argon2_matches` (argon2's documented round trip); and the hash is made
/// exactly when the password has at most `MAX_PWD_LEN` bytes: a longer one
/// is refused with `PwdTooLong`, and a generated salt (16 bytes) with the
/// default parameters passes every other check of `hash_password`. Which
/// string comes back is chance and is not stated.
#[verifier::external_body]
fn argon2_hash_fresh(password: &str) -> (r: Result<String, HashError>)
    ensures
        r matches Ok(h) ==> spec_password_matches(password@, h@),
        r is Ok <==> encode_utf8(password@).len() <= max_password_bytes(),
{
    let salt = SaltString::generate(&mut rand::rngs::OsRng);
    argon2::Argon2::default().hash_password(password.as_bytes(), &salt).map(|h| h.to_string())
}

/// Calls `Display::to_string` on a hashing error.
#[verifier::external_body]
fn hash_error_text(e: &HashError) -> (r: String) {
    e.to_string()
}

/// Why a password could not be hashed.
#[derive(Debug, Clone, PartialEq, Eq)]
pub enum PasswordError {
    /// Argon2 refused; the text is the reason it gave.
    HashFailed(String),
}

impl PasswordError {
    /// The text shown for this error.
    pub fn message(&self) -> (r: String)
        ensures
            match self {
                PasswordError::HashFailed(reason) => r@ == "密码加密失败："@ + reason@,
            },
    {
        match self {
            PasswordError::HashFailed(reason) => {
                let mut s = String::from_str("密码加密失败：");
                s.append(reason.as_str());
                s
            },
        }
    }
}

/// Hashes `password` with Argon2 and a fresh random salt. A hash that is
/// returned verifies against the same password; only a password longer
/// than Argon2 accepts is refused.
pub fn hash_password(password: &str) -> (r: Result<String, PasswordError>)
    ensures
        r matches Ok(h) ==> spec_password_matches(password@, h@),
        r is Ok <==> encode_utf8(password@).len() <= max_password_bytes(),
{
    match argon2_hash_fresh(password) {
        Ok(h) => Ok(h),
        Err(e) => Err(PasswordError::HashFailed(hash_error_text(&e))),
    }
}

/// Whether `password` matches the stored PHC string `hash`; a hash that
/// does not parse matches nothing.
pub fn verify_password(password: &str, hash: &str) -> (r: bool)
    ensures
        r == spec_password_matches(password@, hash@),
        !phc_shaped(hash@) ==> !r,
{
    argon2_matches(password, hash)
}

} // verus!
