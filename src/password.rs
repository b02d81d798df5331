//! Password hashing: stored credentials are bcrypt hashes, never the raw
//! password.

use vstd::prelude::*;

verus! {

#[verifier::external_type_specification]
#[verifier::external_body]
pub struct ExBcryptError(bcrypt::BcryptError);

/// What `bcrypt::verify(password, hash)` reports: `Some(matches)` when the
/// hash string is well formed, `None` when bcrypt refuses it.
pub uninterp spec fn bcrypt_verdict(password: Seq<char>, hash: Seq<char>) -> Option<bool>;

/// Why a password could not be hashed.
#[derive(PartialEq, Eq, Structural, Clone, Copy, Debug)]
pub enum PasswordError {
    HashingFailed,
}

/// Relies on `bcrypt::hash` at `bcrypt::DEFAULT_COST`: a salted hash with a
/// fresh random salt, so the hash itself is not known in advance. It embeds
/// the cost and salt, with which `bcrypt::verify` hashes the same password
/// again to the same result.
#[verifier::external_body]
fn bcrypt_hash(password: &str) -> (r: Result<String, bcrypt::BcryptError>)
    ensures
        r is Ok ==> bcrypt_verdict(password@, r->Ok_0@) == Some(true),
{
    bcrypt::hash(password, bcrypt::DEFAULT_COST)
}

/// Relies on `bcrypt::verify`: it recomputes the hash with the salt and cost
/// embedded in `hash` and compares in constant time; a malformed hash is an
/// error. Its outcome depends on the two arguments alone.
#[verifier::external_body]
fn bcrypt_verify(password: &str, hash: &str) -> (r: Result<bool, bcrypt::BcryptError>)
    ensures
        r is Ok ==> bcrypt_verdict(password@, hash@) == Some(r->Ok_0),
        r is Err ==> bcrypt_verdict(password@, hash@) is None,
{
    bcrypt::verify(password, hash)
}

/// Hashes a password for storage: the hash, never the password, is kept,
/// and checking the password against it succeeds.
pub fn hash_password(password: &str) -> (r: Result<String, PasswordError>)
    ensures
        r is Ok ==> bcrypt_verdict(password@, r->Ok_0@) == Some(true),
{
    match bcrypt_hash(password) {
        Ok(h) => Ok(h),
        Err(_) => Err(PasswordError::HashingFailed),
    }
}

/// The decision on what bcrypt reported: only a definite match counts; a
/// malformed hash counts as a mismatch.
pub fn accept_verdict(verdict: Option<bool>) -> (r: bool)
    ensures
        r == (verdict == Some(true)),
{
    match verdict {
        Some(m) => m,
        None => false,
    }
}

/// Whether `password` matches the stored `hash`. Fails closed: a malformed
/// hash never matches.
pub fn check_password(password: &str, hash: &str) -> (r: bool)
    ensures
        r == (bcrypt_verdict(password@, hash@) == Some(true)),
{
    let verdict = match bcrypt_verify(password, hash) {
        Ok(m) => Some(m),
        Err(_) => None,
    };
    accept_verdict(verdict)
}

} // verus!
