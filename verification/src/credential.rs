//! Credential codec: hashes passwords with a memory-hard function and a
//! fresh random salt, and verifies a password against a self-describing
//! hash string. Pure computation, no I/O; the hashing itself is done by
//! the argon2 crate behind trusted wrappers.
use vstd::prelude::*;

use crate::errors::AppError;
use crate::errors::STATUS_INTERNAL;

verus! {

/// Whether a password matches a self-describing hash string: the result of
/// recomputing the hash with the parameters and salt encoded in the string
/// and comparing digests. Names the result of argon2's
/// `PasswordVerifier::verify_password`, which is a function of the password
/// and the hash string alone.
pub uninterp spec fn password_matches(password: Seq<char>, hash: Seq<char>) -> bool;

/// Whether a string is a well-formed self-describing hash. Names the
/// success of argon2's `PasswordHash::new`, a function of the string alone.
/// Verification returns a result exactly on parseable strings, and the
/// hashing function only ever produces parseable strings.
pub uninterp spec fn parseable_hash(hash: Seq<char>) -> bool;

/// Relies on argon2's `PasswordHasher::hash_password` over a salt from
/// `SaltString::generate`: the returned string encodes algorithm, parameters,
/// salt and digest in the format `PasswordHash::new` parses, and verifying
/// the same password against it succeeds. That no other password verifies
/// against it treats the digest comparison as collision-free, the working
/// assumption for a memory-hard password hash.
#[verifier::external_body]
fn argon2_hash(password: &str) -> (r: Result<String, ()>)
    ensures
        r matches Ok(h) ==> parseable_hash(h@) && password_matches(password@, h@) && (forall|
            q: Seq<char>,
        |
            q != password@ ==> !password_matches(q, h@)),
{
    let salt = argon2::password_hash::SaltString::generate(&mut rand_core::OsRng);
    match argon2::password_hash::PasswordHasher::hash_password(
        &argon2::Argon2::default(),
        password.as_bytes(),
        &salt,
    ) {
        Ok(h) => Ok(h.to_string()),
        Err(_) => Err(()),
    }
}

/// Relies on argon2's `PasswordVerifier::verify_password` after
/// `PasswordHash::new` parses the hash string: recomputes the digest with
/// the parameters and salt from the string and compares. `Err` is exactly a
/// hash string that does not parse.
#[verifier::external_body]
fn argon2_verify(password: &str, hash: &str) -> (r: Result<bool, ()>)
    ensures
        r is Ok <==> parseable_hash(hash@),
        r matches Ok(b) ==> b == password_matches(password@, hash@),
{
    match argon2::password_hash::PasswordHash::new(hash) {
        Ok(parsed) => Ok(
            argon2::password_hash::PasswordVerifier::verify_password(
                &argon2::Argon2::default(),
                password.as_bytes(),
                &parsed,
            ).is_ok(),
        ),
        Err(_) => Err(()),
    }
}

/// Hashes a password with a fresh random salt. Fails only if the hashing
/// function itself fails (an internal error); the returned string is
/// self-describing, parseable, and matches exactly the password it was
/// produced from.
pub fn hash_password(password: &str) -> (r: Result<String, AppError>)
    ensures
        r matches Ok(h) ==> parseable_hash(h@) && password_matches(password@, h@) && (forall|
            q: Seq<char>,
        |
            q != password@ ==> !password_matches(q, h@)),
        r matches Err(e) ==> e.status_code == STATUS_INTERNAL && e.message@
            == "Failed to hash password"@,
{
    match argon2_hash(password) {
        Ok(h) => Ok(h),
        Err(_) => Err(
            AppError {
                message: String::from_str("Failed to hash password"),
                status_code: STATUS_INTERNAL,
            },
        ),
    }
}

/// Verifies a password against a hash string. A mismatch is `Ok(false)`,
/// not an error; the only error is a malformed hash string — exactly one
/// that does not parse, which should occur only on data corruption.
pub fn verify_password_hash(password: &str, hash: &str) -> (r: Result<bool, AppError>)
    ensures
        r is Ok <==> parseable_hash(hash@),
        r matches Ok(b) ==> b == password_matches(password@, hash@),
        r matches Err(e) ==> e.status_code == STATUS_INTERNAL && e.message@
            == "Invalid password hash"@,
{
    match argon2_verify(password, hash) {
        Ok(b) => Ok(b),
        Err(_) => Err(
            AppError {
                message: String::from_str("Invalid password hash"),
                status_code: STATUS_INTERNAL,
            },
        ),
    }
}

/// Law: against a hash freshly produced from password `p2` — parseable, so
/// verification returns a result — verification of `p1` succeeds exactly
/// when `p1 == p2`, and a mismatch is a `false` result, never an error. The
/// hypotheses are what `hash_password` ensures of its result; the
/// conclusions are what `verify_password_hash` then returns.
pub proof fn lemma_hash_verify_round_trip(p1: Seq<char>, p2: Seq<char>, h: Seq<char>)
    requires
        parseable_hash(h),
        password_matches(p2, h),
        forall|q: Seq<char>| q != p2 ==> !password_matches(q, h),
    ensures
        password_matches(p1, h) <==> p1 == p2,
{
}

} // verus!
