//! Password hashing and checking.
//!
//! Hashing and checking are done by an outside bcrypt library. Checking is a
//! function of the password and the stored hash alone, named here as
//! `bcrypt_accepts`; hashing draws a fresh salt, so nothing is claimed about
//! the hash's value beyond the fact that it verifies the password it was
//! made from.

use vstd::prelude::*;

verus! {

/// Whether the bcrypt check accepts `password` against the stored `hashed`
/// string. A malformed stored string accepts nothing.
pub uninterp spec fn bcrypt_accepts(password: Seq<char>, hashed: Seq<char>) -> bool;

/// Relies on bcrypt::verify: it recomputes the hash under the salt and cost
/// carried by `hashed`, so the outcome is a function of the two arguments
/// alone; an error (malformed stored string) is mapped to a rejection.
#[verifier::external_body]
fn bcrypt_verify(password: &str, hashed: &str) -> (r: bool)
    ensures
        r == bcrypt_accepts(password@, hashed@),
{
    bcrypt::verify(password, hashed).unwrap_or(false)
}

/// Relies on bcrypt::hash: on success the returned string carries the salt
/// and cost it was made with, and checking the same password against it
/// succeeds.
#[verifier::external_body]
fn bcrypt_hash(password: &str) -> (r: Option<String>)
    ensures
        r matches Some(h) ==> bcrypt_accepts(password@, h@),
{
    bcrypt::hash(password, bcrypt::DEFAULT_COST).ok()
}

/// Hashes a password for storage. On a hashing failure the empty string is
/// returned, which no check accepts together with a bcrypt-formed stored
/// string.
pub fn hash_password(password: &str) -> (r: String)
    ensures
        r@ == Seq::<char>::empty() || bcrypt_accepts(password@, r@),
{
    match bcrypt_hash(password) {
        Some(h) => h,
        None => String::new(),
    }
}

/// Checks a password against a stored hash.
pub fn verify_password(password: &str, hashed: &str) -> (r: bool)
    ensures
        r == bcrypt_accepts(password@, hashed@),
{
    bcrypt_verify(password, hashed)
}

} // verus!
