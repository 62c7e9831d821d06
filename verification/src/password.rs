use vstd::prelude::*;

use crate::error::{ServiceError, ServiceErrorView};

verus! {

/// Whether bcrypt verification of `password` against `hash` succeeds: the
/// result of `bcrypt::verify`, which depends on the two arguments alone.
pub uninterp spec fn password_verifies(password: Seq<char>, hash: Seq<char>) -> bool;

/// Compares a password against a stored bcrypt hash.
///
/// Relies on `bcrypt::verify`: it re-derives the hash from the password and
/// the salt held in `hash` and compares, deterministically in its arguments;
/// a malformed `hash` makes it report an error, taken here as a mismatch.
#[verifier::external_body]
pub fn check_password(password: &str, hash: &str) -> (r: bool)
    ensures
        r == password_verifies(password@, hash@),
{
    bcrypt::verify(password, hash).unwrap_or(false)
}

/// Hashes a password with bcrypt at the default cost, with a fresh random
/// salt.
///
/// Relies on `bcrypt::hash`: any hash it returns verifies against the
/// password that produced it; it fails only when the operating system's
/// randomness is unavailable. The hash depends on the fresh salt, so nothing
/// more is assumed about its value.
#[verifier::external_body]
pub fn get_hashed_password(password: &str) -> (r: Result<String, ServiceError>)
    ensures
        r matches Ok(h) ==> password_verifies(password@, h@),
        r matches Err(e) ==> e@ == ServiceErrorView::InvalidFormat,
{
    match bcrypt::hash(password, bcrypt::DEFAULT_COST) {
        Ok(h) => Ok(h),
        Err(_) => Err(ServiceError::InvalidFormat),
    }
}

} // verus!
