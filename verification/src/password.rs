//! One-way credential hashing.
//!
//! A plaintext credential is turned into a self-describing hash string
//! (algorithm, cost and salt embedded) before any storage or comparison; the
//! plaintext itself is never kept. The work runs through `bcrypt` with its
//! fixed default work factor, behind trusted wrappers.

use vstd::prelude::*;

verus! {

/// Does `bcrypt::verify` answer `Ok(true)` for this password against this
/// stored hash? Verification recomputes the hash under the parameters the
/// stored string embeds, so it is a function of the two arguments alone; a
/// string not in bcrypt's hash format is never accepted.
pub uninterp spec fn bcrypt_verifies(password: Seq<char>, hash: Seq<char>) -> bool;

/// Hash a plaintext credential with the fixed default work factor.
///
/// Relies on `bcrypt::hash`: the salt is drawn from the operating system's
/// randomness, so the hash is not a function of the password alone; whatever
/// string comes back, `bcrypt::verify` accepts the original password against
/// it, and the string is the 60-character self-describing hash form. It
/// fails only when the system's randomness source does — an internal fault,
/// not a rejection of the input.
#[verifier::external_body]
pub fn hash_password(password: &str) -> (r: Option<String>)
    ensures
        r matches Some(h) ==> bcrypt_verifies(password@, h@) && h@.len() == 60,
{
    bcrypt::hash(password, bcrypt::DEFAULT_COST).ok()
}

/// Check a plaintext credential against a stored hash, in constant time
/// with respect to the hash's content.
///
/// Relies on `bcrypt::verify`: a deterministic function of the password and
/// the stored hash. Its only error is a hash string not in bcrypt's format,
/// which never matches any password, so the check is fail-closed there.
#[verifier::external_body]
pub fn verify_password(password: &str, hash: &str) -> (r: bool)
    ensures
        r == bcrypt_verifies(password@, hash@),
{
    match bcrypt::verify(password, hash) {
        Ok(b) => b,
        Err(_) => false,
    }
}

} // verus!
