//! Password hashes.

use vstd::prelude::*;

verus! {

/// The work factor of new password hashes.
pub const HASH_COST: u32 = 12;

/// What comparing a password with a stored hash gives: `Some(true)` or
/// `Some(false)` where the hash can be read, `None` where it cannot.
pub uninterp spec fn hash_comparison(password: Seq<char>, hashed: Seq<char>) -> Option<bool>;

/// `bcrypt::hash`. The salt is drawn at random, so the text that comes back
/// is not determined by the password. Trusted: whatever hash comes back, the
/// password it was made from compares equal to it; `None` stands for the
/// crate's error.
#[verifier::external_body]
fn bcrypt_hash(password: &str, cost: u32) -> (hashed: Option<String>)
    ensures
        hashed matches Some(h) ==> hash_comparison(password@, h@) == Some(true),
{
    bcrypt::hash(password, cost).ok()
}

/// `bcrypt::verify`. Trusted: the answer depends on the two texts alone;
/// `None` stands for the crate's error (a stored text that is no hash).
#[verifier::external_body]
fn bcrypt_verify(password: &str, hashed: &str) -> (verdict: Option<bool>)
    ensures
        verdict == hash_comparison(password@, hashed@),
{
    bcrypt::verify(password, hashed).ok()
}

/// What `hash_password` answers for each outcome of the hashing itself.
pub fn hashing_result<'a>(outcome: Option<String>) -> (r: Result<String, &'a str>)
    ensures
        match outcome {
            Some(hashed) => r == Ok::<String, &str>(hashed),
            None => r matches Err(reason) && reason@ == "Failed to hash password"@,
        },
{
    match outcome {
        Some(hashed) => Ok(hashed),
        None => Err("Failed to hash password"),
    }
}

/// Hashes a password for storage. Fails only where the hashing itself
/// fails. The hash that comes back is one that the password verifies
/// against.
pub fn hash_password(password: &str) -> (r: Result<String, &str>)
    ensures
        match r {
            Ok(hashed) => hash_comparison(password@, hashed@) == Some(true),
            Err(reason) => reason@ == "Failed to hash password"@,
        },
{
    hashing_result(bcrypt_hash(password, HASH_COST))
}

/// Compares a password with a stored hash: `Ok(true)` where they agree,
/// `Ok(false)` where they do not, an error where the stored text is no hash.
pub fn verify_hash_password<'a>(password: &'a str, hashed: &'a str) -> (r: Result<bool, &'a str>)
    ensures
        match r {
            Ok(matches) => hash_comparison(password@, hashed@) == Some(matches),
            Err(reason) => hash_comparison(password@, hashed@) is None && reason@
                == "Failed to verify hash_password"@,
        },
{
    match bcrypt_verify(password, hashed) {
        Some(matches) => Ok(matches),
        None => Err("Failed to verify hash_password"),
    }
}

} // verus!
