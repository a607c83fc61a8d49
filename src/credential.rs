//! Password hashing and checking with Argon2id (PHC string digests).
use vstd::prelude::*;
use argon2::password_hash::{PasswordHash, PasswordHasher, PasswordVerifier, SaltString};
use argon2::Argon2;

verus! {

/// What checking `password` against `digest` gives: `None` where the digest
/// does not parse as a PHC string or names parameters that Argon2 cannot use;
/// otherwise whether it matches (a PHC string without a salt or a hash part
/// matches nothing).
pub uninterp spec fn argon2_check(password: Seq<u8>, digest: Seq<char>) -> Option<bool>;

/// Relies on `SaltString::generate` with the operating system's random source
/// (a fresh 16-byte salt) and `Argon2::default().hash_password`: the digest is
/// one that `verify_password` accepts for the same password, and hashing with
/// such a salt fails only for a password longer than `MAX_PWD_LEN`
/// (0xFFFF_FFFF bytes).
#[verifier::external_body]
fn argon2_hash(password: &[u8]) -> (r: Option<String>)
    ensures
        r matches Some(d) ==> argon2_check(password@, d@) == Some(true),
        password@.len() <= 0xFFFF_FFFF ==> r is Some,
{
    let salt = SaltString::generate(&mut rand_core::OsRng);
    match Argon2::default().hash_password(password, &salt) {
        Ok(h) => Some(h.to_string()),
        Err(_) => None,
    }
}

/// Relies on `PasswordHash::new` and `Argon2::default().verify_password`: a
/// digest that does not parse, or names what cannot be checked, gives `None`;
/// a password mismatch (`Error::Password`) gives `Some(false)`.
#[verifier::external_body]
fn argon2_verify(password: &[u8], digest: &str) -> (r: Option<bool>)
    ensures
        r == argon2_check(password@, digest@),
{
    match PasswordHash::new(digest) {
        Err(_) => None,
        Ok(parsed) => match Argon2::default().verify_password(password, &parsed) {
            Ok(()) => Some(true),
            Err(argon2::password_hash::Error::Password) => Some(false),
            Err(_) => None,
        },
    }
}

/// Why a password operation failed.
#[derive(Debug, Clone, Copy, PartialEq, Eq, Structural)]
pub enum CredentialError {
    /// The stored digest is not in the expected format.
    MalformedDigest,
    /// The hasher could not produce a digest.
    HashingFailed,
}

/// What [`compare`] gives for `password` and `digest`.
pub open spec fn compare_spec(password: Seq<char>, digest: Seq<char>) -> Result<bool, CredentialError> {
    match argon2_check(vstd::utf8::encode_utf8(password), digest) {
        Some(b) => Ok(b),
        None => Err(CredentialError::MalformedDigest),
    }
}

/// Hashes `password` with a fresh random salt. Whatever the salt, a digest
/// returned here is one that [`compare`] accepts for the same password; only
/// a password of more than 0xFFFF_FFFF bytes cannot be hashed.
pub fn hash(password: &str) -> (r: Result<String, CredentialError>)
    ensures
        r matches Ok(d) ==> compare_spec(password@, d@) == Ok::<bool, CredentialError>(true),
        r matches Err(e) ==> e == CredentialError::HashingFailed,
        vstd::utf8::encode_utf8(password@).len() <= 0xFFFF_FFFF ==> r is Ok,
{
    match argon2_hash(password.as_bytes()) {
        Some(d) => Ok(d),
        None => Err(CredentialError::HashingFailed),
    }
}

/// Checks `password` against a stored digest: `Ok(false)` for a wrong
/// password, `MalformedDigest` for a digest not in the expected format.
pub fn compare(password: &str, digest: &str) -> (r: Result<bool, CredentialError>)
    ensures
        r == compare_spec(password@, digest@),
{
    match argon2_verify(password.as_bytes(), digest) {
        Some(b) => Ok(b),
        None => Err(CredentialError::MalformedDigest),
    }
}

} // verus!
