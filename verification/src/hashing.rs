//! The password-hashing subsystem.
//!
//! Passwords are never stored: [`compute_password_hash`] derives a salted,
//! self-describing encoded hash from a password, and
//! [`verify_password_hash`] checks a candidate password against a stored
//! hash.  The hash computation itself is done by the `argon2` crate (the
//! Argon2id algorithm with fixed cost parameters and a fresh random salt per
//! call); its outcomes are named by the two uninterpreted spec functions
//! below, and everything around the calls is verified against those names.

use vstd::prelude::*;

use crate::password::Password;

verus! {

/// Names the boolean outcome of recomputing `hash` against `password`: the
/// result of `argon2`'s `verify_password` on the parsed encoded hash, which
/// depends only on the two texts.
pub uninterp spec fn argon2_verifies(hash: Seq<char>, password: Seq<char>) -> bool;

/// Names the success of parsing `hash` as a self-describing encoded hash:
/// the outcome of `argon2::PasswordHash::new`, which depends only on the
/// text.
pub uninterp spec fn parses_as_password_hash(hash: Seq<char>) -> bool;

/// The largest password length, in characters, for which hashing is
/// promised to succeed: a character encodes to at most four bytes, and the
/// hash computation accepts any password of up to `0xFFFF_FFFF` bytes.
pub const MAX_HASHABLE_PASSWORD_CHARS: usize = 0x3FFF_FFFF;

/// The self-describing prefix of every hash this subsystem derives: the
/// algorithm, its version, and the fixed cost parameters, in the encoded
/// form the `argon2` crate writes them.
pub open spec fn argon2id_prefix() -> Seq<char> {
    "$argon2id$v=19$m=15000,t=2,p=1$"@
}

/// An encoded, self-describing password hash, stored in place of the
/// password it was derived from.
pub struct PasswordHash(String);

impl View for PasswordHash {
    type V = Seq<char>;

    closed spec fn view(&self) -> Seq<char> {
        self.0@
    }
}

/// An error from the hashing subsystem: the stored hash was malformed, or
/// the hash computation itself failed.
#[derive(Clone, Copy, Debug, PartialEq, Eq, Structural)]
pub enum PasswordHashError {
    /// The stored hash could not be parsed as an encoded hash.
    MalformedHash,
    /// The hash computation reported a failure.
    HashingFailed,
}

impl PasswordHash {
    /// Wraps an already-encoded hash, as read back from a store.
    pub fn from_string(s: String) -> (r: PasswordHash)
        ensures
            r@ == s@,
    {
        PasswordHash(s)
    }

    /// The encoded hash as text, for handing to a store.
    pub fn as_str(&self) -> (r: &str)
        ensures
            r@ == self@,
    {
        self.0.as_str()
    }
}

/// Relies on `argon2`: `Argon2::hash_password` with the Argon2id algorithm,
/// fixed cost parameters and a fresh random salt returns an encoded hash
/// that opens with the algorithm, version and cost parameters, and whose
/// embedded salt and parameters make `verify_password` recompute the same
/// output for the same password; `PasswordHash::new` re-parses the encoding
/// it produced.  The computation rejects only passwords over `0xFFFF_FFFF`
/// bytes, so it succeeds on every password within
/// [`MAX_HASHABLE_PASSWORD_CHARS`].
#[verifier::external_body]
fn argon2_hash_password(password: &str) -> (r: Result<String, PasswordHashError>)
    ensures
        password@.len() <= MAX_HASHABLE_PASSWORD_CHARS ==> r is Ok,
        r matches Ok(h) ==> parses_as_password_hash(h@) && argon2_verifies(h@, password@)
            && h@.len() > argon2id_prefix().len() && h@.subrange(
            0,
            argon2id_prefix().len() as int,
        ) == argon2id_prefix(),
{
    let salt = argon2::password_hash::SaltString::generate(&mut rand::thread_rng());
    let params = match argon2::Params::new(15000, 2, 1, None) {
        Ok(p) => p,
        Err(_) => return Err(PasswordHashError::HashingFailed),
    };
    let hasher = argon2::Argon2::new(argon2::Algorithm::Argon2id, argon2::Version::V0x13, params);
    match argon2::PasswordHasher::hash_password(&hasher, password.as_bytes(), &salt) {
        Ok(h) => Ok(h.to_string()),
        Err(_) => Err(PasswordHashError::HashingFailed),
    }
}

/// Relies on `argon2`: `PasswordHash::new` succeeds exactly on well-formed
/// encoded hashes, and `Argon2::verify_password` recomputes the hash with
/// the parameters and salt embedded in it, so its outcome depends only on
/// the encoded hash and the candidate password.
#[verifier::external_body]
fn argon2_verify_password(hash: &str, password: &str) -> (r: Result<bool, PasswordHashError>)
    ensures
        (r is Ok) == parses_as_password_hash(hash@),
        r matches Ok(b) ==> b == argon2_verifies(hash@, password@),
{
    let parsed = match argon2::password_hash::PasswordHash::new(hash) {
        Ok(p) => p,
        Err(_) => return Err(PasswordHashError::MalformedHash),
    };
    let verifier = argon2::Argon2::default();
    Ok(argon2::PasswordVerifier::verify_password(&verifier, password.as_bytes(), &parsed).is_ok())
}

/// Derives a salted encoded hash from a password.  Hashing succeeds for
/// every password of at most [`MAX_HASHABLE_PASSWORD_CHARS`] characters.
/// Each call draws a fresh random salt, so two hashes of one password
/// normally differ; every hash returned names its algorithm, version and
/// cost up front and verifies against the password it was derived from.
pub fn compute_password_hash(password: &Password) -> (r: Result<
    PasswordHash,
    PasswordHashError,
>)
    ensures
        password@.len() <= MAX_HASHABLE_PASSWORD_CHARS ==> r is Ok,
        r matches Ok(h) ==> parses_as_password_hash(h@) && argon2_verifies(h@, password@)
            && h@.len() > argon2id_prefix().len() && h@.subrange(
            0,
            argon2id_prefix().len() as int,
        ) == argon2id_prefix(),
{
    match argon2_hash_password(password.as_str()) {
        Ok(h) => Ok(PasswordHash(h)),
        Err(e) => Err(e),
    }
}

/// Checks a candidate password against a stored hash by recomputing with
/// the hash's embedded parameters.  A malformed stored hash is an error,
/// not a verification failure.
pub fn verify_password_hash(hash: &PasswordHash, candidate: &Password) -> (r: Result<
    bool,
    PasswordHashError,
>)
    ensures
        (r is Ok) == parses_as_password_hash(hash@),
        r matches Ok(b) ==> b == argon2_verifies(hash@, candidate@),
{
    argon2_verify_password(hash.as_str(), candidate.as_str())
}

impl Clone for PasswordHash {
    /// Clones the encoded hash, keeping its text.
    fn clone(&self) -> (r: Self)
        ensures
            r == *self,
    {
        PasswordHash(self.0.clone())
    }
}

} // verus!
