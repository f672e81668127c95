//! Secret password values.
//!
//! A `Password` wraps the secret text of a candidate password.  It carries no
//! formatting or implicit comparison: the text is reachable only through the
//! explicit [`Password::as_str`] accessor, and two secrets are compared only
//! through the explicit [`Password::verify`] operation.

use vstd::prelude::*;

verus! {

/// The smallest number of characters a password may have.
pub const MIN_PASSWORD_CHARS: usize = 8;

/// Whether a character sequence is long enough to be accepted as a password.
pub open spec fn valid_password(s: Seq<char>) -> bool {
    s.len() >= MIN_PASSWORD_CHARS
}

/// A secret password.  Values exist only through [`Password::parse`], so
/// every `Password` meets the minimum length.
pub struct Password(String);

impl View for Password {
    type V = Seq<char>;

    closed spec fn view(&self) -> Seq<char> {
        self.0@
    }
}

impl Password {
    /// Parses a string into a password, accepting exactly the strings of at
    /// least [`MIN_PASSWORD_CHARS`] characters and keeping the text
    /// unchanged.
    pub fn parse(s: String) -> (r: Result<Password, String>)
        ensures
            r matches Ok(p) ==> p@ == s@,
            (r is Ok) == valid_password(s@),
    {
        if vstd::string::StrSliceExecFns::unicode_len(s.as_str()) >= MIN_PASSWORD_CHARS {
            Ok(Password(s))
        } else {
            Err(String::from_str("password is shorter than the minimum length"))
        }
    }

    /// Exposes the secret text.  This is the only way to read a password,
    /// so every use of the cleartext is an explicit call here.
    pub fn as_str(&self) -> (r: &str)
        ensures
            r@ == self@,
    {
        self.0.as_str()
    }

    /// Explicit secret comparison: true exactly when `candidate` is the
    /// same text as this password.
    pub fn verify(&self, candidate: &str) -> (r: bool)
        ensures
            r == (self@ == candidate@),
    {
        let other: String = candidate.to_owned();
        self.0.eq(&other)
    }
}

impl Clone for Password {
    /// Clones the secret, keeping its text.
    fn clone(&self) -> (r: Self)
        ensures
            r == *self,
    {
        Password(self.0.clone())
    }
}

} // verus!
