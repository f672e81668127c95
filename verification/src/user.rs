//! User account records.

use vstd::prelude::*;

use crate::email::Email;
use crate::hashing::PasswordHash;

verus! {

/// The mathematical value of a [`User`]: the address, the encoded password
/// hash, and the second-factor flag.
pub ghost struct UserView {
    pub email: Seq<char>,
    pub password_hash: Seq<char>,
    pub requires_2fa: bool,
}

/// A registered account: an address, the hash stored in place of the
/// password, and whether logins must complete a second factor.  Records are
/// immutable once created and are keyed by address.
pub struct User {
    pub email: Email,
    pub password_hash: PasswordHash,
    pub requires_2fa: bool,
}

impl View for User {
    type V = UserView;

    open spec fn view(&self) -> UserView {
        UserView {
            email: self.email@,
            password_hash: self.password_hash@,
            requires_2fa: self.requires_2fa,
        }
    }
}

impl User {
    /// Builds a record from its parts.
    pub fn new(email: Email, password_hash: PasswordHash, requires_2fa: bool) -> (r: User)
        ensures
            r@.email == email@,
            r@.password_hash == password_hash@,
            r@.requires_2fa == requires_2fa,
    {
        User { email, password_hash, requires_2fa }
    }
}

impl Clone for User {
    /// Clones the record, keeping every field.
    fn clone(&self) -> (r: Self)
        ensures
            r == *self,
    {
        User {
            email: self.email.clone(),
            password_hash: self.password_hash.clone(),
            requires_2fa: self.requires_2fa,
        }
    }
}

} // verus!
