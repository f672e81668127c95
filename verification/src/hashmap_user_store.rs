//! The in-memory user-record store.
//!
//! Records live in process memory for the process lifetime; the store is
//! the reference implementation of [`UserStore`] used for testing.  Later
//! entries shadow earlier ones with the same address, and additions refuse
//! an address that is already present, so each address is registered once.

use vstd::prelude::*;

use crate::data_stores::{UserStore, UserStoreError};
use crate::email::Email;
use crate::hashing::verify_password_hash;
use crate::password::Password;
use crate::user::{User, UserView};

verus! {

/// The record map held by a sequence of entries: later entries win.
pub open spec fn user_entries_map(s: Seq<User>) -> Map<Seq<char>, UserView>
    decreases s.len(),
{
    if s.len() == 0 {
        Map::empty()
    } else {
        user_entries_map(s.drop_last()).insert(s.last()@.email, s.last()@)
    }
}

proof fn lemma_user_entries_last_match(s: Seq<User>, i: int)
    requires
        0 <= i < s.len(),
        forall|j: int| i < j < s.len() ==> s[j]@.email != s[i]@.email,
    ensures
        user_entries_map(s).contains_key(s[i]@.email),
        user_entries_map(s)[s[i]@.email] == s[i]@,
    decreases s.len(),
{
    if i == s.len() - 1 {
    } else {
        assert(s.drop_last()[i] == s[i]);
        lemma_user_entries_last_match(s.drop_last(), i);
    }
}

proof fn lemma_user_entries_no_match(s: Seq<User>, e: Seq<char>)
    requires
        forall|j: int| 0 <= j < s.len() ==> s[j]@.email != e,
    ensures
        !user_entries_map(s).contains_key(e),
    decreases s.len(),
{
    if s.len() > 0 {
        lemma_user_entries_no_match(s.drop_last(), e);
    }
}

/// An in-memory [`UserStore`] backed by a growable list of records.
pub struct HashmapUserStore {
    users: Vec<User>,
}

impl Default for HashmapUserStore {
    /// An empty store.
    fn default() -> (r: Self)
        ensures
            r.users() == Map::<Seq<char>, UserView>::empty(),
    {
        HashmapUserStore { users: Vec::new() }
    }
}

impl HashmapUserStore {
    /// Finds the index of the newest record for an address.
    fn find_user(&self, email: &Email) -> (r: Option<usize>)
        ensures
            r matches Some(i) ==> self.users().contains_key(email@) && i < self.users@.len()
                && self.users@[i as int]@ == self.users()[email@],
            r is None ==> !self.users().contains_key(email@),
    {
        let mut i: usize = self.users.len();
        while i > 0
            invariant
                i <= self.users@.len(),
                forall|j: int| i <= j < self.users@.len() ==> self.users@[j]@.email != email@,
            decreases i,
        {
            i = i - 1;
            if self.users[i].email == *email {
                proof {
                    lemma_user_entries_last_match(self.users@, i as int);
                }
                return Some(i);
            }
        }
        proof {
            lemma_user_entries_no_match(self.users@, email@);
        }
        None
    }
}

impl UserStore for HashmapUserStore {
    closed spec fn users(&self) -> Map<Seq<char>, UserView> {
        user_entries_map(self.users@)
    }

    fn add_user(&mut self, user: User) -> (r: Result<(), UserStoreError>) {
        if self.find_user(&user.email).is_some() {
            return Err(UserStoreError::UserAlreadyExists);
        }
        proof {
            assert(self.users@.push(user).drop_last() =~= self.users@);
        }
        self.users.push(user);
        Ok(())
    }

    fn get_user(&self, email: &Email) -> (r: Result<User, UserStoreError>) {
        match self.find_user(email) {
            Some(i) => Ok(self.users[i].clone()),
            None => Err(UserStoreError::UserNotFound),
        }
    }

    fn validate_user(&self, email: &Email, password: &Password) -> (r: Result<
        (),
        UserStoreError,
    >) {
        let i = match self.find_user(email) {
            Some(i) => i,
            None => return Err(UserStoreError::UserNotFound),
        };
        match verify_password_hash(&self.users[i].password_hash, password) {
            Ok(true) => Ok(()),
            Ok(false) => Err(UserStoreError::IncorrectCredentials),
            Err(_) => Err(UserStoreError::UnexpectedError),
        }
    }
}

} // verus!
