//! The in-memory pending-challenge store.
//!
//! The reference implementation of [`TwoFACodeStore`]: pending
//! second-factor challenges live in process memory, one per address, and a
//! new challenge for an address replaces the old one.  Cache-backed
//! implementations store each challenge under the key built by [`get_key`].

use vstd::prelude::*;

use crate::data_stores::{LoginAttemptId, TwoFACode, TwoFACodeStore, TwoFACodeStoreError};
use crate::email::Email;

verus! {

/// One stored challenge: the address it belongs to, the attempt
/// identifier, and the code.
pub struct ChallengeEntry {
    pub email: Email,
    pub login_attempt_id: LoginAttemptId,
    pub code: TwoFACode,
}

/// The challenge map held by a sequence of entries: later entries win.
pub open spec fn challenge_entries_map(s: Seq<ChallengeEntry>) -> Map<
    Seq<char>,
    (Seq<char>, Seq<char>),
>
    decreases s.len(),
{
    if s.len() == 0 {
        Map::empty()
    } else {
        challenge_entries_map(s.drop_last()).insert(
            s.last().email@,
            (s.last().login_attempt_id@, s.last().code@),
        )
    }
}

proof fn lemma_challenge_entries_last_match(s: Seq<ChallengeEntry>, i: int)
    requires
        0 <= i < s.len(),
        forall|j: int| i < j < s.len() ==> s[j].email@ != s[i].email@,
    ensures
        challenge_entries_map(s).contains_key(s[i].email@),
        challenge_entries_map(s)[s[i].email@] == (s[i].login_attempt_id@, s[i].code@),
    decreases s.len(),
{
    if i == s.len() - 1 {
    } else {
        assert(s.drop_last()[i] == s[i]);
        lemma_challenge_entries_last_match(s.drop_last(), i);
    }
}

proof fn lemma_challenge_entries_no_match(s: Seq<ChallengeEntry>, e: Seq<char>)
    requires
        forall|j: int| 0 <= j < s.len() ==> s[j].email@ != e,
    ensures
        !challenge_entries_map(s).contains_key(e),
    decreases s.len(),
{
    if s.len() > 0 {
        lemma_challenge_entries_no_match(s.drop_last(), e);
    }
}

/// An in-memory [`TwoFACodeStore`] backed by a growable list of entries.
pub struct HashmapTwoFACodeStore {
    codes: Vec<ChallengeEntry>,
}

impl Default for HashmapTwoFACodeStore {
    /// An empty store.
    fn default() -> (r: Self)
        ensures
            r.codes() == Map::<Seq<char>, (Seq<char>, Seq<char>)>::empty(),
    {
        HashmapTwoFACodeStore { codes: Vec::new() }
    }
}

impl HashmapTwoFACodeStore {
    /// Finds the index of the newest challenge for an address.
    fn find_code(&self, email: &Email) -> (r: Option<usize>)
        ensures
            r matches Some(i) ==> self.codes().contains_key(email@) && i < self.codes@.len()
                && (self.codes@[i as int].login_attempt_id@, self.codes@[i as int].code@)
                == self.codes()[email@],
            r is None ==> !self.codes().contains_key(email@),
    {
        let mut i: usize = self.codes.len();
        while i > 0
            invariant
                i <= self.codes@.len(),
                forall|j: int| i <= j < self.codes@.len() ==> self.codes@[j].email@ != email@,
            decreases i,
        {
            i = i - 1;
            if self.codes[i].email == *email {
                proof {
                    lemma_challenge_entries_last_match(self.codes@, i as int);
                }
                return Some(i);
            }
        }
        proof {
            lemma_challenge_entries_no_match(self.codes@, email@);
        }
        None
    }
}

impl TwoFACodeStore for HashmapTwoFACodeStore {
    closed spec fn codes(&self) -> Map<Seq<char>, (Seq<char>, Seq<char>)> {
        challenge_entries_map(self.codes@)
    }

    fn add_code(&mut self, email: Email, login_attempt_id: LoginAttemptId, code: TwoFACode) -> (r:
        Result<(), TwoFACodeStoreError>) {
        let entry = ChallengeEntry { email, login_attempt_id, code };
        proof {
            assert(self.codes@.push(entry).drop_last() =~= self.codes@);
        }
        self.codes.push(entry);
        Ok(())
    }

    fn remove_code(&mut self, email: &Email) -> (r: Result<(), TwoFACodeStoreError>) {
        let n = self.codes.len();
        let mut kept: Vec<ChallengeEntry> = Vec::new();
        let mut i: usize = 0;
        proof {
            assert(self.codes@.subrange(0, 0) =~= Seq::<ChallengeEntry>::empty());
            assert(challenge_entries_map(kept@) =~= challenge_entries_map(
                self.codes@.subrange(0, 0),
            ).remove(email@));
        }
        while i < n
            invariant
                i <= n,
                n == self.codes@.len(),
                challenge_entries_map(kept@) == challenge_entries_map(
                    self.codes@.subrange(0, i as int),
                ).remove(email@),
            decreases n - i,
        {
            let ghost pre = self.codes@.subrange(0, i as int);
            let ghost post = self.codes@.subrange(0, i as int + 1);
            proof {
                assert(post.drop_last() =~= pre);
            }
            let keep = !(self.codes[i].email == *email);
            if keep {
                let ghost kept_pre = kept@;
                let e = self.codes[i].clone_entry();
                kept.push(e);
                proof {
                    assert(kept@.drop_last() =~= kept_pre);
                    assert(challenge_entries_map(kept@) =~= challenge_entries_map(post).remove(
                        email@,
                    ));
                }
            } else {
                proof {
                    assert(challenge_entries_map(kept@) =~= challenge_entries_map(post).remove(
                        email@,
                    ));
                }
            }
            i = i + 1;
        }
        proof {
            assert(self.codes@.subrange(0, n as int) =~= self.codes@);
        }
        self.codes = kept;
        Ok(())
    }

    fn get_code(&self, email: &Email) -> (r: Result<
        (LoginAttemptId, TwoFACode),
        TwoFACodeStoreError,
    >) {
        match self.find_code(email) {
            Some(i) => Ok(
                (self.codes[i].login_attempt_id.clone(), self.codes[i].code.clone()),
            ),
            None => Err(TwoFACodeStoreError::LoginAttemptIdNotFound),
        }
    }
}

impl ChallengeEntry {
    /// Clones the entry, keeping every field.
    fn clone_entry(&self) -> (r: ChallengeEntry)
        ensures
            r.email == self.email,
            r.login_attempt_id == self.login_attempt_id,
            r.code == self.code,
    {
        ChallengeEntry {
            email: self.email.clone(),
            login_attempt_id: self.login_attempt_id.clone(),
            code: self.code.clone(),
        }
    }
}

/// The storage key for a pending challenge in a cache-backed store: a
/// fixed prefix in front of the address.
pub fn get_key(email: &Email) -> (r: String)
    ensures
        r@ == "two_fa_code:"@ + email@,
{
    let mut key: String = String::from_str("two_fa_code:");
    vstd::string::StringExecFns::append(&mut key, email.as_str());
    key
}

} // verus!
