//! The in-memory revoked-token store.
//!
//! The reference implementation of [`BannedTokenStore`]: revoked tokens
//! live in process memory for the process lifetime.  Cache-backed
//! implementations store each token under the key built by [`get_key`].

use vstd::prelude::*;

use crate::data_stores::{BannedTokenStore, BannedTokenStoreError};

verus! {

/// The set of token texts held by a sequence of entries.
pub open spec fn token_entries_set(s: Seq<String>) -> Set<Seq<char>>
    decreases s.len(),
{
    if s.len() == 0 {
        Set::empty()
    } else {
        token_entries_set(s.drop_last()).insert(s.last()@)
    }
}

proof fn lemma_token_entries_match(s: Seq<String>, i: int)
    requires
        0 <= i < s.len(),
    ensures
        token_entries_set(s).contains(s[i]@),
    decreases s.len(),
{
    if i < s.len() - 1 {
        assert(s.drop_last()[i] == s[i]);
        lemma_token_entries_match(s.drop_last(), i);
    }
}

proof fn lemma_token_entries_no_match(s: Seq<String>, t: Seq<char>)
    requires
        forall|j: int| 0 <= j < s.len() ==> s[j]@ != t,
    ensures
        !token_entries_set(s).contains(t),
    decreases s.len(),
{
    if s.len() > 0 {
        lemma_token_entries_no_match(s.drop_last(), t);
    }
}

/// An in-memory [`BannedTokenStore`] backed by a growable list of token
/// texts.
pub struct HashsetBannedTokenStore {
    banned_tokens: Vec<String>,
}

impl Default for HashsetBannedTokenStore {
    /// An empty store.
    fn default() -> (r: Self)
        ensures
            r.tokens() == Set::<Seq<char>>::empty(),
    {
        HashsetBannedTokenStore { banned_tokens: Vec::new() }
    }
}

impl BannedTokenStore for HashsetBannedTokenStore {
    closed spec fn tokens(&self) -> Set<Seq<char>> {
        token_entries_set(self.banned_tokens@)
    }

    fn ban_token(&mut self, token: String) -> (r: Result<(), BannedTokenStoreError>) {
        proof {
            assert(self.banned_tokens@.push(token).drop_last() =~= self.banned_tokens@);
        }
        self.banned_tokens.push(token);
        Ok(())
    }

    fn is_token_banned(&self, token: &str) -> (r: Result<bool, BannedTokenStoreError>) {
        let wanted: String = token.to_owned();
        let n = self.banned_tokens.len();
        let mut i: usize = 0;
        while i < n
            invariant
                i <= n,
                n == self.banned_tokens@.len(),
                wanted@ == token@,
                forall|j: int| 0 <= j < i ==> self.banned_tokens@[j]@ != token@,
            decreases n - i,
        {
            if self.banned_tokens[i].eq(&wanted) {
                proof {
                    lemma_token_entries_match(self.banned_tokens@, i as int);
                }
                return Ok(true);
            }
            i = i + 1;
        }
        proof {
            lemma_token_entries_no_match(self.banned_tokens@, token@);
        }
        Ok(false)
    }
}

/// The storage key for a revoked token in a cache-backed store: a fixed
/// prefix, so revocation entries cannot collide with other data.
pub fn get_key(token: &str) -> (r: String)
    ensures
        r@ == "banned_token:"@ + token@,
{
    let mut key: String = String::from_str("banned_token:");
    vstd::string::StringExecFns::append(&mut key, token);
    key
}

} // verus!
