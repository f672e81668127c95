//! The credential-store abstractions and the second-factor value types.
//!
//! Three capability traits describe what the authentication protocol needs
//! from persistence: user records, revoked session tokens, and pending
//! second-factor challenges.  Each trait states its behaviour over a
//! mathematical model of the store's contents, and each has an in-memory
//! implementation in this crate that is verified against it.

use vstd::prelude::*;

use crate::email::Email;
use crate::hashing::{argon2_verifies, parses_as_password_hash};
use crate::password::Password;
use crate::text::{chars_of, chars_to_string, digit_to_char, is_digit_char, push_char, trim_chars,
    trim_spec};
use crate::user::{User, UserView};

verus! {

/// An error from a user-record store.
#[derive(Clone, Copy, Debug, PartialEq, Eq, Structural)]
pub enum UserStoreError {
    UserAlreadyExists,
    UserNotFound,
    InvalidCredentials,
    IncorrectCredentials,
    /// Reserved for fallible backends; the verified in-memory store never
    /// reports it.
    UnexpectedError,
}

/// An error from a revoked-token store.
#[derive(Clone, Copy, Debug, PartialEq, Eq, Structural)]
pub enum BannedTokenStoreError {
    /// Reserved for fallible backends; the verified in-memory store never
    /// reports it.
    UnexpectedError,
}

/// An error from a pending-challenge store.
#[derive(Clone, Copy, Debug, PartialEq, Eq, Structural)]
pub enum TwoFACodeStoreError {
    LoginAttemptIdNotFound,
    /// Reserved for fallible backends; the verified in-memory store never
    /// reports it.
    UnexpectedError,
}

/// Storage for user records, keyed by address.
///
/// The model [`UserStore::users`] maps each registered address to the stored
/// record.  Credential validation goes through the hashing subsystem's
/// verify operation; stored hashes are never compared directly.
pub trait UserStore: Sized {
    /// The records held, keyed by address.  The default model is the
    /// empty map; every implementation overrides it.
    open spec fn users(&self) -> Map<Seq<char>, UserView> {
        Map::empty()
    }

    /// Adds a record; an address can be registered only once.
    fn add_user(&mut self, user: User) -> (r: Result<(), UserStoreError>)
        ensures
            old(self).users().contains_key(user@.email) ==> r == Err::<(), UserStoreError>(
                UserStoreError::UserAlreadyExists,
            ) && final(self).users() == old(self).users(),
            !old(self).users().contains_key(user@.email) ==> r == Ok::<(), UserStoreError>(())
                && final(self).users() == old(self).users().insert(user@.email, user@),
    ;

    /// Looks a record up by address.
    fn get_user(&self, email: &Email) -> (r: Result<User, UserStoreError>)
        ensures
            self.users().contains_key(email@) ==> (r matches Ok(u) && u@ == self.users()[email@]),
            !self.users().contains_key(email@) ==> r == Err::<User, UserStoreError>(
                UserStoreError::UserNotFound,
            ),
    ;

    /// Checks a candidate password against the stored hash for an address,
    /// through the hashing subsystem.
    fn validate_user(&self, email: &Email, password: &Password) -> (r: Result<
        (),
        UserStoreError,
    >)
        ensures
            !self.users().contains_key(email@) ==> r == Err::<(), UserStoreError>(
                UserStoreError::UserNotFound,
            ),
            self.users().contains_key(email@) && parses_as_password_hash(
                self.users()[email@].password_hash,
            ) && argon2_verifies(self.users()[email@].password_hash, password@) ==> r == Ok::<
                (),
                UserStoreError,
            >(()),
            self.users().contains_key(email@) && parses_as_password_hash(
                self.users()[email@].password_hash,
            ) && !argon2_verifies(self.users()[email@].password_hash, password@) ==> r == Err::<
                (),
                UserStoreError,
            >(UserStoreError::IncorrectCredentials),
            self.users().contains_key(email@) && !parses_as_password_hash(
                self.users()[email@].password_hash,
            ) ==> r == Err::<(), UserStoreError>(UserStoreError::UnexpectedError),
    ;
}

/// Storage for revoked session tokens.
///
/// The model [`BannedTokenStore::tokens`] is the set of token texts that
/// have been revoked and must be rejected by verification.
pub trait BannedTokenStore: Sized {
    /// The revoked token texts.  The default model is the empty set;
    /// every implementation overrides it.
    open spec fn tokens(&self) -> Set<Seq<char>> {
        Set::empty()
    }

    /// Marks a token as revoked.  Revoking a token twice is harmless.
    fn ban_token(&mut self, token: String) -> (r: Result<(), BannedTokenStoreError>)
        ensures
            r == Ok::<(), BannedTokenStoreError>(()),
            final(self).tokens() == old(self).tokens().insert(token@),
    ;

    /// Whether a token has been revoked.
    fn is_token_banned(&self, token: &str) -> (r: Result<bool, BannedTokenStoreError>)
        ensures
            r == Ok::<bool, BannedTokenStoreError>(self.tokens().contains(token@)),
    ;
}

/// Storage for pending second-factor challenges, at most one per address.
///
/// The model [`TwoFACodeStore::codes`] maps each address with a live
/// challenge to the pair of challenge identifier and code.
pub trait TwoFACodeStore: Sized {
    /// The pending challenges: address to (challenge identifier, code).
    /// The default model is the empty map; every implementation overrides
    /// it.
    open spec fn codes(&self) -> Map<Seq<char>, (Seq<char>, Seq<char>)> {
        Map::empty()
    }

    /// Stores the challenge for an address, replacing any earlier one.
    fn add_code(&mut self, email: Email, login_attempt_id: LoginAttemptId, code: TwoFACode) -> (r:
        Result<(), TwoFACodeStoreError>)
        ensures
            r == Ok::<(), TwoFACodeStoreError>(()),
            final(self).codes() == old(self).codes().insert(email@, (login_attempt_id@, code@)),
    ;

    /// Discards the challenge for an address, if any.
    fn remove_code(&mut self, email: &Email) -> (r: Result<(), TwoFACodeStoreError>)
        ensures
            r == Ok::<(), TwoFACodeStoreError>(()),
            final(self).codes() == old(self).codes().remove(email@),
    ;

    /// Retrieves the pending challenge for an address.
    fn get_code(&self, email: &Email) -> (r: Result<
        (LoginAttemptId, TwoFACode),
        TwoFACodeStoreError,
    >)
        ensures
            self.codes().contains_key(email@) ==> (r matches Ok(p) && p.0@ == self.codes()[email@].0
                && p.1@ == self.codes()[email@].1),
            !self.codes().contains_key(email@) ==> r == Err::<
                (LoginAttemptId, TwoFACode),
                TwoFACodeStoreError,
            >(TwoFACodeStoreError::LoginAttemptIdNotFound),
    ;
}

/// Whether a character is a hexadecimal digit.
pub open spec fn is_hex_char(c: char) -> bool {
    is_digit_char(c) || ('a' <= c && c <= 'f') || ('A' <= c && c <= 'F')
}

/// What the character at position `i` of an identifier in canonical
/// hyphenated form must be: a hyphen at the four group boundaries, a
/// hexadecimal digit everywhere else.
pub open spec fn uuid_char_ok(s: Seq<char>, i: int) -> bool {
    if i == 8 || i == 13 || i == 18 || i == 23 {
        s[i] == '-'
    } else {
        is_hex_char(s[i])
    }
}

/// A syntactically valid challenge identifier: 36 characters in the
/// canonical hyphenated form of a 128-bit identifier.
pub open spec fn valid_uuid(s: Seq<char>) -> bool {
    &&& s.len() == 36
    &&& forall|i: int| 0 <= i < 36 ==> #[trigger] uuid_char_ok(s, i)
}

/// Relies on `uuid`: `Uuid::new_v4().to_string()` renders the freshly drawn
/// random identifier as 36 lowercase hexadecimal characters in five groups
/// separated by hyphens at positions 8, 13, 18 and 23.
#[verifier::external_body]
fn random_uuid_string() -> (r: String)
    ensures
        valid_uuid(r@),
{
    uuid::Uuid::new_v4().to_string()
}

pub assume_specification<T>[ rand::random::<T> ]() -> (r: T)
    where
        rand::distributions::Standard: rand::distributions::Distribution<T>,
;

/// An identifier naming one pending second-factor attempt.
pub struct LoginAttemptId(String);

impl View for LoginAttemptId {
    type V = Seq<char>;

    closed spec fn view(&self) -> Seq<char> {
        self.0@
    }
}

impl LoginAttemptId {
    /// Parses an identifier, accepting exactly the canonical hyphenated
    /// form and keeping the text unchanged.  Generated identifiers are
    /// always in that form, so no live challenge is ever named by another
    /// spelling; alternative spellings of the same 128 bits are deliberately
    /// rejected as malformed rather than compared.
    pub fn parse(id: String) -> (r: Result<LoginAttemptId, String>)
        ensures
            r matches Ok(x) ==> x@ == id@,
            (r is Ok) == valid_uuid(id@),
    {
        let v = chars_of(id.as_str());
        if check_uuid_chars(&v) {
            Ok(LoginAttemptId(id))
        } else {
            Err(String::from_str("not a valid login attempt id"))
        }
    }

    /// The identifier as text.
    pub fn as_str(&self) -> (r: &str)
        ensures
            r@ == self@,
    {
        self.0.as_str()
    }
}

impl Default for LoginAttemptId {
    /// Draws a fresh random identifier.
    fn default() -> (r: Self)
        ensures
            valid_uuid(r@),
    {
        LoginAttemptId(random_uuid_string())
    }
}

impl PartialEq for LoginAttemptId {
    /// Structural equality over the identifier text.
    fn eq(&self, other: &LoginAttemptId) -> bool {
        self.0.eq(&other.0)
    }
}

impl vstd::std_specs::cmp::PartialEqSpecImpl for LoginAttemptId {
    open spec fn obeys_eq_spec() -> bool {
        true
    }

    open spec fn eq_spec(&self, other: &LoginAttemptId) -> bool {
        self@ == other@
    }
}

impl Clone for LoginAttemptId {
    /// Clones the identifier, keeping its text.
    fn clone(&self) -> (r: Self)
        ensures
            r == *self,
    {
        LoginAttemptId(self.0.clone())
    }
}

/// Executable check for [`valid_uuid`].
fn check_uuid_chars(v: &Vec<char>) -> (b: bool)
    ensures
        b == valid_uuid(v@),
{
    let n = v.len();
    if n != 36 {
        return false;
    }
    let mut i: usize = 0;
    while i < 36
        invariant
            i <= 36,
            v@.len() == 36,
            forall|k: int| 0 <= k < i ==> #[trigger] uuid_char_ok(v@, k),
        decreases 36 - i,
    {
        let c = v[i];
        let ok = if i == 8 || i == 13 || i == 18 || i == 23 {
            c == '-'
        } else {
            ('0' <= c && c <= '9') || ('a' <= c && c <= 'f') || ('A' <= c && c <= 'F')
        };
        if !ok {
            proof {
                assert(!uuid_char_ok(v@, i as int));
            }
            return false;
        }
        proof {
            assert(uuid_char_ok(v@, i as int));
        }
        i = i + 1;
    }
    true
}

/// A six-digit second-factor code.
pub open spec fn is_six_digit_code(s: Seq<char>) -> bool {
    &&& s.len() == 6
    &&& forall|i: int| 0 <= i < 6 ==> is_digit_char(#[trigger] s[i])
}

/// A second-factor code: exactly six decimal digits.
pub struct TwoFACode(String);

impl View for TwoFACode {
    type V = Seq<char>;

    closed spec fn view(&self) -> Seq<char> {
        self.0@
    }
}

impl TwoFACode {
    /// Parses a code: after trimming surrounding whitespace the text must
    /// be exactly six decimal digits, and the trimmed text is kept.
    pub fn parse(code: String) -> (r: Result<TwoFACode, String>)
        ensures
            r matches Ok(c) ==> c@ == trim_spec(code@),
            (r is Ok) == is_six_digit_code(trim_spec(code@)),
    {
        let v = chars_of(code.as_str());
        let t = trim_chars(&v);
        if check_six_digits(&t) {
            Ok(TwoFACode(chars_to_string(&t)))
        } else {
            Err(String::from_str("not a valid 2FA code"))
        }
    }

    /// The code as text.
    pub fn as_str(&self) -> (r: &str)
        ensures
            r@ == self@,
    {
        self.0.as_str()
    }
}

impl Default for TwoFACode {
    /// Draws a fresh random six-digit code, one random digit at a time.
    fn default() -> (r: Self)
        ensures
            is_six_digit_code(r@),
    {
        let mut s = String::new();
        let mut i: usize = 0;
        while i < 6
            invariant
                i <= 6,
                s@.len() == i,
                forall|k: int| 0 <= k < i ==> is_digit_char(#[trigger] s@[k]),
            decreases 6 - i,
        {
            let b: u8 = rand::random();
            let c = digit_to_char(b % 10);
            push_char(&mut s, c);
            i = i + 1;
        }
        TwoFACode(s)
    }
}

impl PartialEq for TwoFACode {
    /// Structural equality over the code text.
    fn eq(&self, other: &TwoFACode) -> bool {
        self.0.eq(&other.0)
    }
}

impl vstd::std_specs::cmp::PartialEqSpecImpl for TwoFACode {
    open spec fn obeys_eq_spec() -> bool {
        true
    }

    open spec fn eq_spec(&self, other: &TwoFACode) -> bool {
        self@ == other@
    }
}

impl Clone for TwoFACode {
    /// Clones the code, keeping its text.
    fn clone(&self) -> (r: Self)
        ensures
            r == *self,
    {
        TwoFACode(self.0.clone())
    }
}

/// Executable check for [`is_six_digit_code`].
fn check_six_digits(v: &Vec<char>) -> (b: bool)
    ensures
        b == is_six_digit_code(v@),
{
    let n = v.len();
    if n != 6 {
        return false;
    }
    let mut i: usize = 0;
    while i < 6
        invariant
            i <= 6,
            v@.len() == 6,
            forall|k: int| 0 <= k < i ==> is_digit_char(#[trigger] v@[k]),
        decreases 6 - i,
    {
        let c = v[i];
        if !('0' <= c && c <= '9') {
            return false;
        }
        i = i + 1;
    }
    true
}

} // verus!
