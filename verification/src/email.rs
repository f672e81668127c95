//! Validated e-mail addresses.
//!
//! An address is accepted when it has the shape `local@domain`, where the
//! local part is a non-empty run of permitted characters and the domain is a
//! non-empty sequence of dot-separated labels made of letters, digits and
//! inner hyphens.

use vstd::prelude::*;

use crate::text::{chars_of, check_alnum_char, is_alnum_char, subvec};

verus! {

/// Characters permitted in the local part of an address.
pub open spec fn is_local_char(c: char) -> bool {
    ||| is_alnum_char(c)
    ||| c == '.' || c == '!' || c == '#' || c == '$' || c == '%' || c == '&' || c == '\''
    ||| c == '*' || c == '+' || c == '/' || c == '=' || c == '?' || c == '^' || c == '_'
    ||| c == '`' || c == '{' || c == '|' || c == '}' || c == '~' || c == '-'
}

/// Characters permitted inside a domain label.
pub open spec fn is_label_char(c: char) -> bool {
    is_alnum_char(c) || c == '-'
}

/// A non-empty local part of at most 64 characters, made only of
/// permitted characters.
pub open spec fn valid_local(s: Seq<char>) -> bool {
    &&& 1 <= s.len() <= 64
    &&& forall|i: int| 0 <= i < s.len() ==> is_local_char(#[trigger] s[i])
}

/// Whether the index range `[i, j]` of `s` holds no dot, so it lies within
/// one label.
pub open spec fn dot_free(s: Seq<char>, i: int, j: int) -> bool {
    forall|k: int| i <= k <= j ==> s[k] != '.'
}

/// A non-empty domain of at most 255 characters: dot-separated labels of
/// letters, digits and hyphens, where every label begins and ends with a
/// letter or digit and has at most 63 characters.
pub open spec fn valid_domain(s: Seq<char>) -> bool {
    &&& 1 <= s.len() <= 255
    &&& forall|i: int| 0 <= i < s.len() ==> is_label_char(#[trigger] s[i]) || s[i] == '.'
    &&& forall|i: int| 0 <= i < s.len() && (i == 0 || s[i - 1] == '.') ==> is_alnum_char(
        #[trigger] s[i],
    )
    &&& forall|i: int| 0 <= i < s.len() && (i == s.len() - 1 || s[i + 1] == '.') ==> is_alnum_char(
        #[trigger] s[i],
    )
    &&& forall|i: int, j: int| 0 <= i <= j < s.len() && #[trigger] dot_free(s, i, j) ==> j - i < 63
}

/// A syntactically valid address: a valid local part, one `@`, and a valid
/// domain.  The separator index is unique because `@` is permitted in
/// neither part.
pub open spec fn valid_email(s: Seq<char>) -> bool {
    exists|i: int|
        0 <= i < s.len() && #[trigger] s[i] == '@' && valid_local(s.subrange(0, i))
            && valid_domain(s.subrange(i + 1, s.len() as int))
}

/// Law: a string without a `@` is never a valid address, so
/// [`Email::parse`] rejects it.
pub proof fn lemma_email_without_separator_invalid(s: Seq<char>)
    requires
        forall|i: int| 0 <= i < s.len() ==> #[trigger] s[i] != '@',
    ensures
        !valid_email(s),
{
}

/// Law: a string whose only `@` stands first or last has an empty local or
/// domain part at every possible split, so [`Email::parse`] rejects it.
pub proof fn lemma_email_empty_part_invalid(s: Seq<char>, i: int)
    requires
        0 <= i < s.len(),
        s[i] == '@',
        i == 0 || i == s.len() - 1,
    ensures
        !valid_email(s),
{
    assert forall|j: int|
        0 <= j < s.len() && #[trigger] s[j] == '@' implies !(valid_local(s.subrange(0, j))
        && valid_domain(s.subrange(j + 1, s.len() as int))) by {
        if i == 0 {
            if j == 0 {
                assert(s.subrange(0, 0).len() == 0);
            } else {
                assert(s.subrange(0, j)[0] == s[0]);
                assert(!is_local_char('@'));
            }
        } else {
            if j == s.len() - 1 {
                assert(s.subrange(j + 1, s.len() as int).len() == 0);
            } else {
                assert(s.subrange(j + 1, s.len() as int)[s.len() - 2 - j] == s[s.len() - 1]);
                assert(!is_label_char('@') && '@' != '.');
            }
        }
    }
}

/// A validated e-mail address.  Values exist only through [`Email::parse`],
/// so every `Email` holds a syntactically valid address.
pub struct Email(String);

impl View for Email {
    type V = Seq<char>;

    closed spec fn view(&self) -> Seq<char> {
        self.0@
    }
}

impl Email {
    /// Parses a string into an address, accepting exactly the strings
    /// described by [`valid_email`] and keeping the text unchanged.
    pub fn parse(s: String) -> (r: Result<Email, String>)
        ensures
            r matches Ok(e) ==> e@ == s@,
            (r is Ok) == valid_email(s@),
    {
        let v = chars_of(s.as_str());
        if check_email_chars(&v) {
            Ok(Email(s))
        } else {
            Err(String::from_str("not a valid email"))
        }
    }

    /// The address as text.
    pub fn as_str(&self) -> (r: &str)
        ensures
            r@ == self@,
    {
        self.0.as_str()
    }
}

/// Executable check for [`is_local_char`].
fn check_local_char(c: char) -> (b: bool)
    ensures
        b == is_local_char(c),
{
    check_alnum_char(c) || c == '.' || c == '!' || c == '#' || c == '$' || c == '%' || c == '&'
        || c == '\'' || c == '*' || c == '+' || c == '/' || c == '=' || c == '?' || c == '^'
        || c == '_' || c == '`' || c == '{' || c == '|' || c == '}' || c == '~' || c == '-'
}

/// Executable check for [`valid_local`].
fn check_local(v: &Vec<char>) -> (b: bool)
    ensures
        b == valid_local(v@),
{
    let n = v.len();
    if n == 0 || n > 64 {
        return false;
    }
    let mut i: usize = 0;
    while i < n
        invariant
            i <= n,
            n == v@.len(),
            forall|k: int| 0 <= k < i ==> is_local_char(#[trigger] v@[k]),
        decreases n - i,
    {
        if !check_local_char(v[i]) {
            return false;
        }
        i = i + 1;
    }
    true
}

/// Executable check for [`valid_domain`].
#[verifier::rlimit(50)]
fn check_domain(v: &Vec<char>) -> (b: bool)
    ensures
        b == valid_domain(v@),
{
    let n = v.len();
    if n == 0 || n > 255 {
        return false;
    }
    let mut i: usize = 0;
    // Number of consecutive non-dot characters directly before position
    // `i`: the length of the label prefix seen so far.
    let mut run: usize = 0;
    while i < n
        invariant
            i <= n,
            n == v@.len(),
            run <= i,
            run <= 63,
            forall|k: int| i - run <= k < i ==> v@[k] != '.',
            i - run == 0 || v@[i - run - 1] == '.',
            forall|k: int| 0 <= k < i ==> is_label_char(#[trigger] v@[k]) || v@[k] == '.',
            forall|k: int|
                0 <= k < i && (k == 0 || v@[k - 1] == '.') ==> is_alnum_char(#[trigger] v@[k]),
            forall|k: int| 0 <= k < i - 1 && v@[k + 1] == '.' ==> is_alnum_char(#[trigger] v@[k]),
            forall|a: int, b: int| 0 <= a <= b < i && #[trigger] dot_free(v@, a, b) ==> b - a < 63,
        decreases n - i,
    {
        let c = v[i];
        if !(check_alnum_char(c) || c == '-' || c == '.') {
            return false;
        }
        let at_label_start = i == 0 || v[i - 1] == '.';
        if at_label_start && !check_alnum_char(c) {
            return false;
        }
        if i > 0 && c == '.' && !check_alnum_char(v[i - 1]) {
            proof {
                assert(!(is_alnum_char(v@[i - 1])) && v@[i - 1 + 1] == '.');
            }
            return false;
        }
        if c == '.' {
            proof {
                assert forall|a: int, b: int|
                    0 <= a <= b < i + 1 && #[trigger] dot_free(v@, a, b) implies b - a < 63 by {
                    if b == i {
                        assert(v@[i as int] == '.');
                    }
                }
            }
            run = 0;
        } else {
            if run == 63 {
                // A 64th consecutive non-dot character: the label is too
                // long.
                proof {
                    let a = i - run;
                    assert(dot_free(v@, a as int, i as int));
                }
                return false;
            }
            proof {
                let a = i - run;
                assert forall|a2: int, b2: int|
                    0 <= a2 <= b2 < i + 1 && #[trigger] dot_free(v@, a2, b2) implies b2 - a2
                    < 63 by {
                    if b2 == i {
                        if a2 < a {
                            assert(v@[a as int - 1] == '.');
                        }
                    }
                }
            }
            run = run + 1;
        }
        i = i + 1;
    }
    if !check_alnum_char(v[n - 1]) {
        proof {
            assert(!is_alnum_char(v@[n as int - 1]));
        }
        return false;
    }
    true
}

/// Executable check for [`valid_email`] over a character vector.
fn check_email_chars(v: &Vec<char>) -> (b: bool)
    ensures
        b == valid_email(v@),
{
    let n = v.len();
    // Find the first `@`.
    let mut i: usize = 0;
    while i < n && v[i] != '@'
        invariant
            i <= n,
            n == v@.len(),
            forall|k: int| 0 <= k < i ==> #[trigger] v@[k] != '@',
        decreases n - i,
    {
        i = i + 1;
    }
    if i == n {
        // No separator at all.
        proof {
            assert(forall|j: int| 0 <= j < v@.len() ==> #[trigger] v@[j] != '@');
        }
        return false;
    }
    let local = subvec(v, 0, i);
    let domain = subvec(v, i + 1, n);
    let ok = check_local(&local) && check_domain(&domain);
    proof {
        if ok {
            assert(0 <= i < v@.len() && v@[i as int] == '@' && valid_local(
                v@.subrange(0, i as int),
            ) && valid_domain(v@.subrange(i as int + 1, v@.len() as int)));
        } else {
            // Any other split index `j` has an `@` inside its local part,
            // which `is_local_char` excludes.
            assert forall|j: int|
                0 <= j < v@.len() && #[trigger] v@[j] == '@' implies !(valid_local(
                v@.subrange(0, j),
            ) && valid_domain(v@.subrange(j + 1, v@.len() as int))) by {
                if j == i {
                } else {
                    assert(j > i);
                    assert(v@.subrange(0, j)[i as int] == v@[i as int]);
                    assert(!is_local_char('@'));
                }
            }
        }
    }
    ok
}

impl PartialEq for Email {
    /// Structural, case-sensitive equality over the address text.
    fn eq(&self, other: &Email) -> bool {
        self.0.eq(&other.0)
    }
}

impl vstd::std_specs::cmp::PartialEqSpecImpl for Email {
    open spec fn obeys_eq_spec() -> bool {
        true
    }

    open spec fn eq_spec(&self, other: &Email) -> bool {
        self@ == other@
    }
}

impl Clone for Email {
    /// Clones the address, keeping its text.
    fn clone(&self) -> (r: Self)
        ensures
            r == *self,
    {
        Email(self.0.clone())
    }
}

} // verus!
