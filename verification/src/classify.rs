//! Identifier classification: decides whether a string is an email address
//! or a plain username, and flags malformed email-looking input.

use vstd::prelude::*;

verus! {

/// How the server should interpret the identifier of a credential request.
#[derive(Clone, Copy, Debug, PartialEq, Eq, Structural)]
pub enum IdentifierType {
    Email,
    /// Reserved on the wire; the classifier never produces it.
    Id,
    Username,
}

/// The single validation error active for a given form state.
#[derive(Clone, Copy, Debug, PartialEq, Eq, Structural)]
pub enum ValidationError {
    BothBlank,
    IdentifierBlank,
    PasswordBlank,
    InvalidEmail,
}

/// The string contains at least one `'@'`.
pub open spec fn contains_at(s: Seq<char>) -> bool {
    exists|i: int| 0 <= i < s.len() && s[i] == '@'
}

/// The full email shape: one or more characters, `'@'`, one or more
/// characters, `'.'`, one or more characters.
pub open spec fn is_email_shape(s: Seq<char>) -> bool {
    exists|i: int, j: int|
        1 <= i && i + 2 <= j && j + 1 < s.len() && s[i] == '@' && s[j] == '.'
}

/// The type the classifier assigns: `Email` exactly for the full email shape,
/// `Username` for everything else.
pub open spec fn spec_identifier_type(s: Seq<char>) -> IdentifierType {
    if is_email_shape(s) {
        IdentifierType::Email
    } else {
        IdentifierType::Username
    }
}

/// The classifier's error: an `'@'`-bearing string that is not a well-formed
/// email is treated as an invalid-email attempt.
pub open spec fn spec_classify_error(s: Seq<char>) -> Option<ValidationError> {
    if contains_at(s) && !is_email_shape(s) {
        Some(ValidationError::InvalidEmail)
    } else {
        None
    }
}

/// Index of the first `'@'` at position 1 or later, if any.
fn first_at_from_one(s: &str) -> (r: Option<usize>)
    ensures
        r matches Some(i) ==> 1 <= i < s@.len() && s@[i as int] == '@'
            && (forall|k: int| 1 <= k < i ==> s@[k] != '@'),
        r is None ==> forall|k: int| 1 <= k < s@.len() ==> s@[k] != '@',
{
    let n = s.unicode_len();
    let mut i: usize = 1;
    while i < n
        invariant
            1 <= i,
            n == s@.len(),
            forall|k: int| 1 <= k < i ==> s@[k] != '@',
        decreases n - i,
    {
        if s.get_char(i) == '@' {
            return Some(i);
        }
        i = i + 1;
    }
    None
}

/// Whether the string holds any `'@'` at all.
pub(crate) fn has_at(s: &str) -> (r: bool)
    ensures
        r == contains_at(s@),
{
    let n = s.unicode_len();
    let mut i: usize = 0;
    while i < n
        invariant
            n == s@.len(),
            forall|k: int| 0 <= k < i ==> s@[k] != '@',
        decreases n - i,
    {
        if s.get_char(i) == '@' {
            return true;
        }
        i = i + 1;
    }
    false
}

/// Whether some `'.'` stands at an index in `[lo, s.len() - 1)`.
fn has_dot_in_range(s: &str, lo: usize) -> (r: bool)
    ensures
        r == exists|j: int| lo <= j && j + 1 < s@.len() && s@[j] == '.',
{
    let n = s.unicode_len();
    let mut j: usize = lo;
    while n >= 1 && j < n - 1
        invariant
            lo <= j,
            n == s@.len(),
            forall|k: int| lo <= k < j ==> !(k + 1 < s@.len() && s@[k] == '.'),
        decreases n - j,
    {
        if s.get_char(j) == '.' {
            return true;
        }
        j = j + 1;
    }
    false
}

/// Whether the string has the full email shape.
pub fn matches_email_shape(s: &str) -> (r: bool)
    ensures
        r == is_email_shape(s@),
{
    match first_at_from_one(s) {
        Some(i0) => {
            let n = s.unicode_len();
            if n >= 4 && i0 <= n - 4 {
                if has_dot_in_range(s, i0 + 2) {
                    proof {
                        assert(is_email_shape(s@)) by {
                            let j = choose|j: int|
                                i0 + 2 <= j && j + 1 < s@.len() && s@[j] == '.';
                            assert(1 <= i0 as int && i0 + 2 <= j && j + 1 < s@.len()
                                && s@[i0 as int] == '@' && s@[j] == '.');
                        }
                    }
                    true
                } else {
                    proof {
                        if is_email_shape(s@) {
                            let (i, j) = choose|i: int, j: int|
                                1 <= i && i + 2 <= j && j + 1 < s@.len()
                                    && s@[i] == '@' && s@[j] == '.';
                            assert(i0 <= i);
                        }
                    }
                    false
                }
            } else {
                // the first usable '@' leaves no room for a '.' plus one more
                // character, and any later '@' leaves even less
                proof {
                    if is_email_shape(s@) {
                        let (i, j) = choose|i: int, j: int|
                            1 <= i && i + 2 <= j && j + 1 < s@.len()
                                && s@[i] == '@' && s@[j] == '.';
                        assert(i0 <= i);
                    }
                }
                false
            }
        }
        None => {
            proof {
                if is_email_shape(s@) {
                    let (i, j) = choose|i: int, j: int|
                        1 <= i && i + 2 <= j && j + 1 < s@.len()
                            && s@[i] == '@' && s@[j] == '.';
                }
            }
            false
        }
    }
}

/// Classify an identifier: the full email shape gives `Email` with no error;
/// any other `'@'`-bearing string gives `Username` with `InvalidEmail`;
/// a string without `'@'` gives `Username` with no error.
pub fn classify(identifier: &str) -> (r: (IdentifierType, Option<ValidationError>))
    ensures
        r.0 == spec_identifier_type(identifier@),
        r.1 == spec_classify_error(identifier@),
{
    if matches_email_shape(identifier) {
        (IdentifierType::Email, None)
    } else if has_at(identifier) {
        (IdentifierType::Username, Some(ValidationError::InvalidEmail))
    } else {
        (IdentifierType::Username, None)
    }
}

} // verus!
