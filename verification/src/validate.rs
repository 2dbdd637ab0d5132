//! Form validation: one precedence-ordered error computed from the
//! identifier, the password and the classification of the identifier.

use vstd::prelude::*;
use vstd::string::StringExecFns;

use crate::classify::ValidationError;
use crate::classify::contains_at;
use crate::classify::is_email_shape;
use crate::classify::matches_email_shape;
use crate::classify::has_at;

verus! {

/// The validation outcome, in precedence order: both fields blank, the
/// identifier blank, the password blank, then the classifier's own error.
pub open spec fn spec_validate(id: Seq<char>, pw: Seq<char>) -> Option<ValidationError> {
    if id.len() == 0 && pw.len() == 0 {
        Some(ValidationError::BothBlank)
    } else if id.len() == 0 {
        Some(ValidationError::IdentifierBlank)
    } else if pw.len() == 0 {
        Some(ValidationError::PasswordBlank)
    } else if contains_at(id) && !is_email_shape(id) {
        Some(ValidationError::InvalidEmail)
    } else {
        None
    }
}

/// The message shown for each validation error.
pub open spec fn spec_message(e: ValidationError) -> Seq<char> {
    match e {
        ValidationError::BothBlank => "Identifier and password cannot be blank"@,
        ValidationError::IdentifierBlank => "Identifier cannot be blank"@,
        ValidationError::PasswordBlank => "Password cannot be blank"@,
        ValidationError::InvalidEmail => "Invalid email address"@,
    }
}

impl ValidationError {
    /// The user-visible message for this error.
    pub fn message(&self) -> (r: String)
        ensures
            r@ == spec_message(*self),
    {
        match self {
            ValidationError::BothBlank => String::from_str("Identifier and password cannot be blank"),
            ValidationError::IdentifierBlank => String::from_str("Identifier cannot be blank"),
            ValidationError::PasswordBlank => String::from_str("Password cannot be blank"),
            ValidationError::InvalidEmail => String::from_str("Invalid email address"),
        }
    }
}

/// A pair the validator passes carries a cleanly classified identifier:
/// whenever validation reports no error, the classifier reports none either.
pub proof fn lemma_validated_identifier_classifies_cleanly(id: Seq<char>, pw: Seq<char>)
    ensures
        spec_validate(id, pw) is None ==> crate::classify::spec_classify_error(id) is None,
{
}

/// Validate an identifier/password pair. Exactly one error is active at a
/// time; `None` means submission may proceed.
pub fn validate(identifier: &str, password: &str) -> (r: Option<ValidationError>)
    ensures
        r == spec_validate(identifier@, password@),
{
    let id_blank = identifier.unicode_len() == 0;
    let pw_blank = password.unicode_len() == 0;
    if id_blank && pw_blank {
        Some(ValidationError::BothBlank)
    } else if id_blank {
        Some(ValidationError::IdentifierBlank)
    } else if pw_blank {
        Some(ValidationError::PasswordBlank)
    } else if !matches_email_shape(identifier) && has_at(identifier) {
        Some(ValidationError::InvalidEmail)
    } else {
        None
    }
}

} // verus!
