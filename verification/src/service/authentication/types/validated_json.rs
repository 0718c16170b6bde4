//! Validation of request bodies: which fields failed, and the message key
//! reported for each.

use vstd::prelude::*;

use validator::ValidateEmail;

use crate::utils::text::string_of;

verus! {

/// A request body that passed its validation.
#[derive(Clone, Copy, Debug, Default)]
pub struct ValidatedJson<T>(pub T);

/// A field that failed validation, and the message key reported for it.
#[derive(Clone, Debug)]
pub struct FieldError {
    pub field: String,
    pub message: String,
}

/// The failed fields as (field, message) pairs.
pub open spec fn errors_view(errors: Seq<FieldError>) -> Seq<(Seq<char>, Seq<char>)> {
    errors.map_values(|e: FieldError| (e.field@, e.message@))
}

/// The report of one rule: the field and message when it failed, else
/// nothing.
pub open spec fn rule(failed: bool, field: Seq<char>, message: Seq<char>) -> Seq<(Seq<char>, Seq<char>)> {
    if failed {
        seq![(field, message)]
    } else {
        Seq::empty()
    }
}

/// Whether the `validator` crate accepts `text` as an e-mail address (its
/// HTML5-style rules, with internationalised domains).
pub uninterp spec fn validator_accepts_email(text: Seq<char>) -> bool;

/// Calls `ValidateEmail::validate_email` of the `validator` crate on a
/// string. Its verdict depends on the text alone and is named
/// `validator_accepts_email`; its source rejects an empty text and one
/// without `@` before anything else.
#[verifier::external_body]
pub(crate) fn is_email_address(text: &str) -> (accepted: bool)
    ensures
        accepted == validator_accepts_email(text@),
        accepted ==> text@.len() > 0 && text@.contains('@'),
{
    text.validate_email()
}

/// Adds the report of one rule to `errors`.
pub fn report(errors: &mut Vec<FieldError>, failed: bool, field: &str, message: &str)
    ensures
        errors_view(final(errors)@) == errors_view(old(errors)@) + rule(failed, field@, message@),
{
    if failed {
        errors.push(FieldError { field: string_of(field), message: string_of(message) });
    }
    assert(errors_view(errors@) =~= errors_view(old(errors)@) + rule(failed, field@, message@));
}

/// The outcome of a validation: accepted when no rule failed.
pub fn outcome(errors: Vec<FieldError>) -> (result: Result<(), Vec<FieldError>>)
    ensures
        match result {
            Ok(()) => errors@.len() == 0,
            Err(failed) => failed@ == errors@ && errors@.len() > 0,
        },
{
    if errors.len() == 0 {
        Ok(())
    } else {
        Err(errors)
    }
}

} // verus!
