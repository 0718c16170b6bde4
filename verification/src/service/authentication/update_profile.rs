//! Changing one's own name or password.

use vstd::prelude::*;

use crate::service::authentication::types::validated_json::{errors_view, outcome, report, rule, FieldError};
use crate::utils::text::same_text;

verus! {

/// A new password needs at least this many characters.
pub const MIN_PASSWORD_CHARS: usize = 6;

pub const PASSWORD_TOO_SHORT: &'static str = "Password must be at least 6 characters";

#[derive(Clone, Debug, Default)]
pub struct UpdateProfileInputDto {
    pub username: Option<String>,
    pub password: Option<String>,
    pub password_again: Option<String>,
}

/// The failed rules of the form: a new password, when given, needs six
/// characters.
pub open spec fn update_profile_errors(password: Option<Seq<char>>) -> Seq<(Seq<char>, Seq<char>)> {
    rule(
        password is Some && password->0.len() < MIN_PASSWORD_CHARS,
        "password"@,
        PASSWORD_TOO_SHORT@,
    )
}

pub open spec fn text_view(t: Option<String>) -> Option<Seq<char>> {
    match t {
        Some(s) => Some(s@),
        None => None,
    }
}

impl UpdateProfileInputDto {
    /// Checks the form; the failed fields, if any.
    pub fn validate(&self) -> (result: Result<(), Vec<FieldError>>)
        ensures
            result is Ok <==> update_profile_errors(text_view(self.password)).len() == 0,
            result matches Err(failed) ==> errors_view(failed@) == update_profile_errors(
                text_view(self.password),
            ),
    {
        let mut failed: Vec<FieldError> = Vec::new();
        let too_short = match &self.password {
            Some(p) => p.as_str().unicode_len() < MIN_PASSWORD_CHARS,
            None => false,
        };
        report(&mut failed, too_short, "password", PASSWORD_TOO_SHORT);
        assert(errors_view(failed@) =~= update_profile_errors(text_view(self.password)));
        outcome(failed)
    }

    /// Whether a new password, when one is given, is confirmed by the same
    /// text in `password_again`; otherwise the change is refused with
    /// `PASSWORDS_DO_NOT_MATCH`.
    pub fn password_confirmed(&self) -> (confirmed: bool)
        ensures
            confirmed == match self.password {
                Some(p) => self.password_again is Some && self.password_again->0@ == p@,
                None => true,
            },
    {
        match &self.password {
            Some(p) => match &self.password_again {
                Some(again) => same_text(again.as_str(), p.as_str()),
                None => false,
            },
            None => true,
        }
    }
}

} // verus!
