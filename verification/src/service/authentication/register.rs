//! Account registration.

use vstd::prelude::*;

use crate::service::authentication::types::validated_json::{
    errors_view, is_email_address, outcome, report, rule, validator_accepts_email, FieldError,
};
use crate::utils::consts::errors;
use crate::utils::text::same_text;

verus! {

/// A registration token lasts a week.
pub const TOKEN_EXP_HOURS: i64 = 168;

/// A new password needs at least this many characters.
pub const MIN_PASSWORD_CHARS: usize = 6;

#[derive(Clone, Debug, Default)]
pub struct RegisterInputDto {
    pub email: String,
    pub password: String,
    pub password_again: String,
    pub username: Option<String>,
}

/// The failed rules of a registration form: the e-mail must be an address,
/// the password at least six characters.
pub open spec fn register_errors(email: Seq<char>, password: Seq<char>) -> Seq<(Seq<char>, Seq<char>)> {
    rule(!validator_accepts_email(email), "email"@, errors::VALIDATION_INVALID_EMAIL@) + rule(
        password.len() < MIN_PASSWORD_CHARS,
        "password"@,
        errors::VALIDATION_INVALID_PASSWORD_LEN@,
    )
}

impl RegisterInputDto {
    /// Checks the form; the failed fields in order, if any.
    pub fn validate(&self) -> (result: Result<(), Vec<FieldError>>)
        ensures
            result is Ok <==> register_errors(self.email@, self.password@).len() == 0,
            result matches Err(failed) ==> errors_view(failed@) == register_errors(self.email@, self.password@),
    {
        let mut failed: Vec<FieldError> = Vec::new();
        let email_ok = is_email_address(self.email.as_str());
        report(&mut failed, !email_ok, "email", errors::VALIDATION_INVALID_EMAIL);
        let too_short = self.password.as_str().unicode_len() < MIN_PASSWORD_CHARS;
        report(&mut failed, too_short, "password", errors::VALIDATION_INVALID_PASSWORD_LEN);
        assert(errors_view(failed@) =~= register_errors(self.email@, self.password@));
        outcome(failed)
    }

    /// The first check of a registration: both passwords must be the same,
    /// else it is refused with `PASSWORDS_DO_NOT_MATCH`.
    pub fn passwords_match(&self) -> (same: bool)
        ensures
            same == (self.password@ == self.password_again@),
    {
        same_text(self.password.as_str(), self.password_again.as_str())
    }
}

/// Why a registration was refused after the form passed its checks.
#[derive(Clone, Copy, Debug, PartialEq, Eq, Structural)]
pub enum RegisterRefusal {
    PasswordsDoNotMatch,
    EmailAlreadyTaken,
    UsernameAlreadyTaken,
}

impl RegisterRefusal {
    /// The error key the refusal is answered with.
    pub fn message(&self) -> (text: &'static str)
        ensures
            text@ == match *self {
                RegisterRefusal::PasswordsDoNotMatch => errors::PASSWORDS_DO_NOT_MATCH@,
                RegisterRefusal::EmailAlreadyTaken => errors::EMAIL_ALREADY_TAKEN@,
                RegisterRefusal::UsernameAlreadyTaken => errors::USERNAME_ALREADY_TAKEN@,
            },
    {
        match self {
            RegisterRefusal::PasswordsDoNotMatch => errors::PASSWORDS_DO_NOT_MATCH,
            RegisterRefusal::EmailAlreadyTaken => errors::EMAIL_ALREADY_TAKEN,
            RegisterRefusal::UsernameAlreadyTaken => errors::USERNAME_ALREADY_TAKEN,
        }
    }
}

impl RegisterInputDto {
    /// Whether the account may be created, given whether the store already
    /// has a user with the e-mail and with the requested username. Differing
    /// passwords are refused first, then a taken e-mail, then a taken
    /// username; the username counts only where one was requested.
    pub fn registration_step(&self, email_taken: bool, username_taken: bool) -> (step: Result<(), RegisterRefusal>)
        ensures
            step == (if self.password@ != self.password_again@ {
                Err(RegisterRefusal::PasswordsDoNotMatch)
            } else if email_taken {
                Err(RegisterRefusal::EmailAlreadyTaken)
            } else if self.username is Some && username_taken {
                Err(RegisterRefusal::UsernameAlreadyTaken)
            } else {
                Ok(())
            }),
    {
        if !self.passwords_match() {
            Err(RegisterRefusal::PasswordsDoNotMatch)
        } else if email_taken {
            Err(RegisterRefusal::EmailAlreadyTaken)
        } else if self.username.is_some() && username_taken {
            Err(RegisterRefusal::UsernameAlreadyTaken)
        } else {
            Ok(())
        }
    }
}

} // verus!
