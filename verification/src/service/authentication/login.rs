//! Sign-in with e-mail and password.

use vstd::prelude::*;

use crate::service::authentication::types::validated_json::{
    errors_view, is_email_address, outcome, report, rule, validator_accepts_email, FieldError,
};
use crate::utils::consts::errors;

verus! {

/// A password sign-in token lasts a week.
pub const TOKEN_EXP_HOURS: i64 = 168;

#[derive(Clone, Debug, Default)]
pub struct LoginInputDto {
    pub email: String,
    pub password: String,
}

/// The failed rules of a sign-in form: the e-mail must be an address, the
/// password must not be empty.
pub open spec fn login_errors(email: Seq<char>, password: Seq<char>) -> Seq<(Seq<char>, Seq<char>)> {
    rule(!validator_accepts_email(email), "email"@, errors::VALIDATION_INVALID_EMAIL@) + rule(
        password.len() < 1,
        "password"@,
        errors::VALIDATION_REQUIRED@,
    )
}

impl LoginInputDto {
    /// Checks the form; the failed fields in order, if any.
    pub fn validate(&self) -> (result: Result<(), Vec<FieldError>>)
        ensures
            result is Ok <==> login_errors(self.email@, self.password@).len() == 0,
            result matches Err(failed) ==> errors_view(failed@) == login_errors(self.email@, self.password@),
    {
        let mut failed: Vec<FieldError> = Vec::new();
        let email_ok = is_email_address(self.email.as_str());
        report(&mut failed, !email_ok, "email", errors::VALIDATION_INVALID_EMAIL);
        let password_empty = self.password.as_str().unicode_len() < 1;
        report(&mut failed, password_empty, "password", errors::VALIDATION_REQUIRED);
        assert(errors_view(failed@) =~= login_errors(self.email@, self.password@));
        outcome(failed)
    }
}

/// Why a sign-in with a well-formed form is refused.
#[derive(Clone, Copy, Debug, PartialEq, Eq, Structural)]
pub enum SignInRefusal {
    /// No such user, no password set, or the wrong password.
    InvalidCredentials,
    /// The account is not active.
    Unauthorized,
}

impl SignInRefusal {
    pub fn key(self) -> (key: &'static str)
        ensures
            key@ == (match self {
                SignInRefusal::InvalidCredentials => errors::INVALID_CREDENTIALS@,
                SignInRefusal::Unauthorized => errors::UNAUTHORIZED@,
            }),
    {
        match self {
            SignInRefusal::InvalidCredentials => errors::INVALID_CREDENTIALS,
            SignInRefusal::Unauthorized => errors::UNAUTHORIZED,
        }
    }
}

/// The verdict on a sign-in, from what the lookup found: whether the user
/// exists, has a password, whether the password matched its hash, and
/// whether the account is active. Credentials are judged before the status.
pub fn sign_in_verdict(user_found: bool, has_password: bool, password_matches: bool, active: bool) -> (verdict:
    Result<(), SignInRefusal>)
    ensures
        !(user_found && has_password && password_matches) ==> verdict == Err::<(), SignInRefusal>(
            SignInRefusal::InvalidCredentials,
        ),
        user_found && has_password && password_matches && !active ==> verdict == Err::<(), SignInRefusal>(
            SignInRefusal::Unauthorized,
        ),
        user_found && has_password && password_matches && active ==> verdict is Ok,
{
    if !user_found || !has_password || !password_matches {
        return Err(SignInRefusal::InvalidCredentials);
    }
    if !active {
        return Err(SignInRefusal::Unauthorized);
    }
    Ok(())
}

} // verus!
