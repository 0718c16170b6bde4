//! The rules of the user administration forms and of users' role lists.

use vstd::prelude::*;

use crate::service::authentication::jwt::{spec_role_from_key, AppRole};
use crate::service::authentication::types::validated_json::{
    errors_view, is_email_address, outcome, report, rule, validator_accepts_email, FieldError,
};
use crate::utils::consts::errors;
use crate::utils::text::same_text;

verus! {

pub const CAN_NOT_BE_EMPTY: &'static str = "Can not be empty";

/// The key of the administrator role.
pub const ADMIN_ROLE_KEY: &'static str = "admin";

/// The status text that makes an account active; any other makes it
/// passive.
pub const ACTIVE_STATUS: &'static str = "active";

pub const PASSWORDS_MUST_MATCH: &'static str = "Passwords must be match.";

#[derive(Clone, Debug, Default)]
pub struct AddDeductCreditInputDto {
    pub user_id: String,
    pub credit_amount: String,
    pub price: String,
    pub operation: String,
}

#[derive(Clone, Debug, Default)]
pub struct CreateUserInputDto {
    pub firstname: String,
    pub lastname: String,
    pub email: String,
    pub password: String,
    pub password_again: String,
    pub role: String,
    pub status: String,
}

#[derive(Clone, Debug, Default)]
pub struct UpdateUserInputDto {
    pub id: u64,
    pub firstname: Option<String>,
    pub lastname: Option<String>,
    pub email: Option<String>,
    pub password: Option<String>,
    pub password_again: Option<String>,
    pub role: Option<String>,
    pub status: Option<String>,
}

#[derive(Clone, Debug, Default)]
pub struct CreateUserResultDto {
    pub id: u64,
    pub firstname: Option<String>,
    pub lastname: Option<String>,
    pub email: Option<String>,
}

/// The failed rules of the credit form: every field must be filled in.
pub open spec fn credit_errors(d: AddDeductCreditInputDto) -> Seq<(Seq<char>, Seq<char>)> {
    rule(d.user_id@.len() < 1, "user_id"@, CAN_NOT_BE_EMPTY@) + rule(
        d.credit_amount@.len() < 1,
        "credit_amount"@,
        CAN_NOT_BE_EMPTY@,
    ) + rule(d.price@.len() < 1, "price"@, CAN_NOT_BE_EMPTY@) + rule(
        d.operation@.len() < 1,
        "operation"@,
        CAN_NOT_BE_EMPTY@,
    )
}

impl AddDeductCreditInputDto {
    /// Checks the form; the failed fields in order, if any.
    pub fn validate(&self) -> (result: Result<(), Vec<FieldError>>)
        ensures
            result is Ok <==> credit_errors(*self).len() == 0,
            result matches Err(failed) ==> errors_view(failed@) == credit_errors(*self),
    {
        let mut failed: Vec<FieldError> = Vec::new();
        report(&mut failed, self.user_id.as_str().unicode_len() < 1, "user_id", CAN_NOT_BE_EMPTY);
        report(&mut failed, self.credit_amount.as_str().unicode_len() < 1, "credit_amount", CAN_NOT_BE_EMPTY);
        report(&mut failed, self.price.as_str().unicode_len() < 1, "price", CAN_NOT_BE_EMPTY);
        report(&mut failed, self.operation.as_str().unicode_len() < 1, "operation", CAN_NOT_BE_EMPTY);
        assert(errors_view(failed@) =~= credit_errors(*self));
        outcome(failed)
    }
}

/// The failed rules of the user creation form: names, role and status
/// filled in, an e-mail address (its rule has no message of its own, so the
/// generic key is reported), and both passwords at least six characters.
pub open spec fn create_user_errors(d: CreateUserInputDto) -> Seq<(Seq<char>, Seq<char>)> {
    rule(d.firstname@.len() < 1, "firstname"@, CAN_NOT_BE_EMPTY@) + rule(
        d.lastname@.len() < 1,
        "lastname"@,
        CAN_NOT_BE_EMPTY@,
    ) + rule(!validator_accepts_email(d.email@), "email"@, errors::VALIDATION_REQUIRED@) + rule(
        d.password@.len() < 6,
        "password"@,
        CAN_NOT_BE_EMPTY@,
    ) + rule(d.password_again@.len() < 6, "password_again"@, CAN_NOT_BE_EMPTY@) + rule(
        d.role@.len() < 1,
        "role"@,
        CAN_NOT_BE_EMPTY@,
    ) + rule(d.status@.len() < 1, "status"@, CAN_NOT_BE_EMPTY@)
}

impl CreateUserInputDto {
    /// Checks the form; the failed fields in order, if any.
    pub fn validate(&self) -> (result: Result<(), Vec<FieldError>>)
        ensures
            result is Ok <==> create_user_errors(*self).len() == 0,
            result matches Err(failed) ==> errors_view(failed@) == create_user_errors(*self),
    {
        let mut failed: Vec<FieldError> = Vec::new();
        report(&mut failed, self.firstname.as_str().unicode_len() < 1, "firstname", CAN_NOT_BE_EMPTY);
        report(&mut failed, self.lastname.as_str().unicode_len() < 1, "lastname", CAN_NOT_BE_EMPTY);
        let email_ok = is_email_address(self.email.as_str());
        report(&mut failed, !email_ok, "email", errors::VALIDATION_REQUIRED);
        report(&mut failed, self.password.as_str().unicode_len() < 6, "password", CAN_NOT_BE_EMPTY);
        report(
            &mut failed,
            self.password_again.as_str().unicode_len() < 6,
            "password_again",
            CAN_NOT_BE_EMPTY,
        );
        report(&mut failed, self.role.as_str().unicode_len() < 1, "role", CAN_NOT_BE_EMPTY);
        report(&mut failed, self.status.as_str().unicode_len() < 1, "status", CAN_NOT_BE_EMPTY);
        assert(errors_view(failed@) =~= create_user_errors(*self));
        outcome(failed)
    }

    /// Whether both passwords are the same; a creation where they differ is
    /// refused with `PASSWORDS_MUST_MATCH`.
    pub fn passwords_match(&self) -> (same: bool)
        ensures
            same == (self.password@ == self.password_again@),
    {
        same_text(self.password.as_str(), self.password_again.as_str())
    }
}

/// Why a user could not be created.
#[derive(Clone, Copy, Debug, PartialEq, Eq, Structural)]
pub enum CreateUserError {
    /// A user with the email already exists.
    EmailExists,
    /// The two passwords differ.
    PasswordsDoNotMatch,
    /// No role has the given key.
    RoleNotFound,
}

pub const EMAIL_EXISTS: &'static str = "Email exist";

pub const ROLE_NOT_FOUND: &'static str = "Role not found";

impl CreateUserError {
    /// The message the refusal is answered with.
    pub fn message(&self) -> (text: &'static str)
        ensures
            text@ == match *self {
                CreateUserError::EmailExists => EMAIL_EXISTS@,
                CreateUserError::PasswordsDoNotMatch => PASSWORDS_MUST_MATCH@,
                CreateUserError::RoleNotFound => ROLE_NOT_FOUND@,
            },
    {
        match self {
            CreateUserError::EmailExists => EMAIL_EXISTS,
            CreateUserError::PasswordsDoNotMatch => PASSWORDS_MUST_MATCH,
            CreateUserError::RoleNotFound => ROLE_NOT_FOUND,
        }
    }
}

/// Whether a user may be created, from what the store answered: a taken
/// email is refused first, then differing passwords, then an unknown role.
pub fn create_user_step(email_taken: bool, passwords_match: bool, role_found: bool) -> (step: Result<(), CreateUserError>)
    ensures
        step == (if email_taken {
            Err(CreateUserError::EmailExists)
        } else if !passwords_match {
            Err(CreateUserError::PasswordsDoNotMatch)
        } else if !role_found {
            Err(CreateUserError::RoleNotFound)
        } else {
            Ok(())
        }),
{
    if email_taken {
        Err(CreateUserError::EmailExists)
    } else if !passwords_match {
        Err(CreateUserError::PasswordsDoNotMatch)
    } else if !role_found {
        Err(CreateUserError::RoleNotFound)
    } else {
        Ok(())
    }
}

impl UpdateUserInputDto {
    /// The password to set: the given one, unless it is missing or empty.
    pub fn password_to_set(&self) -> (password: Option<&str>)
        ensures
            match password {
                Some(p) => self.password is Some && p@ == self.password->0@ && p@.len() > 0,
                None => self.password is None || self.password->0@.len() == 0,
            },
    {
        match &self.password {
            Some(p) => if p.as_str().is_empty() {
                None
            } else {
                Some(p.as_str())
            },
            None => None,
        }
    }

    /// The status to set, if one was given; see `AccountStatus::from_text`.
    pub fn status_to_set(&self) -> (status: Option<AccountStatus>)
        ensures
            match self.status {
                Some(s) => status == Some(spec_account_status(s@)),
                None => status is None,
            },
    {
        match &self.status {
            Some(s) => Some(AccountStatus::from_text(s.as_str())),
            None => None,
        }
    }
}

/// Whether an account may be used.
#[derive(Clone, Copy, Debug, PartialEq, Eq, Structural)]
pub enum AccountStatus {
    Active,
    Passive,
}

pub open spec fn spec_account_status(text: Seq<char>) -> AccountStatus {
    if text == ACTIVE_STATUS@ {
        AccountStatus::Active
    } else {
        AccountStatus::Passive
    }
}

impl AccountStatus {
    /// `active` makes an account active; any other text, passive.
    pub fn from_text(text: &str) -> (status: AccountStatus)
        ensures
            status == spec_account_status(text@),
    {
        if same_text(text, ACTIVE_STATUS) {
            AccountStatus::Active
        } else {
            AccountStatus::Passive
        }
    }
}

/// The roles of a list of role keys, a key that names no role counting as
/// a guest.
pub open spec fn spec_roles_from_keys(keys: Seq<Seq<char>>) -> Seq<AppRole> {
    keys.map_values(
        |k: Seq<char>|
            match spec_role_from_key(k) {
                Some(r) => r,
                None => AppRole::Guest,
            },
    )
}

pub open spec fn texts_view(v: Seq<String>) -> Seq<Seq<char>> {
    v.map_values(|s: String| s@)
}

/// The roles of a user from its role keys, in order.
pub fn roles_from_keys(keys: &Vec<String>) -> (roles: Vec<AppRole>)
    ensures
        roles@ == spec_roles_from_keys(texts_view(keys@)),
{
    let mut roles: Vec<AppRole> = Vec::new();
    let mut i: usize = 0;
    while i < keys.len()
        invariant
            i <= keys@.len(),
            roles@ == spec_roles_from_keys(texts_view(keys@.take(i as int))),
        decreases keys@.len() - i,
    {
        let role = match AppRole::from_key(keys[i].as_str()) {
            Some(r) => r,
            None => AppRole::Guest,
        };
        roles.push(role);
        assert(texts_view(keys@.take(i + 1)) =~= texts_view(keys@.take(i as int)).push(keys@[i as int]@));
        i = i + 1;
        assert(roles@ =~= spec_roles_from_keys(texts_view(keys@.take(i as int))));
    }
    assert(keys@.take(keys@.len() as int) =~= keys@);
    roles
}

/// Whether one of the user's role keys is `role`.
pub fn has_role(keys: &Vec<String>, role: &str) -> (found: bool)
    ensures
        found == texts_view(keys@).contains(role@),
{
    let mut i: usize = 0;
    while i < keys.len()
        invariant
            i <= keys@.len(),
            forall|j: int| 0 <= j < i ==> keys@[j]@ != role@,
        decreases keys@.len() - i,
    {
        if same_text(keys[i].as_str(), role) {
            assert(texts_view(keys@)[i as int] == role@);
            return true;
        }
        i = i + 1;
    }
    proof {
        if texts_view(keys@).contains(role@) {
            let j = choose|j: int| 0 <= j < texts_view(keys@).len() && texts_view(keys@)[j] == role@;
            assert(keys@[j]@ == role@);
        }
    }
    false
}

/// Only administrators manage users; anyone else is refused with
/// `Unauthorized`.
pub fn may_manage_users(role_keys: &Vec<String>) -> (allowed: bool)
    ensures
        allowed == texts_view(role_keys@).contains(ADMIN_ROLE_KEY@),
{
    has_role(role_keys, ADMIN_ROLE_KEY)
}

} // verus!
