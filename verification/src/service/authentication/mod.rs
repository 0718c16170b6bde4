//! Sign-in: tokens, guests, and the rules of the account forms.

use vstd::prelude::*;

pub mod guest;
pub mod jwt;
pub mod login;
pub mod register;
pub mod types;
pub mod update_profile;

verus! {

/// What a successful sign-in returns.
#[derive(Clone, Debug)]
pub struct AuthResultDto {
    pub token: String,
    pub user_id: u64,
    pub email: Option<String>,
    pub username: Option<String>,
    pub is_guest: bool,
}

} // verus!
