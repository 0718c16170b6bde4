use vstd::prelude::*;

verus! {

pub const ROLE_MUST_BE_SET: &'static str = "error.role_must_be_set";
pub const UNAUTHORIZED: &'static str = "error.unauthorized";
pub const USER_NOT_FOUND: &'static str = "error.user_not_found";
pub const PARSE_ERROR: &'static str = "error.parse_error";
pub const FOLDER_NOT_FOUND: &'static str = "error.folder_not_found";

pub const MISSING_TOKENS: &'static str = "error.missing_tokens";
pub const INVALID_TOKEN: &'static str = "error.invalid_token";
pub const RATE_LIMIT_EXCEEDED: &'static str = "error.rate_limit_exceeded";
pub const PAYLOAD_TOO_LARGE: &'static str = "error.payload_too_large";
pub const GUEST_CREATION_PAUSED: &'static str = "error.guest_creation_paused";
pub const CAPTCHA_UNAVAILABLE: &'static str = "error.captcha_unavailable";

pub const EMAIL_ALREADY_TAKEN: &'static str = "error.email_already_taken";
pub const USERNAME_ALREADY_TAKEN: &'static str = "error.username_already_taken";
pub const PASSWORDS_DO_NOT_MATCH: &'static str = "error.passwords_do_not_match";
pub const INVALID_CREDENTIALS: &'static str = "error.invalid_credentials";

pub const GAME_NOT_FOUND: &'static str = "error.game_not_found";
pub const INVITE_NOT_FOUND: &'static str = "error.invite_not_found";
pub const INVITE_NOT_AVAILABLE: &'static str = "error.invite_not_available";
pub const INVITE_EXPIRED: &'static str = "error.invite_expired";
pub const CANNOT_ACCEPT_OWN_INVITE: &'static str = "error.cannot_accept_own_invite";

pub const INTERNAL_ERROR: &'static str = "error.internal_error";
pub const INVALID_REQUEST_BODY: &'static str = "error.invalid_request_body";

pub const VALIDATION_INVALID_PASSWORD_LEN: &'static str = "error.validation.invalid_password_len";
pub const VALIDATION_REQUIRED: &'static str = "error.validation.required";

pub const VALIDATION_INVALID_EMAIL: &'static str = "error.validation.invalid_email";

} // verus!
