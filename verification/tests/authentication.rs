use tavla_api::service::access_control::ip_rate_limiter::{IpAddress, LimiterState};
use tavla_api::service::access_control::sliding_window_limiter::SlidingWindowLimiter;
use tavla_api::service::authentication::guest::{
    admit_guest_creation, generate_guest_username, guest_sign_in_verdict, requested_name, username_step,
    validate_guest_unique_id, GuestInputDto, GuestLoginError, UsernameStep, INVALID_GUEST_UNIQUE_ID, GENERATED_USERNAME_ATTEMPTS, GUEST_UNIQUE_ID_MAX_LEN,
    GUEST_UNIQUE_ID_MIN_LEN,
};
use tavla_api::service::authentication::jwt::{
    claims_from_jwt, AppPerm, AppRole, AuthError, Claims, PermOperation, ISSUER,
};
use tavla_api::service::authentication::login::{sign_in_verdict, LoginInputDto, SignInRefusal};
use tavla_api::service::authentication::register::{RegisterInputDto, RegisterRefusal};
use tavla_api::service::entity_service::users_entity_service::{create_user_step, CreateUserError};
use tavla_api::service::authentication::types::email::Email;
use tavla_api::service::authentication::types::password::Password;
use tavla_api::service::authentication::update_profile::UpdateProfileInputDto;
use tavla_api::utils::consts::errors;

fn input_with_id(guest_unique_id: &str) -> GuestInputDto {
    GuestInputDto { display_name: None, guest_unique_id: guest_unique_id.to_string() }
}

#[test]
fn accepts_a_64_char_hex_device_secret() {
    assert!(input_with_id(&"a1b2c3d4".repeat(8)).validate().is_ok());
}

#[test]
fn accepts_uuid_like_ids_with_dashes_and_underscores() {
    assert!(input_with_id("123e4567-e89b-12d3-a456-426614174000").validate().is_ok());
    assert!(input_with_id(&"A_b-".repeat(10)).validate().is_ok());
}

#[test]
fn rejects_short_long_and_unsafe_ids() {
    assert!(input_with_id("").validate().is_err());
    assert!(input_with_id(&"a".repeat(GUEST_UNIQUE_ID_MIN_LEN - 1)).validate().is_err());
    assert!(input_with_id(&"a".repeat(GUEST_UNIQUE_ID_MAX_LEN + 1)).validate().is_err());
    assert!(input_with_id(&format!("{}'; DROP TABLE users;--", "a".repeat(32))).validate().is_err());
    assert!(input_with_id(&format!("{} {}", "a".repeat(20), "b".repeat(20))).validate().is_err());
}

#[test]
fn a_refused_device_id_is_reported_on_its_field() {
    let failed = input_with_id("short").validate().expect_err("refused");
    assert_eq!(failed.len(), 1);
    assert_eq!(failed[0].field, "guest_unique_id");
    assert_eq!(failed[0].message, errors::VALIDATION_REQUIRED);
}

#[test]
fn generated_usernames_follow_the_guest_pattern() {
    let username = generate_guest_username();
    assert!(username.starts_with("Misafir"));
    assert_eq!(username.len(), "Misafir".len() + 6);
    assert!(username["Misafir".len()..].chars().all(|c| c.is_ascii_digit()));
}

#[test]
fn creation_paused_error_displays_its_own_error_key() {
    let err = GuestLoginError::CreationPaused { retry_after_ms: 5_000 };
    assert_eq!(err.to_string(), errors::GUEST_CREATION_PAUSED);
}

#[test]
fn rate_limited_error_displays_the_shared_error_key() {
    let err = GuestLoginError::RateLimited { retry_after_ms: 5_000 };
    assert_eq!(err.to_string(), errors::RATE_LIMIT_EXCEEDED);
}

#[test]
fn a_failure_displays_its_message() {
    let err = GuestLoginError::Failed("error.username_already_taken".to_string());
    assert_eq!(err.to_string(), "error.username_already_taken");
}

#[test]
fn a_requested_name_is_trimmed_and_a_blank_one_is_ignored() {
    assert_eq!(requested_name(Some("  Ayşe \t")), Some("Ayşe".to_string()));
    assert_eq!(requested_name(Some(" \u{3000} ")), None);
    assert_eq!(requested_name(None), None);
}

#[test]
fn guest_creation_is_limited_per_client_first_and_then_globally() {
    let mut per_client = LimiterState::new(0);
    let mut global = SlidingWindowLimiter::new();
    let client = Some(IpAddress::V4(0x0A00_0001));
    assert!(admit_guest_creation(&mut per_client, &mut global, 1_000, client, 1, 2).is_ok());
    assert!(matches!(
        admit_guest_creation(&mut per_client, &mut global, 2_000, client, 1, 2),
        Err(GuestLoginError::RateLimited { retry_after_ms: 3_599_000 })
    ));
    assert_eq!(global.recorded_events(), 1);
    assert!(admit_guest_creation(&mut per_client, &mut global, 3_000, None, 1, 2).is_ok());
    assert!(matches!(
        admit_guest_creation(&mut per_client, &mut global, 4_000, None, 1, 2),
        Err(GuestLoginError::CreationPaused { retry_after_ms: 3_597_000 })
    ));
}

#[test]
fn email_string_ok() {
    let email = Email::parse("test@test.com");
    assert!(email.is_ok());
    let email: String = email.unwrap().into_string();
    assert_eq!(email, "test@test.com");
}

#[test]
fn email_string_err() {
    let email = Email::parse("test.com");
    assert!(email.is_err());
    let message: String = email.unwrap_err().to_string();
    assert_eq!(message, "Wrong e-mail address.");
}

#[test]
fn password_err_1() {
    let password = Password::plain_text("12345");
    assert!(password.is_err());
}

#[test]
fn a_password_is_trimmed_and_counted_in_bytes() {
    assert_eq!(Password::plain_text("  123456 ").unwrap(), "123456");
    assert!(Password::plain_text("  12345 ").is_err());
    assert_eq!(Password::plain_text("ğüş").unwrap(), "ğüş");
    assert_eq!(Password::plain_text("12345").unwrap_err().to_string(), "Password must be minimum 6 characters.");
    assert_eq!(Password::from_hash("hash".to_string()).as_str(), "hash");
}

#[test]
fn role_keys_are_snake_case_and_read_back() {
    for role in [AppRole::Admin, AppRole::Reseller, AppRole::User, AppRole::Guest] {
        assert_eq!(AppRole::from_key(role.key()), Some(role));
    }
    assert_eq!(AppRole::Reseller.key(), "reseller");
    assert_eq!(AppRole::from_key("Admin"), None);
    assert_eq!(AppRole::default(), AppRole::Guest);
    assert!(AppRole::Admin < AppRole::Reseller && AppRole::User < AppRole::Guest);
    assert_eq!(AppPerm::Role.key(), "role");
    assert_eq!(PermOperation::Delete.key(), "delete");
}

#[test]
fn claims_are_built_step_by_step() {
    let claims = Claims::issued_at(1_000)
        .with_sub(42)
        .with_roles(vec![AppRole::User])
        .with_perms(vec!["user.read".to_string()])
        .with_exp_at(1_000, 3_600);
    assert_eq!(claims.iss, ISSUER);
    assert_eq!(claims.iat, 1_000);
    assert_eq!(claims.exp, 4_600);
    assert_eq!(claims.sub, 42);
    assert_eq!(claims.roles, vec![AppRole::User]);
    assert_eq!(claims.perms, vec!["user.read".to_string()]);
    assert_eq!(Claims::issued_at(0).exp, 8 * 3_600);
}

#[test]
fn a_token_expires_the_given_hours_from_now() {
    let before = chrono::Utc::now().timestamp() as u64;
    let claims = Claims::new().with_exp_hours(24);
    let after = chrono::Utc::now().timestamp() as u64;
    assert!(before + 24 * 3_600 <= claims.exp && claims.exp <= after + 24 * 3_600);
    assert!(before <= claims.iat && claims.iat <= after);
    let minutes = Claims::new().with_exp_minutes(5);
    assert!(before + 300 <= minutes.exp && minutes.exp <= chrono::Utc::now().timestamp() as u64 + 300);
}

#[test]
fn an_undecodable_token_is_an_invalid_token() {
    assert!(matches!(claims_from_jwt(None), Err(AuthError::InvalidToken)));
    assert_eq!(claims_from_jwt(Some(Claims::issued_at(5))).unwrap().iat, 5);
    assert_eq!(AuthError::MissingToken.key(), errors::MISSING_TOKENS);
    assert_eq!(AuthError::InvalidToken.key(), errors::INVALID_TOKEN);
}

#[test]
fn the_login_form_needs_an_address_and_a_password() {
    let ok = LoginInputDto { email: "a@example.com".to_string(), password: "x".to_string() };
    assert!(ok.validate().is_ok());
    let bad = LoginInputDto { email: "nope".to_string(), password: String::new() };
    let failed = bad.validate().expect_err("refused");
    let reported: Vec<(String, String)> = failed.into_iter().map(|e| (e.field, e.message)).collect();
    assert_eq!(
        reported,
        vec![
            ("email".to_string(), "error.validation.invalid_email".to_string()),
            ("password".to_string(), "error.validation.required".to_string()),
        ]
    );
}

#[test]
fn sign_in_checks_credentials_before_the_account_status() {
    assert_eq!(sign_in_verdict(false, true, true, true), Err(SignInRefusal::InvalidCredentials));
    assert_eq!(sign_in_verdict(true, false, true, false), Err(SignInRefusal::InvalidCredentials));
    assert_eq!(sign_in_verdict(true, true, false, false), Err(SignInRefusal::InvalidCredentials));
    assert_eq!(sign_in_verdict(true, true, true, false), Err(SignInRefusal::Unauthorized));
    assert_eq!(sign_in_verdict(true, true, true, true), Ok(()));
    assert_eq!(SignInRefusal::InvalidCredentials.key(), errors::INVALID_CREDENTIALS);
}

#[test]
fn registration_needs_a_six_character_password_typed_twice() {
    let mut form = RegisterInputDto {
        email: "a@example.com".to_string(),
        password: "secret".to_string(),
        password_again: "secret".to_string(),
        username: None,
    };
    assert!(form.validate().is_ok());
    assert!(form.passwords_match());
    form.password_again = "secreT".to_string();
    assert!(!form.passwords_match());
    form.password = "short".to_string();
    let failed = form.validate().expect_err("refused");
    assert_eq!(failed[0].field, "password");
    assert_eq!(failed[0].message, errors::VALIDATION_INVALID_PASSWORD_LEN);
}

#[test]
fn a_profile_change_needs_a_confirmed_long_enough_password() {
    let none = UpdateProfileInputDto { username: Some("x".to_string()), password: None, password_again: None };
    assert!(none.validate().is_ok());
    assert!(none.password_confirmed());
    let short = UpdateProfileInputDto { username: None, password: Some("abc".to_string()), password_again: None };
    assert_eq!(short.validate().unwrap_err()[0].message, "Password must be at least 6 characters");
    assert!(!short.password_confirmed());
    let good = UpdateProfileInputDto {
        username: None,
        password: Some("abcdef".to_string()),
        password_again: Some("abcdef".to_string()),
    };
    assert!(good.validate().is_ok());
    assert!(good.password_confirmed());
}

fn registration(password_again: &str, username: Option<&str>) -> RegisterInputDto {
    RegisterInputDto {
        email: "player@example.com".to_string(),
        password: "secret1".to_string(),
        password_again: password_again.to_string(),
        username: username.map(|name| name.to_string()),
    }
}

#[test]
fn a_registration_is_refused_for_passwords_then_email_then_username() {
    let mismatched = registration("secret2", Some("ali"));
    assert_eq!(mismatched.registration_step(true, true), Err(RegisterRefusal::PasswordsDoNotMatch));
    let matched = registration("secret1", Some("ali"));
    assert_eq!(matched.registration_step(true, true), Err(RegisterRefusal::EmailAlreadyTaken));
    assert_eq!(matched.registration_step(false, true), Err(RegisterRefusal::UsernameAlreadyTaken));
    assert_eq!(matched.registration_step(false, false), Ok(()));
    let nameless = registration("secret1", None);
    assert_eq!(nameless.registration_step(false, true), Ok(()));
    assert_eq!(RegisterRefusal::PasswordsDoNotMatch.message(), errors::PASSWORDS_DO_NOT_MATCH);
    assert_eq!(RegisterRefusal::EmailAlreadyTaken.message(), errors::EMAIL_ALREADY_TAKEN);
    assert_eq!(RegisterRefusal::UsernameAlreadyTaken.message(), errors::USERNAME_ALREADY_TAKEN);
}

#[test]
fn a_user_creation_is_refused_for_email_then_passwords_then_role() {
    assert_eq!(create_user_step(true, false, false), Err(CreateUserError::EmailExists));
    assert_eq!(create_user_step(false, false, false), Err(CreateUserError::PasswordsDoNotMatch));
    assert_eq!(create_user_step(false, true, false), Err(CreateUserError::RoleNotFound));
    assert_eq!(create_user_step(false, true, true), Ok(()));
    assert_eq!(CreateUserError::EmailExists.message(), "Email exist");
    assert_eq!(CreateUserError::PasswordsDoNotMatch.message(), "Passwords must be match.");
    assert_eq!(CreateUserError::RoleNotFound.message(), "Role not found");
}

#[test]
fn the_guest_username_search_gives_up_after_its_attempts() {
    assert_eq!(username_step(true, 0, false), UsernameStep::Accept);
    assert_eq!(username_step(true, 0, true), UsernameStep::GiveUp);
    assert_eq!(username_step(false, 1, true), UsernameStep::TryAnother);
    assert_eq!(username_step(false, GENERATED_USERNAME_ATTEMPTS - 1, true), UsernameStep::TryAnother);
    assert_eq!(username_step(false, GENERATED_USERNAME_ATTEMPTS, true), UsernameStep::GiveUp);
    assert_eq!(username_step(false, GENERATED_USERNAME_ATTEMPTS, false), UsernameStep::Accept);
}

#[test]
fn only_an_active_guest_account_signs_in() {
    assert_eq!(guest_sign_in_verdict(true), Ok(()));
    assert_eq!(guest_sign_in_verdict(false), Err(SignInRefusal::Unauthorized));
}

#[test]
fn a_refused_device_id_carries_its_own_code() {
    assert_eq!(validate_guest_unique_id(""), Err(INVALID_GUEST_UNIQUE_ID));
    assert_eq!(validate_guest_unique_id(&"a".repeat(31)), Err("invalid_guest_unique_id"));
    assert_eq!(validate_guest_unique_id(&"a".repeat(129)), Err("invalid_guest_unique_id"));
    assert_eq!(validate_guest_unique_id(&format!("{}'; DROP TABLE users;--", "a".repeat(32))), Err("invalid_guest_unique_id"));
    assert_eq!(validate_guest_unique_id(&"a".repeat(32)), Ok(()));
}
