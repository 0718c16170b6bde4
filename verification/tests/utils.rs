use tavla_api::utils::merge_json::{merge_json, merge_value, Json};
use tavla_api::service::authentication::jwt::AppRole;
use tavla_api::service::entity_service::users_entity_service::{
    has_role, may_manage_users, roles_from_keys, AccountStatus, AddDeductCreditInputDto, CreateUserInputDto,
    UpdateUserInputDto, CAN_NOT_BE_EMPTY,
};
use tavla_api::utils::clock::{unix_ms_from, unix_seconds_from, utc_ms_or_epoch, MAX_UTC_MS, MIN_UTC_MS};
use tavla_api::utils::consts::errors;
use tavla_api::utils::datatable::{page_window, sort_ascending, Datatable};
use tavla_api::utils::error_response::safe_error_key;
use tavla_api::utils::text::{decimal_string, parse_u64, same_text, trim};
use tavla_api::service::authentication::types::validated_json::FieldError;
use tavla_api::types::http::api_response::{ApiResponse, ErrorMap, GLOBAL_ERROR_KEY};

#[test]
fn error_keys_pass_and_anything_else_becomes_an_internal_error() {
    assert_eq!(safe_error_key(errors::INVITE_EXPIRED), errors::INVITE_EXPIRED);
    assert_eq!(safe_error_key("connection refused (os error 111)"), errors::INTERNAL_ERROR);
    assert_eq!(safe_error_key("error"), errors::INTERNAL_ERROR);
}

#[test]
fn a_page_is_picked_with_defaults_and_bounds() {
    assert_eq!(page_window(None, None), (0, 5));
    assert_eq!(page_window(Some("20"), Some("50")), (20, 50));
    assert_eq!(page_window(Some("x"), Some("2")), (0, 5));
    assert_eq!(page_window(Some("3"), Some("5000")), (3, 1000));
    assert!(sort_ascending(None));
    assert!(sort_ascending(Some("asc")));
    assert!(!sort_ascending(Some("desc")));
    assert!(!sort_ascending(Some("ASC")));
    let table = Datatable::new(12, vec![1, 2]);
    assert_eq!((table.records_total, table.records_filtered, table.data), (12, 12, vec![1, 2]));
}

#[test]
fn text_helpers_read_and_write_numbers_and_trim_white_space() {
    assert_eq!(decimal_string(0), "0");
    assert_eq!(decimal_string(18_446_744_073_709_551_615), "18446744073709551615");
    assert_eq!(parse_u64("18446744073709551615"), Some(u64::MAX));
    assert_eq!(parse_u64("18446744073709551616"), None);
    assert_eq!(parse_u64(""), None);
    assert_eq!(parse_u64("+"), None);
    assert_eq!(parse_u64("-1"), None);
    assert_eq!(trim("\u{a0} a b \n"), "a b");
    assert!(same_text("ab", "ab") && !same_text("ab", "abc"));
}

#[test]
fn role_lists_are_read_with_unknown_keys_as_guests() {
    let keys = vec!["admin".to_string(), "owner".to_string(), "user".to_string()];
    assert_eq!(roles_from_keys(&keys), vec![AppRole::Admin, AppRole::Guest, AppRole::User]);
    assert!(has_role(&keys, "owner"));
    assert!(!has_role(&keys, "reseller"));
    assert!(may_manage_users(&keys));
    assert!(!may_manage_users(&vec!["user".to_string()]));
}

#[test]
fn user_forms_report_every_empty_field() {
    let empty = AddDeductCreditInputDto::default();
    let failed = empty.validate().expect_err("refused");
    let fields: Vec<String> = failed.iter().map(|e| e.field.clone()).collect();
    assert_eq!(fields, vec!["user_id", "credit_amount", "price", "operation"]);
    assert!(failed.iter().all(|e| e.message == CAN_NOT_BE_EMPTY));

    let create = CreateUserInputDto {
        firstname: "A".to_string(),
        lastname: "B".to_string(),
        email: "a@example.com".to_string(),
        password: "secret".to_string(),
        password_again: "secret".to_string(),
        role: "user".to_string(),
        status: "active".to_string(),
    };
    assert!(create.validate().is_ok());
    assert!(create.passwords_match());
    let no_email = CreateUserInputDto { email: "x".to_string(), ..create.clone() };
    let failed = no_email.validate().expect_err("refused");
    assert_eq!((failed[0].field.as_str(), failed[0].message.as_str()), ("email", errors::VALIDATION_REQUIRED));
}

#[test]
fn only_active_makes_an_account_active() {
    assert_eq!(AccountStatus::from_text("active"), AccountStatus::Active);
    assert_eq!(AccountStatus::from_text("Active"), AccountStatus::Passive);
    let update = UpdateUserInputDto { id: 1, status: Some("passive".to_string()), password: Some(String::new()), ..Default::default() };
    assert_eq!(update.status_to_set(), Some(AccountStatus::Passive));
    assert_eq!(update.password_to_set(), None);
    let update = UpdateUserInputDto { password: Some("new".to_string()), ..Default::default() };
    assert_eq!(update.password_to_set(), Some("new"));
    assert_eq!(update.status_to_set(), None);
}


fn object(members: Vec<(&str, Json)>) -> Json {
    Json::Object(members.into_iter().map(|(k, v)| (k.to_string(), v)).collect())
}

fn text(t: &str) -> Json {
    Json::Str(t.to_string())
}

fn member<'a>(value: &'a Json, key: &str) -> Option<&'a Json> {
    match value {
        Json::Object(members) => members.iter().find(|(k, _)| k == key).map(|(_, v)| v),
        _ => None,
    }
}

#[test]
fn merging_objects_merges_nested_objects_and_replaces_the_rest() {
    let mut a = object(vec![("a", text("1")), ("n", object(vec![("x", text("x")), ("y", text("y"))]))]);
    let b = object(vec![("a", text("2")), ("n", object(vec![("y", text("Y"))])), ("c", Json::Null)]);
    merge_json(&mut a, &b);
    assert!(matches!(member(&a, "a"), Some(Json::Str(s)) if s == "2"));
    assert!(matches!(member(&a, "c"), Some(Json::Null)));
    let nested = member(&a, "n").expect("kept");
    assert!(matches!(member(nested, "x"), Some(Json::Str(s)) if s == "x"));
    assert!(matches!(member(nested, "y"), Some(Json::Str(s)) if s == "Y"));

    let mut not_an_object = text("plain");
    merge_json(&mut not_an_object, &b);
    assert!(matches!(not_an_object, Json::Str(s) if s == "plain"));
}

#[test]
fn overlaying_concatenates_arrays_and_ignores_nulls() {
    let mut a = object(vec![("list", Json::Array(vec![text("1")])), ("keep", text("k"))]);
    let b = object(vec![("list", Json::Array(vec![text("2")])), ("keep", Json::Null), ("new", Json::Null)]);
    merge_value(&mut a, &b);
    match member(&a, "list") {
        Some(Json::Array(items)) => assert_eq!(items.len(), 2),
        other => panic!("an array was expected, got {other:?}"),
    }
    assert!(matches!(member(&a, "keep"), Some(Json::Str(s)) if s == "k"));
    assert!(matches!(member(&a, "new"), Some(Json::Null)));

    let mut list = Json::Array(vec![]);
    merge_value(&mut list, &object(vec![("z", text("z"))]));
    assert!(matches!(list, Json::Array(items) if items.len() == 1));
}


fn field_error(field: &str, message: &str) -> FieldError {
    FieldError { field: field.to_string(), message: message.to_string() }
}

#[test]
fn a_global_error_is_set_once_beside_the_field_errors() {
    let fields = ErrorMap::from_field_errors(&vec![
        field_error("email", "error.validation.invalid_email"),
        field_error("password", "a"),
        field_error("password", "b"),
    ]);
    let response: ApiResponse<u8> = ApiResponse::new()
        .with_data(7)
        .with_error(fields)
        .with_global_error("error.first")
        .with_global_error("error.second");
    assert_eq!(response.data, Some(7));
    let entries = response.error.expect("errors").entries().clone();
    assert_eq!(
        entries,
        vec![
            ("email".to_string(), "error.validation.invalid_email".to_string()),
            ("password".to_string(), "b".to_string()),
            (GLOBAL_ERROR_KEY.to_string(), "error.second".to_string()),
        ]
    );
    let bare: ApiResponse<u8> = ApiResponse::new();
    assert!(bare.error.is_none() && bare.data.is_none());
}

#[test]
fn a_clock_reading_becomes_unix_milliseconds() {
    assert_eq!(unix_ms_from(None), 0);
    assert_eq!(unix_ms_from(Some(1_790_000_000_123)), 1_790_000_000_123);
    assert_eq!(unix_ms_from(Some(u128::MAX)), i64::MAX);
    assert_eq!(unix_seconds_from(Some(1_999)), 1);
    assert_eq!(unix_seconds_from(None), 0);
}

#[test]
fn unix_milliseconds_outside_the_dates_of_chrono_become_the_epoch() {
    assert_eq!(utc_ms_or_epoch(1_790_000_000_000), 1_790_000_000_000);
    assert_eq!(utc_ms_or_epoch(-1), -1);
    assert_eq!(utc_ms_or_epoch(MIN_UTC_MS), MIN_UTC_MS);
    assert_eq!(utc_ms_or_epoch(MAX_UTC_MS), MAX_UTC_MS);
    assert_eq!(utc_ms_or_epoch(MIN_UTC_MS - 1), 0);
    assert_eq!(utc_ms_or_epoch(MAX_UTC_MS + 1), 0);
    assert_eq!(utc_ms_or_epoch(i64::MAX), 0);
    assert_eq!(utc_ms_or_epoch(i64::MIN), 0);
}
