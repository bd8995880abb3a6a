use domus_auth::errors::{APIErrorBuilder, ErrorType};
use domus_auth::friendly_id::{base62_string, ItemIdType, ToFriendlyId};
use domus_auth::models::APIErrorType;
use domus_auth::tokens::parse_rfc3339_seconds;

#[test]
fn error_type_uris() {
    assert_eq!(ErrorType::Unknown.get_type(), "about:blank");
    assert_eq!(
        ErrorType::ValidationError.get_type(),
        "tag:domus@jacksonc.dev,2023:errors/validation-error"
    );
    assert_eq!(
        ErrorType::UserAlreadyExists.get_type(),
        "tag:domus@jacksonc.dev,2023:errors/user-already-exists"
    );
    assert_eq!(
        ErrorType::LoginIncorrect.get_type(),
        "tag:domus@jacksonc.dev,2023:errors/login-incorrect"
    );
    assert_eq!(ErrorType::Unauthorized.get_type(), "tag:domus@jacksonc.dev,2023:errors/unauthorized");
    assert_eq!(ErrorType::Forbidden.get_type(), "tag:domus@jacksonc.dev,2023:errors/forbidden");
}

#[test]
fn error_type_statuses() {
    assert_eq!(ErrorType::Unknown.get_status(), 500);
    assert_eq!(ErrorType::ValidationError.get_status(), 400);
    assert_eq!(ErrorType::UserAlreadyExists.get_status(), 409);
    assert_eq!(ErrorType::LoginIncorrect.get_status(), 401);
    assert_eq!(ErrorType::Unauthorized.get_status(), 401);
    assert_eq!(ErrorType::Forbidden.get_status(), 403);
}

#[test]
fn error_type_titles_and_details() {
    assert_eq!(ErrorType::Unknown.get_title(), "An unknown error has occurred.");
    assert_eq!(ErrorType::LoginIncorrect.get_title(), "Login Incorrect.");
    assert_eq!(
        ErrorType::LoginIncorrect.get_detail(),
        Some(
            "The email or password you entered is incorrect. Please check your credentials and try again.",
        )
    );
    assert_eq!(ErrorType::Unknown.get_detail(), None);
    assert_eq!(ErrorType::Forbidden.get_detail(), None);
}

#[test]
fn builder_fills_from_error_kind() {
    let err = APIErrorBuilder::new(ErrorType::LoginIncorrect).build();
    assert_eq!(err.status, 401);
    assert_eq!(err.title, "Login Incorrect.");
    assert_eq!(err.error_type, "tag:domus@jacksonc.dev,2023:errors/login-incorrect");
    assert_eq!(
        err.detail.as_deref(),
        Some(
            "The email or password you entered is incorrect. Please check your credentials and try again.",
        )
    );
    assert_eq!(err.instance, None);
    assert!(err.extra.is_none());
}

#[test]
fn builder_detail_wins_over_default() {
    let err = APIErrorBuilder::new(ErrorType::LoginIncorrect).detail("Try again.").build();
    assert_eq!(err.detail.as_deref(), Some("Try again."));
}

#[test]
fn builder_from_error_is_unknown_with_cause() {
    let err = APIErrorBuilder::from_error("the database is on fire").build();
    assert_eq!(err.status, 500);
    assert_eq!(err.title, "An unknown error has occurred.");
    let extra = err.extra.expect("the cause must be attached");
    assert!(extra.iter().any(|(k, v)| k == "cause" && v == "the database is on fire"));
}

#[test]
fn builder_with_field_and_instance() {
    let err = APIErrorBuilder::new(ErrorType::UserAlreadyExists)
        .with_field("email", "a@x.com")
        .instance("tag:domus@jacksonc.dev,2023:occurrences/1".to_string())
        .build();
    assert_eq!(err.status, 409);
    assert_eq!(err.instance.as_deref(), Some("tag:domus@jacksonc.dev,2023:occurrences/1"));
    let extra = err.extra.expect("the field must be attached");
    assert!(extra.iter().any(|(k, v)| k == "email" && v == "a@x.com"));
}

#[test]
fn builder_default_is_unknown() {
    let err = APIErrorBuilder::default().build();
    assert_eq!(err.status, 500);
    assert_eq!(err.title, "An unknown error has occurred.");
}

#[test]
fn api_error_type_descriptions() {
    assert_eq!(APIErrorType::DbError.description(), "database error");
    assert_eq!(APIErrorType::ValidationFailure.description(), "validation failure");
    assert_eq!(APIErrorType::UnknownServerError.description(), "unknown server error");
    assert_eq!(APIErrorType::JsonClientError.description(), "unknown server error");
    assert_eq!(APIErrorType::Unauthorised.description(), "unknown server error");
}

#[test]
fn friendly_id_renders_tag_and_base62() {
    // 1337 in base62, standard alphabet, is "LZ".
    assert_eq!(1337u128.to_friendly_id(ItemIdType::User), "user|LZ");
    assert_eq!(0u128.to_friendly_id(ItemIdType::User), "user|0");
    assert_eq!(ItemIdType::User.as_str(), "user");
}

#[test]
fn base62_digit_boundaries() {
    assert_eq!(base62_string(9), "9");
    assert_eq!(base62_string(10), "A");
    assert_eq!(base62_string(35), "Z");
    assert_eq!(base62_string(36), "a");
    assert_eq!(base62_string(61), "z");
    assert_eq!(base62_string(62), "10");
    assert_eq!(base62_string(62 * 62), "100");
}

#[test]
fn distinct_ids_render_distinct_friendly_ids() {
    let mut seen = Vec::new();
    for n in [0u128, 1, 61, 62, 63, 1337, u128::MAX] {
        let id = n.to_friendly_id(ItemIdType::User);
        assert!(!seen.contains(&id));
        seen.push(id);
    }
}

#[test]
fn rfc3339_parsing_matches_unix_seconds() {
    assert_eq!(parse_rfc3339_seconds("1970-01-01T00:00:10Z"), Some(10));
    assert_eq!(parse_rfc3339_seconds("2023-01-01T00:00:00Z"), Some(1672531200));
    assert_eq!(parse_rfc3339_seconds("not a timestamp"), None);
}
