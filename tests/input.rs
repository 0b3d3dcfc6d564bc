use trip_planner::route::{route, session_route, Method, Route, SessionRoute};
use trip_planner::text::{contains_text, same_text, starts_with_text, trim_prefix};
use trip_planner::validate::{parse_u32, validate_creation, Field, ValidationError};

fn s(x: &str) -> Option<String> {
    Some(x.to_string())
}

#[test]
fn parse_u32_reads_decimal() {
    assert_eq!(parse_u32("5"), Some(5));
    assert_eq!(parse_u32("+7"), Some(7));
    assert_eq!(parse_u32("007"), Some(7));
    assert_eq!(parse_u32("4294967295"), Some(4294967295));
}

#[test]
fn parse_u32_refuses_non_numbers() {
    assert_eq!(parse_u32(""), None);
    assert_eq!(parse_u32("+"), None);
    assert_eq!(parse_u32("-1"), None);
    assert_eq!(parse_u32("5 "), None);
    assert_eq!(parse_u32("five"), None);
    assert_eq!(parse_u32("4294967296"), None);
    assert_eq!(parse_u32("99999999999x"), None);
}

#[test]
fn parse_u32_agrees_with_std() {
    for t in ["0", "12", "+3", "-3", "", "1e3", "4294967295", "4294967296", "00"] {
        assert_eq!(parse_u32(t), t.parse::<u32>().ok(), "{}", t);
    }
}

#[test]
fn validate_accepts_a_valid_request() {
    assert_eq!(validate_creation(s("Paris"), s("5")), Ok(("Paris".to_string(), 5)));
}

#[test]
fn validate_names_the_offending_field() {
    assert_eq!(
        validate_creation(None, s("5")),
        Err(ValidationError::Missing(Field::Destination))
    );
    assert_eq!(
        validate_creation(s(""), s("5")),
        Err(ValidationError::Missing(Field::Destination))
    );
    assert_eq!(validate_creation(s("Paris"), None), Err(ValidationError::Missing(Field::Days)));
    assert_eq!(validate_creation(s("Paris"), s("")), Err(ValidationError::Missing(Field::Days)));
    assert_eq!(
        validate_creation(s("Paris"), s("five")),
        Err(ValidationError::Malformed(Field::Days))
    );
    assert_eq!(
        validate_creation(s("Paris"), s("0")),
        Err(ValidationError::Malformed(Field::Days))
    );
}

#[test]
fn validation_messages() {
    assert_eq!(
        ValidationError::Missing(Field::Destination).message(),
        "Missing field: destination"
    );
    assert_eq!(ValidationError::Missing(Field::Days).message(), "Missing field: days");
    assert_eq!(
        ValidationError::Malformed(Field::Days).message(),
        "days must be a positive number"
    );
}

#[test]
fn text_helpers() {
    assert!(same_text("abc", "abc"));
    assert!(!same_text("abc", "abd"));
    assert!(!same_text("abc", "ab"));
    assert!(starts_with_text("/trip/x", "/trip/"));
    assert!(!starts_with_text("/tri", "/trip/"));
    assert!(contains_text("text/html,application/xhtml+xml", "text/html"));
    assert!(contains_text("application/json, text/html", "text/html"));
    assert!(!contains_text("application/json", "text/html"));
    assert!(contains_text("", ""));
    assert_eq!(trim_prefix("/trip/abc", "/trip/"), "abc");
    assert_eq!(trim_prefix("/trip//trip/abc", "/trip/"), "abc");
    assert_eq!(trim_prefix("/chat/abc", "/trip/"), "/chat/abc");
    assert_eq!(trim_prefix("abc", ""), "abc");
}

#[test]
fn routes_of_the_interface() {
    assert!(matches!(route(Method::Get, "/", ""), Route::Index));
    assert!(matches!(route(Method::Post, "/input", ""), Route::Input));
    assert!(matches!(route(Method::Get, "/trip/T1", "text/html"), Route::TripPage));
    match route(Method::Get, "/trip/T1", "application/json") {
        Route::TripDefinition(id) => assert_eq!(id, "T1"),
        _ => panic!("expected a definition read"),
    }
    match route(Method::Post, "/trip/T1", "") {
        Route::Chat(id) => assert_eq!(id, "T1"),
        _ => panic!("expected a chat turn"),
    }
    match route(Method::Get, "/chat/T1", "") {
        Route::History(id) => assert_eq!(id, "T1"),
        _ => panic!("expected a history read"),
    }
    assert!(matches!(route(Method::Post, "/", ""), Route::NotFound));
    assert!(matches!(route(Method::Other, "/trip/T1", ""), Route::NotFound));
    assert!(matches!(route(Method::Get, "/elsewhere", ""), Route::NotFound));
}

#[test]
fn session_routes() {
    assert_eq!(session_route(Method::Post, "/init"), SessionRoute::Init);
    assert_eq!(session_route(Method::Get, "/"), SessionRoute::Read);
    assert_eq!(session_route(Method::Get, "/init"), SessionRoute::NotFound);
    assert_eq!(session_route(Method::Post, "/"), SessionRoute::NotFound);
}
