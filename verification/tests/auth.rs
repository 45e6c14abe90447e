use dify_openai::auth::{check_method, get_bearer_token, set_bearer_auth, AuthorizationHeader};
use dify_openai::error::ErrorKind;

#[test]
fn bearer_token_is_taken_from_the_header() {
    let header = AuthorizationHeader::Text("Bearer app-123".to_string());
    assert_eq!(get_bearer_token(&header).unwrap(), "app-123");
}

#[test]
fn bearer_token_ignores_the_scheme_name() {
    let header = AuthorizationHeader::Text("Token xyz".to_string());
    assert_eq!(get_bearer_token(&header).unwrap(), "xyz");
}

#[test]
fn bearer_token_stops_at_the_second_space() {
    let header = AuthorizationHeader::Text("Bearer abc def".to_string());
    assert_eq!(get_bearer_token(&header).unwrap(), "abc");
}

#[test]
fn missing_header_is_reported() {
    let err = get_bearer_token(&AuthorizationHeader::Absent).unwrap_err();
    assert_eq!(err.kind, ErrorKind::AuthPassthroughAbsent);
    assert_eq!(err.message, "Authorization header not found");
}

#[test]
fn header_that_is_not_text_is_reported() {
    let err = get_bearer_token(&AuthorizationHeader::NotText).unwrap_err();
    assert_eq!(err.kind, ErrorKind::AuthPassthroughAbsent);
    assert_eq!(err.message, "Authorization header is not a valid string");
}

#[test]
fn header_without_a_token_is_reported() {
    let header = AuthorizationHeader::Text("Bearer".to_string());
    let err = get_bearer_token(&header).unwrap_err();
    assert_eq!(err.kind, ErrorKind::AuthPassthroughAbsent);
    assert_eq!(err.message, "Bearer Token not found");
}

#[test]
fn empty_token_is_accepted() {
    let header = AuthorizationHeader::Text("Bearer ".to_string());
    assert_eq!(get_bearer_token(&header).unwrap(), "");
}

#[test]
fn bearer_value_puts_the_scheme_in_front() {
    assert_eq!(set_bearer_auth("app-123"), "Bearer app-123");
    assert_eq!(set_bearer_auth(""), "Bearer ");
}

#[test]
fn bearer_value_round_trips_through_the_token() {
    let header = AuthorizationHeader::Text(set_bearer_auth("secret"));
    assert_eq!(get_bearer_token(&header).unwrap(), "secret");
}

#[test]
fn options_is_answered_with_no_content() {
    assert_eq!(check_method("OPTIONS"), Err(204));
}

#[test]
fn other_methods_pass() {
    assert_eq!(check_method("POST"), Ok(()));
    assert_eq!(check_method("GET"), Ok(()));
    assert_eq!(check_method("options"), Ok(()));
    assert_eq!(check_method(""), Ok(()));
}
