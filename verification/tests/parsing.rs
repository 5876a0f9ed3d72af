use user_service::httpreq::{body_of, get_id, parse_request, route, Route};
use user_service::text::parse_id;

#[test]
fn route_precedence_get_one_vs_list() {
    assert!(matches!(route("GET /users/42 HTTP/1.1\r\n\r\n"), Route::GetUser));
    assert!(matches!(route("GET /users HTTP/1.1\r\n\r\n"), Route::ListUsers));
}

#[test]
fn route_all_rules() {
    assert!(matches!(route("POST /users HTTP/1.1\r\n\r\n{}"), Route::CreateUser));
    assert!(matches!(route("PUT /users/7 HTTP/1.1\r\n\r\n{}"), Route::UpdateUser));
    assert!(matches!(route("DELETE /users/7 HTTP/1.1\r\n\r\n"), Route::DeleteUser));
    assert!(matches!(route("PATCH /users/7 HTTP/1.1\r\n\r\n"), Route::NoRoute));
    assert!(matches!(route("GET /orders HTTP/1.1\r\n\r\n"), Route::NoRoute));
}

#[test]
fn route_empty_and_garbage_input() {
    assert!(matches!(route(""), Route::NoRoute));
    assert!(matches!(route("\r\n"), Route::NoRoute));
    assert!(matches!(route("GET"), Route::NoRoute));
}

#[test]
fn get_id_plain() {
    assert_eq!(get_id("GET /users/42 HTTP/1.1\r\n\r\n"), "42");
}

#[test]
fn get_id_trailing_path_segment() {
    assert_eq!(get_id("GET /users/42/extra HTTP/1.1\r\n\r\n"), "42");
}

#[test]
fn get_id_missing_segments() {
    // with no id segment the second slash is the one in "HTTP/1.1", and
    // the token after it is its version tail — a non-numeric token that
    // the id parse then rejects
    assert_eq!(get_id("GET /users HTTP/1.1\r\n\r\n"), "1.1");
    assert_eq!(get_id("GET /users/ HTTP/1.1\r\n\r\n"), "HTTP");
    assert_eq!(get_id("nonsense"), "");
    assert_eq!(get_id("no slashes here"), "");
    assert_eq!(get_id(""), "");
}

#[test]
fn get_id_query_string_kept() {
    // the query string is not parsed; it rides along with the token
    assert_eq!(get_id("GET /users/42?x=1 HTTP/1.1\r\n\r\n"), "42?x=1");
}

#[test]
fn parse_id_accepts_digits_only() {
    assert_eq!(parse_id("42"), Some(42));
    assert_eq!(parse_id("0"), Some(0));
    assert_eq!(parse_id("007"), Some(7));
    assert_eq!(parse_id("9223372036854775807"), Some(i64::MAX));
}

#[test]
fn parse_id_rejects_bad_tokens() {
    assert_eq!(parse_id(""), None);
    assert_eq!(parse_id("abc"), None);
    assert_eq!(parse_id("4a2"), None);
    assert_eq!(parse_id("-1"), None);
    assert_eq!(parse_id("+1"), None);
    assert_eq!(parse_id("9223372036854775808"), None);
    assert_eq!(parse_id("99999999999999999999999"), None);
}

#[test]
fn body_after_blank_line() {
    assert_eq!(
        body_of("POST /users HTTP/1.1\r\nHost: x\r\n\r\n{\"a\":1}"),
        "{\"a\":1}"
    );
}

#[test]
fn body_missing_blank_line_is_empty() {
    assert_eq!(body_of("POST /users HTTP/1.1\r\nHost: x"), "");
    assert_eq!(body_of(""), "");
}

#[test]
fn body_takes_first_blank_line() {
    assert_eq!(body_of("GET / HTTP/1.1\r\n\r\nfirst\r\n\r\nsecond"), "first\r\n\r\nsecond");
}

#[test]
fn parse_request_pieces() {
    let pr = parse_request("GET /users/9 HTTP/1.1\r\nHost: x\r\n\r\nhello");
    assert_eq!(pr.method, "GET");
    assert_eq!(pr.path, "/users/9");
    assert_eq!(pr.body, "hello");
}

#[test]
fn parse_request_degrades_on_short_input() {
    let pr = parse_request("");
    assert_eq!(pr.method, "");
    assert_eq!(pr.path, "");
    assert_eq!(pr.body, "");
    let pr2 = parse_request("GET\r\n");
    assert_eq!(pr2.method, "GET");
    assert_eq!(pr2.path, "");
}
