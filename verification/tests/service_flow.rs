use user_service::json::{parse_user_body, render_record};
use user_service::service::{
    handle_bytes, handle_request, render_response, Response, StatusKind,
};
use user_service::store::Store;

const OK_PREFIX: &str = "HTTP/1.1 200 OK\r\nContent-Type: application/json\r\n\r\n";
const NOT_FOUND_LINE: &str = "HTTP/1.1 404 NOT FOUND\r\n\r\n";
const BAD_REQUEST_LINE: &str = "HTTP/1.1 400 BAD REQUEST\r\n\r\n";

fn post(body: &str) -> String {
    format!("POST /users HTTP/1.1\r\nHost: x\r\n\r\n{}", body)
}

fn put(id: &str, body: &str) -> String {
    format!("PUT /users/{} HTTP/1.1\r\nHost: x\r\n\r\n{}", id, body)
}

fn run(store: &mut Store, req: &str) -> Response {
    handle_request(store, req)
}

#[test]
fn scenario_full_crud_round_trip() {
    let mut store = Store::new();

    let created = run(&mut store, &post("{\"name\":\"Ann\",\"email\":\"ann@x.com\"}"));
    assert_eq!(created.status, StatusKind::Success);
    assert_eq!(created.body, "{\"id\":1,\"name\":\"Ann\",\"email\":\"ann@x.com\"}");

    let updated = run(&mut store, &put("1", "{\"name\":\"Ann2\",\"email\":\"ann@x.com\"}"));
    assert_eq!(updated.status, StatusKind::Success);

    let fetched = run(&mut store, "GET /users/1 HTTP/1.1\r\n\r\n");
    assert_eq!(fetched.status, StatusKind::Success);
    assert_eq!(fetched.body, "{\"id\":1,\"name\":\"Ann2\",\"email\":\"ann@x.com\"}");

    let deleted = run(&mut store, "DELETE /users/1 HTTP/1.1\r\n\r\n");
    assert_eq!(deleted.status, StatusKind::Success);

    let gone = run(&mut store, "GET /users/1 HTTP/1.1\r\n\r\n");
    assert_eq!(gone.status, StatusKind::NotFound);
}

#[test]
fn create_then_get_returns_same_fields() {
    let mut store = Store::new();
    let created = run(&mut store, &post("{\"name\":\"Bo\",\"email\":\"bo@y.org\"}"));
    assert_eq!(created.status, StatusKind::Success);
    let fetched = run(&mut store, "GET /users/1 HTTP/1.1\r\n\r\n");
    assert_eq!(fetched.status, StatusKind::Success);
    assert_eq!(fetched.body, created.body);

    let parsed: serde_json::Value = serde_json::from_str(&fetched.body).unwrap();
    assert_eq!(parsed.get("id").unwrap().as_i64().unwrap(), 1);
    assert_eq!(parsed.get("name").unwrap().as_str().unwrap(), "Bo");
    assert_eq!(parsed.get("email").unwrap().as_str().unwrap(), "bo@y.org");
}

#[test]
fn missing_id_not_found_for_get_put_delete() {
    let mut store = Store::new();
    run(&mut store, &post("{\"name\":\"Ann\",\"email\":\"a@b.c\"}"));

    let g = run(&mut store, "GET /users/99 HTTP/1.1\r\n\r\n");
    assert_eq!(g.status, StatusKind::NotFound);
    let p = run(&mut store, &put("99", "{\"name\":\"N\",\"email\":\"e@f.g\"}"));
    assert_eq!(p.status, StatusKind::NotFound);
    let d = run(&mut store, "DELETE /users/99 HTTP/1.1\r\n\r\n");
    assert_eq!(d.status, StatusKind::NotFound);
}

#[test]
fn delete_is_idempotent_in_category() {
    let mut store = Store::new();
    run(&mut store, &post("{\"name\":\"Ann\",\"email\":\"a@b.c\"}"));

    let first = run(&mut store, "DELETE /users/1 HTTP/1.1\r\n\r\n");
    assert_eq!(first.status, StatusKind::Success);
    let second = run(&mut store, "DELETE /users/1 HTTP/1.1\r\n\r\n");
    assert_eq!(second.status, StatusKind::NotFound);
}

#[test]
fn list_returns_all_created_records() {
    let mut store = Store::new();
    run(&mut store, &post("{\"name\":\"A\",\"email\":\"a@x\"}"));
    run(&mut store, &post("{\"name\":\"B\",\"email\":\"b@x\"}"));
    run(&mut store, &post("{\"name\":\"C\",\"email\":\"c@x\"}"));

    let listed = run(&mut store, "GET /users HTTP/1.1\r\n\r\n");
    assert_eq!(listed.status, StatusKind::Success);
    let expected = "[{\"id\":1,\"name\":\"A\",\"email\":\"a@x\"},{\"id\":2,\"name\":\"B\",\"email\":\"b@x\"},{\"id\":3,\"name\":\"C\",\"email\":\"c@x\"}]";
    assert_eq!(listed.body, expected);

    let parsed: serde_json::Value = serde_json::from_str(&listed.body).unwrap();
    let arr = parsed.as_array().unwrap();
    assert_eq!(arr.len(), 3);
    for item in arr {
        assert!(item.get("id").unwrap().as_i64().unwrap() >= 1);
    }
}

#[test]
fn list_of_empty_store_is_empty_array() {
    let mut store = Store::new();
    let listed = run(&mut store, "GET /users HTTP/1.1\r\n\r\n");
    assert_eq!(listed.status, StatusKind::Success);
    assert_eq!(listed.body, "[]");
}

#[test]
fn malformed_json_is_client_error_not_success() {
    let mut store = Store::new();
    for body in [
        "",
        "{",
        "not json",
        "{\"name\":\"Ann\"}",
        "{\"name\":\"Ann\",\"email\":5}",
        "{\"name\":\"Ann\",\"email\":\"a@b\",\"extra\":\"x\"}",
        "{\"name\":\"Ann\",\"name\":\"Bob\"}",
        "[\"name\",\"email\"]",
    ] {
        let r = run(&mut store, &post(body));
        assert_eq!(r.status, StatusKind::BadRequest);
        assert_ne!(r.status, StatusKind::Success);
    }
    // nothing was stored
    let listed = run(&mut store, "GET /users HTTP/1.1\r\n\r\n");
    assert_eq!(listed.body, "[]");
}

#[test]
fn non_numeric_id_is_client_error() {
    let mut store = Store::new();
    let r = run(&mut store, "GET /users/abc HTTP/1.1\r\n\r\n");
    assert_eq!(r.status, StatusKind::BadRequest);
    let r2 = run(&mut store, "DELETE /users/ HTTP/1.1\r\n\r\n");
    assert_eq!(r2.status, StatusKind::BadRequest);
}

#[test]
fn unmatched_route_is_not_found() {
    let mut store = Store::new();
    let r = run(&mut store, "PATCH /users/1 HTTP/1.1\r\n\r\n");
    assert_eq!(r.status, StatusKind::NotFound);
    let r2 = run(&mut store, "");
    assert_eq!(r2.status, StatusKind::NotFound);
}

#[test]
fn body_field_order_does_not_matter() {
    let mut store = Store::new();
    let r = run(&mut store, &post("{\"email\":\"e@f\",\"name\":\"Nm\"}"));
    assert_eq!(r.status, StatusKind::Success);
    assert_eq!(r.body, "{\"id\":1,\"name\":\"Nm\",\"email\":\"e@f\"}");
}

#[test]
fn body_whitespace_is_allowed() {
    let mut store = Store::new();
    let r = run(&mut store, &post(" { \"name\" : \"Nm\" , \"email\" : \"e@f\" } "));
    assert_eq!(r.status, StatusKind::Success);
}

#[test]
fn escaped_strings_round_trip() {
    let parsed = parse_user_body("{\"name\":\"A\\\"B\\\\C\\n\",\"email\":\"e@f\"}").unwrap();
    assert_eq!(parsed.0, "A\"B\\C\n");
    assert_eq!(parsed.1, "e@f");

    let rendered = render_record(5, "A\"B\\C\n", "e@f");
    assert_eq!(rendered, "{\"id\":5,\"name\":\"A\\\"B\\\\C\\n\",\"email\":\"e@f\"}");
    let v: serde_json::Value = serde_json::from_str(&rendered).unwrap();
    assert_eq!(v.get("name").unwrap().as_str().unwrap(), "A\"B\\C\n");
}

#[test]
fn raw_control_character_in_string_is_rejected() {
    assert!(parse_user_body("{\"name\":\"a\nb\",\"email\":\"e@f\"}").is_none());
    assert!(parse_user_body("{\"name\":\"a\\qb\",\"email\":\"e@f\"}").is_none());
}

#[test]
fn render_response_envelopes() {
    let ok = render_response(&Response {
        status: StatusKind::Success,
        body: String::from("{}"),
    });
    assert_eq!(ok, format!("{}{}", OK_PREFIX, "{}"));

    let nf = render_response(&Response { status: StatusKind::NotFound, body: String::new() });
    assert_eq!(nf, NOT_FOUND_LINE);

    let bad = render_response(&Response {
        status: StatusKind::BadRequest,
        body: String::new(),
    });
    assert_eq!(bad, BAD_REQUEST_LINE);
}

#[test]
fn handle_bytes_full_pipeline() {
    let mut store = Store::new();
    let raw = b"POST /users HTTP/1.1\r\nHost: x\r\n\r\n{\"name\":\"Ann\",\"email\":\"ann@x.com\"}";
    let out = handle_bytes(&mut store, raw);
    assert_eq!(
        out,
        format!("{}{}", OK_PREFIX, "{\"id\":1,\"name\":\"Ann\",\"email\":\"ann@x.com\"}")
    );

    let out2 = handle_bytes(&mut store, b"GET /users/2 HTTP/1.1\r\n\r\n");
    assert_eq!(out2, NOT_FOUND_LINE);
}

#[test]
fn handle_bytes_decodes_utf8() {
    let mut store = Store::new();
    let req = "POST /users HTTP/1.1\r\n\r\n{\"name\":\"R\u{e9}my\",\"email\":\"r@x\"}";
    let out = handle_bytes(&mut store, req.as_bytes());
    assert_eq!(
        out,
        format!("{}{}", OK_PREFIX, "{\"id\":1,\"name\":\"R\u{e9}my\",\"email\":\"r@x\"}")
    );
}

#[test]
fn handle_bytes_invalid_utf8_degrades_without_crash() {
    let mut store = Store::new();
    let out = handle_bytes(&mut store, &[0xff, 0xfe, 0x00, 0x41]);
    assert_eq!(out, NOT_FOUND_LINE);
}

#[test]
fn exhausted_id_space_is_server_error() {
    // a store whose next id cannot be assigned any more
    let mut store = Store { recs: Vec::new(), next_id: i64::MAX };
    let r = run(&mut store, &post("{\"name\":\"Ann\",\"email\":\"a@b\"}"));
    assert_eq!(r.status, StatusKind::ServerError);
    let rendered = render_response(&r);
    assert_eq!(rendered, "HTTP/1.1 500 INTERNAL SERVER ERROR\r\n\r\n");
}

#[test]
fn create_assigns_increasing_ids() {
    let mut store = Store::new();
    let a = run(&mut store, &post("{\"name\":\"A\",\"email\":\"a@x\"}"));
    let b = run(&mut store, &post("{\"name\":\"B\",\"email\":\"b@x\"}"));
    assert!(a.body.starts_with("{\"id\":1,"));
    assert!(b.body.starts_with("{\"id\":2,"));
}

#[test]
fn deleted_id_is_never_reused() {
    let mut store = Store::new();
    run(&mut store, &post("{\"name\":\"A\",\"email\":\"a@x\"}"));
    run(&mut store, "DELETE /users/1 HTTP/1.1\r\n\r\n");
    let again = run(&mut store, &post("{\"name\":\"B\",\"email\":\"b@x\"}"));
    assert!(again.body.starts_with("{\"id\":2,"));
}
