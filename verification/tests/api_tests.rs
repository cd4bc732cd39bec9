use snipet::api::{
    auth_url, bearer_header, interpret_login_response, interpret_register_response,
    interpret_snippet_response, parse_visibility, register_url, snippets_url, validate_snippet_input,
    visibility_tag, Visibility,
};
use snipet::is_success_status;
use snipet::jsonenc::{json_quote, login_body, register_body, snippet_body};
use snipet::session::Session;

#[test]
fn status_success_range() {
    assert!(is_success_status(200));
    assert!(is_success_status(299));
    assert!(!is_success_status(199));
    assert!(!is_success_status(300));
    assert!(!is_success_status(404));
}

#[test]
fn visibility_accepts_only_the_two_values() {
    assert!(matches!(parse_visibility("public"), Some(Visibility::Public)));
    assert!(matches!(parse_visibility("private"), Some(Visibility::Private)));
    assert!(parse_visibility("hidden").is_none());
    assert!(parse_visibility("Public").is_none());
    assert!(parse_visibility("").is_none());
}

#[test]
fn visibility_tags_round_trip() {
    assert_eq!(visibility_tag(Visibility::Public), "public");
    assert_eq!(visibility_tag(Visibility::Private), "private");
}

#[test]
fn validation_rejects_bad_visibility_before_any_call() {
    // no client is ever constructed here: a bad visibility never reaches one
    let r = validate_snippet_input("T", "some code", "hidden");
    assert_eq!(r.unwrap_err(), "Visibility must be 'public' or 'private'");
}

#[test]
fn validation_rejects_an_empty_title() {
    let r = validate_snippet_input("", "some code", "public");
    assert_eq!(r.unwrap_err(), "Title is required");
    // the title check comes before the others
    let r = validate_snippet_input("", "", "hidden");
    assert_eq!(r.unwrap_err(), "Title is required");
}

#[test]
fn validation_rejects_blank_code() {
    let r = validate_snippet_input("T", "   \n\t ", "public");
    assert_eq!(r.unwrap_err(), "No code provided (empty input)");
    let r = validate_snippet_input("T", "", "public");
    assert_eq!(r.unwrap_err(), "No code provided (empty input)");
}

#[test]
fn validation_accepts_good_input() {
    assert!(matches!(validate_snippet_input("T", "x = 1", "public"), Ok(Visibility::Public)));
    assert!(matches!(validate_snippet_input("T", "x = 1", "private"), Ok(Visibility::Private)));
}

#[test]
fn endpoint_urls() {
    assert_eq!(register_url("http://h"), "http://h/collections/users/records");
    assert_eq!(auth_url("http://h"), "http://h/collections/users/auth-with-password");
    assert_eq!(snippets_url("http://h"), "http://h/collections/snippets/records");
}

#[test]
fn bearer_header_carries_the_token() {
    let s = Session {
        email: String::from("a@b.com"),
        token: String::from("abc"),
        user_id: String::from("u1"),
        server: String::from("http://h"),
    };
    assert_eq!(bearer_header(&s), "Bearer abc");
}

#[test]
fn register_body_duplicates_the_password() {
    assert_eq!(
        register_body("a@b.com", "pw", "Name"),
        "{\"email\":\"a@b.com\",\"password\":\"pw\",\"passwordConfirm\":\"pw\",\"name\":\"Name\"}"
    );
}

#[test]
fn login_body_shape() {
    assert_eq!(
        login_body("a@b.com", "pw"),
        "{\"identity\":\"a@b.com\",\"password\":\"pw\"}"
    );
}

#[test]
fn snippet_body_shape() {
    assert_eq!(
        snippet_body("T", "x = 1", "python", "", "public", "u1"),
        "{\"title\":\"T\",\"code\":\"x = 1\",\"language\":\"python\",\"description\":\"\",\"visibility\":\"public\",\"author\":\"u1\"}"
    );
}

#[test]
fn json_quoting_escapes_as_serde_json_writes() {
    assert_eq!(json_quote("a\"b"), "\"a\\\"b\"");
    assert_eq!(json_quote("a\\b"), "\"a\\\\b\"");
    assert_eq!(json_quote("a\nb\tc\r"), "\"a\\nb\\tc\\r\"");
    assert_eq!(json_quote("\u{8}\u{c}"), "\"\\b\\f\"");
    assert_eq!(json_quote("\u{1}\u{1f}"), "\"\\u0001\\u001f\"");
    // what the encoder writes is what serde_json reads back
    let body = format!("{{\"message\":{}}}", json_quote("a\"b\n\u{1}"));
    let env = snipet::errors::decode_envelope(&body);
    assert_eq!(env.message.as_deref(), Some("a\"b\n\u{1}"));
}

#[test]
fn login_success_builds_the_session() {
    let body = "{\"token\":\"abc\",\"record\":{\"id\":\"u1\",\"email\":\"a@b.com\",\"name\":\"A\"}}";
    let s = interpret_login_response(200, body, "in@x.com", "http://srv").unwrap();
    assert_eq!(s.email, "a@b.com");
    assert_eq!(s.token, "abc");
    assert_eq!(s.user_id, "u1");
    assert_eq!(s.server, "http://srv");
}

#[test]
fn login_failure_surfaces_the_message() {
    let err = interpret_login_response(
        400,
        "{\"message\":\"Invalid credentials\"}",
        "a@b.com",
        "http://srv",
    )
    .unwrap_err();
    assert_eq!(err, "Invalid credentials");
}

#[test]
fn login_email_falls_back_to_the_input() {
    let body = "{\"token\":\"abc\",\"record\":{\"id\":\"u1\",\"name\":\"A\"}}";
    let s = interpret_login_response(200, body, "in@x.com", "http://srv").unwrap();
    assert_eq!(s.email, "in@x.com");
    let body = "{\"token\":\"abc\",\"record\":{\"id\":\"u1\",\"email\":null,\"name\":\"A\"}}";
    let s = interpret_login_response(200, body, "in@x.com", "http://srv").unwrap();
    assert_eq!(s.email, "in@x.com");
}

#[test]
fn login_success_with_unparseable_body_carries_the_detail() {
    // the parser's own detail follows the class prefix
    let err = interpret_login_response(200, "not json", "a@b.com", "http://srv").unwrap_err();
    assert!(err.starts_with("Failed to parse response: "));
    assert!(err.len() > "Failed to parse response: ".len());
}

#[test]
fn login_success_with_wrong_shape_is_a_parse_failure() {
    let err = interpret_login_response(200, "{\"token\":\"abc\"}", "a@b.com", "http://srv")
        .unwrap_err();
    assert_eq!(err, "Failed to parse response: unexpected response shape");
    let err = interpret_login_response(
        200,
        "{\"token\":\"abc\",\"record\":{\"id\":\"u1\"}}",
        "a@b.com",
        "http://srv",
    )
    .unwrap_err();
    assert_eq!(err, "Failed to parse response: unexpected response shape");
}

#[test]
fn register_success_returns_the_account() {
    let body = "{\"id\":\"u9\",\"email\":\"a@b.com\",\"name\":\"A\"}";
    let acct = interpret_register_response(200, body).unwrap();
    assert_eq!(acct.id, "u9");
    assert_eq!(acct.name, "A");
}

#[test]
fn register_failure_normalizes_the_envelope() {
    let err = interpret_register_response(
        400,
        "{\"message\":\"Failed to create record.\",\"data\":{\"email\":{\"message\":\"taken\"}}}",
    )
    .unwrap_err();
    assert_eq!(err, "Failed to create record. (email: taken)");
}

#[test]
fn snippet_success_returns_the_receipt() {
    let rec = interpret_snippet_response(200, "{\"id\":\"s1\",\"title\":\"T\"}").unwrap();
    assert_eq!(rec.id, "s1");
    assert_eq!(rec.title, "T");
}

#[test]
fn snippet_failure_is_prefixed_with_the_status_code() {
    let err = interpret_snippet_response(404, "no json here").unwrap_err();
    assert_eq!(err, "Failed to create snippet (404): Unknown error");
    let err = interpret_snippet_response(403, "{\"message\":\"Denied\"}").unwrap_err();
    assert_eq!(err, "Failed to create snippet (403): Denied");
}

#[test]
fn login_with_email_of_wrong_type_is_a_parse_failure() {
    let body = "{\"token\":\"abc\",\"record\":{\"id\":\"u1\",\"email\":42,\"name\":\"A\"}}";
    let err = interpret_login_response(200, body, "in@x.com", "http://srv").unwrap_err();
    assert_eq!(err, "Failed to parse response: unexpected response shape");
}

#[test]
fn register_with_email_of_wrong_type_is_a_parse_failure() {
    let body = "{\"id\":\"u9\",\"email\":42,\"name\":\"A\"}";
    let err = interpret_register_response(200, body).unwrap_err();
    assert_eq!(err, "Failed to parse response: unexpected response shape");
}

#[test]
fn snippet_failure_with_field_details() {
    let err = interpret_snippet_response(
        400,
        "{\"message\":\"Failed to create record.\",\"data\":{\"title\":{\"message\":\"required\"}}}",
    )
    .unwrap_err();
    assert_eq!(
        err,
        "Failed to create snippet (400): Failed to create record. (title: required)"
    );
}
