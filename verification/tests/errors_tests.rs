use snipet::errors::{decode_envelope, normalize, render_error, ErrorEnvelope};

#[test]
fn empty_body_is_unknown_error() {
    assert_eq!(normalize(""), "Unknown error");
}

#[test]
fn malformed_body_is_unknown_error() {
    assert_eq!(normalize("this is not json"), "Unknown error");
    assert_eq!(normalize("{\"message\": "), "Unknown error");
}

#[test]
fn envelope_without_message_is_unknown_error() {
    assert_eq!(normalize("{}"), "Unknown error");
    assert_eq!(normalize("{\"data\":null}"), "Unknown error");
}

#[test]
fn non_object_body_is_unknown_error() {
    assert_eq!(normalize("42"), "Unknown error");
    assert_eq!(normalize("[1,2]"), "Unknown error");
}

#[test]
fn message_of_wrong_type_is_unknown_error() {
    // a non-string message invalidates the envelope wholesale, details
    // included
    assert_eq!(
        normalize("{\"message\":42,\"data\":{\"email\":{\"message\":\"taken\"}}}"),
        "Unknown error"
    );
}

#[test]
fn message_with_one_field_detail() {
    assert_eq!(
        normalize("{\"message\":\"X\",\"data\":{\"email\":{\"message\":\"taken\"}}}"),
        "X (email: taken)"
    );
}

#[test]
fn message_alone_when_data_absent() {
    assert_eq!(normalize("{\"message\":\"Invalid credentials\"}"), "Invalid credentials");
}

#[test]
fn message_alone_when_data_not_an_object() {
    assert_eq!(normalize("{\"message\":\"M\",\"data\":7}"), "M");
    assert_eq!(normalize("{\"message\":\"M\",\"data\":[1]}"), "M");
}

#[test]
fn null_message_falls_back_to_default() {
    assert_eq!(
        normalize("{\"message\":null,\"data\":{\"email\":{\"message\":\"taken\"}}}"),
        "Unknown error (email: taken)"
    );
}

#[test]
fn fields_without_message_are_skipped() {
    assert_eq!(
        normalize("{\"message\":\"M\",\"data\":{\"a\":{},\"b\":{\"message\":\"bad\"},\"c\":7}}"),
        "M (b: bad)"
    );
}

#[test]
fn several_details_join_in_iteration_order() {
    // serde_json's object iterates its keys in sorted order
    assert_eq!(
        normalize(
            "{\"message\":\"M\",\"data\":{\"b\":{\"message\":\"two\"},\"a\":{\"message\":\"one\"}}}"
        ),
        "M (a: one, b: two)"
    );
}

#[test]
fn render_uses_decoded_envelope() {
    let env = decode_envelope("{\"message\":\"Hi\"}");
    assert_eq!(env.message.as_deref(), Some("Hi"));
    assert!(env.details.is_empty());
    assert_eq!(render_error(&env), "Hi");
}

#[test]
fn render_of_default_envelope() {
    let env = ErrorEnvelope::unknown();
    assert_eq!(render_error(&env), "Unknown error");
}
