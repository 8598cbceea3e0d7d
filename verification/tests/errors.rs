use zero2prod::errors::{Auth, Error, ErrorTypes};

#[test]
fn new_keeps_its_parts() {
    let e = Error::new(Some("why".to_string()), Some("what".to_string()), ErrorTypes::DbError);
    assert_eq!(e.cause.as_deref(), Some("why"));
    assert_eq!(e.message.as_deref(), Some("what"));
    assert_eq!(e.error_type, ErrorTypes::DbError);
}

#[test]
fn status_codes_by_kind() {
    let kinds = [
        (ErrorTypes::ValidationError, 400),
        (ErrorTypes::DbError, 500),
        (ErrorTypes::NotFoundError, 404),
        (ErrorTypes::Auth(Auth::Authentication), 401),
        (ErrorTypes::Auth(Auth::Authorization), 403),
        (ErrorTypes::JwtError, 500),
    ];
    for (kind, code) in kinds {
        assert_eq!(Error::new(None, None, kind).status_code(), code);
    }
}

#[test]
fn json_of_a_plain_kind() {
    let e = Error::with_message(None, "Can not decode token", ErrorTypes::JwtError);
    assert_eq!(
        e.to_string(),
        "{\n  \"cause\": null,\n  \"message\": \"Can not decode token\",\n  \"error_type\": \"JwtError\"\n}"
    );
}

#[test]
fn json_of_an_access_failure() {
    let e = Error::with_message(
        Some("InvalidToken".to_string()),
        "Log in first!",
        ErrorTypes::Auth(Auth::Authorization),
    );
    assert_eq!(
        e.to_string(),
        "{\n  \"cause\": \"InvalidToken\",\n  \"message\": \"Log in first!\",\n  \"error_type\": {\n    \"Auth\": \"Authorization\"\n  }\n}"
    );
}

#[test]
fn json_escapes_quotes_and_control_characters() {
    let e = Error::new(Some("a\"b\\c\nd\te\u{1}f\u{7f}é".to_string()), None, ErrorTypes::DbError);
    assert_eq!(
        e.to_string(),
        "{\n  \"cause\": \"a\\\"b\\\\c\\nd\\te\\u0001f\u{7f}é\",\n  \"message\": null,\n  \"error_type\": \"DbError\"\n}"
    );
}

#[test]
fn json_matches_the_serializer() {
    let mut kind = serde_json::Map::new();
    kind.insert("Auth".to_string(), serde_json::Value::from("Authentication"));
    let mut whole = serde_json::Map::new();
    whole.insert("cause".to_string(), serde_json::Value::from("line\r\nbreak \u{8}\u{c}"));
    whole.insert("message".to_string(), serde_json::Value::Null);
    whole.insert("error_type".to_string(), serde_json::Value::Object(kind));
    let expected = serde_json::to_string_pretty(&serde_json::Value::Object(whole)).unwrap();
    let e = Error::new(
        Some("line\r\nbreak \u{8}\u{c}".to_string()),
        None,
        ErrorTypes::Auth(Auth::Authentication),
    );
    assert_eq!(e.to_string(), expected);
}
