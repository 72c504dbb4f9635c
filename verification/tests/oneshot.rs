use taitan::oneshot::{body_text_of, validata_status_code, validate_json_body, ValidationError};

#[test]
fn status_codes() {
    assert_eq!(validata_status_code(200, 200), Ok(()));
    assert_eq!(
        validata_status_code(404, 200),
        Err(ValidationError::StatusCodeNotMatch(404, 200))
    );
}

#[test]
fn json_bodies() {
    assert_eq!(validate_json_body(b"", b""), Ok(()));
    assert_eq!(
        validate_json_body(b"", b"{}"),
        Err(ValidationError::JsonNotMatch(String::new(), "{}".to_string()))
    );
    assert_eq!(
        validate_json_body(&[0xff], b""),
        Err(ValidationError::JsonNotMatch(
            "@invalid utf8 slice".to_string(),
            String::new()
        ))
    );
    assert_eq!(validate_json_body(b"{\"a\": 1}", b"{ \"a\":1 }"), Ok(()));
    assert_eq!(
        validate_json_body(b"{\"a\":1}", b"{\"a\":2}"),
        Err(ValidationError::JsonNotMatch(
            "{\"a\":1}".to_string(),
            "{\"a\":2}".to_string()
        ))
    );
    assert_eq!(
        validate_json_body(b"not json", b"{}"),
        Err(ValidationError::InvalidJson)
    );
    assert_eq!(validate_json_body(b"{\"b\":1,\"a\":2}", b"{\"a\":2,\"b\":1}"), Ok(()));
    assert_eq!(
        validate_json_body(b"{ \"a\" : 1 }", b" [1] "),
        Err(ValidationError::JsonNotMatch(
            "{\"a\":1}".to_string(),
            "[1]".to_string()
        ))
    );
    assert_eq!(
        validate_json_body(b"{}", b"{"),
        Err(ValidationError::InvalidJson)
    );
    assert_eq!(body_text_of(b"abc"), "abc");
}
