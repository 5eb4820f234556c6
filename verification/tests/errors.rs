use jwtter::error::DecodeError;

#[test]
fn missing_payload_message() {
    assert_eq!(DecodeError::MissingPayload.message(), "Payload part is missing");
}

#[test]
fn invalid_base64_message_carries_the_diagnostic() {
    let error = DecodeError::InvalidBase64Encoding("Invalid padding".to_string());
    assert_eq!(error.message(), "Payload is not encoded properly in Base64: Invalid padding");
}

#[test]
fn invalid_unicode_message_carries_the_diagnostic() {
    let error = DecodeError::InvalidUnicodeEncoding("bad byte".to_string());
    assert_eq!(error.message(), "Payload is not encoded properly in UTF-8: bad byte");
}

#[test]
fn invalid_json_message_carries_the_diagnostic() {
    let error = DecodeError::InvalidJson("expected value at line 1 column 1".to_string());
    assert_eq!(
        error.message(),
        "Payload is not a valid JSON value: expected value at line 1 column 1"
    );
}

#[test]
fn not_an_object_message() {
    assert_eq!(DecodeError::NotJsonObject.message(), "Payload is not a JSON object");
}

#[test]
fn empty_diagnostic_leaves_the_prefix() {
    let error = DecodeError::InvalidJson(String::new());
    assert_eq!(error.message(), "Payload is not a valid JSON value: ");
}

#[test]
fn errors_compare_by_kind_and_diagnostic() {
    assert_eq!(DecodeError::MissingPayload, DecodeError::MissingPayload);
    assert_ne!(DecodeError::MissingPayload, DecodeError::NotJsonObject);
    assert_ne!(
        DecodeError::InvalidJson("a".to_string()),
        DecodeError::InvalidJson("b".to_string())
    );
    assert_ne!(
        DecodeError::InvalidJson("a".to_string()),
        DecodeError::InvalidUnicodeEncoding("a".to_string())
    );
}
