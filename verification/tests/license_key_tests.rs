use jetbra_tools::error::ErrorKind;
use jetbra_tools::jetbra_key::extract_valid_jbkey;

#[test]
fn test_extract_valid_jbkey_example() {
    let (license_id, license_data) = extract_valid_jbkey("ABC-aGVsbG8=-SIG-PUB").unwrap();
    assert_eq!(license_id, "ABC");
    assert_eq!(license_data, "hello");
}

#[test]
fn test_extract_too_few_segments() {
    let err = extract_valid_jbkey("ABC-aGVsbG8=-SIG").unwrap_err();
    assert_eq!(err.kind, ErrorKind::Format);
}

#[test]
fn test_extract_too_many_segments() {
    let err = extract_valid_jbkey("ABC-aGVsbG8=-SIG-PUB-EXTRA").unwrap_err();
    assert_eq!(err.kind, ErrorKind::Format);
}

#[test]
fn test_extract_empty_token() {
    let err = extract_valid_jbkey("").unwrap_err();
    assert_eq!(err.kind, ErrorKind::Format);
}

#[test]
fn test_extract_invalid_base64() {
    let err = extract_valid_jbkey("ABC-!!!-SIG-PUB").unwrap_err();
    assert_eq!(err.kind, ErrorKind::Encoding);
    assert_eq!(err.message(), "Base64 decoding failed");
}

#[test]
fn test_extract_invalid_utf8() {
    // "/w==" decodes to the single byte 0xFF, which is not valid UTF-8.
    let err = extract_valid_jbkey("ABC-/w==-SIG-PUB").unwrap_err();
    assert_eq!(err.kind, ErrorKind::Encoding);
    assert_eq!(err.message(), "UTF-8 conversion failed");
}

#[test]
fn test_extract_empty_segments_allowed() {
    // Four segments, the second empty: decodes to empty text.
    let (license_id, license_data) = extract_valid_jbkey("--SIG-PUB").unwrap();
    assert_eq!(license_id, "");
    assert_eq!(license_data, "");
}

#[test]
fn test_extract_longer_payload() {
    // "bGljZW5zZSBkYXRh" is the standard base64 of "license data".
    let (license_id, license_data) = extract_valid_jbkey("X42-bGljZW5zZSBkYXRh-s-p").unwrap();
    assert_eq!(license_id, "X42");
    assert_eq!(license_data, "license data");
}
