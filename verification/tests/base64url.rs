use phantom_connect::base64url::{
    base64url_decode, base64url_decode_to_string, base64url_encode, string_to_base64url,
    Base64UrlError,
};

#[test]
fn encode_string_to_base64url() {
    assert_eq!(base64url_encode(b"Hello World"), "SGVsbG8gV29ybGQ");
}

#[test]
fn encode_bytes_to_base64url() {
    let input = [72, 101, 108, 108, 111]; // "Hello"
    assert_eq!(base64url_encode(&input), "SGVsbG8");
}

#[test]
fn encode_empty_input() {
    assert_eq!(base64url_encode(b""), "");
}

#[test]
fn encode_no_plus_slash_padding() {
    let input = [62, 63, 64];
    let result = base64url_encode(&input);
    assert!(!result.contains('+'));
    assert!(!result.contains('/'));
    assert!(!result.contains('='));
}

#[test]
fn decode_base64url_to_bytes() {
    let result = base64url_decode("SGVsbG8gV29ybGQ").unwrap();
    assert_eq!(result, b"Hello World");
}

#[test]
fn decode_empty_string() {
    let result = base64url_decode("").unwrap();
    assert!(result.is_empty());
}

#[test]
fn decode_no_padding() {
    let result = base64url_decode("SGVsbG8").unwrap();
    assert_eq!(result, b"Hello");
}

#[test]
fn decode_to_string() {
    let result = base64url_decode_to_string("SGVsbG8gV29ybGQ").unwrap();
    assert_eq!(result, "Hello World");
}

#[test]
fn decode_to_string_empty() {
    let result = base64url_decode_to_string("").unwrap();
    assert_eq!(result, "");
}

#[test]
fn string_to_base64url_roundtrip() {
    assert_eq!(string_to_base64url("Hello World"), "SGVsbG8gV29ybGQ");
}

#[test]
fn string_to_base64url_empty() {
    assert_eq!(string_to_base64url(""), "");
}

#[test]
fn roundtrip_strings() {
    let cases = vec![
        "Hello World",
        "Simple test",
        r#"{"key":"value"}"#,
        r#"{"publicKey":"AQIDBAU","signature":"BgcICQo","kind":"PKI"}"#,
        "",
        "Special chars: !@#$%^&*()",
        "Multi-line\ntext\twith\ttabs",
    ];
    for s in cases {
        let encoded = string_to_base64url(s);
        let decoded = base64url_decode_to_string(&encoded).unwrap();
        assert_eq!(decoded, s, "roundtrip failed for: {s}");
    }
}

#[test]
fn roundtrip_bytes() {
    let arrays: Vec<Vec<u8>> = vec![
        vec![0, 1, 2, 3, 4, 5],
        vec![255, 254, 253],
        vec![62, 63, 64, 65],
        (0u8..=255).collect(),
    ];
    for arr in arrays {
        let encoded = base64url_encode(&arr);
        let decoded = base64url_decode(&encoded).unwrap();
        assert_eq!(decoded, arr);
    }
}

#[test]
fn output_is_valid_base64url_chars() {
    for s in ["Hello World", "Special chars: !@#$%^&*()"] {
        let result = string_to_base64url(s);
        for c in result.chars() {
            assert!(
                c.is_ascii_alphanumeric() || c == '-' || c == '_',
                "invalid char '{c}' in base64url"
            );
        }
    }
}

#[test]
fn compatibility_phantom_string() {
    assert_eq!(
        string_to_base64url("Hello from Phantom!"),
        "SGVsbG8gZnJvbSBQaGFudG9tIQ"
    );
}

#[test]
fn jwt_like_payload() {
    let payload = r#"{"sub":"1234567890","name":"John Doe","iat":1516239022}"#;
    let encoded = string_to_base64url(payload);
    let decoded = base64url_decode_to_string(&encoded).unwrap();
    assert_eq!(decoded, payload);
}

#[test]
fn unicode_roundtrip() {
    let input = "Hello \u{1f30d} World";
    let encoded = string_to_base64url(input);
    let decoded = base64url_decode_to_string(&encoded).unwrap();
    assert_eq!(decoded, input);
}

#[test]
fn decode_accepts_padding_and_rejects_bad_symbols() {
    assert_eq!(base64url_decode("SGVsbG8=").unwrap(), b"Hello".to_vec());
    assert_eq!(base64url_decode("SGVsbG8=").unwrap(), base64url_decode("SGVsbG8").unwrap());
    assert_eq!(base64url_decode("SGVsbA==").unwrap(), b"Hell".to_vec());
    assert_eq!(base64url_decode_to_string("SGVsbG8gV29ybGQ=").unwrap(), "Hello World");
    assert_eq!(base64url_decode("").unwrap(), Vec::<u8>::new());
    assert!(base64url_decode("SGVs+G8").is_err());
    assert!(base64url_decode("S").is_err());
    assert!(base64url_decode("SG=Vs").is_err());
}

#[test]
fn decode_to_string_reports_invalid_utf8() {
    // 0xFF 0xFE is not UTF-8.
    let encoded = base64url_encode(&[0xFF, 0xFE]);
    match base64url_decode_to_string(&encoded) {
        Err(Base64UrlError::Utf8(_)) => {}
        other => panic!("expected a UTF-8 error, got {:?}", other),
    }
    match base64url_decode_to_string("!!") {
        Err(Base64UrlError::Decode(_)) => {}
        other => panic!("expected a decode error, got {:?}", other),
    }
}
