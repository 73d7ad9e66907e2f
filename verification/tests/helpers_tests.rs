//! Tests for the base 64 and UTF-8 boundary helpers, salts, and input
//! validation.
use dgruft::helpers::{b64_to_bytes, b64_to_fixed, bytes_to_b64, bytes_to_utf8, is_base64};
use dgruft::input_validation::validate_input;
use dgruft::Error;
use dgruft::Salt;

const EXAMPLE_BYTES: [u8; 8] = [84_u8, 104_u8, 101_u8, 32_u8, 113_u8, 117_u8, 105_u8, 99_u8];
const EXAMPLE_B64STR: &str = "VGhlIHF1aWM=";
const EXAMPLE_B64STR7: &str = "VGhlIHF1aQ==";

#[test]
fn test_b64tf() {
    let bytes = b64_to_fixed::<8>(EXAMPLE_B64STR, "bytes").unwrap();
    assert_eq!(bytes.as_slice(), EXAMPLE_BYTES);
}

#[test]
fn test_b64tf_bad_b64() {
    let bytes = b64_to_fixed::<8>(&EXAMPLE_B64STR[1..], "bytes").unwrap_err();
    if let Error::InvalidB64Error(input_string) = bytes {
        assert_eq!(input_string, &EXAMPLE_B64STR[1..]);
    } else {
        panic!("Wrong error type");
    }
}

#[test]
fn test_b64tf_bad_len() {
    let bytes = b64_to_fixed::<8>(EXAMPLE_B64STR7, "bytes").unwrap_err();
    if let Error::InvalidLengthB64Error(debug_str, expected_len, actual_len) = bytes {
        assert_eq!(debug_str, "bytes");
        assert_eq!(expected_len, 8);
        assert_eq!(actual_len, 7);
    } else {
        panic!("Wrong error type");
    }
}

#[test]
fn b64_round_trip() {
    let bytes = vec![0u8, 1, 2, 254, 255, 100];
    let encoded = bytes_to_b64(&bytes);
    let decoded = b64_to_bytes(&encoded).unwrap();
    assert_eq!(bytes, decoded);
    assert!(is_base64(&encoded));
    assert!(!is_base64("not base64!"));
}

#[test]
fn b64_encoded_length() {
    assert_eq!(bytes_to_b64(&[]).len(), 0);
    assert_eq!(bytes_to_b64(&[1]).len(), 4);
    assert_eq!(bytes_to_b64(&[1, 2, 3]).len(), 4);
    assert_eq!(bytes_to_b64(&[1, 2, 3, 4]).len(), 8);
}

#[test]
fn utf8_decoding_rejects_bad_bytes() {
    let err = bytes_to_utf8(&[0xffu8, 0xfe], "junk").unwrap_err();
    if let Error::Utf8FromBytesError(name) = err {
        assert_eq!(name, "junk");
    } else {
        panic!("Wrong error type");
    }
    assert_eq!(bytes_to_utf8("ok".as_bytes(), "ok").unwrap(), "ok");
}

#[test]
fn test_salt() {
    let salt = Salt::new(16);
    assert_eq!(bytes_to_b64(salt.get_bytes()), salt.get_str());
    assert_eq!(salt.get_bytes(), &b64_to_bytes(salt.get_str()).unwrap());
}

#[test]
fn test_from_string() {
    let test_string = "aGVsbG8gd29ybGQ=";
    let test_bytes = vec![104, 101, 108, 108, 111, 32, 119, 111, 114, 108, 100];
    let salt = Salt::from_string(test_string).unwrap();
    assert_eq!(&test_bytes, salt.get_bytes());
    assert_eq!(test_string, salt.get_str());
}

#[test]
fn test_from_bytes() {
    let test_string = "aGVsbG8gd29ybGQ=";
    let test_bytes = vec![104, 101, 108, 108, 111, 32, 119, 111, 114, 108, 100];
    let salt = Salt::from_bytes(&test_bytes);
    assert_eq!(&test_bytes, salt.get_bytes());
    assert_eq!(test_string, salt.get_str());
}

#[test]
fn validate_input_checks_length_and_characters() {
    assert!(validate_input(String::from("fine"), 1, 10, "/\\").is_ok());
    assert!(validate_input(String::from(""), 1, 10, "/\\").is_err());
    assert!(validate_input(String::from("waytoolonginput"), 1, 10, "/\\").is_err());
    assert!(validate_input(String::from("bad/name"), 1, 10, "/\\").is_err());
}
