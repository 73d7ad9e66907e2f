//! Tests for PBKDF2 hashing and its base 64 storage form.
use dgruft::hashing::Hashed;
use dgruft::helpers;
use dgruft::Error;

fn test_hash() -> [u8; 32] {
    [
        228u8, 229u8, 52u8, 90u8, 187u8, 181u8, 72u8, 158u8, 154u8, 52u8, 159u8, 127u8, 212u8,
        38u8, 45u8, 177u8, 111u8, 20u8, 254u8, 52u8, 171u8, 100u8, 79u8, 128u8, 116u8, 164u8,
        53u8, 84u8, 36u8, 101u8, 156u8, 146u8,
    ]
}

fn test_salt() -> [u8; 64] {
    [
        143u8, 207u8, 88u8, 34u8, 132u8, 74u8, 129u8, 80u8, 206u8, 110u8, 103u8, 116u8, 93u8,
        12u8, 237u8, 139u8, 34u8, 105u8, 169u8, 154u8, 95u8, 29u8, 201u8, 247u8, 111u8, 5u8,
        85u8, 70u8, 58u8, 19u8, 185u8, 232u8, 86u8, 244u8, 29u8, 140u8, 125u8, 90u8, 224u8,
        153u8, 19u8, 37u8, 115u8, 174u8, 57u8, 122u8, 113u8, 32u8, 208u8, 227u8, 111u8, 252u8,
        248u8, 158u8, 188u8, 40u8, 5u8, 26u8, 178u8, 176u8, 128u8, 61u8, 221u8, 106u8,
    ]
}

#[test]
fn test_pbkdf() {
    let hash_1: Hashed<32, 64> = Hashed::new(b"password");
    let hash_2: Hashed<32, 64> = Hashed::new(b"password");
    assert_ne!(hash_1.hash_as_b64(), hash_2.hash_as_b64());
    assert_ne!(hash_1.hash(), hash_2.hash());

    assert!(hash_1.check_match(b"password"));
    assert!(hash_2.check_match(b"password"));
}

#[test]
fn test_use_salt() {
    let hash_1: Hashed<32, 64> = Hashed::new(b"password");
    let hash_2: Hashed<32, 64> = Hashed::from_salt(b"password", hash_1.salt().as_slice());
    assert_eq!(hash_1.hash(), hash_2.hash());
    assert!(hash_1.check_match(b"password"));
    assert!(hash_2.check_match(b"password"));
}

#[test]
fn test_from_b64() {
    let hashed = Hashed::<32, 64>::from_b64(
        &helpers::bytes_to_b64(&test_hash()),
        &helpers::bytes_to_b64(&test_salt()),
    )
    .unwrap();
    assert_eq!(hashed.hash().as_slice(), test_hash());
    assert_eq!(hashed.salt().as_slice(), test_salt());
}

#[test]
fn test_invalid_hash_length_b64() {
    let hashed_err = Hashed::<32, 64>::from_b64(
        &helpers::bytes_to_b64(&[&test_hash()[..], &[255u8]].concat()),
        &helpers::bytes_to_b64(&test_salt()),
    )
    .unwrap_err();
    if let Error::InvalidLengthB64Error(location, intended_length, actual_length) = hashed_err {
        assert_eq!(location, String::from("b64_hash"));
        assert_eq!(intended_length, 32);
        assert_eq!(actual_length, 33);
    } else {
        panic!("Wrong error type");
    }
}

#[test]
fn test_invalid_salt_length_b64() {
    let hashed_err = Hashed::<32, 64>::from_b64(
        &helpers::bytes_to_b64(&test_hash()),
        &helpers::bytes_to_b64(&test_salt()[1..]),
    )
    .unwrap_err();
    if let Error::InvalidLengthB64Error(location, intended_length, actual_length) = hashed_err {
        assert_eq!(location, String::from("b64_salt"));
        assert_eq!(intended_length, 64);
        assert_eq!(actual_length, 63);
    } else {
        panic!("Wrong error type");
    }
}

#[test]
fn hashed_test_to_from_b64() {
    let hashed_1: Hashed<32, 64> = Hashed::new(b"hello, world!");

    let hash_b64 = hashed_1.hash_as_b64();
    let salt_b64 = hashed_1.salt_as_b64();
    let hashed_2 = Hashed::<32, 64>::from_b64(&hash_b64, &salt_b64).unwrap();

    assert!(hashed_1.check_match(b"hello, world!"));
    assert!(hashed_2.check_match(b"hello, world!"));
}

#[test]
fn pbkdf2_consistency() {
    let hash_1: Hashed<32, 64> = Hashed::new(b"password");
    let hash_2: Hashed<32, 64> = Hashed::new(b"password");
    let hash_1_dupe: Hashed<32, 64> = Hashed::from_salt(b"password", hash_1.salt().as_slice());

    assert_eq!(hash_1, hash_1_dupe);
    assert_ne!(hash_1, hash_2);

    assert!(hash_1.check_match(b"password"));
    assert!(hash_2.check_match(b"password"));
    assert!(hash_1_dupe.check_match(b"password"));

    assert!(!hash_1.check_match(b"passwore"));
}

#[test]
fn pbkdf2_consistency_diff_lengths() {
    let test_input = "\u{4e09}\u{601d}\u{800c}\u{540e}\u{884c}\u{3002}";
    let hash_10: Hashed<10, 32> = Hashed::new(test_input.as_bytes());
    let salt = hash_10.salt().clone();
    let hash_17: Hashed<17, 32> = Hashed::from_salt(test_input.as_bytes(), salt.as_slice());
    let hash_123: Hashed<123, 32> = Hashed::from_salt(test_input.as_bytes(), salt.as_slice());

    assert!(hash_10.check_match(test_input.as_bytes()));
    assert!(hash_17.check_match(test_input.as_bytes()));
    assert!(hash_123.check_match(test_input.as_bytes()));
}

#[test]
fn hash_lengths_match_parameters() {
    let hashed: Hashed<32, 64> = Hashed::new(b"abc");
    assert_eq!(hashed.hash().len(), 32);
    assert_eq!(hashed.salt().len(), 64);
}
