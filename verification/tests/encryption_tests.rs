//! Tests for AES-256-GCM sealing, opening, and the base 64 storage form.
use dgruft::encryption::{new_rand_key, Encrypted, TryFromEncrypted};

#[test]
fn test_aes256() {
    let plaintext = b"Hello, world!";
    let key = new_rand_key();
    let encrypted = Encrypted::new(plaintext, &key).unwrap();
    let decrypted_text = encrypted.decrypt(&key).unwrap();
    assert_eq!(&plaintext[..], decrypted_text);
}

#[test]
fn test_aes256_utf8() {
    let plaintext = "\u{4f60}\u{597d}";
    let key = new_rand_key();
    let encrypted = Encrypted::new(plaintext.as_bytes(), &key).unwrap();
    let decrypted_text = encrypted.decrypt(&key).unwrap();
    assert_eq!(plaintext.as_bytes(), decrypted_text);
    assert_eq!(plaintext, std::str::from_utf8(&decrypted_text).unwrap());
}

#[test]
fn encrypted_test_to_from_b64() {
    let plaintext = "\u{43f}\u{440}\u{438}\u{432}\u{435}\u{442}";
    let key = new_rand_key();
    let encrypted_1 = Encrypted::new(plaintext.as_bytes(), &key).unwrap();

    let ciphertext_b64 = encrypted_1.ciphertext_as_b64();
    let nonce_b64 = encrypted_1.nonce_as_b64();
    let encrypted_2 = Encrypted::from_b64(&ciphertext_b64, &nonce_b64).unwrap();

    let decrypted_1 = encrypted_1.decrypt(&key).unwrap();
    let decrypted_2 = encrypted_2.decrypt(&key).unwrap();

    assert_eq!(decrypted_1, decrypted_2);
}

#[test]
fn aes_256_consistency() {
    let test_string = String::from("this is a test.");

    let key = new_rand_key();
    let encrypted_1 = Encrypted::new(test_string.as_bytes(), &key).unwrap();
    let encrypted_2 = Encrypted::from_nonce(test_string.as_bytes(), &key, encrypted_1.nonce())
        .unwrap();

    assert_eq!(encrypted_1, encrypted_2);

    let decrypted_1 = String::try_decrypt(&encrypted_1, &key).unwrap();
    let decrypted_2 = String::try_decrypt(&encrypted_2, &key).unwrap();

    assert_eq!(decrypted_1, test_string);
    assert_eq!(decrypted_1, decrypted_2);
}

#[test]
fn check_utf8() {
    let test_str = "\u{60a8}\u{597d}!";

    let key = new_rand_key();
    let encrypted = Encrypted::new(test_str.as_bytes(), &key).unwrap();
    let decrypted = Vec::<u8>::try_decrypt(&encrypted, &key).unwrap();

    assert_eq!(test_str.as_bytes(), decrypted);
    assert_eq!(test_str, std::str::from_utf8(&decrypted).unwrap());
}

#[test]
fn wrong_key_fails_to_decrypt() {
    let key_1 = new_rand_key();
    let key_2 = new_rand_key();
    let encrypted = Encrypted::new(b"top secret", &key_1).unwrap();
    assert!(encrypted.decrypt(&key_2).is_err());
    assert!(encrypted.decrypt(&key_1).is_ok());
}

#[test]
fn tampered_cipherbytes_fail_to_decrypt() {
    let key = new_rand_key();
    let encrypted = Encrypted::new(b"top secret", &key).unwrap();
    let mut tampered_bytes: Vec<u8> = encrypted.cipherbytes().to_vec();
    tampered_bytes[0] = tampered_bytes[0].wrapping_add(1);
    let tampered = Encrypted::from_bytes(&tampered_bytes, encrypted.nonce());
    assert!(tampered.decrypt(&key).is_err());
}

#[test]
fn ciphertext_carries_sixteen_byte_tag() {
    let key = new_rand_key();
    let encrypted = Encrypted::new(b"1234567890", &key).unwrap();
    assert_eq!(encrypted.cipherbytes().len(), 10 + 16);
    assert_eq!(encrypted.nonce().len(), 12);
}
