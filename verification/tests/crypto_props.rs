use password_manager::crypto::{
    decrypt_with_passphrase, encrypt_with_passphrase, hash_password, verify_password,
};
use password_manager::errors::Error;

#[test]
fn hash_then_verify_succeeds() {
    let hash = hash_password("S3cret!").expect("hashing failed");
    assert!(!hash.is_empty());
    assert_eq!(verify_password("S3cret!", &hash), Ok(true));
}

#[test]
fn verify_rejects_other_password() {
    let hash = hash_password("S3cret!").expect("hashing failed");
    assert_eq!(verify_password("wrong", &hash), Ok(false));
}

#[test]
fn hashes_of_different_passwords_differ() {
    let h1 = hash_password("first password").expect("hashing failed");
    let h2 = hash_password("second password").expect("hashing failed");
    assert_ne!(h1, h2);
}

#[test]
fn hashes_of_same_password_differ_by_salt() {
    let h1 = hash_password("S3cret!").expect("hashing failed");
    let h2 = hash_password("S3cret!").expect("hashing failed");
    assert_ne!(h1, h2);
}

#[test]
fn malformed_stored_hash_is_integrity_error() {
    assert_eq!(verify_password("pw", b"not a phc string"), Err(Error::Integrity));
    assert_eq!(verify_password("pw", &[0xff, 0xfe, 0x00]), Err(Error::Integrity));
    assert_eq!(verify_password("pw", b""), Err(Error::Integrity));
}

#[test]
fn seal_then_open_returns_plaintext() {
    let sealed = encrypt_with_passphrase("korrekt", b"attack at dawn").expect("sealing failed");
    let opened = decrypt_with_passphrase("korrekt", &sealed).expect("opening failed");
    assert_eq!(opened, b"attack at dawn".to_vec());
}

#[test]
fn sealing_twice_gives_different_ciphertexts() {
    let first = encrypt_with_passphrase("k", b"same message").expect("sealing failed");
    let second = encrypt_with_passphrase("k", b"same message").expect("sealing failed");
    assert_ne!(first, second);
}

#[test]
fn wrong_passphrase_fails_generically() {
    let sealed = encrypt_with_passphrase("right", b"payload").expect("sealing failed");
    assert_eq!(decrypt_with_passphrase("wrong", &sealed), Err(Error::Crypto));
}

#[test]
fn tampered_ciphertext_fails_to_open() {
    let mut sealed = encrypt_with_passphrase("k", b"payload").expect("sealing failed");
    let last = sealed.len() - 1;
    sealed[last] ^= 0x01;
    assert_eq!(decrypt_with_passphrase("k", &sealed), Err(Error::Crypto));
}
