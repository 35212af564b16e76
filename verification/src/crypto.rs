//! Cryptographic primitives of the vault core, each one a thin trusted
//! boundary around an outside implementation: Argon2id password hashing, the
//! age passphrase envelope, entropy for keys and identifiers, and guaranteed
//! wiping of secret buffers.
//!
//! The uninterpreted names below stand for results that are functions of
//! their arguments alone but whose exact value no short specification could
//! pin down (a key derivation, an authenticated decryption). Everything the
//! rest of the crate proves about hashing and sealing flows through these
//! names.

use crate::errors::Error;
use age::secrecy::SecretString;
use age::{Decryptor, Encryptor};
use argon2::password_hash::{PasswordHash, SaltString};
use argon2::{Argon2, PasswordHasher, PasswordVerifier};
use rand::RngCore;
use rand::rngs::OsRng;
use std::io::{Read, Write};
use vstd::prelude::*;
use zeroize::Zeroize;

verus! {

/// Whether Argon2id verification of `password` against the parameters, salt
/// and digest carried inside `hash` succeeds. A pure function of the two
/// arguments; its value is not further specified here.
pub uninterp spec fn password_matches(password: Seq<char>, hash: Seq<u8>) -> bool;

/// Whether `hash` is UTF-8 text in the self-describing PHC format that
/// Argon2id verification can parse. A pure function of the bytes.
pub uninterp spec fn wellformed_hash(hash: Seq<u8>) -> bool;

/// The result of opening an age passphrase envelope: `Some(plaintext)` when
/// the envelope parses, the key derived from `passphrase` and the salt
/// embedded in `cipher` authenticates it, and decryption succeeds; `None`
/// otherwise. A pure function of the two arguments.
pub uninterp spec fn unsealed(passphrase: Seq<char>, cipher: Seq<u8>) -> Option<Seq<u8>>;

/// The characters that lossy UTF-8 decoding yields for `bytes`: a pure
/// function of the bytes, with invalid sequences replaced.
pub uninterp spec fn lossy_decoded(bytes: Seq<u8>) -> Seq<char>;

/// Derives a one-way verification hash from a login password.
///
/// Relies on the argon2 crate: `hash_password` runs Argon2id over the
/// password with a freshly generated random salt and returns the
/// self-describing PHC string, which `verify_password` of the same crate
/// parses back and accepts for the same password. The salt is drawn anew on
/// every call, so nothing beyond that round trip is promised of the bytes.
#[verifier::external_body]
pub fn hash_password(plain_password: &str) -> (r: Result<Vec<u8>, Error>)
    ensures
        r is Ok ==> r->Ok_0@.len() > 0,
        r is Ok ==> wellformed_hash(r->Ok_0@),
        r is Ok ==> password_matches(plain_password@, r->Ok_0@),
        r is Err ==> r->Err_0 == Error::Crypto,
{
    let salt = SaltString::generate(&mut OsRng);
    match Argon2::default().hash_password(plain_password.as_bytes(), &salt) {
        Ok(hash) => Ok(hash.to_string().into_bytes()),
        Err(_) => Err(Error::Crypto),
    }
}

/// Checks a password against a stored verification hash.
///
/// Relies on the argon2 crate: `PasswordHash::new` parses the PHC text (its
/// success is what `wellformed_hash` names), and `verify_password`
/// deterministically recomputes the digest from the embedded parameters and
/// salt and compares in constant time (its success is what
/// `password_matches` names). A hash that does not parse is reported as
/// corruption, never as a wrong password.
#[verifier::external_body]
pub fn verify_password(plain_password: &str, stored_password_hash: &[u8]) -> (r: Result<
    bool,
    Error,
>)
    ensures
        r is Ok <==> wellformed_hash(stored_password_hash@),
        r is Ok ==> r->Ok_0 == password_matches(plain_password@, stored_password_hash@),
        r is Err ==> r->Err_0 == Error::Integrity,
{
    let text = match std::str::from_utf8(stored_password_hash) {
        Ok(text) => text,
        Err(_) => return Err(Error::Integrity),
    };
    let parsed = match PasswordHash::new(text) {
        Ok(parsed) => parsed,
        Err(_) => return Err(Error::Integrity),
    };
    Ok(Argon2::default().verify_password(plain_password.as_bytes(), &parsed).is_ok())
}

/// Seals a byte payload under a passphrase.
///
/// Relies on the age crate: `Encryptor::with_user_passphrase` derives a key
/// with scrypt from a fresh random salt, encrypts with a fresh nonce, and
/// embeds salt, nonce and parameters in the output, which the same crate's
/// passphrase decryption opens back to the payload. Fresh randomness is
/// drawn on every call, so only that round trip and non-emptiness are
/// promised of the ciphertext.
#[verifier::external_body]
pub fn encrypt_with_passphrase(passphrase: &str, plaintext: &[u8]) -> (r: Result<Vec<u8>, Error>)
    ensures
        r is Ok ==> unsealed(passphrase@, r->Ok_0@) == Some(plaintext@),
        r is Ok ==> r->Ok_0@.len() > 0,
        r is Err ==> r->Err_0 == Error::Crypto,
{
    let secret = SecretString::new(passphrase.to_owned());
    let encryptor = Encryptor::with_user_passphrase(secret);
    let mut encrypted: Vec<u8> = Vec::new();
    let mut writer = match encryptor.wrap_output(&mut encrypted) {
        Ok(writer) => writer,
        Err(_) => return Err(Error::Crypto),
    };
    if writer.write_all(plaintext).is_err() {
        return Err(Error::Crypto);
    }
    if writer.finish().is_err() {
        return Err(Error::Crypto);
    }
    Ok(encrypted)
}

/// Opens a sealed byte payload with a passphrase.
///
/// Relies on the age crate: `Decryptor::new` parses the envelope, and the
/// passphrase decryptor rederives the key from the embedded salt and
/// authenticates while reading. The accepted scrypt work factor is fixed
/// at 63, the largest the derivation itself admits — with the default
/// (`None`) age would cap it by timing the current machine, and the
/// outcome would not be a function of the arguments. As called here the
/// whole pipeline is deterministic in passphrase and ciphertext, which is
/// what `unsealed` names, and every envelope the encryption above
/// produces stays within the bound. A wrong passphrase, a tampered
/// envelope and a malformed envelope all fail with the same condition.
#[verifier::external_body]
pub fn decrypt_with_passphrase(passphrase: &str, ciphertext: &[u8]) -> (r: Result<Vec<u8>, Error>)
    ensures
        r is Ok <==> unsealed(passphrase@, ciphertext@) is Some,
        r is Ok ==> r->Ok_0@ == unsealed(passphrase@, ciphertext@)->Some_0,
        r is Err ==> r->Err_0 == Error::Crypto,
{
    let passphrase_decryptor = match Decryptor::new(ciphertext) {
        Ok(Decryptor::Passphrase(decryptor)) => decryptor,
        _ => return Err(Error::Crypto),
    };
    let secret = SecretString::new(passphrase.to_owned());
    let mut reader = match passphrase_decryptor.decrypt(&secret, Some(63)) {
        Ok(reader) => reader,
        Err(_) => return Err(Error::Crypto),
    };
    let mut decrypted: Vec<u8> = Vec::new();
    if reader.read_to_end(&mut decrypted).is_err() {
        return Err(Error::Crypto);
    }
    Ok(decrypted)
}

/// Draws a fresh 256-bit vault key.
///
/// Relies on `OsRng::fill_bytes` of the rand crate, which fills the buffer
/// from the operating system's entropy source. Nothing is promised of the
/// bytes beyond their count.
#[verifier::external_body]
pub(crate) fn generate_vault_key() -> (r: Vec<u8>)
    ensures
        r@.len() == 32,
{
    let mut key = [0u8; 32];
    OsRng.fill_bytes(&mut key);
    key.to_vec()
}

/// Draws a fresh random record identifier.
///
/// Relies on `Uuid::new_v4` of the uuid crate: a random identifier whose
/// version field is always set to 4, so the value is never the all-zero
/// (nil) identifier.
#[verifier::external_body]
pub(crate) fn generate_id() -> (r: u128)
    ensures
        r != 0,
{
    uuid::Uuid::new_v4().as_u128()
}

/// Reads the current wall-clock time as seconds since the Unix epoch.
///
/// Relies on `Utc::now` of the chrono crate. Nothing is promised of a clock
/// reading.
#[verifier::external_body]
pub(crate) fn current_timestamp() -> i64 {
    chrono::Utc::now().timestamp()
}

/// Overwrites every byte of the buffer with zero, in place.
///
/// Relies on the zeroize crate's slice implementation: each element is set
/// to zero through writes the compiler will not elide, and the length is
/// unchanged.
#[verifier::external_body]
pub(crate) fn wipe_bytes(buffer: &mut Vec<u8>)
    ensures
        final(buffer)@.len() == old(buffer)@.len(),
        forall|i: int| 0 <= i < final(buffer)@.len() ==> final(buffer)@[i] == 0u8,
{
    buffer.as_mut_slice().zeroize();
}

/// Overwrites the string's buffer with zeros and clears it.
///
/// Relies on the zeroize crate's `String` implementation: the full capacity
/// is zeroed through writes the compiler will not elide, and the length is
/// set to zero.
#[verifier::external_body]
pub(crate) fn wipe_string(text: &mut String)
    ensures
        final(text)@.len() == 0,
{
    text.zeroize();
}

/// Decodes bytes to text, replacing invalid UTF-8 sequences.
///
/// Relies on `String::from_utf8_lossy` of std, a pure function of the
/// bytes, which is what `lossy_decoded` names. On bytes that are the
/// UTF-8 encoding of some character sequence, std documents that the
/// decoding returns exactly those characters, which the second clause
/// states.
#[verifier::external_body]
pub(crate) fn decode_lossy(bytes: &[u8]) -> (r: String)
    ensures
        r@ == lossy_decoded(bytes@),
        forall|s: Seq<char>| vstd::utf8::encode_utf8(s) == bytes@ ==> r@ == s,
{
    String::from_utf8_lossy(bytes).into_owned()
}

} // verus!
