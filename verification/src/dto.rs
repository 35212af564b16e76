//! A transport form of the session for front ends that cannot hold the
//! binary key material directly: the vault identifier and the vault key
//! travel as text, and `into_session` turns the transport form back into a
//! usable `Session`.
//!
//! The account carried along holds only the username; the stored
//! identifier and hash do not travel with the session.

use crate::auth_service::Session;
use crate::errors::Error;
use crate::user::User;
use vstd::prelude::*;

verus! {

/// The bytes that standard base64 decoding yields for `text`, or nothing
/// when `text` is not valid base64. A pure function of the text.
pub uninterp spec fn base64_decoded(text: Seq<char>) -> Option<Seq<u8>>;

/// The 128-bit value that parsing `text` as a record identifier yields
/// (the hyphenated form, and the other textual forms the uuid crate
/// accepts), or nothing when `text` is not one. A pure function of the
/// text.
pub uninterp spec fn uuid_parsed(text: Seq<char>) -> Option<u128>;

/// Decodes standard base64 text.
///
/// Relies on the base64 crate's standard-alphabet engine; decoding is a
/// pure function of the text, which is what `base64_decoded` names.
#[verifier::external_body]
fn decode_base64(text: &str) -> (r: Option<Vec<u8>>)
    ensures
        r is Some <==> base64_decoded(text@) is Some,
        r is Some ==> r->0@ == base64_decoded(text@)->0,
{
    base64::Engine::decode(&base64::engine::general_purpose::STANDARD, text).ok()
}

/// Parses a textual record identifier.
///
/// Relies on `Uuid::parse_str` of the uuid crate; parsing is a pure
/// function of the text, which is what `uuid_parsed` names.
#[verifier::external_body]
fn parse_uuid(text: &str) -> (r: Option<u128>)
    ensures
        r is Some <==> uuid_parsed(text@) is Some,
        r is Some ==> r->0 == uuid_parsed(text@)->0,
{
    match uuid::Uuid::parse_str(text) {
        Ok(id) => Some(id.as_u128()),
        Err(_) => None,
    }
}

/// A session in transport form: all fields as text.
#[derive(Debug, Clone)]
pub struct SessionDTO {
    /// The authenticated account's name.
    pub username: String,
    /// The vault identifier, in hyphenated text form.
    pub vault_id: String,
    /// The unwrapped vault key, base64-encoded.
    pub vault_key: String,
    /// The field-encryption passphrase.
    pub passphrase: String,
}

impl SessionDTO {
    /// Rebuilds a usable session from the transport form. Fails when the
    /// vault key is not valid base64 or the vault identifier does not
    /// parse.
    pub fn into_session(self) -> (r: Result<Session, Error>)
        ensures
            r is Ok <==> base64_decoded(self.vault_key@) is Some && uuid_parsed(self.vault_id@)
                is Some,
            r is Ok ==> ({
                let s = r->Ok_0;
                &&& s.user.spec_username() == self.username@
                &&& s.vault_id == uuid_parsed(self.vault_id@)->0
                &&& s.vault_key@ == base64_decoded(self.vault_key@)->0
                &&& s.passphrase == self.passphrase
            }),
            r is Err ==> r->Err_0 == Error::Validation,
    {
        let vault_key = match decode_base64(self.vault_key.as_str()) {
            Some(bytes) => bytes,
            None => return Err(Error::Validation),
        };
        let vault_id = match parse_uuid(self.vault_id.as_str()) {
            Some(id) => id,
            None => return Err(Error::Validation),
        };
        let user = User::from_persisted(0, self.username, Vec::new(), 0, 0);
        Ok(Session { user, vault_id, vault_key, passphrase: self.passphrase })
    }
}

} // verus!
