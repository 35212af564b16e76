//! The per-user vault: it associates one wrapped symmetric key with the
//! account that owns it. The key is persisted only as the ciphertext
//! produced by sealing it under the owner's login password.

use crate::crypto;
use crate::crypto::unsealed;
use crate::errors::Error;
use vstd::prelude::*;

verus! {

/// Creates a fresh vault key and its envelope: 256 random bits, sealed
/// under the login password. The raw key is returned for immediate use
/// and must be wiped by the caller once no longer needed; only the
/// envelope is ever persisted.
pub fn create_vault_key_envelope(password: &str) -> (r: Result<(Vec<u8>, Vec<u8>), Error>)
    ensures
        r is Ok ==> r->Ok_0.0@.len() == 32,
        r is Ok ==> r->Ok_0.1@.len() > 0,
        r is Ok ==> unsealed(password@, r->Ok_0.1@) == Some(r->Ok_0.0@),
        r is Err ==> r->Err_0 == Error::Crypto,
{
    let vault_key = crypto::generate_vault_key();
    match crypto::encrypt_with_passphrase(password, vault_key.as_slice()) {
        Ok(cipher) => Ok((vault_key, cipher)),
        Err(e) => Err(e),
    }
}

/// Unwraps a vault key from its envelope with the login password. A wrong
/// password and a corrupt envelope surface as the same authentication
/// failure.
pub fn unwrap_vault_key(password: &str, vault_key_cipher: &[u8]) -> (r: Result<Vec<u8>, Error>)
    ensures
        r is Ok <==> unsealed(password@, vault_key_cipher@) is Some,
        r is Ok ==> r->Ok_0@ == unsealed(password@, vault_key_cipher@)->0,
        r is Err ==> r->Err_0 == Error::AuthenticationFailure,
{
    match crypto::decrypt_with_passphrase(password, vault_key_cipher) {
        Ok(key) => Ok(key),
        Err(_) => Err(Error::AuthenticationFailure),
    }
}

/// Checks that a wrapped vault key is present at all. An empty envelope
/// could never be opened and indicates a broken registration.
pub fn validate_vault_key(vault_key_cipher: &[u8]) -> (r: Result<(), Error>)
    ensures
        r is Ok <==> vault_key_cipher@.len() > 0,
        r is Err ==> r->Err_0 == Error::Validation,
{
    if vault_key_cipher.len() == 0 {
        return Err(Error::Validation);
    }
    Ok(())
}

/// A vault record.
#[derive(Debug, Clone)]
pub struct Vault {
    id: u128,
    user_id: u128,
    vault_key_cipher: Vec<u8>,
    created_at: i64,
    updated_at: i64,
}

impl Vault {
    /// The record identifier.
    pub closed spec fn spec_id(&self) -> u128 {
        self.id
    }

    /// The identifier of the owning account.
    pub closed spec fn spec_user_id(&self) -> u128 {
        self.user_id
    }

    /// The sealed vault key.
    pub closed spec fn spec_vault_key_cipher(&self) -> Seq<u8> {
        self.vault_key_cipher@
    }

    /// Creation time, seconds since the Unix epoch.
    pub closed spec fn spec_created_at(&self) -> i64 {
        self.created_at
    }

    /// Last-update time, seconds since the Unix epoch.
    pub closed spec fn spec_updated_at(&self) -> i64 {
        self.updated_at
    }

    /// Every constructed vault has non-nil identifiers and a non-empty
    /// wrapped key.
    pub open spec fn wf(&self) -> bool {
        &&& self.spec_id() != 0
        &&& self.spec_user_id() != 0
        &&& self.spec_vault_key_cipher().len() > 0
    }

    /// Creates a new vault after checking the domain rules. The identifier
    /// is drawn fresh and both timestamps are set to now.
    pub fn new(user_id: u128, vault_key_cipher: Vec<u8>) -> (r: Result<Vault, Error>)
        ensures
            r is Ok <==> user_id != 0 && vault_key_cipher@.len() > 0,
            r is Ok ==> r->Ok_0.wf(),
            r is Ok ==> r->Ok_0.spec_user_id() == user_id,
            r is Ok ==> r->Ok_0.spec_vault_key_cipher() == vault_key_cipher@,
            r is Ok ==> r->Ok_0.spec_created_at() == r->Ok_0.spec_updated_at(),
            r is Err ==> r->Err_0 == Error::Validation,
    {
        if user_id == 0 {
            return Err(Error::Validation);
        }
        if let Err(e) = validate_vault_key(vault_key_cipher.as_slice()) {
            return Err(e);
        }
        let id = crypto::generate_id();
        let now = crypto::current_timestamp();
        Ok(Vault { id, user_id, vault_key_cipher, created_at: now, updated_at: now })
    }

    /// The record identifier.
    #[verifier::when_used_as_spec(spec_id)]
    pub fn id(&self) -> (r: u128)
        ensures
            r == self.spec_id(),
    {
        self.id
    }

    /// The identifier of the owning account.
    #[verifier::when_used_as_spec(spec_user_id)]
    pub fn user_id(&self) -> (r: u128)
        ensures
            r == self.spec_user_id(),
    {
        self.user_id
    }

    /// The sealed vault key.
    pub fn vault_key_cipher(&self) -> (r: &[u8])
        ensures
            r@ == self.spec_vault_key_cipher(),
    {
        self.vault_key_cipher.as_slice()
    }

    /// Creation time, seconds since the Unix epoch.
    #[verifier::when_used_as_spec(spec_created_at)]
    pub fn created_at(&self) -> (r: i64)
        ensures
            r == self.spec_created_at(),
    {
        self.created_at
    }

    /// Last-update time, seconds since the Unix epoch.
    #[verifier::when_used_as_spec(spec_updated_at)]
    pub fn updated_at(&self) -> (r: i64)
        ensures
            r == self.spec_updated_at(),
    {
        self.updated_at
    }

    /// Rebuilds a vault from already persisted data, without re-running the
    /// creation-time checks.
    pub fn from_persisted(
        id: u128,
        user_id: u128,
        vault_key_cipher: Vec<u8>,
        created_at: i64,
        updated_at: i64,
    ) -> (r: Vault)
        ensures
            r.spec_id() == id,
            r.spec_user_id() == user_id,
            r.spec_vault_key_cipher() == vault_key_cipher@,
            r.spec_created_at() == created_at,
            r.spec_updated_at() == updated_at,
    {
        Vault { id, user_id, vault_key_cipher, created_at, updated_at }
    }
}

} // verus!
