//! Registration and login.
//!
//! Registration derives the verification hash, draws a fresh 256-bit vault
//! key and seals it under the login password. Login re-checks the password
//! against the stored hash, unwraps the vault key and yields a `Session`.
//! Storage lookups are the caller's: both entry points take the records
//! found (or not found) for the given username, decide, and hand back what
//! to persist.
//!
//! Every way a login can be rejected — unknown user, wrong password,
//! missing vault, unopenable envelope — surfaces as the same generic
//! failure, except a stored hash that no longer parses, which is reported
//! as corruption.

use crate::crypto;
use crate::crypto::{password_matches, unsealed, wellformed_hash};
use crate::errors::Error;
use crate::user::{valid_username, validate_username, User};
use crate::vault::{create_vault_key_envelope, unwrap_vault_key, Vault};
use vstd::prelude::*;
use vstd::utf8::encode_utf8;

verus! {

/// An authenticated session: the account, its vault, the unwrapped vault
/// key, and the passphrase that seals and opens the vault's field
/// ciphertexts. The secrets live only in memory, and wiping them is
/// explicit, not automatic: the holder must call `destroy` on every path
/// that ends the logged-in period, since a session that is merely dropped
/// frees its buffers unwiped.
#[derive(Debug, Clone)]
pub struct Session {
    /// The authenticated account.
    pub user: User,
    /// The vault this session gives access to.
    pub vault_id: u128,
    /// The unwrapped 256-bit vault key.
    pub vault_key: Vec<u8>,
    /// The passphrase used for field encryption.
    pub passphrase: String,
}

impl Session {
    /// Ends the session: every byte of the vault key is overwritten with
    /// zero and the passphrase buffer is wiped and cleared. The session
    /// must not be used for field operations afterwards.
    pub fn destroy(&mut self)
        ensures
            final(self).vault_key@.len() == old(self).vault_key@.len(),
            forall|i: int|
                0 <= i < final(self).vault_key@.len() ==> final(self).vault_key@[i] == 0u8,
            final(self).passphrase@.len() == 0,
            final(self).vault_id == old(self).vault_id,
    {
        crypto::wipe_bytes(&mut self.vault_key);
        crypto::wipe_string(&mut self.passphrase);
    }
}

/// What a successful registration produces: the account record and its
/// vault record, both still to be persisted by the caller.
pub struct Registration {
    /// The new account.
    pub user: User,
    /// The new vault, its key sealed under the account's password.
    pub vault: Vault,
}

/// Whether a login attempt must be accepted: the looked-up account exists
/// under the requested name, its stored hash parses and matches the
/// password, and the looked-up vault belongs to the account and opens under
/// the password.
pub open spec fn login_accepted(
    username: Seq<char>,
    password: Seq<char>,
    user: Option<User>,
    vault: Option<Vault>,
) -> bool {
    &&& user is Some
    &&& encode_utf8(user->0.spec_username()) == encode_utf8(username)
    &&& wellformed_hash(user->0.spec_password_hash())
    &&& password_matches(password, user->0.spec_password_hash())
    &&& vault is Some
    &&& vault->0.spec_user_id() == user->0.spec_id()
    &&& unsealed(password, vault->0.spec_vault_key_cipher()) is Some
}

/// Whether a login attempt hits storage corruption rather than bad
/// credentials: the account was found under the requested name but its
/// stored hash no longer parses.
pub open spec fn login_integrity_error(username: Seq<char>, user: Option<User>) -> bool {
    &&& user is Some
    &&& encode_utf8(user->0.spec_username()) == encode_utf8(username)
    &&& !wellformed_hash(user->0.spec_password_hash())
}

/// A login attempt with a password that does not match the stored hash is
/// never accepted, whatever the looked-up records hold: no session arises
/// from it, and `login`'s contract then reports the generic failure.
pub proof fn lemma_wrong_password_rejected(
    username: Seq<char>,
    password: Seq<char>,
    user: Option<User>,
    vault: Option<Vault>,
)
    requires
        user is Some ==> !password_matches(password, user->0.spec_password_hash()),
    ensures
        !login_accepted(username, password, user, vault),
{
}

/// Byte-for-byte equality of two slices.
fn bytes_equal(a: &[u8], b: &[u8]) -> (r: bool)
    ensures
        r == (a@ == b@),
{
    if a.len() != b.len() {
        return false;
    }
    let mut i: usize = 0;
    while i < a.len()
        invariant
            a@.len() == b@.len(),
            0 <= i <= a@.len(),
            forall|j: int| 0 <= j < i ==> a@[j] == b@[j],
        decreases a@.len() - i,
    {
        if a[i] != b[i] {
            return false;
        }
        i = i + 1;
    }
    assert(a@ =~= b@);
    true
}

/// The registration and login flows.
pub struct AuthService;

impl AuthService {
    /// Registers a new account: checks that the requested name is free and
    /// valid, derives the verification hash, draws a fresh vault key, seals
    /// it under the password, and wipes the raw key before returning. The
    /// caller persists the returned records.
    ///
    /// `username_taken` is the caller's answer to whether a user record
    /// already exists under `username`.
    pub fn register(username: &str, password: &str, username_taken: bool) -> (r: Result<
        Registration,
        Error,
    >)
        ensures
            username_taken ==> r is Err && r->Err_0 == Error::UsernameTaken,
            !username_taken && !valid_username(encode_utf8(username@)) ==> r is Err && r->Err_0
                == Error::Validation,
            r is Ok ==> !username_taken && valid_username(encode_utf8(username@)),
            r is Ok ==> ({
                let reg = r->Ok_0;
                &&& reg.user.wf()
                &&& reg.user.spec_username() == username@
                &&& wellformed_hash(reg.user.spec_password_hash())
                &&& password_matches(password@, reg.user.spec_password_hash())
                &&& reg.vault.wf()
                &&& reg.vault.spec_user_id() == reg.user.spec_id()
                &&& unsealed(password@, reg.vault.spec_vault_key_cipher()) is Some
                &&& unsealed(password@, reg.vault.spec_vault_key_cipher())->0.len() == 32
            }),
            r is Err ==> (r->Err_0 == Error::UsernameTaken || r->Err_0 == Error::Validation
                || r->Err_0 == Error::Crypto),
            r is Err && r->Err_0 == Error::UsernameTaken ==> username_taken,
            r is Err && r->Err_0 == Error::Validation ==> !valid_username(encode_utf8(username@)),
    {
        if username_taken {
            return Err(Error::UsernameTaken);
        }
        if let Err(e) = validate_username(username) {
            return Err(e);
        }
        let password_hash = match crypto::hash_password(password) {
            Ok(h) => h,
            Err(e) => return Err(e),
        };
        let (mut vault_key, vault_cipher) = match create_vault_key_envelope(password) {
            Ok(pair) => pair,
            Err(e) => return Err(e),
        };
        crypto::wipe_bytes(&mut vault_key);
        let user = match User::new(username.to_owned(), password_hash) {
            Ok(u) => u,
            Err(e) => return Err(e),
        };
        let vault = match Vault::new(user.id(), vault_cipher) {
            Ok(v) => v,
            Err(e) => return Err(e),
        };
        Ok(Registration { user, vault })
    }

    /// Authenticates an account and yields a session.
    ///
    /// `user` and `vault` are the caller's lookup results for `username`
    /// and for that account's vault. All four checks — account found,
    /// password matches, vault found and owned by the account, envelope
    /// opens — must pass; which one failed is not revealed. A stored hash
    /// that no longer parses is reported as corruption instead.
    pub fn login(username: &str, password: &str, user: Option<User>, vault: Option<Vault>) -> (r:
        Result<Session, Error>)
        ensures
            r is Ok <==> login_accepted(username@, password@, user, vault),
            r is Ok ==> ({
                let s = r->Ok_0;
                &&& s.user == user->0
                &&& s.vault_id == vault->0.spec_id()
                &&& s.vault_key@ == unsealed(password@, vault->0.spec_vault_key_cipher())->0
                &&& s.passphrase@ == password@
            }),
            r is Err ==> r->Err_0 == (if login_integrity_error(username@, user) {
                Error::Integrity
            } else {
                Error::AuthenticationFailure
            }),
    {
        let user = match user {
            Some(u) => u,
            None => return Err(Error::AuthenticationFailure),
        };
        if !bytes_equal(user.username().as_bytes(), username.as_bytes()) {
            return Err(Error::AuthenticationFailure);
        }
        let verified = match crypto::verify_password(password, user.password_hash()) {
            Ok(v) => v,
            Err(e) => return Err(e),
        };
        if !verified {
            return Err(Error::AuthenticationFailure);
        }
        let vault = match vault {
            Some(v) => v,
            None => return Err(Error::AuthenticationFailure),
        };
        if vault.user_id() != user.id() {
            return Err(Error::AuthenticationFailure);
        }
        let vault_key = match unwrap_vault_key(password, vault.vault_key_cipher()) {
            Ok(k) => k,
            Err(e) => return Err(e),
        };
        Ok(Session { user, vault_id: vault.id(), vault_key, passphrase: password.to_owned() })
    }
}

} // verus!
