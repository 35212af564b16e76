//! Credential operations gated by an authenticated session.
//!
//! Every operation on a stored credential first checks, on plaintext
//! metadata, that the record belongs to the session's vault; a mismatch is
//! reported exactly like a missing record, before any cryptographic work.
//! The sensitive fields are sealed and opened with the session's
//! passphrase, each field independently of the other.
//!
//! Storage is the caller's: lookups come in as arguments, and the returned
//! records are the caller's to persist.

use crate::credential::{opt_text_view, valid_credential_name, validate_name, Credential};
use crate::crypto;
use crate::crypto::{lossy_decoded, unsealed};
use crate::errors::Error;
use crate::auth_service::Session;
use vstd::prelude::*;
use vstd::utf8::encode_utf8;

verus! {

/// Seals a field's plaintext under the session's passphrase. Fresh
/// randomness is drawn on every call, so sealing equal plaintexts twice
/// yields unrelated ciphertexts.
pub fn encrypt_field(session: &Session, plaintext: &[u8]) -> (r: Result<Vec<u8>, Error>)
    ensures
        r is Ok ==> unsealed(session.passphrase@, r->Ok_0@) == Some(plaintext@),
        r is Ok ==> r->Ok_0@.len() > 0,
        r is Err ==> r->Err_0 == Error::Crypto,
{
    crypto::encrypt_with_passphrase(session.passphrase.as_str(), plaintext)
}

/// Opens a sealed field with the session's passphrase. The returned
/// plaintext is sensitive; the caller must wipe it after use.
pub fn decrypt_field(session: &Session, cipher: &[u8]) -> (r: Result<Vec<u8>, Error>)
    ensures
        r is Ok <==> unsealed(session.passphrase@, cipher@) is Some,
        r is Ok ==> r->Ok_0@ == unsealed(session.passphrase@, cipher@)->0,
        r is Err ==> r->Err_0 == Error::Crypto,
{
    crypto::decrypt_with_passphrase(session.passphrase.as_str(), cipher)
}

/// Lower-cases an ASCII letter byte; any other byte is unchanged.
pub open spec fn lower_byte(b: u8) -> u8 {
    if 0x41 <= b <= 0x5a {
        (b + 0x20) as u8
    } else {
        b
    }
}

/// Whether `needle` occurs in `hay` at offset `i`, comparing bytes with
/// ASCII letters folded to lower case.
pub open spec fn matches_at(hay: Seq<u8>, needle: Seq<u8>, i: int) -> bool {
    &&& 0 <= i
    &&& i + needle.len() <= hay.len()
    &&& forall|j: int| 0 <= j < needle.len() ==> lower_byte(hay[i + j]) == lower_byte(needle[j])
}

/// Whether `needle` occurs anywhere in `hay`, case-insensitively over
/// ASCII. An empty needle occurs in everything.
pub open spec fn name_contains(hay: Seq<u8>, needle: Seq<u8>) -> bool {
    exists|i: int| matches_at(hay, needle, i)
}

/// Case-insensitive (ASCII) substring test.
fn contains_ci(hay: &[u8], needle: &[u8]) -> (r: bool)
    ensures
        r == name_contains(hay@, needle@),
{
    let n = hay.len();
    let m = needle.len();
    if m > n {
        return false;
    }
    let mut i: usize = 0;
    while i <= n - m
        invariant
            n == hay@.len(),
            m == needle@.len(),
            m <= n,
            0 <= i <= n - m + 1,
            forall|k: int| 0 <= k < i ==> !matches_at(hay@, needle@, k),
        decreases n - m - i + 1,
    {
        let mut j: usize = 0;
        let mut matched: bool = true;
        while j < m
            invariant
                n == hay@.len(),
                m == needle@.len(),
                m <= n,
                0 <= i <= n - m,
                0 <= j <= m,
                matched ==> forall|l: int| 0 <= l < j ==> lower_byte(hay@[i + l]) == lower_byte(
                    needle@[l],
                ),
                !matched ==> !matches_at(hay@, needle@, i as int),
            decreases m - j,
        {
            let hb = hay[i + j];
            let nb = needle[j];
            let hl: u8 = if 0x41 <= hb && hb <= 0x5a {
                hb + 0x20
            } else {
                hb
            };
            let nl: u8 = if 0x41 <= nb && nb <= 0x5a {
                nb + 0x20
            } else {
                nb
            };
            if hl != nl {
                matched = false;
                assert(lower_byte(hay@[i + j]) != lower_byte(needle@[j as int]));
                assert(!matches_at(hay@, needle@, i as int));
                j = m;
            } else {
                j = j + 1;
            }
        }
        if matched {
            assert(matches_at(hay@, needle@, i as int));
            return true;
        }
        i = i + 1;
    }
    assert forall|k: int| !matches_at(hay@, needle@, k) by {
        if 0 <= k <= n - m {
            assert(!matches_at(hay@, needle@, k));
        }
    }
    false
}

/// Appending one element to a sequence extends its filtered image by that
/// element exactly when the element passes the predicate.
proof fn lemma_filter_push<A>(s: Seq<A>, x: A, pred: spec_fn(A) -> bool)
    ensures
        s.push(x).filter(pred) == if pred(x) {
            s.filter(pred).push(x)
        } else {
            s.filter(pred)
        },
{
    reveal(Seq::filter);
    assert(s.push(x).drop_last() =~= s);
    assert(s.push(x).last() == x);
}

/// The credential operations: create, update, delete, lookup, reveal and
/// search, each gated by the session's ownership of the record.
pub struct CredentialService;

impl CredentialService {
    /// Creates a credential in the session's vault, sealing the password
    /// and the notes (when given) under the session's passphrase. The
    /// caller persists the returned record.
    pub fn create(
        session: &Session,
        name: &str,
        username: Option<String>,
        url: Option<String>,
        notes: Option<Vec<u8>>,
        password: Option<&str>,
    ) -> (r: Result<Credential, Error>)
        ensures
            !valid_credential_name(encode_utf8(name@)) ==> r is Err && r->Err_0
                == Error::Validation,
            session.vault_id == 0 ==> r is Err,
            r is Ok ==> valid_credential_name(encode_utf8(name@)) && session.vault_id != 0,
            valid_credential_name(encode_utf8(name@)) && session.vault_id != 0 && password
                is None && notes is None ==> r is Ok,
            r is Err && r->Err_0 == Error::Validation ==> !valid_credential_name(
                encode_utf8(name@),
            ) || session.vault_id == 0,
            r is Ok ==> ({
                let c = r->Ok_0;
                &&& c.wf()
                &&& c.spec_vault_id() == session.vault_id
                &&& c.spec_name() == name@
                &&& c.spec_username() == opt_text_view(username)
                &&& c.spec_url() == opt_text_view(url)
                &&& (c.spec_password_cipher() is Some <==> password is Some)
                &&& (password is Some ==> unsealed(
                    session.passphrase@,
                    c.spec_password_cipher()->0,
                ) == Some(encode_utf8(password->0@)))
                &&& (c.spec_notes() is Some <==> notes is Some)
                &&& (notes is Some ==> unsealed(session.passphrase@, c.spec_notes()->0) == Some(
                    notes->0@,
                ))
            }),
            r is Err ==> r->Err_0 == Error::Validation || r->Err_0 == Error::Crypto,
    {
        if let Err(e) = validate_name(name) {
            return Err(e);
        }
        if session.vault_id == 0 {
            return Err(Error::Validation);
        }
        let cipher = match password {
            Some(pwd) => match encrypt_field(session, pwd.as_bytes()) {
                Ok(c) => Some(c),
                Err(e) => return Err(e),
            },
            None => None,
        };
        let notes_cipher = match notes {
            Some(n) => match encrypt_field(session, n.as_slice()) {
                Ok(c) => Some(c),
                Err(e) => return Err(e),
            },
            None => None,
        };
        Credential::new(session.vault_id, name.to_owned(), username, url, notes_cipher, cipher)
    }

    /// Updates a credential of the session's vault: the given parts
    /// replace the stored ones, the omitted parts are kept; a new password
    /// or new notes are sealed first. A record of another vault is not
    /// available. The caller persists the returned record.
    pub fn update(
        session: &Session,
        credential: Credential,
        name: Option<String>,
        username: Option<String>,
        url: Option<String>,
        notes: Option<Vec<u8>>,
        password: Option<&str>,
    ) -> (r: Result<Credential, Error>)
        ensures
            credential.spec_vault_id() != session.vault_id ==> r is Err && r->Err_0
                == Error::NotAvailable,
            credential.spec_vault_id() == session.vault_id && name is Some
                && !valid_credential_name(encode_utf8(name->0@)) ==> r is Err && r->Err_0
                == Error::Validation,
            r is Ok ==> credential.spec_vault_id() == session.vault_id,
            credential.spec_vault_id() == session.vault_id && (name is Some
                ==> valid_credential_name(encode_utf8(name->0@))) && notes is None && password
                is None ==> r is Ok,
            r is Err && r->Err_0 == Error::NotAvailable ==> credential.spec_vault_id()
                != session.vault_id,
            r is Err && r->Err_0 == Error::Validation ==> name is Some
                && !valid_credential_name(encode_utf8(name->0@)),
            r is Ok ==> ({
                let c = r->Ok_0;
                &&& c.spec_id() == credential.spec_id()
                &&& c.spec_vault_id() == credential.spec_vault_id()
                &&& c.spec_name() == (if name is Some {
                    name->0@
                } else {
                    credential.spec_name()
                })
                &&& c.spec_username() == (if username is Some {
                    Some(username->0@)
                } else {
                    credential.spec_username()
                })
                &&& c.spec_url() == (if url is Some {
                    Some(url->0@)
                } else {
                    credential.spec_url()
                })
                &&& (notes is Some ==> c.spec_notes() is Some && unsealed(
                    session.passphrase@,
                    c.spec_notes()->0,
                ) == Some(notes->0@))
                &&& (notes is None ==> c.spec_notes() == credential.spec_notes())
                &&& (password is Some ==> c.spec_password_cipher() is Some && unsealed(
                    session.passphrase@,
                    c.spec_password_cipher()->0,
                ) == Some(encode_utf8(password->0@)))
                &&& (password is None ==> c.spec_password_cipher()
                    == credential.spec_password_cipher())
                &&& c.spec_created_at() == credential.spec_created_at()
            }),
            r is Err ==> r->Err_0 == Error::NotAvailable || r->Err_0 == Error::Validation
                || r->Err_0 == Error::Crypto,
    {
        let mut credential = credential;
        if credential.vault_id() != session.vault_id {
            return Err(Error::NotAvailable);
        }
        if let Some(value) = name {
            if let Err(e) = credential.set_name(value) {
                return Err(e);
            }
        }
        if let Some(value) = username {
            credential.set_username(Some(value));
        }
        if let Some(value) = url {
            credential.set_url(Some(value));
        }
        if let Some(value) = notes {
            let sealed = match encrypt_field(session, value.as_slice()) {
                Ok(c) => c,
                Err(e) => return Err(e),
            };
            credential.set_notes(Some(sealed));
        }
        if let Some(pwd) = password {
            let sealed = match encrypt_field(session, pwd.as_bytes()) {
                Ok(c) => c,
                Err(e) => return Err(e),
            };
            credential.set_password_cipher(Some(sealed));
        }
        Ok(credential)
    }

    /// Decides a deletion request: a record that was not found is already
    /// gone (nothing to do), a record of another vault is not available,
    /// and a record of the session's vault may be deleted. The caller
    /// removes the record when `true` is returned.
    pub fn delete(session: &Session, found: Option<&Credential>) -> (r: Result<bool, Error>)
        ensures
            found is None ==> r == Ok::<bool, Error>(false),
            found matches Some(c) && c.spec_vault_id() != session.vault_id ==> r == Err::<
                bool,
                Error,
            >(Error::NotAvailable),
            found matches Some(c) && c.spec_vault_id() == session.vault_id ==> r == Ok::<
                bool,
                Error,
            >(true),
    {
        match found {
            Some(cred) => {
                if cred.vault_id() != session.vault_id {
                    Err(Error::NotAvailable)
                } else {
                    Ok(true)
                }
            },
            None => Ok(false),
        }
    }

    /// Hands out a looked-up credential if it belongs to the session's
    /// vault; a missing record and a record of another vault are reported
    /// identically.
    pub fn get(session: &Session, found: Option<Credential>) -> (r: Result<Credential, Error>)
        ensures
            r is Ok <==> (found is Some && found->0.spec_vault_id() == session.vault_id),
            r is Ok ==> r->Ok_0 == found->0,
            r is Err ==> r->Err_0 == Error::NotAvailable,
    {
        match found {
            Some(cred) => {
                if cred.vault_id() != session.vault_id {
                    Err(Error::NotAvailable)
                } else {
                    Ok(cred)
                }
            },
            None => Err(Error::NotAvailable),
        }
    }

    /// Reveals the password of a credential of the session's vault, when
    /// one is stored: the sealed field is opened and decoded to text, and
    /// the plaintext buffer is wiped before returning.
    pub fn reveal_password(session: &Session, found: Option<&Credential>) -> (r: Result<
        Option<String>,
        Error,
    >)
        ensures
            found is None ==> r == Err::<Option<String>, Error>(Error::NotAvailable),
            found matches Some(c) && c.spec_vault_id() != session.vault_id ==> r == Err::<
                Option<String>,
                Error,
            >(Error::NotAvailable),
            found is Some && found->0.spec_vault_id() == session.vault_id
                ==> match found->0.spec_password_cipher() {
                None => r == Ok::<Option<String>, Error>(None),
                Some(cipher) => match unsealed(session.passphrase@, cipher) {
                    Some(plain) => r matches Ok(Some(s)) && s@ == lossy_decoded(plain) && (
                    forall|t: Seq<char>| encode_utf8(t) == plain ==> s@ == t),
                    None => r == Err::<Option<String>, Error>(Error::Crypto),
                },
            },
    {
        let cred = match found {
            Some(c) => c,
            None => return Err(Error::NotAvailable),
        };
        if cred.vault_id() != session.vault_id {
            return Err(Error::NotAvailable);
        }
        match cred.password_cipher() {
            Some(cipher) => {
                let mut plain = match decrypt_field(session, cipher) {
                    Ok(p) => p,
                    Err(e) => return Err(e),
                };
                let output = crypto::decode_lossy(plain.as_slice());
                crypto::wipe_bytes(&mut plain);
                Ok(Some(output))
            },
            None => Ok(None),
        }
    }

    /// Reveals the notes of a credential of the session's vault, when some
    /// are stored, in the same way as `reveal_password`.
    pub fn reveal_notes(session: &Session, found: Option<&Credential>) -> (r: Result<
        Option<String>,
        Error,
    >)
        ensures
            found is None ==> r == Err::<Option<String>, Error>(Error::NotAvailable),
            found matches Some(c) && c.spec_vault_id() != session.vault_id ==> r == Err::<
                Option<String>,
                Error,
            >(Error::NotAvailable),
            found is Some && found->0.spec_vault_id() == session.vault_id
                ==> match found->0.spec_notes() {
                None => r == Ok::<Option<String>, Error>(None),
                Some(cipher) => match unsealed(session.passphrase@, cipher) {
                    Some(plain) => r matches Ok(Some(s)) && s@ == lossy_decoded(plain) && (
                    forall|t: Seq<char>| encode_utf8(t) == plain ==> s@ == t),
                    None => r == Err::<Option<String>, Error>(Error::Crypto),
                },
            },
    {
        let cred = match found {
            Some(c) => c,
            None => return Err(Error::NotAvailable),
        };
        if cred.vault_id() != session.vault_id {
            return Err(Error::NotAvailable);
        }
        match cred.notes() {
            Some(cipher) => {
                let mut plain = match decrypt_field(session, cipher) {
                    Ok(p) => p,
                    Err(e) => return Err(e),
                };
                let output = crypto::decode_lossy(plain.as_slice());
                crypto::wipe_bytes(&mut plain);
                Ok(Some(output))
            },
            None => Ok(None),
        }
    }

    /// Keeps, in order, the credentials that belong to the session's
    /// vault.
    pub fn list(session: &Session, credentials: Vec<Credential>) -> (r: Vec<Credential>)
        ensures
            r@ == credentials@.filter(
                |c: Credential| c.spec_vault_id() == session.vault_id,
            ),
    {
        let ghost pred = |c: Credential| c.spec_vault_id() == session.vault_id;
        let mut remaining = credentials;
        let mut result: Vec<Credential> = Vec::new();
        let ghost mut processed: Seq<Credential> = Seq::empty();
        while remaining.len() > 0
            invariant
                credentials@ == processed + remaining@,
                result@ == processed.filter(pred),
                pred == (|c: Credential| c.spec_vault_id() == session.vault_id),
            decreases remaining@.len(),
        {
            let cred = remaining.remove(0);
            proof {
                assert(credentials@ == processed.push(cred) + remaining@);
                lemma_filter_push(processed, cred, pred);
                processed = processed.push(cred);
            }
            if cred.vault_id() == session.vault_id {
                result.push(cred);
            }
        }
        proof {
            assert(credentials@ =~= processed);
        }
        result
    }

    /// Keeps, in order, the credentials of the session's vault whose name
    /// contains the query, compared case-insensitively over ASCII.
    pub fn search(session: &Session, credentials: Vec<Credential>, query: &str) -> (r: Vec<
        Credential,
    >)
        ensures
            r@ == credentials@.filter(
                |c: Credential|
                    c.spec_vault_id() == session.vault_id && name_contains(
                        encode_utf8(c.spec_name()),
                        encode_utf8(query@),
                    ),
            ),
    {
        let ghost pred = |c: Credential|
            c.spec_vault_id() == session.vault_id && name_contains(
                encode_utf8(c.spec_name()),
                encode_utf8(query@),
            );
        let mut remaining = credentials;
        let mut result: Vec<Credential> = Vec::new();
        let ghost mut processed: Seq<Credential> = Seq::empty();
        while remaining.len() > 0
            invariant
                credentials@ == processed + remaining@,
                result@ == processed.filter(pred),
                pred == (|c: Credential|
                    c.spec_vault_id() == session.vault_id && name_contains(
                        encode_utf8(c.spec_name()),
                        encode_utf8(query@),
                    )),
            decreases remaining@.len(),
        {
            let cred = remaining.remove(0);
            proof {
                assert(credentials@ == processed.push(cred) + remaining@);
                lemma_filter_push(processed, cred, pred);
                processed = processed.push(cred);
            }
            if cred.vault_id() == session.vault_id && contains_ci(
                cred.name().as_bytes(),
                query.as_bytes(),
            ) {
                result.push(cred);
            }
        }
        proof {
            assert(credentials@ =~= processed);
        }
        result
    }
}

} // verus!
