//! A stored credential: plaintext metadata (name, account, URL) plus the
//! sensitive fields (password, notes), which exist only as ciphertext
//! sealed under the owning vault's passphrase.

use crate::crypto;
use crate::errors::Error;
use vstd::prelude::*;
use vstd::utf8::encode_utf8;

verus! {

/// The characters of an optional text field.
pub open spec fn opt_text_view(o: Option<String>) -> Option<Seq<char>> {
    match o {
        Some(s) => Some(s@),
        None => None,
    }
}

/// The bytes of an optional byte field.
pub open spec fn opt_bytes_view(o: Option<Vec<u8>>) -> Option<Seq<u8>> {
    match o {
        Some(v) => Some(v@),
        None => None,
    }
}

/// The length of the whitespace-character encoding at the front of
/// `bytes`, or zero when the front is not one. The characters recognized
/// are those with the Unicode White_Space property, the set that
/// `str::trim` removes, by their UTF-8 encodings: tab through carriage
/// return and space (one byte); next line and no-break space (two bytes);
/// ogham space mark, the en-quad through hair-space range, the line and
/// paragraph separators, narrow no-break space, medium mathematical space
/// and ideographic space (three bytes).
pub open spec fn blank_prefix_len(bytes: Seq<u8>) -> int {
    if bytes.len() >= 1 && (0x09 <= bytes[0] <= 0x0d || bytes[0] == 0x20) {
        1
    } else if bytes.len() >= 2 && bytes[0] == 0xc2 && (bytes[1] == 0x85 || bytes[1] == 0xa0) {
        2
    } else if bytes.len() >= 3 && bytes[0] == 0xe1 && bytes[1] == 0x9a && bytes[2] == 0x80 {
        3
    } else if bytes.len() >= 3 && bytes[0] == 0xe2 && bytes[1] == 0x80 && (0x80 <= bytes[2]
        <= 0x8a || bytes[2] == 0xa8 || bytes[2] == 0xa9 || bytes[2] == 0xaf) {
        3
    } else if bytes.len() >= 3 && bytes[0] == 0xe2 && bytes[1] == 0x81 && bytes[2] == 0x9f {
        3
    } else if bytes.len() >= 3 && bytes[0] == 0xe3 && bytes[1] == 0x80 && bytes[2] == 0x80 {
        3
    } else {
        0
    }
}

/// Whether `bytes` consists entirely of whitespace encodings: the UTF-8
/// form of a text that trims to nothing. The empty sequence is all blank.
pub open spec fn all_blank(bytes: Seq<u8>) -> bool
    decreases bytes.len(),
{
    if bytes.len() == 0 {
        true
    } else if blank_prefix_len(bytes) > 0 {
        all_blank(bytes.skip(blank_prefix_len(bytes)))
    } else {
        false
    }
}

/// A valid credential name is at most 64 bytes and does not trim to
/// nothing.
pub open spec fn valid_credential_name(bytes: Seq<u8>) -> bool {
    &&& bytes.len() <= 64
    &&& !all_blank(bytes)
}

/// The executable counterpart of `blank_prefix_len`, reading at offset
/// `i`.
fn blank_step(bytes: &[u8], i: usize) -> (step: usize)
    requires
        i < bytes@.len(),
    ensures
        step == blank_prefix_len(bytes@.skip(i as int)),
        i + step <= bytes@.len(),
{
    let ghost tail = bytes@.skip(i as int);
    let n = bytes.len();
    let b0 = bytes[i];
    assert(tail[0] == bytes@[i as int]);
    if (0x09 <= b0 && b0 <= 0x0d) || b0 == 0x20 {
        return 1;
    }
    if i + 1 < n {
        assert(tail[1] == bytes@[i + 1]);
        let b1 = bytes[i + 1];
        if b0 == 0xc2 && (b1 == 0x85 || b1 == 0xa0) {
            return 2;
        }
        if i + 2 < n {
            assert(tail[2] == bytes@[i + 2]);
            let b2 = bytes[i + 2];
            if b0 == 0xe1 && b1 == 0x9a && b2 == 0x80 {
                return 3;
            }
            if b0 == 0xe2 && b1 == 0x80 && ((0x80 <= b2 && b2 <= 0x8a) || b2 == 0xa8 || b2
                == 0xa9 || b2 == 0xaf) {
                return 3;
            }
            if b0 == 0xe2 && b1 == 0x81 && b2 == 0x9f {
                return 3;
            }
            if b0 == 0xe3 && b1 == 0x80 && b2 == 0x80 {
                return 3;
            }
        }
    }
    0
}

/// Checks the domain rules for a credential name.
pub fn validate_name(name: &str) -> (r: Result<(), Error>)
    ensures
        r is Ok <==> valid_credential_name(encode_utf8(name@)),
        r is Err ==> r->Err_0 == Error::Validation,
{
    let bytes = name.as_bytes();
    let n = bytes.len();
    if n > 64 {
        return Err(Error::Validation);
    }
    let mut i: usize = 0;
    proof {
        assert(bytes@.skip(0) =~= bytes@);
    }
    while i < n
        invariant
            n == bytes@.len(),
            bytes@ == encode_utf8(name@),
            0 <= i <= n,
            n <= 64,
            all_blank(bytes@) == all_blank(bytes@.skip(i as int)),
        decreases n - i,
    {
        let step = blank_step(bytes, i);
        if step == 0 {
            assert(!all_blank(bytes@.skip(i as int)));
            return Ok(());
        }
        proof {
            assert(bytes@.skip(i as int).skip(step as int) =~= bytes@.skip(i + step));
        }
        i = i + step;
    }
    proof {
        assert(bytes@.skip(n as int) =~= Seq::<u8>::empty());
    }
    Err(Error::Validation)
}

/// A credential record.
#[derive(Debug, Clone)]
pub struct Credential {
    id: u128,
    vault_id: u128,
    name: String,
    username: Option<String>,
    url: Option<String>,
    notes: Option<Vec<u8>>,
    password_cipher: Option<Vec<u8>>,
    created_at: i64,
    updated_at: i64,
}

impl Credential {
    /// The record identifier.
    pub closed spec fn spec_id(&self) -> u128 {
        self.id
    }

    /// The identifier of the owning vault.
    pub closed spec fn spec_vault_id(&self) -> u128 {
        self.vault_id
    }

    /// The display name.
    pub closed spec fn spec_name(&self) -> Seq<char> {
        self.name@
    }

    /// The account name at the credentialed service, if set.
    pub closed spec fn spec_username(&self) -> Option<Seq<char>> {
        opt_text_view(self.username)
    }

    /// The service URL, if set.
    pub closed spec fn spec_url(&self) -> Option<Seq<char>> {
        opt_text_view(self.url)
    }

    /// The sealed notes, if set.
    pub closed spec fn spec_notes(&self) -> Option<Seq<u8>> {
        opt_bytes_view(self.notes)
    }

    /// The sealed password, if set.
    pub closed spec fn spec_password_cipher(&self) -> Option<Seq<u8>> {
        opt_bytes_view(self.password_cipher)
    }

    /// Creation time, seconds since the Unix epoch.
    pub closed spec fn spec_created_at(&self) -> i64 {
        self.created_at
    }

    /// Last-update time, seconds since the Unix epoch.
    pub closed spec fn spec_updated_at(&self) -> i64 {
        self.updated_at
    }

    /// Every constructed credential has non-nil identifiers and a valid
    /// name.
    pub open spec fn wf(&self) -> bool {
        &&& self.spec_id() != 0
        &&& self.spec_vault_id() != 0
        &&& valid_credential_name(encode_utf8(self.spec_name()))
    }

    /// Creates a new credential after checking the domain rules. The
    /// identifier is drawn fresh and both timestamps are set to now. The
    /// notes and password fields, when present, must already be sealed.
    pub fn new(
        vault_id: u128,
        name: String,
        username: Option<String>,
        url: Option<String>,
        notes: Option<Vec<u8>>,
        password_cipher: Option<Vec<u8>>,
    ) -> (r: Result<Credential, Error>)
        ensures
            r is Ok <==> vault_id != 0 && valid_credential_name(encode_utf8(name@)),
            r is Ok ==> r->Ok_0.wf(),
            r is Ok ==> r->Ok_0.spec_vault_id() == vault_id,
            r is Ok ==> r->Ok_0.spec_name() == name@,
            r is Ok ==> r->Ok_0.spec_username() == opt_text_view(username),
            r is Ok ==> r->Ok_0.spec_url() == opt_text_view(url),
            r is Ok ==> r->Ok_0.spec_notes() == opt_bytes_view(notes),
            r is Ok ==> r->Ok_0.spec_password_cipher() == opt_bytes_view(password_cipher),
            r is Ok ==> r->Ok_0.spec_created_at() == r->Ok_0.spec_updated_at(),
            r is Err ==> r->Err_0 == Error::Validation,
    {
        if vault_id == 0 {
            return Err(Error::Validation);
        }
        if let Err(e) = validate_name(name.as_str()) {
            return Err(e);
        }
        let id = crypto::generate_id();
        let now = crypto::current_timestamp();
        Ok(
            Credential {
                id,
                vault_id,
                name,
                username,
                url,
                notes,
                password_cipher,
                created_at: now,
                updated_at: now,
            },
        )
    }

    /// The record identifier.
    #[verifier::when_used_as_spec(spec_id)]
    pub fn id(&self) -> (r: u128)
        ensures
            r == self.spec_id(),
    {
        self.id
    }

    /// The identifier of the owning vault.
    #[verifier::when_used_as_spec(spec_vault_id)]
    pub fn vault_id(&self) -> (r: u128)
        ensures
            r == self.spec_vault_id(),
    {
        self.vault_id
    }

    /// The display name.
    pub fn name(&self) -> (r: &str)
        ensures
            r@ == self.spec_name(),
    {
        self.name.as_str()
    }

    /// The account name at the credentialed service, when set.
    pub fn username(&self) -> (r: Option<&str>)
        ensures
            r is Some <==> self.spec_username() is Some,
            r is Some ==> r->0@ == self.spec_username()->0,
    {
        match &self.username {
            Some(u) => Some(u.as_str()),
            None => None,
        }
    }

    /// The service URL, when set.
    pub fn url(&self) -> (r: Option<&str>)
        ensures
            r is Some <==> self.spec_url() is Some,
            r is Some ==> r->0@ == self.spec_url()->0,
    {
        match &self.url {
            Some(u) => Some(u.as_str()),
            None => None,
        }
    }

    /// The sealed notes, when set.
    pub fn notes(&self) -> (r: Option<&[u8]>)
        ensures
            r is Some <==> self.spec_notes() is Some,
            r is Some ==> r->0@ == self.spec_notes()->0,
    {
        match &self.notes {
            Some(n) => Some(n.as_slice()),
            None => None,
        }
    }

    /// The sealed password, when set.
    pub fn password_cipher(&self) -> (r: Option<&[u8]>)
        ensures
            r is Some <==> self.spec_password_cipher() is Some,
            r is Some ==> r->0@ == self.spec_password_cipher()->0,
    {
        match &self.password_cipher {
            Some(c) => Some(c.as_slice()),
            None => None,
        }
    }

    /// Creation time, seconds since the Unix epoch.
    #[verifier::when_used_as_spec(spec_created_at)]
    pub fn created_at(&self) -> (r: i64)
        ensures
            r == self.spec_created_at(),
    {
        self.created_at
    }

    /// Last-update time, seconds since the Unix epoch.
    #[verifier::when_used_as_spec(spec_updated_at)]
    pub fn updated_at(&self) -> (r: i64)
        ensures
            r == self.spec_updated_at(),
    {
        self.updated_at
    }

    /// Renames the credential, if the new name passes the domain rules;
    /// otherwise leaves it untouched.
    pub fn set_name(&mut self, name: String) -> (r: Result<(), Error>)
        ensures
            r is Ok <==> valid_credential_name(encode_utf8(name@)),
            r is Err ==> r->Err_0 == Error::Validation && *final(self) == *old(self),
            r is Ok ==> final(self).spec_name() == name@,
            r is Ok ==> final(self).unchanged_but_name_and_update_time(*old(self)),
    {
        if let Err(e) = validate_name(name.as_str()) {
            return Err(e);
        }
        self.name = name;
        self.updated_at = crypto::current_timestamp();
        Ok(())
    }

    /// Sets or clears the account name.
    pub fn set_username(&mut self, username: Option<String>)
        ensures
            final(self).spec_username() == opt_text_view(username),
            final(self).spec_name() == old(self).spec_name(),
            final(self).unchanged_but_username_and_update_time(*old(self)),
    {
        self.username = username;
        self.updated_at = crypto::current_timestamp();
    }

    /// Sets or clears the service URL.
    pub fn set_url(&mut self, url: Option<String>)
        ensures
            final(self).spec_url() == opt_text_view(url),
            final(self).unchanged_but_url_and_update_time(*old(self)),
    {
        self.url = url;
        self.updated_at = crypto::current_timestamp();
    }

    /// Sets or clears the sealed notes.
    pub fn set_notes(&mut self, notes: Option<Vec<u8>>)
        ensures
            final(self).spec_notes() == opt_bytes_view(notes),
            final(self).unchanged_but_notes_and_update_time(*old(self)),
    {
        self.notes = notes;
        self.updated_at = crypto::current_timestamp();
    }

    /// Sets or clears the sealed password.
    pub fn set_password_cipher(&mut self, cipher: Option<Vec<u8>>)
        ensures
            final(self).spec_password_cipher() == opt_bytes_view(cipher),
            final(self).unchanged_but_password_and_update_time(*old(self)),
    {
        self.password_cipher = cipher;
        self.updated_at = crypto::current_timestamp();
    }

    /// All fields except the name and the update time agree with `other`.
    pub open spec fn unchanged_but_name_and_update_time(&self, other: Credential) -> bool {
        &&& self.spec_id() == other.spec_id()
        &&& self.spec_vault_id() == other.spec_vault_id()
        &&& self.spec_username() == other.spec_username()
        &&& self.spec_url() == other.spec_url()
        &&& self.spec_notes() == other.spec_notes()
        &&& self.spec_password_cipher() == other.spec_password_cipher()
        &&& self.spec_created_at() == other.spec_created_at()
    }

    /// All fields except the account name and the update time agree with
    /// `other`.
    pub open spec fn unchanged_but_username_and_update_time(&self, other: Credential) -> bool {
        &&& self.spec_id() == other.spec_id()
        &&& self.spec_vault_id() == other.spec_vault_id()
        &&& self.spec_name() == other.spec_name()
        &&& self.spec_url() == other.spec_url()
        &&& self.spec_notes() == other.spec_notes()
        &&& self.spec_password_cipher() == other.spec_password_cipher()
        &&& self.spec_created_at() == other.spec_created_at()
    }

    /// All fields except the URL and the update time agree with `other`.
    pub open spec fn unchanged_but_url_and_update_time(&self, other: Credential) -> bool {
        &&& self.spec_id() == other.spec_id()
        &&& self.spec_vault_id() == other.spec_vault_id()
        &&& self.spec_name() == other.spec_name()
        &&& self.spec_username() == other.spec_username()
        &&& self.spec_notes() == other.spec_notes()
        &&& self.spec_password_cipher() == other.spec_password_cipher()
        &&& self.spec_created_at() == other.spec_created_at()
    }

    /// All fields except the notes and the update time agree with `other`.
    pub open spec fn unchanged_but_notes_and_update_time(&self, other: Credential) -> bool {
        &&& self.spec_id() == other.spec_id()
        &&& self.spec_vault_id() == other.spec_vault_id()
        &&& self.spec_name() == other.spec_name()
        &&& self.spec_username() == other.spec_username()
        &&& self.spec_url() == other.spec_url()
        &&& self.spec_password_cipher() == other.spec_password_cipher()
        &&& self.spec_created_at() == other.spec_created_at()
    }

    /// All fields except the sealed password and the update time agree with
    /// `other`.
    pub open spec fn unchanged_but_password_and_update_time(&self, other: Credential) -> bool {
        &&& self.spec_id() == other.spec_id()
        &&& self.spec_vault_id() == other.spec_vault_id()
        &&& self.spec_name() == other.spec_name()
        &&& self.spec_username() == other.spec_username()
        &&& self.spec_url() == other.spec_url()
        &&& self.spec_notes() == other.spec_notes()
        &&& self.spec_created_at() == other.spec_created_at()
    }

    /// Rebuilds a credential from already persisted data, without
    /// re-running the creation-time checks.
    pub fn from_persisted(
        id: u128,
        vault_id: u128,
        name: String,
        username: Option<String>,
        url: Option<String>,
        notes: Option<Vec<u8>>,
        password_cipher: Option<Vec<u8>>,
        created_at: i64,
        updated_at: i64,
    ) -> (r: Credential)
        ensures
            r.spec_id() == id,
            r.spec_vault_id() == vault_id,
            r.spec_name() == name@,
            r.spec_username() == opt_text_view(username),
            r.spec_url() == opt_text_view(url),
            r.spec_notes() == opt_bytes_view(notes),
            r.spec_password_cipher() == opt_bytes_view(password_cipher),
            r.spec_created_at() == created_at,
            r.spec_updated_at() == updated_at,
    {
        Credential {
            id,
            vault_id,
            name,
            username,
            url,
            notes,
            password_cipher,
            created_at,
            updated_at,
        }
    }
}

} // verus!
