//! The registered account: a public username and the one-way verification
//! hash of its login password. The password itself is never stored.

use crate::crypto;
use crate::errors::Error;
use vstd::prelude::*;
use vstd::utf8::encode_utf8;

verus! {

/// The bytes a username may consist of: ASCII letters (0x41-0x5a,
/// 0x61-0x7a), digits (0x30-0x39), underscore (0x5f), dot (0x2e) and hyphen
/// (0x2d).
pub open spec fn allowed_username_byte(b: u8) -> bool {
    ||| 0x61 <= b <= 0x7a
    ||| 0x41 <= b <= 0x5a
    ||| 0x30 <= b <= 0x39
    ||| b == 0x5f
    ||| b == 0x2e
    ||| b == 0x2d
}

/// A valid username is 3 to 32 bytes of the allowed alphabet. The alphabet
/// has no blanks and no multi-byte characters, so such a name is never
/// all-whitespace and its byte and character counts agree.
pub open spec fn valid_username(bytes: Seq<u8>) -> bool {
    &&& 3 <= bytes.len() <= 32
    &&& forall|i: int| 0 <= i < bytes.len() ==> allowed_username_byte(bytes[i])
}

/// Checks the domain rules for a username.
pub fn validate_username(username: &str) -> (r: Result<(), Error>)
    ensures
        r is Ok <==> valid_username(encode_utf8(username@)),
        r is Err ==> r->Err_0 == Error::Validation,
{
    let bytes = username.as_bytes();
    let n = bytes.len();
    if n < 3 || n > 32 {
        return Err(Error::Validation);
    }
    let mut i: usize = 0;
    while i < n
        invariant
            n == bytes@.len(),
            bytes@ == encode_utf8(username@),
            0 <= i <= n,
            3 <= n <= 32,
            forall|j: int| 0 <= j < i ==> allowed_username_byte(bytes@[j]),
        decreases n - i,
    {
        let b = bytes[i];
        let allowed = (0x61 <= b && b <= 0x7a) || (0x41 <= b && b <= 0x5a) || (0x30 <= b && b
            <= 0x39) || b == 0x5f || b == 0x2e || b == 0x2d;
        if !allowed {
            return Err(Error::Validation);
        }
        i = i + 1;
    }
    Ok(())
}

/// Checks that a stored verification hash is present at all. An empty hash
/// would make every login fail and indicates a broken registration.
pub fn validate_password_hash(password_hash: &[u8]) -> (r: Result<(), Error>)
    ensures
        r is Ok <==> password_hash@.len() > 0,
        r is Err ==> r->Err_0 == Error::Validation,
{
    if password_hash.len() == 0 {
        return Err(Error::Validation);
    }
    Ok(())
}

/// A registered account.
#[derive(Debug, Clone)]
pub struct User {
    id: u128,
    username: String,
    password_hash: Vec<u8>,
    created_at: i64,
    updated_at: i64,
}

impl User {
    /// The record identifier.
    pub closed spec fn spec_id(&self) -> u128 {
        self.id
    }

    /// The username, as characters.
    pub closed spec fn spec_username(&self) -> Seq<char> {
        self.username@
    }

    /// The stored verification hash.
    pub closed spec fn spec_password_hash(&self) -> Seq<u8> {
        self.password_hash@
    }

    /// Creation time, seconds since the Unix epoch.
    pub closed spec fn spec_created_at(&self) -> i64 {
        self.created_at
    }

    /// Last-update time, seconds since the Unix epoch.
    pub closed spec fn spec_updated_at(&self) -> i64 {
        self.updated_at
    }

    /// Every constructed account has a non-nil identifier, a valid username
    /// and a non-empty verification hash.
    pub open spec fn wf(&self) -> bool {
        &&& self.spec_id() != 0
        &&& valid_username(encode_utf8(self.spec_username()))
        &&& self.spec_password_hash().len() > 0
    }

    /// Creates a new account after checking the domain rules. The
    /// identifier is drawn fresh and both timestamps are set to now.
    pub fn new(username: String, password_hash: Vec<u8>) -> (r: Result<User, Error>)
        ensures
            r is Ok <==> valid_username(encode_utf8(username@)) && password_hash@.len() > 0,
            r is Ok ==> r->Ok_0.wf(),
            r is Ok ==> r->Ok_0.spec_username() == username@,
            r is Ok ==> r->Ok_0.spec_password_hash() == password_hash@,
            r is Ok ==> r->Ok_0.spec_created_at() == r->Ok_0.spec_updated_at(),
            r is Err ==> r->Err_0 == Error::Validation,
    {
        if let Err(e) = validate_username(username.as_str()) {
            return Err(e);
        }
        if let Err(e) = validate_password_hash(password_hash.as_slice()) {
            return Err(e);
        }
        let id = crypto::generate_id();
        let now = crypto::current_timestamp();
        Ok(User { id, username, password_hash, created_at: now, updated_at: now })
    }

    /// The record identifier.
    #[verifier::when_used_as_spec(spec_id)]
    pub fn id(&self) -> (r: u128)
        ensures
            r == self.spec_id(),
    {
        self.id
    }

    /// The username.
    pub fn username(&self) -> (r: &str)
        ensures
            r@ == self.spec_username(),
    {
        self.username.as_str()
    }

    /// The stored verification hash.
    pub fn password_hash(&self) -> (r: &[u8])
        ensures
            r@ == self.spec_password_hash(),
    {
        self.password_hash.as_slice()
    }

    /// Creation time, seconds since the Unix epoch.
    #[verifier::when_used_as_spec(spec_created_at)]
    pub fn created_at(&self) -> (r: i64)
        ensures
            r == self.spec_created_at(),
    {
        self.created_at
    }

    /// Last-update time, seconds since the Unix epoch.
    #[verifier::when_used_as_spec(spec_updated_at)]
    pub fn updated_at(&self) -> (r: i64)
        ensures
            r == self.spec_updated_at(),
    {
        self.updated_at
    }

    /// Rebuilds an account from already persisted data, without re-running
    /// the creation-time checks.
    pub fn from_persisted(
        id: u128,
        username: String,
        password_hash: Vec<u8>,
        created_at: i64,
        updated_at: i64,
    ) -> (r: User)
        ensures
            r.spec_id() == id,
            r.spec_username() == username@,
            r.spec_password_hash() == password_hash@,
            r.spec_created_at() == created_at,
            r.spec_updated_at() == updated_at,
    {
        User { id, username, password_hash, created_at, updated_at }
    }
}

} // verus!
