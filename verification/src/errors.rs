//! Error taxonomy of the vault core.
//!
//! Authentication failures are deliberately generic: the caller is never told
//! which of the checks (unknown user, wrong password, missing or corrupt
//! vault envelope) rejected the attempt. Storage corruption is surfaced as a
//! distinct condition so that operators can tell misuse apart from data
//! damage. An ownership violation is reported exactly like a missing record.

use vstd::prelude::*;

verus! {

/// The error conditions surfaced by the vault core.
#[derive(Clone, Copy, Debug, PartialEq, Eq, Structural)]
pub enum Error {
    /// Malformed input: an invalid username, credential name, or an empty
    /// hash or key envelope.
    Validation,
    /// The requested username is already registered.
    UsernameTaken,
    /// Login was rejected; the cause is deliberately not distinguished.
    AuthenticationFailure,
    /// A stored value (such as a password hash) is corrupt.
    Integrity,
    /// The record does not exist or belongs to another vault; the two cases
    /// are deliberately indistinguishable.
    NotAvailable,
    /// An internal cryptographic operation failed.
    Crypto,
}

} // verus!
