//! Core of a personal credential vault: password hashing, a passphrase-keyed
//! authenticated envelope, the per-vault key lifecycle, authenticated
//! sessions, and per-field encryption of stored credentials.
//!
//! Persistence and user interaction are left to the surrounding program; the
//! services here take the looked-up records as arguments and hand back the
//! records to store, so that every decision and every invariant in between is
//! verified.

pub mod auth_service;
pub mod credential;
pub mod credential_service;
pub mod crypto;
pub mod dto;
pub mod errors;
pub mod user;
pub mod vault;
