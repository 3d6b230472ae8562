//! Credential management and token issuance.
//!
//! The crate registers users, authenticates them, issues bearer tokens that are
//! bound to a per-user signing secret and a revocation counter, and rotates
//! credentials in place. Every function carries a contract that Verus proves;
//! the few calls into cryptographic crates are isolated in small trusted
//! functions whose contracts are spelled out next to them.

pub mod auth;
pub mod engine;
pub mod error;
pub mod handlers;
pub mod kv_store;
pub mod laws;
mod clock;
pub mod password;
pub mod token;
pub mod turnstile;
