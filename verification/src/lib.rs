//! Authentication and authorization core of a small library-management
//! backend: issuance of signed, expiring session tokens, extraction and
//! validation of those tokens from request headers, one-way credential
//! hashing, and the write-once startup bootstrap of the privileged role.

pub mod accounts;
pub mod bootstrap;
pub mod claims;
pub mod client;
pub mod error;
pub mod guard;
pub mod keys;
pub mod password;
pub mod shell;

use vstd::prelude::*;

verus! {

/// Seconds a freshly issued session token stays valid: thirty days.
pub const SESSION_TTL_SECS: usize = 3600 * 24 * 30;

} // verus!
