//! Single-subject token issuance and caching.
//!
//! The library authenticates a caller, mints a signed, time-bounded access
//! token, memoizes one live token per subject so repeated logins within the
//! validity window avoid re-signing, and verifies presented tokens for
//! protected-resource access.

pub mod cache;
pub mod clock;
pub mod codec;
pub mod errors;
pub mod gateway;
