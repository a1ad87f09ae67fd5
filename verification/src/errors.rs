//! Closed error taxonomy and the mapping from failure kinds to the
//! boundary-visible status code and fixed message.
//!
//! Verification-side failures (`InvalidSignature`, `Malformed`, `Expired`)
//! all map to the same denial response, so the boundary never learns why a
//! presented token was rejected.

use vstd::prelude::*;

verus! {

/// Every failure kind the service can report.
#[derive(Clone, Copy, Debug, PartialEq, Eq, Structural)]
pub enum Error {
    /// The presented credentials were rejected.
    AuthenticationFailed,
    /// Minting a token failed (signing or time computation).
    TokenIssuanceFailed,
    /// A presented token's signature does not verify under the key.
    InvalidSignature,
    /// A presented token cannot be parsed into the expected claim shape.
    Malformed,
    /// A presented token's expiry lies in the past.
    Expired,
}

/// The HTTP status code reported at the boundary for a failure kind.
pub fn status_for(e: &Error) -> (s: u16)
    ensures
        s == (match e {
            Error::AuthenticationFailed => 401u16,
            Error::TokenIssuanceFailed => 500u16,
            Error::InvalidSignature => 401u16,
            Error::Malformed => 401u16,
            Error::Expired => 401u16,
        }),
{
    match e {
        Error::AuthenticationFailed => 401,
        Error::TokenIssuanceFailed => 500,
        Error::InvalidSignature => 401,
        Error::Malformed => 401,
        Error::Expired => 401,
    }
}

/// The fixed human-readable message reported at the boundary for a failure
/// kind. The three verification-side kinds share one message, so callers
/// cannot distinguish why a token was rejected.
pub fn message_for(e: &Error) -> (m: &'static str)
    ensures
        m@ == (match e {
            Error::AuthenticationFailed => "Invalid username or password."@,
            Error::TokenIssuanceFailed => "Failed to generate JWT."@,
            Error::InvalidSignature => "Invalid token."@,
            Error::Malformed => "Invalid token."@,
            Error::Expired => "Invalid token."@,
        }),
{
    match e {
        Error::AuthenticationFailed => "Invalid username or password.",
        Error::TokenIssuanceFailed => "Failed to generate JWT.",
        Error::InvalidSignature => "Invalid token.",
        Error::Malformed => "Invalid token.",
        Error::Expired => "Invalid token.",
    }
}

} // verus!
