//! The process clock, read through `chrono`.

use vstd::prelude::*;

verus! {

/// Relies on chrono::Utc::now: the current instant as a whole-second Unix
/// timestamp. What it returns depends on the machine's clock, so nothing is
/// promised of the value; callers state what holds whatever instant came
/// back. An instant before the epoch is reported as zero.
#[verifier::external_body]
pub fn current_timestamp() -> (now: u64) {
    chrono::Utc::now().timestamp().try_into().unwrap_or(0)
}

} // verus!
