//! The wall clock.

use vstd::prelude::*;

verus! {

/// Milliseconds since the Unix epoch, from `chrono::Utc::now()`.
/// Trusted only to return; nothing is stated of the value, which the clock decides.
#[verifier::external_body]
pub fn now_millis() -> (r: i64) {
    chrono::Utc::now().timestamp_millis()
}

} // verus!
