//! The one clock read the decision engine needs: the current time as seconds
//! since the Unix epoch.

use vstd::prelude::*;

verus! {

/// Relies on std::time::SystemTime::now. The current Unix timestamp in
/// seconds, total for every clock state: a clock before the epoch reads as
/// 0 and one past what the count can hold as i64::MAX. Nothing is promised
/// of the value; callers hand it to pure functions that are verified for
/// every value.
#[verifier::external_body]
pub fn now_timestamp() -> i64 {
    match std::time::SystemTime::now().duration_since(std::time::UNIX_EPOCH) {
        Ok(elapsed) => i64::try_from(elapsed.as_secs()).unwrap_or(i64::MAX),
        Err(_) => 0,
    }
}

} // verus!
