//! Wall-clock access for timestamps on cells, jobs and usage samples.

use vstd::prelude::*;

verus! {

/// Relies on `std::time::SystemTime`: the current UNIX time in
/// milliseconds, saturating at the largest value and reading as zero
/// before the epoch.  The result depends on the host clock, so nothing
/// is promised of it.
#[verifier::external_body]
pub fn now_ms() -> u64 {
    match std::time::SystemTime::now().duration_since(std::time::UNIX_EPOCH) {
        Ok(duration) => duration.as_millis().try_into().unwrap_or(u64::MAX),
        Err(_) => 0,
    }
}

} // verus!
