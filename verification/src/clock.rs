//! The system clock, read in microseconds since the Unix epoch.

use vstd::prelude::*;

verus! {

/// `std::time::SystemTime::now()` converted by chrono's
/// `From<SystemTime> for DateTime<Utc>` and read with `timestamp_micros`:
/// the current time in microseconds since the Unix epoch, negative for a
/// clock set before the epoch. Nothing is promised of the value, which
/// depends on the machine's clock.
#[verifier::external_body]
pub(crate) fn now_micros() -> (t: i64) {
    chrono::DateTime::<chrono::Utc>::from(std::time::SystemTime::now()).timestamp_micros()
}

} // verus!

verus! {

/// `std::time::SystemTime::now()` in whole seconds since the Unix epoch
/// (`duration_since(UNIX_EPOCH)`, 0 for a clock set before the epoch).
/// Nothing is promised of the value, which depends on the machine's clock.
#[verifier::external_body]
pub(crate) fn now_unix_secs() -> (t: u64) {
    std::time::SystemTime::now().duration_since(std::time::UNIX_EPOCH).unwrap_or_default().as_secs()
}

} // verus!
