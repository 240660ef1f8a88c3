//! Temporal proof: a microsecond timestamp with its clock source.

use vstd::prelude::*;
use crate::clock::now_micros;
use super::DdnaError;

verus! {

/// Clock that produced a timestamp.
#[derive(Debug, Clone, Copy, PartialEq, Eq, Structural)]
pub enum ClockSource {
    /// System clock.
    System,
    /// NTP-synchronised clock.
    Ntp,
    /// GPS-synchronised clock.
    Gps,
}

/// Timestamp of a datum's creation.
#[derive(Debug, Clone, Copy)]
pub struct TemporalProof {
    /// Microseconds since the Unix epoch.
    pub timestamp_us: i64,
    /// Clock that produced the timestamp.
    pub source_clock: ClockSource,
    /// Estimated precision in microseconds.
    pub precision_us: u32,
}

/// Tolerated clock drift into the future: 60 seconds.
pub open spec fn max_future_us() -> int {
    60_000_000
}

/// Maximum accepted age: 24 hours.
pub open spec fn max_age_us() -> int {
    86_400_000_000
}

/// The timestamp lies too far in the future at time `now_us`.
pub open spec fn too_new(ts: i64, now_us: i64) -> bool {
    ts > now_us + max_future_us()
}

/// The timestamp is more than 24 hours old at time `now_us`.
pub open spec fn too_old(ts: i64, now_us: i64) -> bool {
    ts < now_us - max_age_us()
}

/// The timestamp is plausible at time `now_us`.
pub open spec fn plausible(ts: i64, now_us: i64) -> bool {
    !too_new(ts, now_us) && !too_old(ts, now_us)
}

/// What checking a timestamp at time `now_us` answers: `Ok(true)` when it
/// is plausible then; otherwise `InvalidTimestamp`, saying whether it is too
/// far in the future or too old.
pub open spec fn timestamp_checked_at(timestamp_us: i64, now_us: i64, r: Result<bool, DdnaError>) -> bool {
    &&& (r is Ok <==> plausible(timestamp_us, now_us))
    &&& (r is Ok ==> r == Ok::<bool, DdnaError>(true))
    &&& (r matches Err(e) ==> e matches DdnaError::InvalidTimestamp(m) && (if too_new(timestamp_us, now_us) {
        m@ == "Timestamp nel futuro oltre la tolleranza"@
    } else {
        m@ == "Timestamp troppo vecchio (>24h)"@
    }))
}

impl TemporalProof {
    /// A proof stamped with the system clock, precise to 1 ms.
    pub fn now() -> (p: TemporalProof)
        ensures
            p.source_clock == ClockSource::System,
            p.precision_us == 1_000,
    {
        TemporalProof { timestamp_us: now_micros(), source_clock: ClockSource::System, precision_us: 1_000 }
    }

    /// A proof with the given timestamp, clock and precision.
    pub fn with_timestamp(timestamp_us: i64, source: ClockSource, precision_us: u32) -> (p: TemporalProof)
        ensures
            p.timestamp_us == timestamp_us,
            p.source_clock == source,
            p.precision_us == precision_us,
    {
        TemporalProof { timestamp_us, source_clock: source, precision_us }
    }

    /// Checks the timestamp against the time `now_us`: it may be at most 60
    /// seconds in the future and at most 24 hours old.
    pub fn verify_at(&self, now_us: i64) -> (r: Result<bool, DdnaError>)
        ensures
            timestamp_checked_at(self.timestamp_us, now_us, r),
    {
        let ts = self.timestamp_us as i128;
        let now = now_us as i128;
        if ts > now + 60_000_000 {
            return Err(DdnaError::InvalidTimestamp(String::from_str("Timestamp nel futuro oltre la tolleranza")));
        }
        if ts < now - 86_400_000_000 {
            return Err(DdnaError::InvalidTimestamp(String::from_str("Timestamp troppo vecchio (>24h)")));
        }
        Ok(true)
    }

    /// Checks the timestamp against the system clock (see `verify_at`).
    pub fn verify(&self) -> (r: Result<bool, DdnaError>)
        ensures
            exists|now_us: i64| timestamp_checked_at(self.timestamp_us, now_us, r),
    {
        self.verify_at(now_micros())
    }
}

} // verus!
