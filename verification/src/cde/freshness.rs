//! Freshness of data: how recent a datum's timestamp is.

use vstd::prelude::*;
use crate::ddna::DataDna;

verus! {

/// Default freshness window: 24 hours in microseconds.
pub const DEFAULT_FRESHNESS_WINDOW_US: i64 = 86_400_000_000;

/// Whether `newer` was created strictly after `older`.
pub fn is_newer(newer: &DataDna, older: &DataDna) -> (b: bool)
    ensures
        b == (newer.temporal.timestamp_us > older.temporal.timestamp_us),
{
    newer.temporal.timestamp_us > older.temporal.timestamp_us
}

/// Whether a datum is within the freshness window at time `now_us`: its
/// age (now minus its timestamp) is at most `window_us`.
pub fn is_fresh_at(ddna: &DataDna, window_us: i64, now_us: i64) -> (b: bool)
    ensures
        b == (now_us - ddna.temporal.timestamp_us <= window_us),
{
    (now_us as i128) - (ddna.temporal.timestamp_us as i128) <= window_us as i128
}

/// "Newer than" is a strict order: never both ways, and transitive.
pub proof fn lemma_newer_is_strict_order(a: i64, b: i64, c: i64)
    ensures
        !(a > b && b > a),
        a > b && b > c ==> a > c,
{
}

} // verus!
