//! The wall clock. Timestamps are carried through the crate as plain
//! milliseconds since the Unix epoch, so that the bookkeeping around them
//! (`created_at`, `updated_at`) is ordinary integer logic.

use vstd::prelude::*;

verus! {

/// Relies on `chrono::Utc::now` and `DateTime::timestamp_millis`: the
/// current instant as milliseconds since the Unix epoch. `Utc::now` refuses
/// (by panicking) a system clock set before the epoch, so a value that is
/// returned is non-negative; beyond that, nothing can be promised of a
/// clock reading — two calls may return the same value or go backwards.
#[verifier::external_body]
pub fn now_timestamp_millis() -> (r: i64)
    ensures
        r >= 0,
{
    chrono::Utc::now().timestamp_millis()
}

} // verus!
