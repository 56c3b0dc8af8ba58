//! The one clock read used by the library.
//!
//! All other functions take timestamps as plain values, so the protocol
//! logic is verified for every possible reading of the clock.

use vstd::prelude::*;

verus! {

/// The Unix timestamp of 9999-12-31 23:59:59 UTC, the latest instant an
/// `OffsetDateTime` can represent without the `large-dates` feature.
pub const MAX_UNIX_TIMESTAMP: i64 = 253402300799;

/// Relies on `time::OffsetDateTime::now_utc` and `unix_timestamp`: the
/// current UTC time as seconds since the Unix epoch.  The type caps dates
/// at year 9999, so a returned reading never exceeds
/// [`MAX_UNIX_TIMESTAMP`]; on a clock set past that year the conversion
/// inside `time` panics instead of returning.  A clock set before 1970
/// yields a negative reading (`time` converts such a `SystemTime` to a
/// date before the epoch), so no lower bound is promised: callers clamp
/// with [`clamp_timestamp`].
#[verifier::external_body]
pub fn now_unix() -> (r: i64)
    ensures
        r <= MAX_UNIX_TIMESTAMP,
{
    time::OffsetDateTime::now_utc().unix_timestamp()
}

/// A clock reading folded into the protocol's time model: readings before
/// the Unix epoch count as the epoch itself.
pub open spec fn clamped_timestamp(reading: int) -> int {
    if reading < 0 {
        0
    } else {
        reading
    }
}

/// Clamps a clock reading to the epoch; the session protocol models time
/// as non-negative Unix seconds.
pub fn clamp_timestamp(reading: i64) -> (r: i64)
    ensures
        r == clamped_timestamp(reading as int),
{
    if reading < 0 {
        0
    } else {
        reading
    }
}

} // verus!
