//! The wall clock.

use vstd::prelude::*;

verus! {

/// `time::OffsetDateTime::now_utc`, read as nanoseconds since the Unix epoch
/// (`unix_timestamp_nanos`). Nothing is claimed of the instant that comes back:
/// two calls may differ, and a clock may run backwards. `now_utc` itself panics
/// where the system clock lies outside the years that `time` can hold.
#[verifier::external_body]
pub(crate) fn unix_now() -> i128 {
    time::OffsetDateTime::now_utc().unix_timestamp_nanos()
}

} // verus!
