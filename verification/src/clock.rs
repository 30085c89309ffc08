//! The wall clock, read through the `time` crate.

use vstd::prelude::*;

verus! {

/// Seconds since the Unix epoch, as `time::OffsetDateTime::now_utc` followed
/// by `unix_timestamp` reports them. Trusted: the value depends on the clock,
/// so nothing is claimed of it, and two calls may differ.
#[verifier::external_body]
pub(crate) fn now_unix_timestamp() -> (seconds: i64) {
    time::OffsetDateTime::now_utc().unix_timestamp()
}

} // verus!
