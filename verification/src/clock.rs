//! The wall clock, read through `chrono`.

use vstd::prelude::*;

verus! {

/// `Utc::now().timestamp()`: seconds since the Unix epoch. Nothing is
/// claimed of the value.
#[verifier::external_body]
pub(crate) fn unix_now() -> i64 {
    chrono::Utc::now().timestamp()
}

/// `Utc::now().timestamp_nanos_opt()`: nanoseconds since the Unix epoch,
/// where they fit. Nothing is claimed of the value.
#[verifier::external_body]
pub(crate) fn unix_now_nanos() -> Option<i64> {
    chrono::Utc::now().timestamp_nanos_opt()
}

} // verus!
