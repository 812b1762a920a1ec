//! The wall clock, read where an item identifier needs a timestamp.

use vstd::prelude::*;

verus! {

/// Milliseconds since the Unix epoch, from `chrono::Utc::now().timestamp_millis()`.
/// Trusted, and nothing is claimed of the value: it depends on the time of the
/// call.
#[verifier::external_body]
pub(crate) fn now_timestamp_millis() -> i64 {
    chrono::Utc::now().timestamp_millis()
}

} // verus!
