//! The wall clock.

use vstd::prelude::*;

verus! {

/// The time in milliseconds since the Unix epoch, as `chrono::Utc::now` and
/// `DateTime::timestamp_millis` give it. Nothing is claimed of the reading.
/// Like the crate, this gives up on a system clock that is set before 1970.
#[verifier::external_body]
pub(crate) fn now_millis() -> (r: i64) {
    chrono::Utc::now().timestamp_millis()
}

} // verus!
