//! The wall clock, behind a trusted boundary.  The state machines of this
//! library take timestamps as arguments; this is where a host inside the
//! library obtains one.

use vstd::prelude::*;

verus! {

/// Relies on chrono's `Utc::now` and `DateTime::timestamp_millis`:
/// milliseconds since the unix epoch.  The value depends on the wall clock,
/// so nothing is promised of it.
#[verifier::external_body]
pub(crate) fn now_unix_millis() -> i64 {
    chrono::Utc::now().timestamp_millis()
}

} // verus!
