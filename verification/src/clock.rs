//! The time at which a record is handed to the geospatial service.

use vstd::prelude::*;

verus! {

/// An instant, as seconds and nanoseconds since 1970-01-01 00:00:00 UTC.
#[derive(Clone, Copy, Debug, PartialEq, Eq, Structural)]
pub struct Timestamp {
    /// Whole seconds since the epoch, leap seconds not counted.
    pub seconds: i64,
    /// Nanoseconds since the last whole second.
    pub nanos: u32,
}

impl Timestamp {
    /// The nanoseconds stay below one second.
    pub open spec fn well_formed(&self) -> bool {
        self.nanos < 1_000_000_000
    }
}

/// The current time, read with `chrono::Utc::now`.
///
/// Trusted: `Utc::now` builds its result from the time that has passed since
/// the epoch on the system clock, whose sub-second part is below one second,
/// and `timestamp` and `timestamp_subsec_nanos` hand those two numbers back.
/// Nothing else is claimed: the value differs from call to call. `Utc::now`
/// panics where the system clock stands before the epoch.
#[verifier::external_body]
pub(crate) fn now() -> (t: Timestamp)
    ensures
        t.well_formed(),
{
    let now = chrono::Utc::now();
    Timestamp { seconds: now.timestamp(), nanos: now.timestamp_subsec_nanos() }
}

} // verus!
