//! Instants on the UTC time line and the system clock that supplies them.

use vstd::prelude::*;

verus! {

/// An instant on the UTC time line: whole seconds since the Unix epoch, not
/// counting leap seconds, and the nanoseconds into that second. Within a leap
/// second `nanos` goes on beyond 999,999,999.
#[derive(Clone, Copy, Debug, PartialEq, Eq, Structural)]
pub struct Timestamp {
    pub seconds: i64,
    pub nanos: u32,
}

impl Timestamp {
    /// Whether this instant lies strictly before `other` on the time line.
    pub open spec fn precedes(self, other: Timestamp) -> bool {
        self.seconds < other.seconds || (self.seconds == other.seconds && self.nanos < other.nanos)
    }

    /// The instant `nanos` nanoseconds after second `seconds` of the Unix
    /// epoch.
    pub fn new(seconds: i64, nanos: u32) -> (instant: Self)
        ensures
            instant == (Timestamp { seconds, nanos }),
    {
        Timestamp { seconds, nanos }
    }

    /// Whether this instant lies strictly before `other` on the time line.
    pub fn is_before(&self, other: &Timestamp) -> (before: bool)
        ensures
            before == self.precedes(*other),
    {
        self.seconds < other.seconds || (self.seconds == other.seconds && self.nanos < other.nanos)
    }
}

/// The instant that the system clock shows. The body calls `chrono::Utc::now`
/// and takes the result apart with `DateTime::timestamp` and
/// `DateTime::timestamp_subsec_nanos`. Nothing is claimed of the instant: two
/// readings may differ in any way. `Utc::now` panics on a machine whose clock
/// stands before 1970.
#[verifier::external_body]
pub(crate) fn system_time() -> (now: Timestamp) {
    let now = chrono::Utc::now();
    Timestamp { seconds: now.timestamp(), nanos: now.timestamp_subsec_nanos() }
}

} // verus!
