//! Points in time as the relay stores them.

use vstd::prelude::*;

verus! {

/// A point in time: milliseconds since the Unix epoch, UTC.
#[derive(Debug, Clone, Copy, PartialEq, Eq, Hash, Structural)]
pub struct Timestamp {
    pub millis: i64,
}

impl Timestamp {
    /// The point in time `millis` milliseconds after the epoch.
    pub fn from_millis(millis: i64) -> (at: Timestamp)
        ensures
            at.millis == millis,
    {
        Timestamp { millis }
    }
}

} // verus!
