//! Timestamps as they travel on the wire: two 32-bit signed fields,
//! seconds and microseconds.

use vstd::prelude::*;

verus! {

/// A wire timestamp. A normalized value keeps `microseconds` in
/// `0..1_000_000`; the wire format itself carries any pair of 32-bit
/// values.
#[derive(Debug, Clone, Copy, Eq, PartialEq, Ord, PartialOrd, Hash, Structural)]
pub struct TimeVal {
    pub seconds: i32,
    pub microseconds: i32,
}

impl TimeVal {
    /// True when the microsecond field carries less than one full second.
    pub open spec fn is_normalized(self) -> bool {
        0 <= self.microseconds < 1_000_000
    }

    /// This timestamp as a count of microseconds.
    pub open spec fn as_microseconds(self) -> int {
        self.seconds * 1_000_000 + self.microseconds
    }

    pub fn new(seconds: i32, microseconds: i32) -> (r: TimeVal)
        ensures
            r.seconds == seconds,
            r.microseconds == microseconds,
    {
        TimeVal { seconds, microseconds }
    }

    /// The zero timestamp, used where no wall-clock stamp was supplied.
    pub fn zero() -> (r: TimeVal)
        ensures
            r.seconds == 0,
            r.microseconds == 0,
            r.is_normalized(),
    {
        TimeVal { seconds: 0, microseconds: 0 }
    }
}

} // verus!
