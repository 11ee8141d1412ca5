//! A computed time value, measured in whole seconds.

use vstd::prelude::*;

verus! {

/// A computed time value.
#[derive(Clone, Copy, Debug, PartialEq, Eq, PartialOrd, Structural)]
pub struct Time {
    seconds: i64,
}

impl Time {
    /// The amount of seconds this value represents.
    pub closed spec fn secs(&self) -> int {
        self.seconds as int
    }

    /// Creates a time value from a seconds amount.
    pub fn from_seconds(seconds: i64) -> (r: Time)
        ensures
            r.secs() == seconds,
    {
        Time { seconds }
    }

    /// Returns the amount of seconds this time represents.
    pub fn seconds(&self) -> (r: i64)
        ensures
            r == self.secs(),
    {
        self.seconds
    }

    /// The zero time value.
    pub fn zero() -> (r: Time)
        ensures
            r.secs() == 0,
    {
        Time { seconds: 0 }
    }

    /// Whether this value is exactly zero.
    pub fn is_zero(&self) -> (r: bool)
        ensures
            r == (self.secs() == 0),
    {
        self.seconds == 0
    }
}

/// A time value is nothing but its seconds: equal seconds means equal
/// values, so `from_seconds` yields the unique value with its seconds
/// and `from_seconds(t.seconds())` gives back `t`.
pub proof fn lemma_time_extensional(a: Time, b: Time)
    requires
        a.secs() == b.secs(),
    ensures
        a == b,
{
}

} // verus!
