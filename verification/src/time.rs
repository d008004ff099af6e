//! Spans of time in whole microseconds.

use vstd::prelude::*;

verus! {

/// A span of time in whole microseconds.
#[derive(Debug, Clone, Copy, PartialEq, Eq, Structural)]
pub struct Micros(pub u64);

impl Micros {
    pub fn from_micros(us: u64) -> (r: Self)
        ensures
            r.0 == us,
    {
        Micros(us)
    }

    pub fn from_millis(ms: u64) -> (r: Self)
        requires
            ms * 1000 <= u64::MAX,
        ensures
            r.0 == ms * 1000,
    {
        Micros(ms * 1000)
    }

    pub fn from_secs(s: u64) -> (r: Self)
        requires
            s * 1_000_000 <= u64::MAX,
        ensures
            r.0 == s * 1_000_000,
    {
        Micros(s * 1_000_000)
    }

    pub fn as_micros(self) -> (r: u64)
        ensures
            r == self.0,
    {
        self.0
    }
}

} // verus!
