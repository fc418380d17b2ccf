//! Points in time, as the sync engine compares them.

use vstd::prelude::*;

verus! {

/// A point in time: whole seconds since the Unix epoch and the nanoseconds
/// within that second. Two timestamps are ordered by seconds first and by
/// nanoseconds second.
#[derive(Clone, Copy, Debug, PartialEq, Eq, Structural)]
pub struct Timestamp {
    pub secs: i64,
    pub nanos: u32,
}

impl Timestamp {
    /// The Unix epoch, which stands for "never synced".
    pub open spec fn spec_epoch() -> Timestamp {
        Timestamp { secs: 0, nanos: 0 }
    }

    /// `self` lies strictly later than `other`.
    pub open spec fn is_after(self, other: Timestamp) -> bool {
        self.secs > other.secs || (self.secs == other.secs && self.nanos > other.nanos)
    }

    /// The later of two timestamps; `self` where neither is later.
    pub open spec fn spec_latest(self, other: Timestamp) -> Timestamp {
        if other.is_after(self) {
            other
        } else {
            self
        }
    }

    pub fn new(secs: i64, nanos: u32) -> (t: Timestamp)
        ensures
            t == (Timestamp { secs, nanos }),
    {
        Timestamp { secs, nanos }
    }

    #[verifier::when_used_as_spec(spec_epoch)]
    pub fn epoch() -> (t: Timestamp)
        ensures
            t == Timestamp::spec_epoch(),
    {
        Timestamp { secs: 0, nanos: 0 }
    }

    pub fn is_epoch(&self) -> (b: bool)
        ensures
            b == (*self == Timestamp::spec_epoch()),
    {
        self.secs == 0 && self.nanos == 0
    }

    pub fn after(&self, other: &Timestamp) -> (b: bool)
        ensures
            b == self.is_after(*other),
    {
        self.secs > other.secs || (self.secs == other.secs && self.nanos > other.nanos)
    }

    #[verifier::when_used_as_spec(spec_latest)]
    pub fn latest(self, other: Timestamp) -> (t: Timestamp)
        ensures
            t == self.spec_latest(other),
    {
        if other.after(&self) {
            other
        } else {
            self
        }
    }
}

} // verus!
