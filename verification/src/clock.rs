//! Readings of the monotonic clock.
use vstd::prelude::*;

verus! {

/// A reading of the monotonic clock, in nanoseconds since an origin that the
/// process chose once.
#[derive(Clone, Copy, Debug, PartialEq, Eq, Structural)]
pub struct Moment {
    pub nanos: u64,
}

impl Moment {
    /// The deadline has been reached.
    pub open spec fn reached(self, deadline: Moment) -> bool {
        self.nanos >= deadline.nanos
    }

    pub fn has_reached(self, deadline: Moment) -> (reached: bool)
        ensures
            reached == self.reached(deadline),
    {
        self.nanos >= deadline.nanos
    }

    /// The moment this many nanoseconds later, where the clock can name it.
    pub open spec fn later(self, nanos: u64) -> Option<Moment> {
        if self.nanos + nanos <= u64::MAX {
            Some(Moment { nanos: (self.nanos + nanos) as u64 })
        } else {
            None
        }
    }

    pub fn checked_add(self, nanos: u64) -> (later: Option<Moment>)
        ensures
            later == self.later(nanos),
    {
        match self.nanos.checked_add(nanos) {
            Some(nanos) => Some(Moment { nanos }),
            None => None,
        }
    }
}

} // verus!
