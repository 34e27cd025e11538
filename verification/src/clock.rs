//! Points in time, as whole seconds since the Unix epoch and the nanoseconds
//! that follow them.
use vstd::prelude::*;

verus! {

/// A point in time. Instants are ordered by their seconds, then by their
/// nanoseconds.
#[derive(Clone, Copy, Debug, PartialEq, Eq, Structural)]
pub struct Instant {
    pub secs: i64,
    pub nanos: u32,
}

/// The number of seconds in the 365 days for which a credential is valid.
pub const VALIDITY_SECS: i64 = 31_536_000;

impl Instant {
    /// `self` is `other` or comes before it.
    pub open spec fn not_after(self, other: Instant) -> bool {
        self.secs < other.secs || (self.secs == other.secs && self.nanos <= other.nanos)
    }

    /// True when `self` is `other` or comes before it.
    pub fn is_not_after(&self, other: &Instant) -> (r: bool)
        ensures
            r == self.not_after(*other),
    {
        self.secs < other.secs || (self.secs == other.secs && self.nanos <= other.nanos)
    }

    /// The instant 365 days after `self`, where its seconds fit 64 bits.
    pub fn plus_validity(&self) -> (r: Option<Instant>)
        ensures
            match r {
                Some(later) => later.secs == self.secs + VALIDITY_SECS && later.nanos == self.nanos,
                None => self.secs + VALIDITY_SECS > i64::MAX,
            },
    {
        if self.secs > i64::MAX - VALIDITY_SECS {
            None
        } else {
            Some(Instant { secs: self.secs + VALIDITY_SECS, nanos: self.nanos })
        }
    }
}

} // verus!
