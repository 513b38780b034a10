//! Instants on the UTC time line, as plain numbers.

use vstd::prelude::*;

verus! {

/// An instant: whole seconds since 1970-01-01 00:00:00 UTC, and the
/// nanoseconds into that second.
#[derive(Clone, Copy, Debug, PartialEq, Eq, Structural)]
pub struct Timestamp {
    pub secs: i64,
    pub nanos: u32,
}

impl Timestamp {
    /// Whether `self` is strictly later than the instant `secs` seconds and
    /// `nanos` nanoseconds after the epoch. Instants are ordered by their
    /// seconds first and their nanoseconds second.
    pub open spec fn later_than(self, secs: int, nanos: int) -> bool {
        self.secs > secs || (self.secs == secs && self.nanos > nanos)
    }

    /// Whether `self` is strictly later than `other`.
    pub open spec fn is_after(self, other: Timestamp) -> bool {
        self.later_than(other.secs as int, other.nanos as int)
    }

    /// Whether `self` is strictly earlier than `other`.
    pub open spec fn is_before(self, other: Timestamp) -> bool {
        other.is_after(self)
    }

    /// The instant `secs` seconds and `nanos` nanoseconds after the epoch.
    pub fn new(secs: i64, nanos: u32) -> (t: Timestamp)
        ensures
            t.secs == secs,
            t.nanos == nanos,
    {
        Timestamp { secs, nanos }
    }

    /// Whether `self` is strictly later than `other`.
    pub fn after(&self, other: &Timestamp) -> (r: bool)
        ensures
            r == self.is_after(*other),
    {
        self.secs > other.secs || (self.secs == other.secs && self.nanos > other.nanos)
    }

    /// Whether `self` is strictly earlier than `other`.
    pub fn before(&self, other: &Timestamp) -> (r: bool)
        ensures
            r == self.is_before(*other),
    {
        other.after(self)
    }

    /// Whether `self` is strictly later than the instant `span` seconds
    /// before `other`, computed without overflow.
    pub fn after_minus(&self, other: &Timestamp, span: u32) -> (r: bool)
        ensures
            r == self.later_than(other.secs - span, other.nanos as int),
    {
        let this: i128 = self.secs as i128;
        let edge: i128 = other.secs as i128 - span as i128;
        this > edge || (this == edge && self.nanos > other.nanos)
    }
}

} // verus!
