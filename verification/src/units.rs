//! Plain-valued time spans, instants, and fractions, so that contracts can
//! compare them as integers.

use vstd::prelude::*;

verus! {

pub const NANOS_PER_SEC: u32 = 1_000_000_000;

/// A span of time as whole seconds plus a sub-second nanosecond part.
#[derive(Clone, Copy, Debug, PartialEq, Eq, Structural)]
pub struct Duration {
    pub secs: u64,
    pub nanos: u32,
}

impl Duration {
    /// The nanosecond part never reaches a full second.
    pub open spec fn wf(self) -> bool {
        self.nanos < NANOS_PER_SEC
    }

    /// Total length in nanoseconds.
    pub open spec fn as_nanos(self) -> int {
        self.secs * NANOS_PER_SEC + self.nanos
    }

    pub fn new(secs: u64, nanos: u32) -> (r: Option<Duration>)
        ensures
            r matches Some(d) ==> d.wf() && d.secs == secs && d.nanos == nanos,
            r is Some <==> nanos < NANOS_PER_SEC,
    {
        if nanos < NANOS_PER_SEC {
            Some(Duration { secs, nanos })
        } else {
            None
        }
    }

    /// Whether `self` is no longer than `other`.
    pub fn le(&self, other: &Duration) -> (r: bool)
        requires
            self.wf(),
            other.wf(),
        ensures
            r <==> self.as_nanos() <= other.as_nanos(),
    {
        if self.secs < other.secs {
            true
        } else if self.secs == other.secs {
            self.nanos <= other.nanos
        } else {
            false
        }
    }
}

/// An instant as seconds since an epoch plus a sub-second nanosecond part,
/// used to order routes by creation time.
#[derive(Clone, Copy, Debug, PartialEq, Eq, Structural)]
pub struct Timestamp {
    pub secs: i64,
    pub nanos: u32,
}

impl Timestamp {
    /// The nanosecond part never reaches a full second.
    pub open spec fn wf(self) -> bool {
        self.nanos < NANOS_PER_SEC
    }

    /// Position on the time line, in nanoseconds since the epoch.
    pub open spec fn as_nanos(self) -> int {
        self.secs * NANOS_PER_SEC + self.nanos
    }

    pub fn new(secs: i64, nanos: u32) -> (r: Option<Timestamp>)
        ensures
            r matches Some(t) ==> t.wf() && t.secs == secs && t.nanos == nanos,
            r is Some <==> nanos < NANOS_PER_SEC,
    {
        if nanos < NANOS_PER_SEC {
            Some(Timestamp { secs, nanos })
        } else {
            None
        }
    }

    /// Whether `self` is no later than `other`.
    pub fn le(&self, other: &Timestamp) -> (r: bool)
        requires
            self.wf(),
            other.wf(),
        ensures
            r <==> self.as_nanos() <= other.as_nanos(),
    {
        if self.secs < other.secs {
            true
        } else if self.secs == other.secs {
            self.nanos <= other.nanos
        } else {
            false
        }
    }
}

/// A ratio of two integers, used for jitter and failure-injection ratios.
#[derive(Clone, Copy, Debug, PartialEq, Eq, Structural)]
pub struct Fraction {
    pub numerator: u32,
    pub denominator: u32,
}

impl Fraction {
    /// The denominator is never zero.
    pub open spec fn wf(self) -> bool {
        self.denominator > 0
    }

    /// Whether the fraction lies in [0, 1].
    pub open spec fn is_unit(self) -> bool {
        self.numerator <= self.denominator
    }
}

} // verus!
