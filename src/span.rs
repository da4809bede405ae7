use vstd::prelude::*;

verus! {

/// Nanoseconds in one millisecond.
pub const NANOS_PER_MILLI: u64 = 1_000_000;

/// Nanoseconds in one second.
pub const NANOS_PER_SEC: u64 = 1_000_000_000;

/// A non-negative length of time, in whole nanoseconds.
#[derive(Clone, Copy, Debug, PartialEq, Eq, Structural, PartialOrd, Ord, Hash)]
pub struct Span {
    pub nanos: u64,
}

/// `a + b`, or `u64::MAX` where the sum does not fit.
pub open spec fn sat_add(a: nat, b: nat) -> nat {
    if a + b <= u64::MAX {
        a + b
    } else {
        u64::MAX as nat
    }
}

/// `a - b`, or zero where `b` is the larger.
pub open spec fn sat_sub(a: nat, b: nat) -> nat {
    if b <= a {
        (a - b) as nat
    } else {
        0
    }
}

impl Span {
    /// The length in nanoseconds.
    pub open spec fn view(self) -> nat {
        self.nanos as nat
    }

    pub fn zero() -> (r: Span)
        ensures
            r@ == 0,
    {
        Span { nanos: 0 }
    }

    pub fn from_nanos(nanos: u64) -> (r: Span)
        ensures
            r@ == nanos,
    {
        Span { nanos }
    }

    pub fn from_millis(millis: u64) -> (r: Span)
        requires
            millis * NANOS_PER_MILLI <= u64::MAX,
        ensures
            r@ == millis * NANOS_PER_MILLI,
    {
        Span { nanos: millis * NANOS_PER_MILLI }
    }

    pub fn from_secs(secs: u64) -> (r: Span)
        requires
            secs * NANOS_PER_SEC <= u64::MAX,
        ensures
            r@ == secs * NANOS_PER_SEC,
    {
        Span { nanos: secs * NANOS_PER_SEC }
    }

    pub fn as_nanos(&self) -> (r: u64)
        ensures
            r == self@,
    {
        self.nanos
    }

    /// Whole milliseconds, the remainder dropped.
    pub fn as_millis(&self) -> (r: u64)
        ensures
            r == self@ / NANOS_PER_MILLI as nat,
    {
        self.nanos / NANOS_PER_MILLI
    }

    /// Whole seconds, the remainder dropped.
    pub fn as_secs(&self) -> (r: u64)
        ensures
            r == self@ / NANOS_PER_SEC as nat,
    {
        self.nanos / NANOS_PER_SEC
    }

    pub fn is_zero(&self) -> (r: bool)
        ensures
            r == (self@ == 0),
    {
        self.nanos == 0
    }

    /// The sum, held at the largest length a `Span` can hold.
    pub fn saturating_add(self, other: Span) -> (r: Span)
        ensures
            r@ == sat_add(self@, other@),
    {
        if self.nanos <= u64::MAX - other.nanos {
            Span { nanos: self.nanos + other.nanos }
        } else {
            Span { nanos: u64::MAX }
        }
    }

    /// The difference, or zero where `other` is the longer.
    pub fn saturating_sub(self, other: Span) -> (r: Span)
        ensures
            r@ == sat_sub(self@, other@),
    {
        if other.nanos <= self.nanos {
            Span { nanos: self.nanos - other.nanos }
        } else {
            Span { nanos: 0 }
        }
    }

    /// The shorter of the two.
    pub fn min(self, other: Span) -> (r: Span)
        ensures
            r@ == if self@ <= other@ { self@ } else { other@ },
    {
        if self.nanos <= other.nanos {
            self
        } else {
            other
        }
    }

    /// The longer of the two.
    pub fn max(self, other: Span) -> (r: Span)
        ensures
            r@ == if self@ >= other@ { self@ } else { other@ },
    {
        if self.nanos >= other.nanos {
            self
        } else {
            other
        }
    }
}

} // verus!
