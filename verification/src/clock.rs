//! Points on a monotonic clock.
//!
//! Every rule of the daemon that involves time compares whole seconds elapsed
//! between two readings of one monotonic clock. A [`Moment`] is such a
//! reading, counted in nanoseconds from an origin that the caller fixes once
//! (the start of the process, say).

use vstd::prelude::*;

verus! {

/// Nanoseconds in one second.
pub const NANOS_PER_SEC: u64 = 1_000_000_000;

/// Nanoseconds in one millisecond.
pub const NANOS_PER_MILLI: u64 = 1_000_000;

/// A reading of the monotonic clock, in nanoseconds since the origin.
#[derive(Clone, Copy, Debug, PartialEq, Eq, Structural)]
pub struct Moment {
    pub nanos: u64,
}

/// Whole seconds from `since` to `now`; zero when `now` is not later.
pub open spec fn seconds_between(since: Moment, now: Moment) -> nat {
    if now.nanos >= since.nanos {
        ((now.nanos - since.nanos) / (NANOS_PER_SEC as int)) as nat
    } else {
        0
    }
}

/// The later of two readings.
pub open spec fn later_of(a: Moment, b: Moment) -> Moment {
    if a.nanos >= b.nanos {
        a
    } else {
        b
    }
}

/// `units * scale`, held at the largest `u64` where the product exceeds it.
pub open spec fn scaled(units: u64, scale: u64) -> u64 {
    if units * scale <= u64::MAX {
        (units * scale) as u64
    } else {
        u64::MAX
    }
}

impl Moment {
    /// The reading `nanos` nanoseconds after the origin.
    pub fn from_nanos(nanos: u64) -> (m: Moment)
        ensures
            m.nanos == nanos,
    {
        Moment { nanos }
    }

    /// The reading `millis` milliseconds after the origin. A count too large
    /// for the clock gives its last reading.
    pub fn from_millis(millis: u64) -> (m: Moment)
        ensures
            m.nanos == scaled(millis, NANOS_PER_MILLI),
    {
        if millis <= u64::MAX / NANOS_PER_MILLI {
            assert(millis * NANOS_PER_MILLI <= u64::MAX) by (nonlinear_arith)
                requires
                    millis <= u64::MAX / NANOS_PER_MILLI,
                    NANOS_PER_MILLI == 1_000_000,
            ;
            Moment { nanos: millis * NANOS_PER_MILLI }
        } else {
            assert(millis * NANOS_PER_MILLI > u64::MAX) by (nonlinear_arith)
                requires
                    millis > u64::MAX / NANOS_PER_MILLI,
                    NANOS_PER_MILLI == 1_000_000,
            ;
            Moment { nanos: u64::MAX }
        }
    }

    /// The reading `secs` seconds after the origin. A count too large for the
    /// clock gives its last reading.
    pub fn from_secs(secs: u64) -> (m: Moment)
        ensures
            m.nanos == scaled(secs, NANOS_PER_SEC),
    {
        if secs <= u64::MAX / NANOS_PER_SEC {
            assert(secs * NANOS_PER_SEC <= u64::MAX) by (nonlinear_arith)
                requires
                    secs <= u64::MAX / NANOS_PER_SEC,
                    NANOS_PER_SEC == 1_000_000_000,
            ;
            Moment { nanos: secs * NANOS_PER_SEC }
        } else {
            assert(secs * NANOS_PER_SEC > u64::MAX) by (nonlinear_arith)
                requires
                    secs > u64::MAX / NANOS_PER_SEC,
                    NANOS_PER_SEC == 1_000_000_000,
            ;
            Moment { nanos: u64::MAX }
        }
    }

    /// Nanoseconds since the origin.
    pub fn as_nanos(&self) -> (n: u64)
        ensures
            n == self.nanos,
    {
        self.nanos
    }

    /// Whole seconds from this reading to `now`. A `now` that is not later
    /// counts as no time passed.
    pub fn elapsed_secs(&self, now: Moment) -> (secs: u64)
        ensures
            secs == seconds_between(*self, now),
    {
        if now.nanos >= self.nanos {
            (now.nanos - self.nanos) / NANOS_PER_SEC
        } else {
            0
        }
    }

    /// The later of this reading and `other`.
    pub fn later(&self, other: Moment) -> (m: Moment)
        ensures
            m == later_of(*self, other),
    {
        if self.nanos >= other.nanos {
            *self
        } else {
            other
        }
    }
}

} // verus!
