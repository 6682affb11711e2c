//! A span of time with nanosecond precision, split into whole seconds and
//! the nanoseconds below one second, as `std::time::Duration` is.

use vstd::prelude::*;

verus! {

/// Nanoseconds in one second.
pub const NANOS_PER_SEC: u32 = 1_000_000_000;

/// Nanoseconds in one millisecond.
pub const NANOS_PER_MILLI: u32 = 1_000_000;

/// A span of time: `secs` whole seconds and `nanos` nanoseconds, with
/// `nanos` below one second.
#[derive(Clone, Copy, Debug, PartialEq, Eq, Structural)]
pub struct Duration {
    secs: u64,
    nanos: u32,
}

impl View for Duration {
    /// The whole seconds and the nanoseconds below one second.
    type V = (u64, u32);

    closed spec fn view(&self) -> (u64, u32) {
        (self.secs, self.nanos)
    }
}

/// The sum of two spans (each with nanoseconds below one second), carrying a full second out of the
/// nanoseconds; the seconds may exceed `u64::MAX` here.
pub open spec fn sum_of(a: (u64, u32), b: (u64, u32)) -> (int, int) {
    if a.1 + b.1 >= NANOS_PER_SEC {
        (a.0 + b.0 + 1, a.1 + b.1 - NANOS_PER_SEC)
    } else {
        (a.0 + b.0, a.1 + b.1)
    }
}

/// Law: the sum of two spans is their total length, split again into whole
/// seconds and nanoseconds below one second.
pub proof fn law_sum_is_total(a: (u64, u32), b: (u64, u32))
    requires
        a.1 < NANOS_PER_SEC,
        b.1 < NANOS_PER_SEC,
    ensures
        sum_of(a, b).0 * 1_000_000_000 + sum_of(a, b).1 == (a.0 + b.0) * 1_000_000_000 + a.1 + b.1,
        0 <= sum_of(a, b).1 < NANOS_PER_SEC,
{
}

impl Duration {
    #[verifier::type_invariant]
    closed spec fn wf(self) -> bool {
        self.nanos < NANOS_PER_SEC
    }

    /// A span of `secs` whole seconds.
    pub fn from_secs(secs: u64) -> (d: Duration)
        ensures
            d@ == (secs, 0u32),
    {
        Duration { secs, nanos: 0 }
    }

    /// A span of `millis` milliseconds.
    pub fn from_millis(millis: u64) -> (d: Duration)
        ensures
            d@.0 == millis / 1000,
            d@.1 == (millis % 1000) * NANOS_PER_MILLI,
    {
        let rest: u64 = millis % 1000;
        assert(rest * 1_000_000 < 1_000_000_000) by (nonlinear_arith)
            requires
                rest < 1000,
        ;
        let nanos: u32 = (rest * 1_000_000) as u32;
        Duration { secs: millis / 1000, nanos }
    }

    /// A span of `secs` seconds and `nanos` nanoseconds; whole seconds held
    /// in `nanos` are carried into the seconds. The carried seconds must fit
    /// in `u64` (`std::time::Duration::new` panics otherwise).
    pub fn new(secs: u64, nanos: u32) -> (d: Duration)
        requires
            secs + nanos / NANOS_PER_SEC <= u64::MAX,
        ensures
            d@.0 == secs + nanos / NANOS_PER_SEC,
            d@.1 == nanos % NANOS_PER_SEC,
    {
        let carry: u32 = nanos / NANOS_PER_SEC;
        Duration { secs: secs + carry as u64, nanos: nanos % NANOS_PER_SEC }
    }

    /// The whole seconds of the span.
    pub fn as_secs(&self) -> (s: u64)
        ensures
            s == self@.0,
    {
        self.secs
    }

    /// The nanoseconds of the span below one second.
    pub fn subsec_nanos(&self) -> (n: u32)
        ensures
            n == self@.1,
            n < NANOS_PER_SEC,
    {
        proof {
            use_type_invariant(self);
        }
        self.nanos
    }

    /// The sum of two spans, or `None` where its seconds overflow `u64`.
    pub fn checked_add(&self, rhs: &Duration) -> (r: Option<Duration>)
        ensures
            match r {
                Some(d) => d@.0 == sum_of(self@, rhs@).0 && d@.1 == sum_of(self@, rhs@).1,
                None => sum_of(self@, rhs@).0 > u64::MAX,
            },
    {
        proof {
            use_type_invariant(self);
            use_type_invariant(rhs);
        }
        let nanos_sum: u32 = self.nanos + rhs.nanos;
        match self.secs.checked_add(rhs.secs) {
            None => None,
            Some(secs) => {
                if nanos_sum >= NANOS_PER_SEC {
                    match secs.checked_add(1) {
                        None => None,
                        Some(carried) => Some(Duration { secs: carried, nanos: nanos_sum - NANOS_PER_SEC }),
                    }
                } else {
                    Some(Duration { secs, nanos: nanos_sum })
                }
            },
        }
    }
}

} // verus!
