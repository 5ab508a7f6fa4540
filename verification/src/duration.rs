//! A plain-value span of time: whole seconds plus a sub-second nanosecond
//! part. Retry advice carries values of this type, and the rendered text
//! form of an error prints them.

use vstd::prelude::*;

verus! {

/// Nanoseconds per second; the `nanos` field stays strictly below it.
pub const NANOS_PER_SEC: u32 = 1_000_000_000;

/// A non-negative span of time, seconds plus nanoseconds.
///
/// The struct is well formed when `nanos` is a proper sub-second part,
/// i.e. strictly less than one second's worth of nanoseconds; every
/// constructor establishes that.
#[derive(Clone, Copy, Debug, PartialEq, Eq, Structural)]
pub struct Duration {
    /// Whole seconds.
    pub secs: u64,
    /// Sub-second part, in nanoseconds; always below `NANOS_PER_SEC`.
    pub nanos: u32,
}

impl Duration {
    /// Well-formedness: the nanosecond part is a proper sub-second part.
    pub open spec fn wf(self) -> bool {
        self.nanos < NANOS_PER_SEC
    }

    /// The whole span measured in nanoseconds.
    pub open spec fn spec_as_nanos(self) -> int {
        self.secs * (NANOS_PER_SEC as int) + self.nanos
    }

    /// A span of exactly `secs` whole seconds.
    pub fn from_secs(secs: u64) -> (r: Duration)
        ensures
            r.wf(),
            r.secs == secs,
            r.nanos == 0,
    {
        Duration { secs, nanos: 0 }
    }

    /// A span of `millis` milliseconds.
    pub fn from_millis(millis: u64) -> (r: Duration)
        ensures
            r.wf(),
            r.spec_as_nanos() == millis * 1_000_000,
    {
        let secs: u64 = millis / 1000;
        let nanos: u32 = ((millis % 1000) as u32) * 1_000_000;
        proof {
            assert(secs * (NANOS_PER_SEC as int) + nanos == millis * 1_000_000) by (nonlinear_arith)
                requires
                    secs == millis / 1000,
                    nanos == (millis % 1000) * 1_000_000,
            ;
        }
        Duration { secs, nanos }
    }

    /// The number of whole seconds in the span.
    pub fn as_secs(&self) -> (r: u64)
        ensures
            r == self.secs,
    {
        self.secs
    }

    /// The sub-second part of the span, in nanoseconds.
    pub fn subsec_nanos(&self) -> (r: u32)
        ensures
            r == self.nanos,
    {
        self.nanos
    }
}

} // verus!
