use vstd::prelude::*;

verus! {

/// Nanoseconds in one second.
pub const NANOS_PER_SEC: u32 = 1_000_000_000;

/// Nanoseconds in one millisecond.
pub const NANOS_PER_MILLI: u32 = 1_000_000;

/// A span of time, held as whole seconds and the nanoseconds past them,
/// the way the standard library's `Duration` holds it.
#[derive(Clone, Copy, Debug, PartialEq, Eq, Structural)]
pub struct Duration {
    pub secs: u64,
    pub nanos: u32,
}

impl Duration {
    /// The well-formedness of a span: the nanosecond part stays below one second.
    pub open spec fn wf(self) -> bool {
        self.nanos < NANOS_PER_SEC
    }

    /// The span in nanoseconds.
    pub open spec fn total_nanos(self) -> int {
        self.secs * 1_000_000_000 + self.nanos
    }

    /// The span of `millis` milliseconds.
    pub open spec fn spec_from_millis(millis: u64) -> Duration {
        Duration { secs: millis / 1000, nanos: ((millis % 1000) * 1_000_000) as u32 }
    }

    /// The span of `secs` whole seconds.
    pub open spec fn spec_from_secs(secs: u64) -> Duration {
        Duration { secs, nanos: 0 }
    }

    /// A span of `millis` milliseconds.
    pub fn from_millis(millis: u64) -> (d: Duration)
        ensures
            d == Duration::spec_from_millis(millis),
            d.wf(),
            d.secs == millis / 1000,
            d.nanos == (millis % 1000) * 1_000_000,
            d.total_nanos() == millis * 1_000_000,
    {
        let secs = millis / 1000;
        let rem = (millis % 1000) as u32;
        assert(rem < 1000);
        Duration { secs, nanos: rem * NANOS_PER_MILLI }
    }

    /// A span of `secs` whole seconds.
    pub fn from_secs(secs: u64) -> (d: Duration)
        ensures
            d == Duration::spec_from_secs(secs),
            d.wf(),
            d.secs == secs,
            d.nanos == 0,
            d.total_nanos() == secs * 1_000_000_000,
    {
        Duration { secs, nanos: 0 }
    }
}

} // verus!
