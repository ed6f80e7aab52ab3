//! A span of time with nanosecond precision, kept as whole seconds and the
//! nanoseconds of the second that has begun.
use vstd::prelude::*;

verus! {

/// Nanoseconds in one second.
pub const NANOS_PER_SEC: u32 = 1_000_000_000;

/// Nanoseconds in one millisecond.
pub const NANOS_PER_MILLI: u32 = 1_000_000;

/// Milliseconds in one second.
pub const MILLIS_PER_SEC: u64 = 1_000;

/// A span of time: `secs` whole seconds and `nanos` nanoseconds.
///
/// Spans are ordered and compared by their length in nanoseconds.
#[derive(Debug, Clone, Copy, PartialEq, Eq, Hash, Structural)]
pub struct TimeSpan {
    secs: u64,
    nanos: u32,
}

impl TimeSpan {
    #[verifier::type_invariant]
    spec fn well_formed(self) -> bool {
        self.nanos < NANOS_PER_SEC
    }

    /// The length of the span in nanoseconds.
    pub closed spec fn nanos_total(self) -> nat {
        (self.secs * (NANOS_PER_SEC as nat) + self.nanos) as nat
    }

    /// The span of `secs` seconds and `nanos` nanoseconds; nanoseconds past
    /// a whole second carry into the seconds.
    pub fn new(secs: u64, nanos: u32) -> (s: TimeSpan)
        requires
            secs + nanos / NANOS_PER_SEC <= u64::MAX,
        ensures
            s@ == secs * (NANOS_PER_SEC as nat) + nanos,
            s.as_secs() == secs + nanos / NANOS_PER_SEC,
            s.subsec_nanos() == nanos % NANOS_PER_SEC,
    {
        let carry: u64 = (nanos / NANOS_PER_SEC) as u64;
        let rest: u32 = nanos % NANOS_PER_SEC;
        let s = TimeSpan { secs: secs + carry, nanos: rest };
        assert(s.nanos_total() == secs * (NANOS_PER_SEC as nat) + nanos) by {
            assert(nanos == carry * (NANOS_PER_SEC as int) + rest);
        }
        s
    }

    /// The span of `secs` whole seconds.
    pub closed spec fn of_secs(secs: u64) -> TimeSpan {
        TimeSpan { secs, nanos: 0 }
    }

    /// The length of the span of `secs` whole seconds.
    pub proof fn lemma_of_secs(secs: u64)
        ensures
            TimeSpan::of_secs(secs)@ == secs * (NANOS_PER_SEC as nat),
    {
    }

    /// The span of `secs` whole seconds.
    pub fn from_secs(secs: u64) -> (s: TimeSpan)
        ensures
            s == TimeSpan::of_secs(secs),
            s@ == secs * (NANOS_PER_SEC as nat),
            s.as_secs() == secs,
            s.subsec_nanos() == 0,
    {
        TimeSpan { secs, nanos: 0 }
    }

    /// The span of `millis` milliseconds.
    pub fn from_millis(millis: u64) -> (s: TimeSpan)
        ensures
            s@ == millis * (NANOS_PER_MILLI as nat),
            s.as_secs() == millis / MILLIS_PER_SEC,
            s.subsec_nanos() == (millis % MILLIS_PER_SEC) * (NANOS_PER_MILLI as nat),
    {
        let secs: u64 = millis / MILLIS_PER_SEC;
        let rest: u64 = millis % MILLIS_PER_SEC;
        let nanos: u32 = (rest as u32) * NANOS_PER_MILLI;
        let s = TimeSpan { secs, nanos };
        assert(s.nanos_total() == millis * (NANOS_PER_MILLI as nat)) by {
            assert(millis == secs * 1000 + rest);
        }
        s
    }

    /// The whole seconds of the span.
    #[verifier::when_used_as_spec(secs_spec)]
    pub fn as_secs(&self) -> (r: u64)
        ensures
            r == self.secs_spec(),
    {
        self.secs
    }

    /// The nanoseconds of the second that has begun, below one second.
    #[verifier::when_used_as_spec(subsec_nanos_spec)]
    pub fn subsec_nanos(&self) -> (r: u32)
        ensures
            r == self.subsec_nanos_spec(),
            r < NANOS_PER_SEC,
    {
        proof {
            use_type_invariant(self);
        }
        self.nanos
    }

    /// The whole seconds of the span.
    pub closed spec fn secs_spec(&self) -> u64 {
        self.secs
    }

    /// The nanoseconds of the second that has begun.
    pub closed spec fn subsec_nanos_spec(&self) -> u32 {
        self.nanos
    }

    /// Whether `self` is shorter than `other`.
    pub fn shorter_than(&self, other: &TimeSpan) -> (r: bool)
        ensures
            r == (self@ < other@),
    {
        proof {
            use_type_invariant(self);
            use_type_invariant(other);
        }
        self.secs < other.secs || (self.secs == other.secs && self.nanos < other.nanos)
    }
}

impl View for TimeSpan {
    type V = nat;

    closed spec fn view(&self) -> nat {
        self.nanos_total()
    }
}

} // verus!
