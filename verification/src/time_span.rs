//! Spans of time, as whole seconds and nanoseconds.
use vstd::prelude::*;

verus! {

/// The number of nanoseconds in a second.
pub const NANOS_PER_SEC: u32 = 1_000_000_000;

/// A span of time of zero or more nanoseconds.
#[derive(Debug, Clone, Copy, PartialEq, Eq)]
pub struct TimeSpan {
    secs: u64,
    nanos: u32,
}

impl TimeSpan {
    #[verifier::type_invariant]
    spec fn inv(self) -> bool {
        self.nanos < NANOS_PER_SEC
    }

    /// The length of the span in nanoseconds.
    pub closed spec fn total_nanos(self) -> int {
        self.secs * NANOS_PER_SEC + self.nanos
    }

    /// A span of whole seconds and less than a second of nanoseconds.
    pub fn new(secs: u64, nanos: u32) -> (span: Self)
        requires
            nanos < NANOS_PER_SEC,
        ensures
            span.total_nanos() == secs * NANOS_PER_SEC + nanos,
    {
        TimeSpan { secs, nanos }
    }

    /// The whole seconds of the span.
    pub fn as_secs(self) -> (secs: u64)
        ensures
            secs == self.total_nanos() / (NANOS_PER_SEC as int),
    {
        proof {
            use_type_invariant(&self);
        }
        self.secs
    }

    /// The nanoseconds of the span beyond its whole seconds.
    pub fn subsec_nanos(self) -> (nanos: u32)
        ensures
            nanos == self.total_nanos() % (NANOS_PER_SEC as int),
    {
        proof {
            use_type_invariant(&self);
        }
        self.nanos
    }

    /// What is left of this span after another one, if it is not shorter.
    pub fn checked_sub(self, other: Self) -> (rest: Option<Self>)
        ensures
            match rest {
                Some(span) => span.total_nanos() == self.total_nanos() - other.total_nanos()
                    && self.total_nanos() >= other.total_nanos(),
                None => self.total_nanos() < other.total_nanos(),
            },
    {
        proof {
            use_type_invariant(&self);
            use_type_invariant(&other);
        }
        if self.secs < other.secs {
            return None;
        }
        let secs: u64 = self.secs - other.secs;
        if self.nanos >= other.nanos {
            Some(TimeSpan { secs, nanos: self.nanos - other.nanos })
        } else if secs > 0 {
            Some(TimeSpan { secs: secs - 1, nanos: self.nanos + NANOS_PER_SEC - other.nanos })
        } else {
            None
        }
    }
}

} // verus!
