//! A span of time as whole seconds plus a sub-second count of nanoseconds.

use vstd::prelude::*;

verus! {

/// Number of nanoseconds in one second.
pub const NANOS_PER_SEC: u32 = 1_000_000_000;

/// A span of time: `secs` whole seconds and `nanos` further nanoseconds,
/// with `nanos` always below one second.
#[derive(Clone, Copy, Debug, PartialEq, Eq, Hash, Structural)]
pub struct Duration {
    secs: u64,
    nanos: u32,
}

impl Duration {
    #[verifier::type_invariant]
    spec fn nanos_below_one_second(self) -> bool {
        self.nanos < NANOS_PER_SEC
    }

    /// Whole seconds of this span.
    pub closed spec fn spec_secs(self) -> u64 {
        self.secs
    }

    /// Nanoseconds beyond the whole seconds.
    pub closed spec fn spec_subsec_nanos(self) -> u32 {
        self.nanos
    }

    /// The whole span in nanoseconds.
    pub open spec fn spec_nanos(self) -> int {
        self.spec_secs() * 1_000_000_000 + self.spec_subsec_nanos()
    }

    /// Whether this span is exactly `secs` seconds.
    pub open spec fn is_secs(self, secs: int) -> bool {
        self.spec_secs() == secs && self.spec_subsec_nanos() == 0
    }

    /// Whether this span is exactly `millis` milliseconds.
    pub open spec fn is_millis(self, millis: int) -> bool {
        self.spec_nanos() == millis * 1_000_000
    }

    /// A span of `secs` seconds.
    pub fn from_secs(secs: u64) -> (d: Duration)
        ensures
            d.spec_secs() == secs,
            d.spec_subsec_nanos() == 0,
            d.is_secs(secs as int),
    {
        Duration { secs, nanos: 0 }
    }

    /// A span of `millis` milliseconds.
    pub fn from_millis(millis: u64) -> (d: Duration)
        ensures
            d.spec_secs() == millis / 1000,
            d.spec_subsec_nanos() == (millis % 1000) * 1_000_000,
            d.is_millis(millis as int),
    {
        let nanos: u32 = ((millis % 1000) as u32) * 1_000_000;
        Duration { secs: millis / 1000, nanos }
    }

    /// A span of `secs` seconds and `nanos` nanoseconds, where whole seconds in
    /// `nanos` are carried into the seconds.
    pub fn new(secs: u64, nanos: u32) -> (d: Duration)
        requires
            secs + nanos / 1_000_000_000 <= u64::MAX,
        ensures
            d.spec_secs() == secs + nanos / 1_000_000_000,
            d.spec_subsec_nanos() == nanos % 1_000_000_000,
    {
        Duration { secs: secs + (nanos / NANOS_PER_SEC) as u64, nanos: nanos % NANOS_PER_SEC }
    }

    /// Whole seconds of this span.
    pub fn as_secs(&self) -> (s: u64)
        ensures
            s == self.spec_secs(),
    {
        self.secs
    }

    /// Nanoseconds beyond the whole seconds.
    pub fn subsec_nanos(&self) -> (n: u32)
        ensures
            n == self.spec_subsec_nanos(),
            n < 1_000_000_000,
    {
        proof {
            use_type_invariant(self);
        }
        self.nanos
    }
}

impl Duration {
    /// Half of this span, rounded down to a whole nanosecond.
    pub fn half(&self) -> (d: Duration)
        ensures
            d.spec_nanos() == self.spec_nanos() / 2,
    {
        proof {
            use_type_invariant(self);
        }
        let secs = self.secs / 2;
        let carry: u32 = if self.secs % 2 == 1 { 500_000_000 } else { 0 };
        let nanos = carry + self.nanos / 2;
        Duration { secs, nanos }
    }

    /// Twice this span, or `None` when that does not fit.
    pub fn checked_double(&self) -> (r: Option<Duration>)
        ensures
            match r {
                Some(d) => d.spec_nanos() == 2 * self.spec_nanos(),
                None => 2 * self.spec_nanos() > u64::MAX * 1_000_000_000 + 999_999_999,
            },
    {
        proof {
            use_type_invariant(self);
        }
        let doubled: u64 = (self.nanos as u64) * 2;
        let extra: u64 = doubled / 1_000_000_000;
        let nanos: u32 = (doubled % 1_000_000_000) as u32;
        if self.secs > (u64::MAX - extra) / 2 {
            return None;
        }
        Some(Duration { secs: self.secs * 2 + extra, nanos })
    }

    /// Whether this span is longer than `other`.
    pub fn longer_than(&self, other: &Duration) -> (r: bool)
        ensures
            r == (self.spec_nanos() > other.spec_nanos()),
    {
        proof {
            use_type_invariant(self);
            use_type_invariant(other);
        }
        self.secs > other.secs || (self.secs == other.secs && self.nanos > other.nanos)
    }
}

impl Default for Duration {
    /// The empty span.
    fn default() -> (d: Duration)
        ensures
            d.is_secs(0),
    {
        Duration { secs: 0, nanos: 0 }
    }
}

/// Two spans with the same seconds and nanoseconds are the same span.
pub proof fn lemma_same_span(a: Duration, b: Duration)
    requires
        a.spec_secs() == b.spec_secs(),
        a.spec_subsec_nanos() == b.spec_subsec_nanos(),
    ensures
        a == b,
{
}

} // verus!
