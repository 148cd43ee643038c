use vstd::prelude::*;
use vstd::arithmetic::div_mod::{lemma_fundamental_div_mod, lemma_fundamental_div_mod_converse};

verus! {

/// Elapsed time since the last user input, kept as whole seconds plus a
/// sub-second nanosecond remainder, the same split the standard duration
/// type uses.
#[derive(Clone, Copy, Debug, PartialEq, Eq, Structural)]
pub struct IdleDuration {
    secs: u64,
    nanos: u32,
}

impl IdleDuration {
    /// The duration as a mathematical nanosecond count.
    pub closed spec fn total_nanos(&self) -> int {
        self.secs * 1_000_000_000 + self.nanos
    }

    /// The nanosecond remainder stays below one second.
    pub closed spec fn wf(&self) -> bool {
        self.nanos < 1_000_000_000
    }

    /// Builds a duration from a millisecond count.
    pub fn from_millis(millis: u64) -> (d: IdleDuration)
        ensures
            d.wf(),
            d.total_nanos() == millis * 1_000_000,
    {
        let secs = millis / 1000;
        let rem = millis % 1000;
        proof {
            lemma_fundamental_div_mod(millis as int, 1000);
            assert((millis / 1000) * 1_000_000_000 + (millis % 1000) * 1_000_000 == millis
                * 1_000_000) by (nonlinear_arith)
                requires
                    millis == 1000 * (millis / 1000) + millis % 1000,
            ;
        }
        IdleDuration { secs, nanos: (rem * 1_000_000) as u32 }
    }

    /// Builds a duration from a nanosecond count.
    pub fn from_nanos(nanos: u64) -> (d: IdleDuration)
        ensures
            d.wf(),
            d.total_nanos() == nanos,
    {
        let secs = nanos / 1_000_000_000;
        let rem = nanos % 1_000_000_000;
        proof {
            lemma_fundamental_div_mod(nanos as int, 1_000_000_000);
        }
        IdleDuration { secs, nanos: rem as u32 }
    }

    /// The largest representable duration, used as the "session is locked,
    /// definitely idle" sentinel.
    pub fn max() -> (d: IdleDuration)
        ensures
            d.wf(),
            d.total_nanos() == max_idle_nanos(),
    {
        IdleDuration { secs: u64::MAX, nanos: 999_999_999 }
    }

    /// The whole number of milliseconds the duration spans.
    pub fn as_millis(&self) -> (millis: u128)
        requires
            self.wf(),
        ensures
            millis == self.total_nanos() / 1_000_000,
    {
        let millis = self.secs as u128 * 1000 + (self.nanos / 1_000_000) as u128;
        proof {
            lemma_fundamental_div_mod(self.nanos as int, 1_000_000);
            assert(self.total_nanos() == (self.secs * 1000 + self.nanos / 1_000_000) * 1_000_000
                + self.nanos % 1_000_000) by (nonlinear_arith)
                requires
                    self.nanos == 1_000_000 * (self.nanos / 1_000_000) + self.nanos % 1_000_000,
            ;
            lemma_fundamental_div_mod_converse(
                self.total_nanos(),
                1_000_000,
                self.secs * 1000 + self.nanos / 1_000_000,
                self.nanos as int % 1_000_000,
            );
        }
        millis
    }

    /// Strict comparison of two durations.
    pub fn lt(&self, other: &IdleDuration) -> (r: bool)
        requires
            self.wf(),
            other.wf(),
        ensures
            r == (self.total_nanos() < other.total_nanos()),
    {
        proof {
            assert(self.secs < other.secs ==> self.secs * 1_000_000_000 + self.nanos < other.secs
                * 1_000_000_000 + other.nanos) by (nonlinear_arith)
                requires
                    self.nanos < 1_000_000_000,
            ;
            assert(self.secs > other.secs ==> self.secs * 1_000_000_000 + self.nanos > other.secs
                * 1_000_000_000 + other.nanos) by (nonlinear_arith)
                requires
                    other.nanos < 1_000_000_000,
            ;
        }
        self.secs < other.secs || (self.secs == other.secs && self.nanos < other.nanos)
    }
}

/// The nanosecond count of the sentinel duration: the largest value the
/// seconds-plus-remainder representation can hold.
pub open spec fn max_idle_nanos() -> int {
    0xFFFF_FFFF_FFFF_FFFFint * 1_000_000_000 + 999_999_999
}

} // verus!
