use vstd::prelude::*;

verus! {

/// Number of nanoseconds in one second.
pub const NANOS_PER_SEC: u32 = 1_000_000_000;

/// A non-negative span of time, held as whole seconds plus a sub-second
/// remainder in nanoseconds, mirroring the platform's duration layout.
///
/// Its mathematical view is the total length in nanoseconds.
#[derive(Clone, Copy, Debug, PartialEq, Eq, Structural)]
pub struct WaitDur {
    pub(crate) secs: u64,
    pub(crate) nanos: u32,
}

impl View for WaitDur {
    type V = int;

    closed spec fn view(&self) -> int {
        self.secs * (NANOS_PER_SEC as int) + self.nanos
    }
}

impl WaitDur {
    /// The sub-second remainder stays below one second, so that the
    /// seconds/nanoseconds pair is the canonical form of the span.
    pub closed spec fn wf(&self) -> bool {
        self.nanos < NANOS_PER_SEC
    }

    /// A span of the given number of whole seconds.
    pub fn from_secs(secs: u64) -> (r: WaitDur)
        ensures
            r.wf(),
            r@ == secs * (NANOS_PER_SEC as int),
    {
        WaitDur { secs, nanos: 0 }
    }

    /// A span of the given number of milliseconds.
    pub fn from_millis(ms: u64) -> (r: WaitDur)
        ensures
            r.wf(),
            r@ == ms * 1_000_000,
    {
        let r = WaitDur { secs: ms / 1000, nanos: (ms % 1000) as u32 * 1_000_000 };
        proof {
            vstd::arithmetic::div_mod::lemma_fundamental_div_mod(ms as int, 1000);
        }
        r
    }

    /// A span of the given number of nanoseconds.
    pub fn from_nanos(n: u64) -> (r: WaitDur)
        ensures
            r.wf(),
            r@ == n,
    {
        let r = WaitDur {
            secs: n / (NANOS_PER_SEC as u64),
            nanos: (n % (NANOS_PER_SEC as u64)) as u32,
        };
        proof {
            vstd::arithmetic::div_mod::lemma_fundamental_div_mod(n as int, NANOS_PER_SEC as int);
        }
        r
    }

    /// Whether this span is no longer than `other`.
    pub fn le(&self, other: &WaitDur) -> (r: bool)
        requires
            self.wf(),
            other.wf(),
        ensures
            r == (self@ <= other@),
    {
        if self.secs < other.secs {
            true
        } else if self.secs == other.secs {
            self.nanos <= other.nanos
        } else {
            false
        }
    }

    /// Whether this span is strictly shorter than `other`.
    pub fn lt(&self, other: &WaitDur) -> (r: bool)
        requires
            self.wf(),
            other.wf(),
        ensures
            r == (self@ < other@),
    {
        let oth_le = other.le(self);
        !oth_le
    }

    /// The difference of two spans; defined only when it cannot go negative.
    pub fn sub(&self, other: &WaitDur) -> (r: WaitDur)
        requires
            self.wf(),
            other.wf(),
            other@ <= self@,
        ensures
            r.wf(),
            r@ == self@ - other@,
    {
        if self.nanos >= other.nanos {
            WaitDur { secs: self.secs - other.secs, nanos: self.nanos - other.nanos }
        } else {
            WaitDur {
                secs: self.secs - other.secs - 1,
                nanos: NANOS_PER_SEC - other.nanos + self.nanos,
            }
        }
    }

    /// The shorter of two spans.
    pub fn min_dur(&self, other: &WaitDur) -> (r: WaitDur)
        requires
            self.wf(),
            other.wf(),
        ensures
            r.wf(),
            r@ == vstd::math::min(self@, other@),
    {
        if self.le(other) {
            *self
        } else {
            *other
        }
    }
}

/// A span of time is never negative.
pub proof fn lemma_dur_nonneg(d: WaitDur)
    ensures
        d@ >= 0,
{
}

} // verus!
