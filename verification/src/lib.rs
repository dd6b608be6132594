//! Bounded, interruptible waiting: sleep for a total budget of time in
//! increments no longer than a chosen step length, returning control to the
//! caller between increments so it can poll for its own stop condition.
//!
//! The free functions [`snooze`] and [`accurate_snooze`] take the start of
//! the wait as an explicit timestamp; [`WaitSession`] holds the start and the
//! budget itself. Both report `true` while budget remained before the sleep
//! they performed, and `false`, sleeping not at all, once the budget is
//! exhausted.

use vstd::prelude::*;

mod clock;
pub mod dur;
pub mod stepping;

pub use dur::WaitDur;

use crate::dur::lemma_dur_nonneg;
use crate::stepping::step_amount;
use std::time::Instant;

verus! {

/// The longest duration, in nanoseconds, that may be handed to the precise
/// sleep strategy: 2^62 nanoseconds, about 146 years. A machine limit, not a
/// rule of the library: the hybrid sleep computes its spin deadline by adding
/// the duration to the current instant, and the platform's monotonic
/// timestamp cannot represent arbitrarily far futures. The coarse strategy
/// has no such limit.
pub const MAX_PRECISE_SLEEP_NANOS: u64 = 0x4000_0000_0000_0000;

/// How a step puts the thread to sleep.
#[derive(Clone, Copy, Debug, PartialEq, Eq, Structural)]
pub enum Strategy {
    /// The platform sleep primitive alone; accuracy is bounded by the
    /// platform scheduler's wake-up granularity.
    Coarse,
    /// The platform sleep primitive for the part it can be trusted with,
    /// then spinning; tighter accuracy at a higher CPU cost.
    Precise,
}

/// Sleeps for up to `len`, capped by what is left of the budget `total`
/// since `start`, and reports whether any budget remained before sleeping.
/// Once the time elapsed since `start` has reached `total`, returns `false`
/// without sleeping. Sleeps with the platform primitive alone.
pub fn snooze(start: &Instant, total: WaitDur, len: WaitDur) -> (r: bool)
    requires
        total.wf(),
        len.wf(),
    ensures
        total@ == 0 ==> r == false,
{
    let elapsed = clock::elapsed_since(start);
    proof {
        lemma_dur_nonneg(elapsed);
    }
    match step_amount(&total, &elapsed, &len) {
        None => false,
        Some(d) => {
            clock::sleep_coarse(&d);
            true
        },
    }
}

/// Like [`snooze`], but sleeps with the platform primitive only for the part
/// it can be trusted with and spins for the remainder: tighter timing at a
/// higher CPU cost. The budget is bounded by [`MAX_PRECISE_SLEEP_NANOS`], a
/// machine limit of the precise strategy; no step ever requests a sleep
/// beyond the remaining budget, so bounding the budget bounds every sleep.
pub fn accurate_snooze(start: &Instant, total: WaitDur, len: WaitDur) -> (r: bool)
    requires
        total.wf(),
        len.wf(),
        total@ <= MAX_PRECISE_SLEEP_NANOS,
    ensures
        total@ == 0 ==> r == false,
{
    let elapsed = clock::elapsed_since(start);
    proof {
        lemma_dur_nonneg(elapsed);
    }
    match step_amount(&total, &elapsed, &len) {
        None => false,
        Some(d) => {
            clock::sleep_precise(&d);
            true
        },
    }
}

/// A wait session: a monotonic start point captured at creation and a total
/// budget, both fixed for the session's lifetime. Once the time elapsed
/// since the start reaches the budget, the session is exhausted for good;
/// it may still be stepped, and then always reports exhaustion.
pub struct WaitSession {
    start: Instant,
    total: WaitDur,
    strategy: Strategy,
}

impl WaitSession {
    /// The total budget, in nanoseconds.
    pub closed spec fn budget(&self) -> int {
        self.total@
    }

    /// The sleep strategy the session was created with.
    pub closed spec fn strategy_spec(&self) -> Strategy {
        self.strategy
    }

    /// The session's budget is a well-formed duration, and a session that
    /// sleeps precisely keeps its budget within the precise strategy's
    /// machine limit.
    pub closed spec fn wf(&self) -> bool {
        &&& self.total.wf()
        &&& self.strategy == Strategy::Precise ==> self.total@ <= MAX_PRECISE_SLEEP_NANOS
    }

    /// Starts a session now, with the given total budget, sleeping with the
    /// platform primitive alone. Always succeeds.
    pub fn new(total: WaitDur) -> (s: WaitSession)
        requires
            total.wf(),
        ensures
            s.wf(),
            s.budget() == total@,
            s.strategy_spec() == Strategy::Coarse,
    {
        WaitSession { start: clock::monotonic_now(), total, strategy: Strategy::Coarse }
    }

    /// Starts a session now, with the given total budget, sleeping with the
    /// higher-accuracy sleep-then-spin strategy. Always succeeds. The budget
    /// is bounded by [`MAX_PRECISE_SLEEP_NANOS`], a machine limit of the
    /// precise strategy.
    pub fn new_precise(total: WaitDur) -> (s: WaitSession)
        requires
            total.wf(),
            total@ <= MAX_PRECISE_SLEEP_NANOS,
        ensures
            s.wf(),
            s.budget() == total@,
            s.strategy_spec() == Strategy::Precise,
    {
        WaitSession { start: clock::monotonic_now(), total, strategy: Strategy::Precise }
    }

    /// One bounded sleep step: sleeps for `len`, capped by what is left of
    /// the budget, and reports whether any budget remained before sleeping.
    /// Once the session is exhausted, returns `false` without sleeping.
    pub fn step(&self, len: WaitDur) -> (r: bool)
        requires
            self.wf(),
            len.wf(),
        ensures
            self.budget() == 0 ==> r == false,
    {
        let elapsed = clock::elapsed_since(&self.start);
        proof {
            lemma_dur_nonneg(elapsed);
        }
        match step_amount(&self.total, &elapsed, &len) {
            None => false,
            Some(d) => {
                match self.strategy {
                    Strategy::Coarse => clock::sleep_coarse(&d),
                    Strategy::Precise => clock::sleep_precise(&d),
                }
                true
            },
        }
    }
}

} // verus!
