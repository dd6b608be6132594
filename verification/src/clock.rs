use vstd::prelude::*;

use crate::dur::WaitDur;
use std::time::Instant;

verus! {

/// Declares std::time::Instant, the platform's monotonic timestamp, so it
/// can stand in signatures and fields. Its value is opaque here: everything
/// read from it goes through the wrappers below.
#[verifier::external_type_specification]
#[verifier::external_body]
pub struct ExInstant(Instant);

/// Relies on std::time::Instant::now for a reading of the monotonic clock.
#[verifier::external_body]
pub(crate) fn monotonic_now() -> Instant {
    Instant::now()
}

/// Relies on std::time::Instant::elapsed: the time since `start` on the
/// monotonic clock, as whole seconds plus a sub-second remainder below one
/// second. The reading depends on when the call runs, so nothing more than
/// well-formedness can be promised of it.
#[verifier::external_body]
pub(crate) fn elapsed_since(start: &Instant) -> (r: WaitDur)
    ensures
        r.wf(),
{
    let d = start.elapsed();
    WaitDur { secs: d.as_secs(), nanos: d.subsec_nanos() }
}

/// Relies on spin_sleep::native_sleep: blocks the current thread for at
/// least `d` using the platform sleep primitive alone, with the platform
/// scheduler's accuracy.
#[verifier::external_body]
pub(crate) fn sleep_coarse(d: &WaitDur)
    requires
        d.wf(),
{
    spin_sleep::native_sleep(std::time::Duration::new(d.secs, d.nanos));
}

/// Relies on spin_sleep::sleep: blocks the current thread for `d`, using the
/// platform sleep primitive for the part it can be trusted with and spinning
/// for the remainder, trading CPU time for accuracy. It computes its spin
/// deadline as the current instant plus `d`, and the platform panics when
/// that sum leaves the range its monotonic timestamp can represent; the
/// bound on `d` keeps the call clear of it.
#[verifier::external_body]
pub(crate) fn sleep_precise(d: &WaitDur)
    requires
        d.wf(),
        d@ <= crate::MAX_PRECISE_SLEEP_NANOS,
{
    spin_sleep::sleep(std::time::Duration::new(d.secs, d.nanos));
}

} // verus!
