use vstd::prelude::*;

use crate::dur::WaitDur;

verus! {

/// A wait is exhausted once the time elapsed since its start has reached its
/// total budget. All times are in nanoseconds.
pub open spec fn exhausted(total: int, elapsed: int) -> bool {
    elapsed >= total
}

/// The sleep duration one step requests when the wait is not yet exhausted:
/// the step length, capped by what is left of the budget.
pub open spec fn request(total: int, elapsed: int, len: int) -> int {
    vstd::math::min(len, total - elapsed)
}

/// Decides one step of a wait. Given the total budget, the time elapsed so
/// far and the step length, returns `None` once the wait is exhausted, and
/// otherwise the duration to sleep for: the step length capped by the
/// remaining budget.
pub fn step_amount(total: &WaitDur, elapsed: &WaitDur, len: &WaitDur) -> (r: Option<WaitDur>)
    requires
        total.wf(),
        elapsed.wf(),
        len.wf(),
    ensures
        r is Some <==> !exhausted(total@, elapsed@),
        r matches Some(d) ==> d.wf() && d@ == request(total@, elapsed@, len@),
{
    if elapsed.lt(total) {
        let remaining = total.sub(elapsed);
        Some(len.min_dur(&remaining))
    } else {
        None
    }
}

/// Law: expiry is one-way. Once a wait is exhausted, it is still exhausted at
/// every later reading of a monotonic clock, so every subsequent step reports
/// expiry as well.
pub proof fn lemma_exhausted_is_permanent(total: int, elapsed_then: int, elapsed_later: int)
    requires
        exhausted(total, elapsed_then),
        elapsed_then <= elapsed_later,
    ensures
        exhausted(total, elapsed_later),
{
}

/// The sum of the sleep durations requested by the first `k` steps of a run,
/// where `elapseds[i]` is the elapsed time the step `i` observed and
/// `lens[i]` the step length it was called with.
pub open spec fn sum_of_requests(total: int, lens: Seq<int>, elapseds: Seq<int>, k: int) -> int
    decreases k,
{
    if k <= 0 {
        0
    } else {
        sum_of_requests(total, lens, elapseds, k - 1) + request(total, elapseds[k - 1], lens[k - 1])
    }
}

/// On a monotonic clock, the elapsed time a step observes has grown by at
/// least everything the earlier steps slept for.
proof fn lemma_elapsed_covers_requests(total: int, lens: Seq<int>, elapseds: Seq<int>, k: int)
    requires
        lens.len() == elapseds.len(),
        0 <= k < elapseds.len(),
        forall|i: int|
            0 <= i < elapseds.len() - 1 ==> elapseds[i + 1] >= elapseds[i] + request(
                total,
                #[trigger] elapseds[i],
                lens[i],
            ),
    ensures
        elapseds[0] + sum_of_requests(total, lens, elapseds, k) <= elapseds[k],
    decreases k,
{
    if k > 0 {
        lemma_elapsed_covers_requests(total, lens, elapseds, k - 1);
        assert(elapseds[k] >= elapseds[k - 1] + request(total, elapseds[k - 1], lens[k - 1]));
    }
}

/// Law: across any run of steps on one wait, driven by a monotonic clock, the
/// sum of the requested sleep durations never exceeds the total budget.
///
/// The run is given by what each step saw: `elapseds[i]` is the elapsed time
/// step `i` observed (each below the budget, as every step that slept found
/// time remaining), `lens[i]` the step length it was called with. Between
/// steps the clock advances by at least the time just slept for.
pub proof fn lemma_requests_never_exceed_total(total: int, lens: Seq<int>, elapseds: Seq<int>)
    requires
        total >= 0,
        lens.len() == elapseds.len(),
        forall|i: int| 0 <= i < lens.len() ==> #[trigger] lens[i] >= 0,
        elapseds.len() > 0 ==> elapseds[0] >= 0,
        forall|i: int| 0 <= i < elapseds.len() ==> !exhausted(total, #[trigger] elapseds[i]),
        forall|i: int|
            0 <= i < elapseds.len() - 1 ==> elapseds[i + 1] >= elapseds[i] + request(
                total,
                #[trigger] elapseds[i],
                lens[i],
            ),
    ensures
        sum_of_requests(total, lens, elapseds, lens.len() as int) <= total,
{
    let n = lens.len() as int;
    if n > 0 {
        lemma_elapsed_covers_requests(total, lens, elapseds, n - 1);
        assert(request(total, elapseds[n - 1], lens[n - 1]) <= total - elapseds[n - 1]);
    }
}

/// How many steps still find time remaining when stepping from `elapsed`
/// with steps of `len`, in the drift-free model where each sleep advances
/// the clock by exactly the requested duration. Counts only positive step
/// lengths: with a step length of zero the wait never advances.
pub open spec fn true_steps_from(total: int, elapsed: int, len: int) -> int
    decreases total - elapsed,
{
    if len <= 0 || exhausted(total, elapsed) {
        0
    } else {
        1 + true_steps_from(total, elapsed + request(total, elapsed, len), len)
    }
}

/// Law: with a positive step length and no drift, the number of steps that
/// find time remaining is the remaining budget divided by the step length,
/// rounded up.
pub proof fn lemma_true_step_count(total: int, elapsed: int, len: int)
    requires
        0 <= elapsed <= total,
        len > 0,
    ensures
        true_steps_from(total, elapsed, len) == (total - elapsed + len - 1) / len,
    decreases total - elapsed,
{
    let rem = total - elapsed;
    if exhausted(total, elapsed) {
        vstd::arithmetic::div_mod::lemma_basic_div(len - 1, len);
    } else if len >= rem {
        vstd::arithmetic::div_mod::lemma_fundamental_div_mod_converse_div(
            rem + len - 1,
            len,
            1,
            rem - 1,
        );
        assert(true_steps_from(total, total, len) == 0);
    } else {
        lemma_true_step_count(total, elapsed + len, len);
        let q0 = (rem - 1) / len;
        let r0 = (rem - 1) % len;
        vstd::arithmetic::div_mod::lemma_fundamental_div_mod(rem - 1, len);
        assert((q0 + 1) * len == q0 * len + len) by (nonlinear_arith);
        vstd::arithmetic::div_mod::lemma_fundamental_div_mod_converse_div(
            rem + len - 1,
            len,
            q0 + 1,
            r0,
        );
    }
}

} // verus!
