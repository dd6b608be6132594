use isleep::dur::WaitDur;
use isleep::stepping::step_amount;
use isleep::{accurate_snooze, snooze, WaitSession};
use std::time::Instant;

#[test]
fn test_accuracy() {
    let total = WaitDur::from_secs(1);
    let len = WaitDur::from_millis(100);
    let start = Instant::now();
    let mut counter: i32 = 0;
    while accurate_snooze(&start, total, len) {
        counter += 1;
    }
    let start = Instant::now();
    while snooze(&start, total, len) {
        counter += 1;
    }
    assert!(counter >= 0);
}

#[test]
fn test_readme_example() {
    // Sleeping for a total of 1 s
    let total = WaitDur::from_secs(1);
    // Interrupting the sleep after 100 ms
    let len = WaitDur::from_millis(100);
    // Starting now
    let start = Instant::now();
    // Sleeps for `total` in steps up to `len`
    // Will never sleep longer than `total` within accuracy of the platform
    while snooze(&start, total, len) {
        println!("Checking if the user pressed CTRL+C...");
    }
}

#[test]
fn step_sequence_one_second_in_300ms_steps() {
    // A 1 s budget stepped by 300 ms, in the drift-free model where each
    // sleep advances the clock by exactly the requested time: four steps
    // find time remaining (requesting 300, 300, 300 and 100 ms), the fifth
    // finds the budget exhausted.
    let total = WaitDur::from_secs(1);
    let len = WaitDur::from_millis(300);
    assert_eq!(
        step_amount(&total, &WaitDur::from_millis(0), &len),
        Some(WaitDur::from_millis(300))
    );
    assert_eq!(
        step_amount(&total, &WaitDur::from_millis(300), &len),
        Some(WaitDur::from_millis(300))
    );
    assert_eq!(
        step_amount(&total, &WaitDur::from_millis(600), &len),
        Some(WaitDur::from_millis(300))
    );
    assert_eq!(
        step_amount(&total, &WaitDur::from_millis(900), &len),
        Some(WaitDur::from_millis(100))
    );
    assert_eq!(step_amount(&total, &WaitDur::from_millis(1000), &len), None);
}

#[test]
fn step_amount_caps_by_len_and_remaining() {
    let total = WaitDur::from_millis(500);
    // More budget left than the step length: the step length is requested.
    assert_eq!(
        step_amount(&total, &WaitDur::from_millis(100), &WaitDur::from_millis(150)),
        Some(WaitDur::from_millis(150))
    );
    // Less budget left than the step length: only the remainder is requested.
    assert_eq!(
        step_amount(&total, &WaitDur::from_millis(400), &WaitDur::from_secs(2)),
        Some(WaitDur::from_millis(100))
    );
    // Elapsed exactly at the budget counts as exhausted.
    assert_eq!(
        step_amount(&total, &WaitDur::from_millis(500), &WaitDur::from_millis(1)),
        None
    );
    // Elapsed beyond the budget stays exhausted.
    assert_eq!(
        step_amount(&total, &WaitDur::from_millis(900), &WaitDur::from_millis(1)),
        None
    );
}

#[test]
fn total_zero_first_call_false() {
    let zero = WaitDur::from_secs(0);
    let len = WaitDur::from_millis(100);
    let start = Instant::now();
    assert!(!snooze(&start, zero, len));
    assert!(!accurate_snooze(&start, zero, len));
    let session = WaitSession::new(zero);
    assert!(!session.step(len));
}

#[test]
fn zero_len_returns_true_while_budget_remains() {
    // A zero step length is not special-cased: with budget remaining the
    // call reports true after a no-op wait.
    let total = WaitDur::from_secs(10);
    let zero = WaitDur::from_millis(0);
    let start = Instant::now();
    assert!(snooze(&start, total, zero));
    let session = WaitSession::new(total);
    assert!(session.step(zero));
    // The precise strategy accepts budgets up to its documented limit; with
    // a zero step length the call still returns at once.
    let big = WaitDur::from_nanos(isleep::MAX_PRECISE_SLEEP_NANOS);
    assert!(accurate_snooze(&start, big, zero));
}

#[test]
fn exhausted_state_is_permanent_and_cheap() {
    let session = WaitSession::new(WaitDur::from_millis(150));
    let len = WaitDur::from_millis(60);
    while session.step(len) {}
    // Once a step has reported exhaustion, every later step does too,
    // and without blocking.
    let checked_at = Instant::now();
    assert!(!session.step(len));
    assert!(!session.step(len));
    assert!(!session.step(WaitDur::from_secs(5)));
    assert!(checked_at.elapsed() < std::time::Duration::from_millis(100));
}

#[test]
fn precise_session_runs_to_exhaustion() {
    let session = WaitSession::new_precise(WaitDur::from_millis(120));
    let len = WaitDur::from_millis(50);
    let mut trues: u32 = 0;
    while session.step(len) {
        trues += 1;
    }
    // At least the budget itself has to pass before exhaustion is reported.
    assert!(trues >= 1);
    assert!(!session.step(len));
}

#[test]
fn duration_constructors_agree() {
    assert_eq!(WaitDur::from_millis(1500), WaitDur::from_nanos(1_500_000_000));
    assert_eq!(WaitDur::from_secs(2), WaitDur::from_millis(2000));
    assert_eq!(WaitDur::from_millis(0), WaitDur::from_nanos(0));
}
