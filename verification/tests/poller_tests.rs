use backend_supervisor::poller::{poll_decision, run_poll, PollStep};

fn probes_with_success_at(succeed_at: Option<usize>, len: usize) -> Vec<bool> {
    let mut v: Vec<bool> = Vec::new();
    let mut i: usize = 0;
    while i < len {
        v.push(succeed_at == Some(i));
        i += 1;
    }
    v
}

#[test]
fn poll_succeeds_on_first_attempt_without_sleeping() {
    let probes = probes_with_success_at(Some(0), 30);
    let r = run_poll(&probes, 30);
    assert!(r.ready);
    assert_eq!(r.attempts, 1);
    assert_eq!(r.sleeps, 0);
}

#[test]
fn poll_succeeds_on_fourth_attempt_after_three_sleeps() {
    // Attempts 1-3 fail, attempt 4 succeeds: with a 500 ms interval the
    // total time slept is 3 * 500 ms = 1.5 s.
    let probes = probes_with_success_at(Some(3), 30);
    let r = run_poll(&probes, 30);
    assert!(r.ready);
    assert_eq!(r.attempts, 4);
    assert_eq!(r.sleeps, 3);
    assert_eq!(u64::from(r.sleeps) * 500, 1500);
}

#[test]
fn poll_times_out_when_no_probe_ever_succeeds() {
    let probes = probes_with_success_at(None, 30);
    let r = run_poll(&probes, 30);
    assert!(!r.ready);
    assert_eq!(r.attempts, 30);
    assert_eq!(r.sleeps, 29);
}

#[test]
fn poll_ignores_success_beyond_the_attempt_budget() {
    let probes = probes_with_success_at(Some(10), 30);
    let r = run_poll(&probes, 5);
    assert!(!r.ready);
    assert_eq!(r.attempts, 5);
    assert_eq!(r.sleeps, 4);
}

#[test]
fn decision_ends_poll_on_success() {
    assert_eq!(poll_decision(0, 30, true), PollStep::Ready);
    assert_eq!(poll_decision(29, 30, true), PollStep::Ready);
}

#[test]
fn decision_retries_while_attempts_remain() {
    assert_eq!(poll_decision(0, 30, false), PollStep::SleepAndRetry);
    assert_eq!(poll_decision(28, 30, false), PollStep::SleepAndRetry);
}

#[test]
fn decision_times_out_on_last_failed_attempt() {
    assert_eq!(poll_decision(29, 30, false), PollStep::TimedOut);
    assert_eq!(poll_decision(0, 1, false), PollStep::TimedOut);
}
