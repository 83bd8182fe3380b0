//! The bounded readiness poll: probe the backend's port up to a fixed number
//! of times, sleeping one interval between attempts, with a proved bound on
//! the total time spent sleeping.

use vstd::prelude::*;
use vstd::arithmetic::mul::lemma_mul_inequality;

verus! {

/// What the poller does after one probe of the backend's port.
#[derive(Clone, Copy, PartialEq, Eq, Structural, Debug)]
pub enum PollStep {
    /// The probe succeeded: the backend is ready.
    Ready,
    /// The probe failed and attempts remain: sleep one interval, then probe
    /// again.
    SleepAndRetry,
    /// The probe failed on the last permitted attempt: give up.
    TimedOut,
}

/// The poller's per-attempt decision, on the outcome of probe number
/// `attempt` (counted from zero) out of `max_attempts`.
pub open spec fn poll_step_spec(attempt: u32, max_attempts: u32, probe_ok: bool) -> PollStep {
    if probe_ok {
        PollStep::Ready
    } else if attempt + 1 < max_attempts {
        PollStep::SleepAndRetry
    } else {
        PollStep::TimedOut
    }
}

/// Decides what to do after one probe: success ends the poll at once, a
/// failure is retried after one interval while attempts remain, and the last
/// failure ends it in a timeout. No sleep precedes the first attempt or
/// follows a success.
pub fn poll_decision(attempt: u32, max_attempts: u32, probe_ok: bool) -> (s: PollStep)
    ensures
        s == poll_step_spec(attempt, max_attempts, probe_ok),
{
    if probe_ok {
        PollStep::Ready
    } else if (attempt as u64) + 1 < (max_attempts as u64) {
        PollStep::SleepAndRetry
    } else {
        PollStep::TimedOut
    }
}

/// Holds when some probe among the first `max` outcomes succeeds.
pub open spec fn ready_within(probes: Seq<bool>, max: int) -> bool {
    exists|i: int| 0 <= i < max && probes[i]
}

/// What one run of the bounded poll reports.
#[derive(Clone, Copy, PartialEq, Eq, Structural, Debug)]
pub struct PollReport {
    /// Whether a probe succeeded within the attempt budget.
    pub ready: bool,
    /// Probes performed, the successful one included.
    pub attempts: u32,
    /// Interval sleeps performed between probes.
    pub sleeps: u32,
}

/// Characterizes the report of a bounded poll over the probe outcomes
/// `probes`, of which the first `max_attempts` may be consumed: the poll
/// stops at the first success, otherwise exhausts its budget, and sleeps
/// once after every failed attempt but the last.
pub open spec fn poll_report_for(probes: Seq<bool>, max_attempts: u32, r: PollReport) -> bool {
    &&& (r.ready <==> ready_within(probes, max_attempts as int))
    &&& (r.ready ==> {
        &&& 1 <= r.attempts <= max_attempts
        &&& probes[r.attempts - 1]
        &&& forall|j: int| 0 <= j < r.attempts - 1 ==> !probes[j]
        &&& r.sleeps == r.attempts - 1
    })
    &&& (!r.ready ==> r.attempts == max_attempts && r.sleeps == max_attempts - 1)
    &&& r.sleeps <= max_attempts - 1
}

/// Runs the bounded poll over a given sequence of probe outcomes:
/// `probes[i]` is what probe number `i` of the backend's port returned. The
/// boundary performs the probes and the sleeps; this function is the
/// decision loop they feed, verified for every outcome sequence.
pub fn run_poll(probes: &Vec<bool>, max_attempts: u32) -> (r: PollReport)
    requires
        1 <= max_attempts,
        probes@.len() >= max_attempts,
    ensures
        poll_report_for(probes@, max_attempts, r),
{
    let mut attempt: u32 = 0;
    let mut sleeps: u32 = 0;
    loop
        invariant
            attempt < max_attempts,
            sleeps == attempt,
            probes@.len() >= max_attempts,
            forall|j: int| 0 <= j < attempt ==> !probes@[j],
        decreases max_attempts - attempt,
    {
        let ok = probes[attempt as usize];
        match poll_decision(attempt, max_attempts, ok) {
            PollStep::Ready => {
                return PollReport { ready: true, attempts: attempt + 1, sleeps };
            },
            PollStep::SleepAndRetry => {
                // The boundary sleeps one interval here.
                attempt = attempt + 1;
                sleeps = sleeps + 1;
            },
            PollStep::TimedOut => {
                return PollReport { ready: false, attempts: attempt + 1, sleeps };
            },
        }
    }
}

/// Law: bounded wait. Whatever the probe outcomes, the poll sleeps at most
/// `max_attempts - 1` intervals, so the total time it spends sleeping is at
/// most `interval_ms * (max_attempts - 1)`; and if no probe within the
/// budget ever succeeds, it reports a timeout rather than waiting further.
pub proof fn lemma_bounded_wait(
    probes: Seq<bool>,
    max_attempts: u32,
    interval_ms: u64,
    r: PollReport,
)
    requires
        1 <= max_attempts,
        poll_report_for(probes, max_attempts, r),
    ensures
        r.sleeps * interval_ms <= (max_attempts - 1) * interval_ms,
        no_success_within(probes, max_attempts as int) ==> !r.ready && r.attempts
            == max_attempts,
{
    lemma_mul_inequality(r.sleeps as int, max_attempts - 1, interval_ms as int);
}

/// Holds when every probe among the first `max` outcomes fails.
pub open spec fn no_success_within(probes: Seq<bool>, max: int) -> bool {
    forall|i: int| 0 <= i < max ==> !probes[i]
}

} // verus!
