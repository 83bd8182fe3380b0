//! The supervisor's decision machine: probe the port, and only if nothing
//! answers resolve the executable, spawn it, and poll for readiness.
//!
//! The machine is driven from the boundary: in each state it names the one
//! outside action to perform (a probe, a filesystem check, a spawn, a
//! sleep-then-probe), the boundary performs it and hands the outcome back as
//! an event, and `step` computes the next state. Every terminal status is
//! reported to the caller; none aborts application startup.

use vstd::prelude::*;
use crate::poller::ready_within;

verus! {

/// The terminal outcome of one supervision run.
#[derive(Clone, Copy, PartialEq, Eq, Structural, Debug)]
pub enum SupervisorStatus {
    /// Something already listens on the configured port; nothing was spawned.
    AlreadyRunning,
    /// The backend was spawned and its port answered within the attempt
    /// budget.
    Ready,
    /// No candidate executable path exists; nothing was spawned.
    ExecutableNotFound,
    /// The spawn call itself failed.
    SpawnFailed,
    /// The spawned backend never answered within the attempt budget. The
    /// stored handle is kept: the process may still come up later, and must
    /// be reaped at shutdown regardless.
    TimedOut,
}

/// Whether a terminal status means the backend is reachable on its port.
pub open spec fn status_is_success(s: SupervisorStatus) -> bool {
    s == SupervisorStatus::AlreadyRunning || s == SupervisorStatus::Ready
}

/// Says whether the run ended with the backend listening. Every status,
/// success or error, is only reported: none aborts application startup.
pub fn is_success(s: &SupervisorStatus) -> (r: bool)
    ensures
        r == status_is_success(*s),
{
    match s {
        SupervisorStatus::AlreadyRunning => true,
        SupervisorStatus::Ready => true,
        _ => false,
    }
}

/// The message reported to the caller for a terminal status.
pub open spec fn status_message_spec(s: SupervisorStatus) -> Seq<char> {
    match s {
        SupervisorStatus::AlreadyRunning => "backend is already running"@,
        SupervisorStatus::Ready => "backend started"@,
        SupervisorStatus::ExecutableNotFound => "backend executable not found"@,
        SupervisorStatus::SpawnFailed => "failed to start backend"@,
        SupervisorStatus::TimedOut => "backend did not start in time"@,
    }
}

/// Renders the message reported for a terminal status.
pub fn status_message(s: &SupervisorStatus) -> (r: String)
    ensures
        r@ == status_message_spec(*s),
{
    match s {
        SupervisorStatus::AlreadyRunning => String::from_str("backend is already running"),
        SupervisorStatus::Ready => String::from_str("backend started"),
        SupervisorStatus::ExecutableNotFound => String::from_str("backend executable not found"),
        SupervisorStatus::SpawnFailed => String::from_str("failed to start backend"),
        SupervisorStatus::TimedOut => String::from_str("backend did not start in time"),
    }
}

/// Where a supervision run stands.
#[derive(Clone, Copy, PartialEq, Eq, Structural, Debug)]
pub enum SupervisorState {
    /// Checking whether the backend already listens on the configured port.
    Probing,
    /// Looking for the backend executable among the candidate paths.
    Resolving,
    /// Spawning the candidate with this index.
    Launching { candidate: usize },
    /// Handle stored; polling the port. `attempt` probes have been made in
    /// this phase so far.
    Waiting { attempt: u32 },
    /// The run is over.
    Done { status: SupervisorStatus },
}

/// The outcome of one outside action, handed back by the boundary.
#[derive(Clone, Copy, PartialEq, Eq, Structural, Debug)]
pub enum SupervisorEvent {
    /// What a TCP probe of the configured host and port returned.
    Probed { ok: bool },
    /// What the filesystem check returned: the index of the first existing
    /// candidate path, if any.
    Resolved { found: Option<usize> },
    /// Whether the spawn call succeeded (and the handle was stored).
    Spawned { ok: bool },
}

/// The one outside action owed in a state.
#[derive(Clone, Copy, PartialEq, Eq, Structural, Debug)]
pub enum SupervisorAction {
    /// Probe the configured host and port once, without sleeping first.
    Probe,
    /// Check which candidate executable paths exist.
    Resolve,
    /// Spawn the candidate with this index and store the returned handle.
    Spawn { candidate: usize },
    /// Sleep one interval, then probe the configured host and port once.
    SleepThenProbe,
    /// Nothing is left to do; report this status to the caller.
    Report { status: SupervisorStatus },
}

/// The action the boundary must perform next in state `s`.
pub open spec fn action_spec(s: SupervisorState) -> SupervisorAction {
    match s {
        SupervisorState::Probing => SupervisorAction::Probe,
        SupervisorState::Resolving => SupervisorAction::Resolve,
        SupervisorState::Launching { candidate } => SupervisorAction::Spawn { candidate },
        SupervisorState::Waiting { attempt } => if attempt == 0 {
            SupervisorAction::Probe
        } else {
            SupervisorAction::SleepThenProbe
        },
        SupervisorState::Done { status } => SupervisorAction::Report { status },
    }
}

/// Names the action owed in the given state, for the boundary loop.
pub fn next_action(s: &SupervisorState) -> (a: SupervisorAction)
    ensures
        a == action_spec(*s),
{
    match s {
        SupervisorState::Probing => SupervisorAction::Probe,
        SupervisorState::Resolving => SupervisorAction::Resolve,
        SupervisorState::Launching { candidate } => SupervisorAction::Spawn {
            candidate: *candidate,
        },
        SupervisorState::Waiting { attempt } => if *attempt == 0 {
            SupervisorAction::Probe
        } else {
            SupervisorAction::SleepThenProbe
        },
        SupervisorState::Done { status } => SupervisorAction::Report { status: *status },
    }
}

/// The transition relation of the supervisor, as a function: the state after
/// receiving event `e` in state `s`, with `max_attempts` bounding the
/// readiness poll. An event that does not belong to the current state
/// changes nothing, and a finished run stays finished.
pub open spec fn step_spec(s: SupervisorState, e: SupervisorEvent, max_attempts: u32) -> SupervisorState {
    match (s, e) {
        (SupervisorState::Probing, SupervisorEvent::Probed { ok }) => if ok {
            SupervisorState::Done { status: SupervisorStatus::AlreadyRunning }
        } else {
            SupervisorState::Resolving
        },
        (SupervisorState::Resolving, SupervisorEvent::Resolved { found }) => match found {
            Some(i) => SupervisorState::Launching { candidate: i },
            None => SupervisorState::Done { status: SupervisorStatus::ExecutableNotFound },
        },
        (SupervisorState::Launching { .. }, SupervisorEvent::Spawned { ok }) => if ok {
            SupervisorState::Waiting { attempt: 0 }
        } else {
            SupervisorState::Done { status: SupervisorStatus::SpawnFailed }
        },
        (SupervisorState::Waiting { attempt }, SupervisorEvent::Probed { ok }) => if ok {
            SupervisorState::Done { status: SupervisorStatus::Ready }
        } else if attempt + 1 < max_attempts {
            SupervisorState::Waiting { attempt: (attempt + 1) as u32 }
        } else {
            SupervisorState::Done { status: SupervisorStatus::TimedOut }
        },
        _ => s,
    }
}

/// Advances the supervisor by one event.
pub fn step(s: SupervisorState, e: SupervisorEvent, max_attempts: u32) -> (t: SupervisorState)
    ensures
        t == step_spec(s, e, max_attempts),
{
    match (s, e) {
        (SupervisorState::Probing, SupervisorEvent::Probed { ok }) => if ok {
            SupervisorState::Done { status: SupervisorStatus::AlreadyRunning }
        } else {
            SupervisorState::Resolving
        },
        (SupervisorState::Resolving, SupervisorEvent::Resolved { found }) => match found {
            Some(i) => SupervisorState::Launching { candidate: i },
            None => SupervisorState::Done { status: SupervisorStatus::ExecutableNotFound },
        },
        (SupervisorState::Launching { .. }, SupervisorEvent::Spawned { ok }) => if ok {
            SupervisorState::Waiting { attempt: 0 }
        } else {
            SupervisorState::Done { status: SupervisorStatus::SpawnFailed }
        },
        (SupervisorState::Waiting { attempt }, SupervisorEvent::Probed { ok }) => if ok {
            SupervisorState::Done { status: SupervisorStatus::Ready }
        } else if (attempt as u64) + 1 < (max_attempts as u64) {
            SupervisorState::Waiting { attempt: attempt + 1 }
        } else {
            SupervisorState::Done { status: SupervisorStatus::TimedOut }
        },
        _ => s,
    }
}

/// The ground a supervision run must stay on: a launch names one of the
/// `n_candidates` candidate paths the resolve step chose from, and the
/// waiting counter stays below the attempt budget.
pub open spec fn state_wf(s: SupervisorState, n_candidates: int, max_attempts: u32) -> bool {
    match s {
        SupervisorState::Launching { candidate } => candidate < n_candidates,
        SupervisorState::Waiting { attempt } => attempt < max_attempts,
        _ => true,
    }
}

/// The ground an event must stand on: a resolve outcome names one of the
/// `n_candidates` candidate paths.
pub open spec fn event_wf(e: SupervisorEvent, n_candidates: int) -> bool {
    match e {
        SupervisorEvent::Resolved { found } => match found {
            Some(i) => i < n_candidates,
            None => true,
        },
        _ => true,
    }
}

/// Each step keeps the machine on sensible ground: from a well-formed state
/// and a well-formed event, the next state is well-formed again.
pub proof fn lemma_step_preserves_wf(
    s: SupervisorState,
    e: SupervisorEvent,
    n_candidates: int,
    max_attempts: u32,
)
    requires
        1 <= max_attempts,
        state_wf(s, n_candidates, max_attempts),
        event_wf(e, n_candidates),
    ensures
        state_wf(step_spec(s, e, max_attempts), n_candidates, max_attempts),
{
}

/// The state after feeding a whole sequence of events, first to last.
pub open spec fn run(s: SupervisorState, events: Seq<SupervisorEvent>, max_attempts: u32) -> SupervisorState
    decreases events.len(),
{
    if events.len() == 0 {
        s
    } else {
        run(step_spec(s, events[0], max_attempts), events.skip(1), max_attempts)
    }
}

/// Holds when some state passed through while consuming `events` — the
/// starting state and the final one included — owes a spawn action.
pub open spec fn spawns_along(s: SupervisorState, events: Seq<SupervisorEvent>, max_attempts: u32) -> bool
    decreases events.len(),
{
    if action_spec(s) matches SupervisorAction::Spawn { .. } {
        true
    } else if events.len() == 0 {
        false
    } else {
        spawns_along(step_spec(s, events[0], max_attempts), events.skip(1), max_attempts)
    }
}

/// How many interval sleeps the boundary performs along a run: one for each
/// state passed through that owes a sleep-then-probe action.
pub open spec fn sleeps_along(
    s: SupervisorState,
    events: Seq<SupervisorEvent>,
    max_attempts: u32,
) -> int
    decreases events.len(),
{
    let here: int = if action_spec(s) is SleepThenProbe {
        1
    } else {
        0
    };
    if events.len() == 0 {
        here
    } else {
        here + sleeps_along(step_spec(s, events[0], max_attempts), events.skip(1), max_attempts)
    }
}

/// A finished run is absorbing: further events change nothing and never owe
/// an outside action beyond reporting.
pub proof fn lemma_done_absorbs(
    status: SupervisorStatus,
    events: Seq<SupervisorEvent>,
    max_attempts: u32,
)
    ensures
        run(SupervisorState::Done { status }, events, max_attempts) == (SupervisorState::Done {
            status,
        }),
        !spawns_along(SupervisorState::Done { status }, events, max_attempts),
        sleeps_along(SupervisorState::Done { status }, events, max_attempts) == 0,
    decreases events.len(),
{
    if events.len() > 0 {
        lemma_done_absorbs(status, events.skip(1), max_attempts);
    }
}

/// Law: idempotency. If the very first probe finds the backend already
/// listening, the run reports `AlreadyRunning` and no state it ever passes
/// through asks for a spawn — invoking the supervisor while the backend is
/// up never launches a second instance.
pub proof fn lemma_idempotent_no_spawn(events: Seq<SupervisorEvent>, max_attempts: u32)
    requires
        events.len() >= 1,
        events[0] == (SupervisorEvent::Probed { ok: true }),
    ensures
        run(SupervisorState::Probing, events, max_attempts) == (SupervisorState::Done {
            status: SupervisorStatus::AlreadyRunning,
        }),
        !spawns_along(SupervisorState::Probing, events, max_attempts),
{
    lemma_done_absorbs(SupervisorStatus::AlreadyRunning, events.skip(1), max_attempts);
}

/// The events a sequence of probe outcomes feeds to a waiting supervisor.
pub open spec fn probe_events(probes: Seq<bool>) -> Seq<SupervisorEvent> {
    probes.map_values(|b: bool| SupervisorEvent::Probed { ok: b })
}

/// Law: the readiness phase agrees with the bounded poll. A supervisor that
/// has made `attempt` probes so far and is fed one probe outcome per event
/// ends `Ready` exactly when a probe within the remaining budget succeeds,
/// and otherwise — deterministically, however many further outcomes arrive —
/// ends `TimedOut`.
pub proof fn lemma_waiting_matches_poll(probes: Seq<bool>, max_attempts: u32, attempt: u32)
    requires
        attempt < max_attempts,
        probes.len() + attempt >= max_attempts,
    ensures
        run(SupervisorState::Waiting { attempt }, probe_events(probes), max_attempts) == (if ready_within(
            probes,
            max_attempts - attempt,
        ) {
            SupervisorState::Done { status: SupervisorStatus::Ready }
        } else {
            SupervisorState::Done { status: SupervisorStatus::TimedOut }
        }),
    decreases probes.len(),
{
    let events = probe_events(probes);
    let budget = max_attempts - attempt;
    assert(events[0] == (SupervisorEvent::Probed { ok: probes[0] }));
    assert(events.skip(1) =~= probe_events(probes.skip(1)));
    if probes[0] {
        assert(ready_within(probes, budget));
        lemma_done_absorbs(SupervisorStatus::Ready, events.skip(1), max_attempts);
    } else if attempt + 1 < max_attempts {
        lemma_waiting_matches_poll(probes.skip(1), max_attempts, (attempt + 1) as u32);
        assert(ready_within(probes.skip(1), budget - 1) == ready_within(probes, budget)) by {
            if ready_within(probes.skip(1), budget - 1) {
                let w = choose|i: int|
                    0 <= i < budget - 1 && #[trigger] probes.skip(1)[i];
                assert(probes[w + 1]);
            }
            if ready_within(probes, budget) {
                let w = choose|i: int| 0 <= i < budget && #[trigger] probes[i];
                assert(probes.skip(1)[w - 1]);
            }
        }
    } else {
        assert(!ready_within(probes, budget));
        lemma_done_absorbs(SupervisorStatus::TimedOut, events.skip(1), max_attempts);
    }
}

proof fn lemma_waiting_sleeps(probes: Seq<bool>, max_attempts: u32, attempt: u32)
    requires
        attempt < max_attempts,
        probes.len() + attempt >= max_attempts,
    ensures
        sleeps_along(SupervisorState::Waiting { attempt }, probe_events(probes), max_attempts)
            <= if attempt == 0 {
            max_attempts - 1
        } else {
            max_attempts - attempt
        },
    decreases probes.len(),
{
    let events = probe_events(probes);
    assert(events[0] == (SupervisorEvent::Probed { ok: probes[0] }));
    assert(events.skip(1) =~= probe_events(probes.skip(1)));
    if probes[0] {
        lemma_done_absorbs(SupervisorStatus::Ready, events.skip(1), max_attempts);
    } else if attempt + 1 < max_attempts {
        lemma_waiting_sleeps(probes.skip(1), max_attempts, (attempt + 1) as u32);
    } else {
        lemma_done_absorbs(SupervisorStatus::TimedOut, events.skip(1), max_attempts);
    }
}

/// Law: bounded wait at the machine level. From the first poll probe after a
/// spawn, however the probes turn out and however many outcomes arrive, the
/// boundary is asked to sleep at most `max_attempts - 1` intervals before
/// the run ends.
pub proof fn lemma_run_sleep_bound(probes: Seq<bool>, max_attempts: u32)
    requires
        1 <= max_attempts,
        probes.len() >= max_attempts,
    ensures
        sleeps_along(
            SupervisorState::Waiting { attempt: 0 },
            probe_events(probes),
            max_attempts,
        ) <= max_attempts - 1,
{
    lemma_waiting_sleeps(probes, max_attempts, 0);
}

/// Law: a run that finds no executable. If the port does not answer and no
/// candidate path exists, the supervisor reports `ExecutableNotFound` —
/// whatever events arrive afterwards, and without ever owing a spawn.
pub proof fn lemma_not_found_run(rest: Seq<SupervisorEvent>, max_attempts: u32)
    ensures
        run(
            SupervisorState::Probing,
            seq![
                SupervisorEvent::Probed { ok: false },
                SupervisorEvent::Resolved { found: None },
            ] + rest,
            max_attempts,
        ) == (SupervisorState::Done { status: SupervisorStatus::ExecutableNotFound }),
        !spawns_along(
            SupervisorState::Probing,
            seq![
                SupervisorEvent::Probed { ok: false },
                SupervisorEvent::Resolved { found: None },
            ] + rest,
            max_attempts,
        ),
{
    let s = seq![
        SupervisorEvent::Probed { ok: false },
        SupervisorEvent::Resolved { found: None },
    ] + rest;
    let s1 = s.skip(1);
    let s2 = s1.skip(1);
    let not_found = SupervisorState::Done { status: SupervisorStatus::ExecutableNotFound };
    assert(s[0] == (SupervisorEvent::Probed { ok: false }));
    assert(s1[0] == s[1]);
    assert(s2 =~= rest);
    assert(run(SupervisorState::Probing, s, max_attempts) == run(
        SupervisorState::Resolving,
        s1,
        max_attempts,
    ));
    assert(run(SupervisorState::Resolving, s1, max_attempts) == run(not_found, s2, max_attempts));
    lemma_done_absorbs(SupervisorStatus::ExecutableNotFound, rest, max_attempts);
    assert(spawns_along(SupervisorState::Probing, s, max_attempts) == spawns_along(
        SupervisorState::Resolving,
        s1,
        max_attempts,
    ));
    assert(spawns_along(SupervisorState::Resolving, s1, max_attempts) == spawns_along(
        not_found,
        s2,
        max_attempts,
    ));
}

/// Law: a full launch run. If the port does not answer, an executable is
/// found, the spawn succeeds, and the poll then consumes one probe outcome
/// per event, the supervisor ends `Ready` exactly when a probe within the
/// attempt budget succeeds — and `TimedOut` otherwise, the handle staying
/// with the store for teardown.
pub proof fn lemma_launch_run(
    candidate: usize,
    probes: Seq<bool>,
    max_attempts: u32,
)
    requires
        1 <= max_attempts,
        probes.len() >= max_attempts,
    ensures
        run(
            SupervisorState::Probing,
            seq![
                SupervisorEvent::Probed { ok: false },
                SupervisorEvent::Resolved { found: Some(candidate) },
                SupervisorEvent::Spawned { ok: true },
            ] + probe_events(probes),
            max_attempts,
        ) == (if ready_within(probes, max_attempts as int) {
            SupervisorState::Done { status: SupervisorStatus::Ready }
        } else {
            SupervisorState::Done { status: SupervisorStatus::TimedOut }
        }),
{
    let s = seq![
        SupervisorEvent::Probed { ok: false },
        SupervisorEvent::Resolved { found: Some(candidate) },
        SupervisorEvent::Spawned { ok: true },
    ] + probe_events(probes);
    let s1 = s.skip(1);
    let s2 = s1.skip(1);
    let s3 = s2.skip(1);
    assert(s[0] == (SupervisorEvent::Probed { ok: false }));
    assert(s1[0] == s[1]);
    assert(s2[0] == s[2]);
    assert(s3 =~= probe_events(probes));
    assert(run(SupervisorState::Probing, s, max_attempts) == run(
        SupervisorState::Resolving,
        s1,
        max_attempts,
    ));
    assert(run(SupervisorState::Resolving, s1, max_attempts) == run(
        SupervisorState::Launching { candidate },
        s2,
        max_attempts,
    ));
    assert(run(SupervisorState::Launching { candidate }, s2, max_attempts) == run(
        SupervisorState::Waiting { attempt: 0 },
        s3,
        max_attempts,
    ));
    lemma_waiting_matches_poll(probes, max_attempts, 0);
}

/// Replays the machine over a recorded sequence of events, first to last.
pub fn run_events(
    start: SupervisorState,
    events: &Vec<SupervisorEvent>,
    max_attempts: u32,
) -> (t: SupervisorState)
    ensures
        t == run(start, events@, max_attempts),
{
    let n = events.len();
    let mut cur = start;
    let mut i: usize = 0;
    proof {
        assert(events@.skip(0) =~= events@);
    }
    while i < n
        invariant
            n == events@.len(),
            i <= n,
            run(start, events@, max_attempts) == run(cur, events@.skip(i as int), max_attempts),
        decreases n - i,
    {
        proof {
            assert(events@.skip(i as int)[0] == events@[i as int]);
            assert(events@.skip(i as int).skip(1) =~= events@.skip(i as int + 1));
        }
        cur = step(cur, events[i], max_attempts);
        i = i + 1;
    }
    cur
}

} // verus!
