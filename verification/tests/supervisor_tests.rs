use backend_supervisor::store::{teardown, ProcessHandle, ProcessHandleStore, TeardownAction};
use backend_supervisor::supervisor::{
    is_success, next_action, run_events, status_message, step, SupervisorAction, SupervisorEvent,
    SupervisorState, SupervisorStatus,
};
use backend_supervisor::window::WindowRegistry;

fn failed_probes(n: usize) -> Vec<SupervisorEvent> {
    let mut v: Vec<SupervisorEvent> = Vec::new();
    let mut i: usize = 0;
    while i < n {
        v.push(SupervisorEvent::Probed { ok: false });
        i += 1;
    }
    v
}

#[test]
fn already_running_backend_is_never_spawned_again() {
    // The port answers at once: the run is over, nothing is resolved or
    // spawned, and the machine keeps reporting the same status.
    let events = vec![SupervisorEvent::Probed { ok: true }];
    let end = run_events(SupervisorState::Probing, &events, 30);
    assert_eq!(end, SupervisorState::Done { status: SupervisorStatus::AlreadyRunning });
    assert!(is_success(&SupervisorStatus::AlreadyRunning));
    assert_eq!(
        next_action(&end),
        SupervisorAction::Report { status: SupervisorStatus::AlreadyRunning }
    );
    // Even if further events arrive, the finished run stays finished.
    let more = vec![
        SupervisorEvent::Probed { ok: true },
        SupervisorEvent::Resolved { found: Some(0) },
        SupervisorEvent::Spawned { ok: true },
    ];
    assert_eq!(
        run_events(SupervisorState::Probing, &more, 30),
        SupervisorState::Done { status: SupervisorStatus::AlreadyRunning }
    );
}

#[test]
fn missing_executable_is_reported_and_window_is_still_created() {
    // No candidate path exists: the supervisor reports the failure without
    // spawning, and startup still proceeds to create the window.
    let events = vec![
        SupervisorEvent::Probed { ok: false },
        SupervisorEvent::Resolved { found: None },
    ];
    let end = run_events(SupervisorState::Probing, &events, 30);
    assert_eq!(end, SupervisorState::Done { status: SupervisorStatus::ExecutableNotFound });
    assert!(!is_success(&SupervisorStatus::ExecutableNotFound));

    let mut registry = WindowRegistry::new();
    let created = registry.ensure(&String::from("main"));
    assert!(created);
    assert_eq!(registry.len(), 1);
}

#[test]
fn spawn_failure_ends_the_run() {
    let events = vec![
        SupervisorEvent::Probed { ok: false },
        SupervisorEvent::Resolved { found: Some(1) },
        SupervisorEvent::Spawned { ok: false },
    ];
    let end = run_events(SupervisorState::Probing, &events, 30);
    assert_eq!(end, SupervisorState::Done { status: SupervisorStatus::SpawnFailed });
}

#[test]
fn backend_ready_after_three_polling_intervals() {
    // Probes 1-3 of the readiness poll fail, probe 4 succeeds.
    let mut events = vec![
        SupervisorEvent::Probed { ok: false },
        SupervisorEvent::Resolved { found: Some(0) },
        SupervisorEvent::Spawned { ok: true },
        SupervisorEvent::Probed { ok: false },
        SupervisorEvent::Probed { ok: false },
        SupervisorEvent::Probed { ok: false },
    ];
    events.push(SupervisorEvent::Probed { ok: true });
    let end = run_events(SupervisorState::Probing, &events, 30);
    assert_eq!(end, SupervisorState::Done { status: SupervisorStatus::Ready });
    assert!(is_success(&SupervisorStatus::Ready));
}

#[test]
fn backend_that_never_answers_times_out_and_is_torn_down() {
    // The spawn succeeds but the port never opens: after the full attempt
    // budget the supervisor reports a timeout. The stored handle remains,
    // and teardown afterwards still terminates the unresponsive process.
    let mut store = ProcessHandleStore::new();
    let mut events = vec![
        SupervisorEvent::Probed { ok: false },
        SupervisorEvent::Resolved { found: Some(0) },
        SupervisorEvent::Spawned { ok: true },
    ];
    store.store(ProcessHandle { id: 9 });
    events.extend(failed_probes(30));
    let end = run_events(SupervisorState::Probing, &events, 30);
    assert_eq!(end, SupervisorState::Done { status: SupervisorStatus::TimedOut });
    assert!(!is_success(&SupervisorStatus::TimedOut));
    assert_eq!(teardown(&mut store), TeardownAction::Terminate(ProcessHandle { id: 9 }));
}

#[test]
fn each_state_owes_its_one_outside_action() {
    assert_eq!(next_action(&SupervisorState::Probing), SupervisorAction::Probe);
    assert_eq!(next_action(&SupervisorState::Resolving), SupervisorAction::Resolve);
    assert_eq!(
        next_action(&SupervisorState::Launching { candidate: 1 }),
        SupervisorAction::Spawn { candidate: 1 }
    );
    assert_eq!(next_action(&SupervisorState::Waiting { attempt: 0 }), SupervisorAction::Probe);
    assert_eq!(
        next_action(&SupervisorState::Waiting { attempt: 3 }),
        SupervisorAction::SleepThenProbe
    );
}

#[test]
fn mismatched_events_change_nothing() {
    let s = SupervisorState::Probing;
    assert_eq!(step(s, SupervisorEvent::Spawned { ok: true }, 30), s);
    let w = SupervisorState::Waiting { attempt: 2 };
    assert_eq!(step(w, SupervisorEvent::Resolved { found: None }, 30), w);
}

#[test]
fn status_messages_describe_each_outcome() {
    assert_eq!(status_message(&SupervisorStatus::AlreadyRunning), "backend is already running");
    assert_eq!(status_message(&SupervisorStatus::Ready), "backend started");
    assert_eq!(
        status_message(&SupervisorStatus::ExecutableNotFound),
        "backend executable not found"
    );
    assert_eq!(status_message(&SupervisorStatus::SpawnFailed), "failed to start backend");
    assert_eq!(status_message(&SupervisorStatus::TimedOut), "backend did not start in time");
}
