use biodockify::supervisor::{
    Action, Event, LogEntry, RestartPolicy, Supervisor, SupervisorState,
};

fn unbounded() -> RestartPolicy {
    RestartPolicy::default()
}

#[test]
fn default_policy_values() {
    let p = RestartPolicy::default();
    assert_eq!(p.unexpected_exit_delay_ms, 2000);
    assert_eq!(p.spawn_failure_delay_ms, 5000);
    assert_eq!(p.max_spawn_attempts, None);
}

#[test]
fn new_supervisor_is_idle() {
    let s = Supervisor::new(unbounded());
    assert_eq!(s.state, SupervisorState::Idle);
    assert!(s.child.is_none());
    assert_eq!(s.failed_attempts, 0);
    assert!(s.log.is_empty());
}

#[test]
fn start_attempts_first_spawn() {
    let mut s = Supervisor::new(unbounded());
    let a = s.start();
    assert_eq!(a, Action::AttemptSpawn);
    assert_eq!(s.state, SupervisorState::Starting);
    assert_eq!(s.log, vec![LogEntry::SpawnAttempt]);
}

#[test]
fn child_ready_then_exit_restarts_after_two_seconds() {
    // The child prints "ready" and exits at once: the line is logged, the
    // exit is logged as unexpected, the supervisor waits ~2s, and a new
    // spawn attempt is logged.
    let mut s = Supervisor::new(unbounded());
    assert_eq!(s.start(), Action::AttemptSpawn);
    assert_eq!(s.step(Event::SpawnSucceeded(7)), Action::Continue);
    assert_eq!(s.state, SupervisorState::Running);
    assert_eq!(s.step(Event::OutputLine("ready".to_string())), Action::Continue);
    assert_eq!(s.step(Event::StreamClosed), Action::Sleep(2000));
    assert_eq!(s.state, SupervisorState::BackingOff);
    assert!(s.child.is_none());
    assert_eq!(s.step(Event::DelayElapsed), Action::AttemptSpawn);
    assert_eq!(s.state, SupervisorState::Starting);
    assert_eq!(
        s.log,
        vec![
            LogEntry::SpawnAttempt,
            LogEntry::EngineStarted,
            LogEntry::EngineOutput("ready".to_string()),
            LogEntry::UnexpectedExit,
            LogEntry::SpawnAttempt,
        ]
    );
}

#[test]
fn missing_executable_retries_every_five_seconds_until_shutdown() {
    // The executable path does not exist: every spawn fails, each failure
    // is logged and answered with a ~5s delay and a fresh attempt, until
    // shutdown, after which no further attempt occurs.
    let mut s = Supervisor::new(unbounded());
    assert_eq!(s.start(), Action::AttemptSpawn);
    for i in 1..=4u64 {
        assert_eq!(s.step(Event::SpawnFailed), Action::Sleep(5000));
        assert_eq!(s.state, SupervisorState::BackingOff);
        assert_eq!(s.failed_attempts, i);
        assert_eq!(s.step(Event::DelayElapsed), Action::AttemptSpawn);
        assert_eq!(s.state, SupervisorState::Starting);
    }
    assert_eq!(s.step(Event::SpawnFailed), Action::Sleep(5000));
    assert_eq!(s.shutdown(), Action::Continue);
    assert_eq!(s.state, SupervisorState::Stopped);
    // A restart timer still in flight elapses: nothing is spawned.
    assert_eq!(s.step(Event::DelayElapsed), Action::Continue);
    assert_eq!(s.state, SupervisorState::Stopped);
    let failures = s
        .log
        .iter()
        .filter(|e| **e == LogEntry::SpawnFailure)
        .count();
    assert_eq!(failures, 5);
}

#[test]
fn at_most_one_child_is_held() {
    let mut s = Supervisor::new(unbounded());
    s.start();
    s.step(Event::SpawnSucceeded(1));
    let first = s.child;
    assert!(first.is_some());
    // A stray duplicate spawn report is ignored: the handle is unchanged.
    assert_eq!(s.step(Event::SpawnSucceeded(2)), Action::Continue);
    assert_eq!(s.child, first);
    assert_eq!(s.child.unwrap().pid, 1);
}

#[test]
fn shutdown_terminates_live_child() {
    let mut s = Supervisor::new(unbounded());
    s.start();
    s.step(Event::SpawnSucceeded(42));
    assert_eq!(s.shutdown(), Action::TerminateChild);
    assert_eq!(s.state, SupervisorState::ShuttingDown);
    assert!(s.child.is_some());
    assert_eq!(s.step(Event::ChildTerminated), Action::Continue);
    assert_eq!(s.state, SupervisorState::Stopped);
    assert!(s.child.is_none());
    assert_eq!(s.log.last(), Some(&LogEntry::EngineStopped));
}

#[test]
fn no_spawn_after_shutdown() {
    let mut s = Supervisor::new(unbounded());
    s.start();
    s.step(Event::SpawnSucceeded(3));
    s.step(Event::StreamClosed);
    // Shutdown arrives while a restart delay is pending.
    s.shutdown();
    assert_eq!(s.state, SupervisorState::Stopped);
    let len_at_shutdown = s.log.len();
    for e in [
        Event::DelayElapsed,
        Event::SpawnFailed,
        Event::StreamClosed,
        Event::StartRequested,
        Event::SpawnSucceeded(8),
    ] {
        assert_eq!(s.step(e), Action::Continue);
        assert_eq!(s.state, SupervisorState::Stopped);
    }
    assert_eq!(s.log.len(), len_at_shutdown);
}

#[test]
fn shutdown_during_spawn_in_flight_kills_stray_child() {
    let mut s = Supervisor::new(unbounded());
    s.start();
    // Shutdown is requested while the spawn attempt is still in flight.
    assert_eq!(s.shutdown(), Action::Continue);
    assert_eq!(s.state, SupervisorState::ShuttingDown);
    // The spawn completes anyway: the stray child must be terminated.
    assert_eq!(s.step(Event::SpawnSucceeded(9)), Action::TerminateChild);
    assert_eq!(s.state, SupervisorState::ShuttingDown);
    assert_eq!(s.step(Event::ChildTerminated), Action::Continue);
    assert_eq!(s.state, SupervisorState::Stopped);
}

#[test]
fn shutdown_during_spawn_in_flight_spawn_fails() {
    let mut s = Supervisor::new(unbounded());
    s.start();
    s.shutdown();
    assert_eq!(s.state, SupervisorState::ShuttingDown);
    assert_eq!(s.step(Event::SpawnFailed), Action::Continue);
    assert_eq!(s.state, SupervisorState::Stopped);
}

#[test]
fn output_lines_are_logged_in_order_across_restart() {
    let mut s = Supervisor::new(unbounded());
    s.start();
    s.step(Event::SpawnSucceeded(1));
    s.step(Event::OutputLine("L1".to_string()));
    s.step(Event::OutputLine("L2".to_string()));
    s.step(Event::OutputLine("L3".to_string()));
    s.step(Event::StreamClosed);
    s.step(Event::DelayElapsed);
    s.step(Event::SpawnSucceeded(2));
    s.step(Event::OutputLine("L4".to_string()));
    let outputs: Vec<&LogEntry> = s
        .log
        .iter()
        .filter(|e| matches!(e, LogEntry::EngineOutput(_)))
        .collect();
    assert_eq!(
        outputs,
        vec![
            &LogEntry::EngineOutput("L1".to_string()),
            &LogEntry::EngineOutput("L2".to_string()),
            &LogEntry::EngineOutput("L3".to_string()),
            &LogEntry::EngineOutput("L4".to_string()),
        ]
    );
}

#[test]
fn capped_policy_gives_up_after_the_cap() {
    let policy = RestartPolicy {
        unexpected_exit_delay_ms: 2000,
        spawn_failure_delay_ms: 5000,
        max_spawn_attempts: Some(3),
    };
    let mut s = Supervisor::new(policy);
    s.start();
    assert_eq!(s.step(Event::SpawnFailed), Action::Sleep(5000));
    assert_eq!(s.step(Event::DelayElapsed), Action::AttemptSpawn);
    assert_eq!(s.step(Event::SpawnFailed), Action::Sleep(5000));
    assert_eq!(s.step(Event::DelayElapsed), Action::AttemptSpawn);
    // The third consecutive failure reaches the cap.
    assert_eq!(s.step(Event::SpawnFailed), Action::Continue);
    assert_eq!(s.state, SupervisorState::Stopped);
    assert_eq!(s.log.last(), Some(&LogEntry::RetriesExhausted));
}

#[test]
fn successful_spawn_resets_failure_count() {
    let mut s = Supervisor::new(unbounded());
    s.start();
    s.step(Event::SpawnFailed);
    s.step(Event::DelayElapsed);
    s.step(Event::SpawnFailed);
    s.step(Event::DelayElapsed);
    assert_eq!(s.failed_attempts, 2);
    s.step(Event::SpawnSucceeded(5));
    assert_eq!(s.failed_attempts, 0);
    assert_eq!(s.state, SupervisorState::Running);
}

#[test]
fn irrelevant_events_are_ignored() {
    let mut s = Supervisor::new(unbounded());
    // Output from nowhere while idle is not logged.
    assert_eq!(s.step(Event::OutputLine("noise".to_string())), Action::Continue);
    assert_eq!(s.state, SupervisorState::Idle);
    assert!(s.log.is_empty());
    s.start();
    // An elapsed delay while a spawn is in flight changes nothing.
    assert_eq!(s.step(Event::DelayElapsed), Action::Continue);
    assert_eq!(s.state, SupervisorState::Starting);
}
