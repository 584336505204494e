//! The process supervisor: a state machine that owns the lifecycle of one
//! child process. The host feeds it events (spawn results, output lines,
//! stream closure, elapsed delays, shutdown requests) and performs the
//! action the machine answers with (spawn, sleep, terminate the child).

use vstd::prelude::*;

verus! {

/// The phase the supervisor is in.
#[derive(Debug, Clone, Copy, PartialEq, Eq, Structural)]
pub enum SupervisorState {
    /// Not yet started.
    Idle,
    /// A spawn attempt is in flight.
    Starting,
    /// A live child is being monitored.
    Running,
    /// Waiting out a restart delay after a crash or a spawn failure.
    BackingOff,
    /// Shutdown was requested and the child is still being torn down.
    ShuttingDown,
    /// Terminal: nothing runs and nothing will be spawned again.
    Stopped,
}

/// Immutable restart configuration.
#[derive(Debug, Clone, Copy, PartialEq, Eq)]
pub struct RestartPolicy {
    /// Delay before respawning after the child exited unexpectedly.
    pub unexpected_exit_delay_ms: u64,
    /// Delay before retrying after the child could not be spawned.
    pub spawn_failure_delay_ms: u64,
    /// Give up after this many consecutive spawn failures; `None` retries
    /// forever.
    pub max_spawn_attempts: Option<u64>,
}

/// The operating-system process the supervisor currently owns.
#[derive(Debug, Clone, Copy, PartialEq, Eq, Structural)]
pub struct ChildHandle {
    pub pid: u64,
    pub alive: bool,
}

/// What the host observed and reports to the supervisor.
#[derive(Debug, Clone, PartialEq, Eq)]
pub enum Event {
    /// The host application started and wants the engine up.
    StartRequested,
    /// A spawn attempt produced a live child with this process id.
    SpawnSucceeded(u64),
    /// The operating system could not create the child.
    SpawnFailed,
    /// The child wrote one line to its standard output.
    OutputLine(String),
    /// The child's output stream closed: the child is gone.
    StreamClosed,
    /// A restart delay the supervisor asked for has elapsed.
    DelayElapsed,
    /// The host application is quitting.
    ShutdownRequested,
    /// The child terminated after being asked to during shutdown.
    ChildTerminated,
}

/// What the host must do next on the supervisor's behalf.
#[derive(Debug, Clone, Copy, PartialEq, Eq, Structural)]
pub enum Action {
    /// Try to spawn the child process.
    AttemptSpawn,
    /// Sleep for this many milliseconds, then report `DelayElapsed`.
    Sleep(u64),
    /// Ask the live child to terminate, then report `ChildTerminated`.
    TerminateChild,
    /// Nothing to do; keep delivering events.
    Continue,
}

/// One record handed to the log sink, in the order it was produced.
#[derive(Debug, Clone, PartialEq, Eq)]
pub enum LogEntry {
    /// A spawn attempt is about to be made.
    SpawnAttempt,
    /// The operating system refused to create the child.
    SpawnFailure,
    /// The child is up and being monitored.
    EngineStarted,
    /// One line of the child's standard output, verbatim.
    EngineOutput(String),
    /// The child's stream closed outside shutdown.
    UnexpectedExit,
    /// Shutdown was requested.
    ShutdownStarted,
    /// The child is gone and the supervisor is stopped.
    EngineStopped,
    /// The configured cap on consecutive spawn failures was reached.
    RetriesExhausted,
}

/// The supervisor's control state, without the log: the part of the
/// machine that the transition relation acts on.
#[derive(Debug, Clone, Copy, PartialEq, Eq)]
pub struct Control {
    pub state: SupervisorState,
    pub child: Option<ChildHandle>,
    pub failed_attempts: u64,
    pub policy: RestartPolicy,
}

/// The supervisor: control state plus the log of everything handed to
/// the sink so far.
#[derive(Debug)]
pub struct Supervisor {
    pub state: SupervisorState,
    pub child: Option<ChildHandle>,
    /// Consecutive spawn failures since the last successful spawn.
    pub failed_attempts: u64,
    pub policy: RestartPolicy,
    /// Everything forwarded to the log sink, oldest first.
    pub log: Vec<LogEntry>,
}

/// Whether the supervisor currently owns a live child process.
pub open spec fn has_live_child(c: Control) -> bool {
    c.child matches Some(h) && h.alive
}

/// How many live children the supervisor owns: zero or one, never more.
pub open spec fn live_children(c: Control) -> nat {
    if has_live_child(c) {
        1
    } else {
        0
    }
}

/// The machine's invariant: a child exists exactly while it is being
/// monitored or torn down, and a stored handle is always live.
pub open spec fn wf_control(c: Control) -> bool {
    &&& (c.child matches Some(h) ==> h.alive)
    &&& (c.state == SupervisorState::Running ==> c.child is Some)
    &&& (c.child is Some ==> c.state == SupervisorState::Running
        || c.state == SupervisorState::ShuttingDown)
}

/// Delay before respawning after an unexpected exit.
pub const UNEXPECTED_EXIT_DELAY_MS: u64 = 2000;

/// Delay before retrying after a spawn failure.
pub const SPAWN_FAILURE_DELAY_MS: u64 = 5000;

/// `n + 1`, saturating at the top of `u64`.
pub open spec fn bump(n: u64) -> u64 {
    if n < u64::MAX {
        (n + 1) as u64
    } else {
        n
    }
}

/// What one spawn failure does: count it, then either give up (the
/// configured cap on consecutive failures is reached) or back off for
/// the spawn-failure delay and retry.
pub open spec fn on_spawn_failed(c: Control) -> (Control, Seq<LogEntry>, Action) {
    let n = bump(c.failed_attempts);
    let give_up = match c.policy.max_spawn_attempts {
        Some(cap) => n >= cap,
        None => false,
    };
    if give_up {
        (
            Control { state: SupervisorState::Stopped, failed_attempts: n, ..c },
            seq![LogEntry::SpawnFailure, LogEntry::RetriesExhausted],
            Action::Continue,
        )
    } else {
        (
            Control { state: SupervisorState::BackingOff, failed_attempts: n, ..c },
            seq![LogEntry::SpawnFailure],
            Action::Sleep(c.policy.spawn_failure_delay_ms),
        )
    }
}

/// The transition relation: from a control state and an event, the next
/// control state, the log entries emitted (oldest first), and the action
/// the host must perform. Events that make no sense in the current state
/// are ignored.
pub open spec fn transition(c: Control, e: Event) -> (Control, Seq<LogEntry>, Action) {
    let ignore = (c, Seq::<LogEntry>::empty(), Action::Continue);
    match c.state {
        SupervisorState::Idle => match e {
            Event::StartRequested => (
                Control { state: SupervisorState::Starting, ..c },
                seq![LogEntry::SpawnAttempt],
                Action::AttemptSpawn,
            ),
            Event::ShutdownRequested => (
                Control { state: SupervisorState::Stopped, ..c },
                seq![LogEntry::ShutdownStarted],
                Action::Continue,
            ),
            _ => ignore,
        },
        SupervisorState::Starting => match e {
            Event::SpawnSucceeded(pid) => (
                Control {
                    state: SupervisorState::Running,
                    child: Some(ChildHandle { pid, alive: true }),
                    failed_attempts: 0,
                    ..c
                },
                seq![LogEntry::EngineStarted],
                Action::Continue,
            ),
            Event::SpawnFailed => on_spawn_failed(c),
            Event::ShutdownRequested => (
                // The spawn attempt is still in flight: wait for its
                // outcome so that a stray child can be terminated.
                Control { state: SupervisorState::ShuttingDown, ..c },
                seq![LogEntry::ShutdownStarted],
                Action::Continue,
            ),
            _ => ignore,
        },
        SupervisorState::Running => match e {
            Event::OutputLine(line) => (c, seq![LogEntry::EngineOutput(line)], Action::Continue),
            Event::StreamClosed => (
                Control { state: SupervisorState::BackingOff, child: None, ..c },
                seq![LogEntry::UnexpectedExit],
                Action::Sleep(c.policy.unexpected_exit_delay_ms),
            ),
            Event::ShutdownRequested => (
                Control { state: SupervisorState::ShuttingDown, ..c },
                seq![LogEntry::ShutdownStarted],
                Action::TerminateChild,
            ),
            _ => ignore,
        },
        SupervisorState::BackingOff => match e {
            Event::DelayElapsed => (
                Control { state: SupervisorState::Starting, ..c },
                seq![LogEntry::SpawnAttempt],
                Action::AttemptSpawn,
            ),
            Event::ShutdownRequested => (
                Control { state: SupervisorState::Stopped, ..c },
                seq![LogEntry::ShutdownStarted],
                Action::Continue,
            ),
            _ => ignore,
        },
        SupervisorState::ShuttingDown => match e {
            Event::SpawnSucceeded(pid) => if c.child is None {
                // A spawn that was in flight when shutdown was requested
                // has completed: terminate the stray child.
                (
                    Control { child: Some(ChildHandle { pid, alive: true }), ..c },
                    Seq::<LogEntry>::empty(),
                    Action::TerminateChild,
                )
            } else {
                ignore
            },
            Event::SpawnFailed => if c.child is None {
                (
                    Control { state: SupervisorState::Stopped, ..c },
                    seq![LogEntry::EngineStopped],
                    Action::Continue,
                )
            } else {
                ignore
            },
            Event::StreamClosed => (
                Control { state: SupervisorState::Stopped, child: None, ..c },
                seq![LogEntry::EngineStopped],
                Action::Continue,
            ),
            Event::ChildTerminated => (
                Control { state: SupervisorState::Stopped, child: None, ..c },
                seq![LogEntry::EngineStopped],
                Action::Continue,
            ),
            _ => ignore,
        },
        SupervisorState::Stopped => ignore,
    }
}

/// The control state after one event.
pub open spec fn next_control(c: Control, e: Event) -> Control {
    transition(c, e).0
}

/// The log entries one event emits.
pub open spec fn emitted(c: Control, e: Event) -> Seq<LogEntry> {
    transition(c, e).1
}

/// The action one event demands.
pub open spec fn action_of(c: Control, e: Event) -> Action {
    transition(c, e).2
}

impl Supervisor {
    /// This supervisor's control state.
    pub open spec fn control(self) -> Control {
        Control {
            state: self.state,
            child: self.child,
            failed_attempts: self.failed_attempts,
            policy: self.policy,
        }
    }

    /// The machine's invariant, on the whole supervisor.
    pub open spec fn wf(self) -> bool {
        wf_control(self.control())
    }

    /// A fresh supervisor: idle, with no child and an empty log.
    pub fn new(policy: RestartPolicy) -> (s: Self)
        ensures
            s.state == SupervisorState::Idle,
            s.child is None,
            s.failed_attempts == 0,
            s.policy == policy,
            s.log@ == Seq::<LogEntry>::empty(),
            s.wf(),
    {
        Supervisor {
            state: SupervisorState::Idle,
            child: None,
            failed_attempts: 0,
            policy,
            log: Vec::new(),
        }
    }

    /// Feeds one event to the state machine. The new state, the log
    /// entries appended, and the returned action are exactly what the
    /// transition relation prescribes.
    pub fn step(&mut self, event: Event) -> (action: Action)
        requires
            old(self).wf(),
        ensures
            final(self).wf(),
            final(self).control() == next_control(old(self).control(), event),
            final(self).log@ == old(self).log@ + emitted(old(self).control(), event),
            action == action_of(old(self).control(), event),
    {
        let action: Action;
        match self.state {
            SupervisorState::Idle => match event {
                Event::StartRequested => {
                    self.state = SupervisorState::Starting;
                    self.log.push(LogEntry::SpawnAttempt);
                    action = Action::AttemptSpawn;
                }
                Event::ShutdownRequested => {
                    self.state = SupervisorState::Stopped;
                    self.log.push(LogEntry::ShutdownStarted);
                    action = Action::Continue;
                }
                _ => {
                    action = Action::Continue;
                }
            },
            SupervisorState::Starting => match event {
                Event::SpawnSucceeded(pid) => {
                    self.state = SupervisorState::Running;
                    self.child = Some(ChildHandle { pid, alive: true });
                    self.failed_attempts = 0;
                    self.log.push(LogEntry::EngineStarted);
                    action = Action::Continue;
                }
                Event::SpawnFailed => {
                    if self.failed_attempts < u64::MAX {
                        self.failed_attempts = self.failed_attempts + 1;
                    }
                    let give_up: bool = match self.policy.max_spawn_attempts {
                        Some(cap) => self.failed_attempts >= cap,
                        None => false,
                    };
                    if give_up {
                        self.state = SupervisorState::Stopped;
                        self.log.push(LogEntry::SpawnFailure);
                        self.log.push(LogEntry::RetriesExhausted);
                        action = Action::Continue;
                    } else {
                        self.state = SupervisorState::BackingOff;
                        self.log.push(LogEntry::SpawnFailure);
                        action = Action::Sleep(self.policy.spawn_failure_delay_ms);
                    }
                }
                Event::ShutdownRequested => {
                    self.state = SupervisorState::ShuttingDown;
                    self.log.push(LogEntry::ShutdownStarted);
                    action = Action::Continue;
                }
                _ => {
                    action = Action::Continue;
                }
            },
            SupervisorState::Running => match event {
                Event::OutputLine(line) => {
                    self.log.push(LogEntry::EngineOutput(line));
                    action = Action::Continue;
                }
                Event::StreamClosed => {
                    self.state = SupervisorState::BackingOff;
                    self.child = None;
                    self.log.push(LogEntry::UnexpectedExit);
                    action = Action::Sleep(self.policy.unexpected_exit_delay_ms);
                }
                Event::ShutdownRequested => {
                    self.state = SupervisorState::ShuttingDown;
                    self.log.push(LogEntry::ShutdownStarted);
                    action = Action::TerminateChild;
                }
                _ => {
                    action = Action::Continue;
                }
            },
            SupervisorState::BackingOff => match event {
                Event::DelayElapsed => {
                    self.state = SupervisorState::Starting;
                    self.log.push(LogEntry::SpawnAttempt);
                    action = Action::AttemptSpawn;
                }
                Event::ShutdownRequested => {
                    self.state = SupervisorState::Stopped;
                    self.log.push(LogEntry::ShutdownStarted);
                    action = Action::Continue;
                }
                _ => {
                    action = Action::Continue;
                }
            },
            SupervisorState::ShuttingDown => match event {
                Event::SpawnSucceeded(pid) => {
                    if self.child.is_none() {
                        self.child = Some(ChildHandle { pid, alive: true });
                        action = Action::TerminateChild;
                    } else {
                        action = Action::Continue;
                    }
                }
                Event::SpawnFailed => {
                    if self.child.is_none() {
                        self.state = SupervisorState::Stopped;
                        self.log.push(LogEntry::EngineStopped);
                        action = Action::Continue;
                    } else {
                        action = Action::Continue;
                    }
                }
                Event::StreamClosed => {
                    self.state = SupervisorState::Stopped;
                    self.child = None;
                    self.log.push(LogEntry::EngineStopped);
                    action = Action::Continue;
                }
                Event::ChildTerminated => {
                    self.state = SupervisorState::Stopped;
                    self.child = None;
                    self.log.push(LogEntry::EngineStopped);
                    action = Action::Continue;
                }
                _ => {
                    action = Action::Continue;
                }
            },
            SupervisorState::Stopped => {
                action = Action::Continue;
            }
        }
        proof {
            assert(self.log@ =~= old(self).log@ + emitted(old(self).control(), event));
        }
        action
    }

    /// Starts the state machine: the host calls this once at startup and
    /// then performs the returned action (the first spawn attempt).
    pub fn start(&mut self) -> (action: Action)
        requires
            old(self).wf(),
        ensures
            final(self).wf(),
            final(self).control() == next_control(old(self).control(), Event::StartRequested),
            final(self).log@ == old(self).log@ + emitted(old(self).control(), Event::StartRequested),
            action == action_of(old(self).control(), Event::StartRequested),
    {
        self.step(Event::StartRequested)
    }

    /// Requests shutdown. Afterwards the machine is shutting down or
    /// already stopped, and it never again asks for a spawn.
    pub fn shutdown(&mut self) -> (action: Action)
        requires
            old(self).wf(),
        ensures
            final(self).wf(),
            final(self).control() == next_control(old(self).control(), Event::ShutdownRequested),
            final(self).log@ == old(self).log@ + emitted(old(self).control(), Event::ShutdownRequested),
            action == action_of(old(self).control(), Event::ShutdownRequested),
            final(self).state == SupervisorState::ShuttingDown
                || final(self).state == SupervisorState::Stopped,
    {
        self.step(Event::ShutdownRequested)
    }
}

/// The control state after a whole sequence of events.
pub open spec fn run(c: Control, events: Seq<Event>) -> Control
    decreases events.len(),
{
    if events.len() == 0 {
        c
    } else {
        run(next_control(c, events[0]), events.drop_first())
    }
}

/// Everything a sequence of events emits to the log, oldest first.
pub open spec fn emitted_run(c: Control, events: Seq<Event>) -> Seq<LogEntry>
    decreases events.len(),
{
    if events.len() == 0 {
        Seq::<LogEntry>::empty()
    } else {
        emitted(c, events[0]) + emitted_run(next_control(c, events[0]), events.drop_first())
    }
}

/// The actions a sequence of events demands, one per event, in order.
pub open spec fn actions_run(c: Control, events: Seq<Event>) -> Seq<Action>
    decreases events.len(),
{
    if events.len() == 0 {
        Seq::<Action>::empty()
    } else {
        seq![action_of(c, events[0])] + actions_run(next_control(c, events[0]), events.drop_first())
    }
}

/// One event preserves the machine's invariant.
pub proof fn lemma_step_preserves_wf(c: Control, e: Event)
    requires
        wf_control(c),
    ensures
        wf_control(next_control(c, e)),
{
}

/// Any sequence of events preserves the machine's invariant, and the
/// restart policy never changes.
pub proof fn lemma_run_preserves_wf(c: Control, events: Seq<Event>)
    requires
        wf_control(c),
    ensures
        wf_control(run(c, events)),
        run(c, events).policy == c.policy,
    decreases events.len(),
{
    if events.len() > 0 {
        lemma_step_preserves_wf(c, events[0]);
        lemma_run_preserves_wf(next_control(c, events[0]), events.drop_first());
    }
}

/// Running a concatenation of two event sequences is running the first,
/// then the second from where the first left off.
pub proof fn lemma_run_concat(c: Control, s1: Seq<Event>, s2: Seq<Event>)
    ensures
        run(c, s1 + s2) == run(run(c, s1), s2),
    decreases s1.len(),
{
    if s1.len() == 0 {
        assert(s1 + s2 =~= s2);
    } else {
        assert((s1 + s2)[0] == s1[0]);
        assert((s1 + s2).drop_first() =~= s1.drop_first() + s2);
        lemma_run_concat(next_control(c, s1[0]), s1.drop_first(), s2);
    }
}

/// Log entries are only ever appended: everything emitted during an
/// earlier stretch of events stands in the log before everything a later
/// stretch emits. In particular, a restarted child's lines can never
/// appear ahead of an earlier child's lines.
pub proof fn lemma_emitted_run_concat(c: Control, s1: Seq<Event>, s2: Seq<Event>)
    ensures
        emitted_run(c, s1 + s2) == emitted_run(c, s1) + emitted_run(run(c, s1), s2),
    decreases s1.len(),
{
    if s1.len() == 0 {
        assert(s1 + s2 =~= s2);
        assert(emitted_run(c, s1 + s2) =~= emitted_run(c, s1) + emitted_run(run(c, s1), s2));
    } else {
        assert((s1 + s2)[0] == s1[0]);
        assert((s1 + s2).drop_first() =~= s1.drop_first() + s2);
        lemma_emitted_run_concat(next_control(c, s1[0]), s1.drop_first(), s2);
        assert(emitted_run(c, s1 + s2) =~= emitted_run(c, s1) + emitted_run(run(c, s1), s2));
    }
}

impl Default for RestartPolicy {
    /// The standard policy: two seconds after an unexpected exit, five
    /// seconds after a spawn failure, and no cap on retries.
    fn default() -> (r: Self)
        ensures
            r.unexpected_exit_delay_ms == UNEXPECTED_EXIT_DELAY_MS,
            r.spawn_failure_delay_ms == SPAWN_FAILURE_DELAY_MS,
            r.max_spawn_attempts is None,
    {
        RestartPolicy {
            unexpected_exit_delay_ms: UNEXPECTED_EXIT_DELAY_MS,
            spawn_failure_delay_ms: SPAWN_FAILURE_DELAY_MS,
            max_spawn_attempts: None,
        }
    }
}

} // verus!
