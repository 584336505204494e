//! The supervisor's guarantees, stated and proved over the transition
//! relation: recovery from crashes, at most one live child, shutdown
//! finality, output ordering, and isolation of spawn failures.

use vstd::prelude::*;
use crate::supervisor::{
    Action, Control, Event, LogEntry, SupervisorState, action_of, actions_run, emitted_run,
    lemma_run_concat, lemma_step_preserves_wf, live_children, next_control, run, wf_control,
};

verus! {

/// One crash-and-recover round per process id: the stream closes, the
/// restart delay elapses, and the respawn succeeds with that id.
pub open spec fn crash_cycles(pids: Seq<u64>) -> Seq<Event>
    decreases pids.len(),
{
    if pids.len() == 0 {
        Seq::<Event>::empty()
    } else {
        seq![
            Event::StreamClosed,
            Event::DelayElapsed,
            Event::SpawnSucceeded(pids[0]),
        ] + crash_cycles(pids.drop_first())
    }
}

/// One failed spawn round: the spawn fails and the retry delay elapses.
pub open spec fn failure_cycles(n: nat) -> Seq<Event>
    decreases n,
{
    if n == 0 {
        Seq::<Event>::empty()
    } else {
        seq![Event::SpawnFailed, Event::DelayElapsed] + failure_cycles((n - 1) as nat)
    }
}

/// One output event per line, in order.
pub open spec fn output_events(lines: Seq<String>) -> Seq<Event>
    decreases lines.len(),
{
    if lines.len() == 0 {
        Seq::<Event>::empty()
    } else {
        seq![Event::OutputLine(lines[0])] + output_events(lines.drop_first())
    }
}

/// One log entry per line, in order.
pub open spec fn engine_entries(lines: Seq<String>) -> Seq<LogEntry>
    decreases lines.len(),
{
    if lines.len() == 0 {
        Seq::<LogEntry>::empty()
    } else {
        seq![LogEntry::EngineOutput(lines[0])] + engine_entries(lines.drop_first())
    }
}

/// Liveness after one crash: when the running child's stream closes, the
/// supervisor sleeps exactly one unexpected-exit delay, then immediately
/// attempts a respawn, and a successful spawn puts it back in `Running`.
/// Applied to every reachable running state in turn, this covers every
/// sequence of crashes.
pub proof fn lemma_crash_recovery(c: Control, pid: u64)
    requires
        wf_control(c),
        c.state == SupervisorState::Running,
    ensures
        action_of(c, Event::StreamClosed) == Action::Sleep(c.policy.unexpected_exit_delay_ms),
        next_control(c, Event::StreamClosed).state == SupervisorState::BackingOff,
        action_of(next_control(c, Event::StreamClosed), Event::DelayElapsed)
            == Action::AttemptSpawn,
        next_control(next_control(c, Event::StreamClosed), Event::DelayElapsed).state
            == SupervisorState::Starting,
        next_control(
            next_control(next_control(c, Event::StreamClosed), Event::DelayElapsed),
            Event::SpawnSucceeded(pid),
        ).state == SupervisorState::Running,
        wf_control(
            next_control(
                next_control(next_control(c, Event::StreamClosed), Event::DelayElapsed),
                Event::SpawnSucceeded(pid),
            ),
        ),
{
}

/// Liveness under any sequence of crashes: however many times the child
/// crashes and is successfully respawned, the supervisor is running
/// again after each round, provided shutdown was never requested.
pub proof fn lemma_liveness(c: Control, pids: Seq<u64>)
    requires
        wf_control(c),
        c.state == SupervisorState::Running,
    ensures
        run(c, crash_cycles(pids)).state == SupervisorState::Running,
        wf_control(run(c, crash_cycles(pids))),
        run(c, crash_cycles(pids)).policy == c.policy,
    decreases pids.len(),
{
    if pids.len() == 0 {
    } else {
        let head = seq![
            Event::StreamClosed,
            Event::DelayElapsed,
            Event::SpawnSucceeded(pids[0]),
        ];
        let rest = crash_cycles(pids.drop_first());
        assert(crash_cycles(pids) == head + rest);
        lemma_run_concat(c, head, rest);
        let c1 = next_control(c, Event::StreamClosed);
        let c2 = next_control(c1, Event::DelayElapsed);
        let c3 = next_control(c2, Event::SpawnSucceeded(pids[0]));
        assert(head[0] == Event::StreamClosed);
        assert(run(c, head) == run(c1, head.drop_first()));
        assert(head.drop_first() =~= seq![Event::DelayElapsed, Event::SpawnSucceeded(pids[0])]);
        assert(run(c1, seq![Event::DelayElapsed, Event::SpawnSucceeded(pids[0])])
            == run(c2, seq![Event::DelayElapsed, Event::SpawnSucceeded(pids[0])].drop_first()));
        assert(seq![Event::DelayElapsed, Event::SpawnSucceeded(pids[0])].drop_first()
            =~= seq![Event::SpawnSucceeded(pids[0])]);
        assert(run(c2, seq![Event::SpawnSucceeded(pids[0])])
            == run(c3, seq![Event::SpawnSucceeded(pids[0])].drop_first()));
        assert(seq![Event::SpawnSucceeded(pids[0])].drop_first() =~= Seq::<Event>::empty());
        assert(run(c3, Seq::<Event>::empty()) == c3);
        assert(run(c, head) == c3);
        lemma_crash_recovery(c, pids[0]);
        lemma_liveness(c3, pids.drop_first());
    }
}

/// At most one child: from any well-formed state, every state the
/// supervisor can reach is well-formed and holds at most one live child
/// handle.
pub proof fn lemma_at_most_one_child(c: Control, events: Seq<Event>)
    requires
        wf_control(c),
    ensures
        forall|i: int|
            0 <= i <= events.len() ==> wf_control(#[trigger] run(c, events.take(i)))
                && live_children(run(c, events.take(i))) <= 1,
    decreases events.len(),
{
    assert(events.take(0) =~= Seq::<Event>::empty());
    if events.len() > 0 {
        lemma_step_preserves_wf(c, events[0]);
        let c1 = next_control(c, events[0]);
        lemma_at_most_one_child(c1, events.drop_first());
        assert forall|i: int|
            0 <= i <= events.len() implies wf_control(#[trigger] run(c, events.take(i)))
            && live_children(run(c, events.take(i))) <= 1 by {
            if i > 0 {
                let pre = events.take(i);
                assert(pre[0] == events[0]);
                assert(pre.drop_first() =~= events.drop_first().take(i - 1));
                assert(run(c, pre) == run(c1, events.drop_first().take(i - 1)));
            }
        }
    }
}

/// A sequence of events demands exactly one action per event.
pub proof fn lemma_actions_run_len(c: Control, events: Seq<Event>)
    ensures
        actions_run(c, events).len() == events.len(),
    decreases events.len(),
{
    if events.len() > 0 {
        lemma_actions_run_len(next_control(c, events[0]), events.drop_first());
    }
}

/// Once the machine is shutting down or stopped, it stays so, and no
/// event — an elapsed restart timer included — ever yields another spawn
/// attempt.
pub proof fn lemma_no_spawn_once_shut(c: Control, events: Seq<Event>)
    requires
        wf_control(c),
        c.state == SupervisorState::ShuttingDown || c.state == SupervisorState::Stopped,
    ensures
        run(c, events).state == SupervisorState::ShuttingDown
            || run(c, events).state == SupervisorState::Stopped,
        forall|i: int|
            0 <= i < events.len() ==> actions_run(c, events)[i] != Action::AttemptSpawn,
    decreases events.len(),
{
    if events.len() > 0 {
        let c1 = next_control(c, events[0]);
        lemma_step_preserves_wf(c, events[0]);
        lemma_no_spawn_once_shut(c1, events.drop_first());
        lemma_actions_run_len(c1, events.drop_first());
        assert forall|i: int|
            0 <= i < events.len() implies actions_run(c, events)[i] != Action::AttemptSpawn by {
            if i == 0 {
                assert(actions_run(c, events)[0] == action_of(c, events[0]));
            } else {
                assert(actions_run(c, events)[i]
                    == actions_run(c1, events.drop_first())[i - 1]);
            }
        }
    }
}

/// Shutdown finality: once shutdown is requested, the machine is
/// shutting down or stopped, remains so under every later event, and no
/// spawn is ever attempted again, no matter how many restart timers were
/// still in flight.
pub proof fn lemma_shutdown_finality(c: Control, events: Seq<Event>)
    requires
        wf_control(c),
    ensures
        action_of(c, Event::ShutdownRequested) != Action::AttemptSpawn,
        run(next_control(c, Event::ShutdownRequested), events).state
            == SupervisorState::ShuttingDown
            || run(next_control(c, Event::ShutdownRequested), events).state
            == SupervisorState::Stopped,
        forall|i: int|
            0 <= i < events.len()
                ==> actions_run(next_control(c, Event::ShutdownRequested), events)[i]
                != Action::AttemptSpawn,
{
    lemma_step_preserves_wf(c, Event::ShutdownRequested);
    lemma_no_spawn_once_shut(next_control(c, Event::ShutdownRequested), events);
}

/// Output ordering: while the child runs, its lines are forwarded to the
/// log one entry per line, verbatim and in the order emitted, and the
/// control state does not change at all. Together with
/// `lemma_emitted_run_concat`, lines of a later (restarted) child can
/// only stand after these.
pub proof fn lemma_output_ordering(c: Control, lines: Seq<String>)
    requires
        wf_control(c),
        c.state == SupervisorState::Running,
    ensures
        run(c, output_events(lines)) == c,
        emitted_run(c, output_events(lines)) == engine_entries(lines),
    decreases lines.len(),
{
    if lines.len() == 0 {
    } else {
        let e0 = Event::OutputLine(lines[0]);
        assert(next_control(c, e0) == c);
        assert(output_events(lines)[0] == e0);
        assert(output_events(lines).drop_first() =~= output_events(lines.drop_first()));
        lemma_output_ordering(c, lines.drop_first());
        assert(emitted_run(c, output_events(lines)) =~= engine_entries(lines));
    }
}

/// Spawn-failure isolation: with an uncapped policy, any number of
/// consecutive spawn failures leaves the supervisor cycling between
/// `Starting` and `BackingOff` — each failure is answered with one
/// spawn-failure delay and then a fresh attempt, never with a crash of
/// the machine and never with a live child appearing from nowhere.
pub proof fn lemma_spawn_failure_isolation(c: Control, n: nat)
    requires
        wf_control(c),
        c.state == SupervisorState::Starting,
        c.policy.max_spawn_attempts is None,
    ensures
        run(c, failure_cycles(n)).state == SupervisorState::Starting,
        wf_control(run(c, failure_cycles(n))),
        run(c, failure_cycles(n)).policy == c.policy,
        run(c, failure_cycles(n)).child is None,
        action_of(c, Event::SpawnFailed) == Action::Sleep(c.policy.spawn_failure_delay_ms),
        next_control(c, Event::SpawnFailed).state == SupervisorState::BackingOff,
        action_of(next_control(c, Event::SpawnFailed), Event::DelayElapsed)
            == Action::AttemptSpawn,
    decreases n,
{
    if n == 0 {
    } else {
        let head = seq![Event::SpawnFailed, Event::DelayElapsed];
        let rest = failure_cycles((n - 1) as nat);
        assert(failure_cycles(n) == head + rest);
        lemma_run_concat(c, head, rest);
        let c1 = next_control(c, Event::SpawnFailed);
        let c2 = next_control(c1, Event::DelayElapsed);
        assert(head[0] == Event::SpawnFailed);
        assert(run(c, head) == run(c1, head.drop_first()));
        assert(head.drop_first() =~= seq![Event::DelayElapsed]);
        assert(run(c1, seq![Event::DelayElapsed])
            == run(c2, seq![Event::DelayElapsed].drop_first()));
        assert(seq![Event::DelayElapsed].drop_first() =~= Seq::<Event>::empty());
        assert(run(c2, Seq::<Event>::empty()) == c2);
        assert(run(c, head) == c2);
        lemma_spawn_failure_isolation(c2, (n - 1) as nat);
    }
}

} // verus!
