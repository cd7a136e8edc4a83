//! What holds of every run of a runtime, whatever its callers do and in
//! whatever order their calls arrive.

use crate::error::ObsError;
use crate::runtime::{
    Admission, Command, CommandKind, Completion, RuntimeModel, RuntimeState, ShutdownStep,
};
use vstd::prelude::*;

verus! {

/// One call on a runtime, by any thread.
pub enum Event {
    /// The construction of the engine ended.
    Start { engine_ready: bool },
    /// Work was handed in.
    Submit { kind: CommandKind, on_executor_thread: bool },
    /// The executor asked for its next command.
    Next,
    /// The executor reported that its command is over.
    Complete { succeeded: bool },
    /// A shutdown was asked for.
    Shutdown,
    /// A handle was cloned.
    CloneHandle,
    /// A handle was dropped.
    DropHandle,
    /// The executor thread died.
    WorkerFailed,
}

impl Event {
    /// Callers hand in closures and destructors; the release of the engine
    /// is queued by a shutdown alone.
    pub open spec fn allowed(self) -> bool {
        self matches Event::Submit { kind, .. } ==> kind != CommandKind::ReleaseEngine
    }
}

/// Every call of `events` is one that callers can make.
pub open spec fn all_allowed(events: Seq<Event>) -> bool {
    forall|i: int| 0 <= i < events.len() ==> (#[trigger] events[i]).allowed()
}

/// The runtime after the call `e`.
pub open spec fn step(m: RuntimeModel, e: Event) -> RuntimeModel {
    match e {
        Event::Start { engine_ready } => m.start(engine_ready).0,
        Event::Submit { kind, on_executor_thread } => m.accept(kind, on_executor_thread).0,
        Event::Next => m.next().0,
        Event::Complete { succeeded } => m.complete(succeeded).0,
        Event::Shutdown => m.shutdown().0,
        Event::CloneHandle => m.clone_handle().0,
        Event::DropHandle => m.drop_handle().0,
        Event::WorkerFailed => m.worker_failed().0,
    }
}

/// The command that the call `e` puts into the queue, if it puts one there.
pub open spec fn queued_by(m: RuntimeModel, e: Event) -> Seq<Command> {
    match e {
        Event::Submit { kind, on_executor_thread } => match m.accept(kind, on_executor_thread).1 {
            Ok(Admission::Queued(ticket)) => seq![Command { ticket, kind }],
            _ => Seq::empty(),
        },
        Event::Shutdown => if m.shutdown().1 == ShutdownStep::Drain {
            seq![Command { ticket: m.admitted() as u64, kind: CommandKind::ReleaseEngine }]
        } else {
            Seq::empty()
        },
        Event::DropHandle => if m.drop_handle().1 == Ok::<Option<ShutdownStep>, ObsError>(
            Some(ShutdownStep::Drain),
        ) {
            seq![Command { ticket: m.admitted() as u64, kind: CommandKind::ReleaseEngine }]
        } else {
            Seq::empty()
        },
        _ => Seq::empty(),
    }
}

/// The command that the call `e` hands to the executor, if it hands one out.
pub open spec fn started_by(m: RuntimeModel, e: Event) -> Seq<Command> {
    match e {
        Event::Next => match m.next().1 {
            Some(c) => seq![c],
            None => Seq::empty(),
        },
        _ => Seq::empty(),
    }
}

/// The runtime after the calls `events`, made one after the other.
pub open spec fn run(m: RuntimeModel, events: Seq<Event>) -> RuntimeModel
    decreases events.len(),
{
    if events.len() == 0 {
        m
    } else {
        step(run(m, events.drop_last()), events.last())
    }
}

/// The commands that the calls `events` put into the queue, in the order in
/// which the queue took them.
pub open spec fn queued_in(m: RuntimeModel, events: Seq<Event>) -> Seq<Command>
    decreases events.len(),
{
    if events.len() == 0 {
        Seq::empty()
    } else {
        queued_in(m, events.drop_last()) + queued_by(run(m, events.drop_last()), events.last())
    }
}

/// The commands that the calls `events` handed to the executor, in the order
/// in which it ran them.
pub open spec fn started_in(m: RuntimeModel, events: Seq<Event>) -> Seq<Command>
    decreases events.len(),
{
    if events.len() == 0 {
        Seq::empty()
    } else {
        started_in(m, events.drop_last()) + started_by(run(m, events.drop_last()), events.last())
    }
}

/// The engine after the commands `commands` ran on it one after the other,
/// where `apply` says what one command does to it.
pub open spec fn apply_all<S>(apply: spec_fn(S, Command) -> S, engine: S, commands: Seq<Command>) -> S
    decreases commands.len(),
{
    if commands.len() == 0 {
        engine
    } else {
        apply(apply_all(apply, engine, commands.drop_last()), commands.last())
    }
}

/// No command but the last of `commands` releases the engine.
pub open spec fn release_only_last(commands: Seq<Command>) -> bool {
    forall|i: int|
        0 <= i < commands.len() - 1 ==> (#[trigger] commands[i]).kind != CommandKind::ReleaseEngine
}

/// What one call does: it keeps the runtime well formed, never moves its
/// state back, never heals a dead worker, and moves commands only from the
/// back of the queue to its front and on to the executor.
proof fn lemma_step(m: RuntimeModel, e: Event)
    requires
        m.wf(),
        e.allowed(),
    ensures
        step(m, e).wf(),
        step(m, e).state.rank() >= m.state.rank(),
        m.poisoned ==> step(m, e).poisoned,
        !step(m, e).poisoned ==> started_by(m, e) + step(m, e).pending == m.pending + queued_by(
            m,
            e,
        ),
        m.poisoned ==> started_by(m, e).len() == 0,
        started_by(m, e).len() > 0 ==> started_by(m, e) == seq![m.pending[0]] && m.pending.len()
            > 0,
        queued_by(m, e).len() <= 1,
        queued_by(m, e).len() == 1 ==> {
            &&& m.state == RuntimeState::Running
            &&& queued_by(m, e)[0].kind == CommandKind::ReleaseEngine ==> step(m, e).state
                == RuntimeState::ShuttingDown
            &&& queued_by(m, e)[0].kind != CommandKind::ReleaseEngine ==> step(m, e).state
                == RuntimeState::Running
        },
{
    let n = step(m, e);
    match e {
        Event::Start { engine_ready } => {
            assert(n.outstanding() =~= m.outstanding());
            assert(n.pending =~= m.pending + queued_by(m, e));
        },
        Event::Submit { kind, on_executor_thread } => {
            match m.accept(kind, on_executor_thread).1 {
                Ok(Admission::Queued(ticket)) => {
                    let c = Command { ticket, kind };
                    assert(n.outstanding() =~= m.outstanding().push(c));
                    assert(n.pending =~= m.pending + seq![c]);
                },
                _ => {
                    assert(n.pending =~= m.pending + queued_by(m, e));
                },
            }
        },
        Event::Next => {
            if m.in_flight.is_none() && m.pending.len() > 0 {
                assert(n.outstanding() =~= m.outstanding());
                assert(seq![m.pending[0]] + m.pending.drop_first() =~= m.pending);
                assert(m.pending + Seq::<Command>::empty() =~= m.pending);
            } else {
                assert(Seq::<Command>::empty() + m.pending =~= m.pending + Seq::<Command>::empty());
            }
        },
        Event::Complete { succeeded } => {
            assert(Seq::<Command>::empty() + n.pending =~= m.pending + Seq::<Command>::empty());
            match m.in_flight {
                Some(c) => {
                    assert(n.outstanding() =~= m.outstanding().drop_first());
                    if c.kind == CommandKind::ReleaseEngine {
                        if m.outstanding().len() > 1 {
                            assert(m.outstanding()[0].kind != CommandKind::ReleaseEngine);
                        }
                    }
                    assert forall|i: int| 0 <= i < n.outstanding().len() implies (
                    #[trigger] n.outstanding()[i]).ticket == n.retired + i by {
                        assert(n.outstanding()[i] == m.outstanding()[i + 1]);
                    }
                    assert forall|i: int| 0 <= i < n.outstanding().len() - 1 implies (
                    #[trigger] n.outstanding()[i]).kind != CommandKind::ReleaseEngine by {
                        assert(n.outstanding()[i] == m.outstanding()[i + 1]);
                    }
                    if n.outstanding().len() > 0 {
                        assert(n.outstanding().last() == m.outstanding().last());
                    }
                },
                None => {},
            }
        },
        Event::Shutdown => {
            lemma_shutdown(m);
        },
        Event::CloneHandle => {
            assert(n.outstanding() =~= m.outstanding());
            assert(Seq::<Command>::empty() + n.pending =~= m.pending + Seq::<Command>::empty());
        },
        Event::DropHandle => {
            if m.handles == 1 {
                let h = RuntimeModel { handles: 0, ..m };
                if m.state == RuntimeState::Running {
                    assert(h.outstanding() =~= m.outstanding());
                    if !m.poisoned {
                        let c = Command {
                            ticket: m.admitted() as u64,
                            kind: CommandKind::ReleaseEngine,
                        };
                        assert(n.outstanding() =~= m.outstanding().push(c));
                        assert(n.pending =~= m.pending + seq![c]);
                    } else {
                        assert(n.outstanding() =~= m.outstanding());
                    }
                } else {
                    assert(n.outstanding() =~= m.outstanding());
                    assert(Seq::<Command>::empty() + n.pending =~= m.pending + Seq::<
                        Command,
                    >::empty());
                }
            } else {
                assert(n.outstanding() =~= m.outstanding());
                assert(Seq::<Command>::empty() + n.pending =~= m.pending + Seq::<Command>::empty());
            }
        },
        Event::WorkerFailed => {
            if m.state == RuntimeState::Uninitialized || m.state == RuntimeState::Stopped {
                assert(Seq::<Command>::empty() + n.pending =~= m.pending + Seq::<Command>::empty());
            } else {
                assert(n.outstanding() =~= Seq::<Command>::empty());
            }
        },
    }
}

/// What a request for shutdown does to a well-formed runtime.
proof fn lemma_shutdown(m: RuntimeModel)
    requires
        m.wf(),
    ensures
        m.shutdown().0.wf(),
        m.shutdown().0.state.rank() >= m.state.rank(),
        m.poisoned ==> m.shutdown().0.poisoned,
        m.shutdown().0.pending == m.pending + queued_by(m, Event::Shutdown),
        Seq::<Command>::empty() + m.shutdown().0.pending == m.pending + queued_by(
            m,
            Event::Shutdown,
        ),
{
    let n = m.shutdown().0;
    if m.state == RuntimeState::Running && !m.poisoned {
        let c = Command { ticket: m.admitted() as u64, kind: CommandKind::ReleaseEngine };
        assert(n.outstanding() =~= m.outstanding().push(c));
        assert(n.pending =~= m.pending + seq![c]);
    } else {
        assert(n.outstanding() =~= m.outstanding());
        assert(n.pending =~= m.pending + Seq::<Command>::empty());
    }
    assert(Seq::<Command>::empty() + n.pending =~= n.pending);
}

/// Every call leaves a well-formed runtime well formed.
pub proof fn lemma_run_keeps_well_formed(m: RuntimeModel, events: Seq<Event>)
    requires
        m.wf(),
        all_allowed(events),
    ensures
        run(m, events).wf(),
    decreases events.len(),
{
    if events.len() > 0 {
        lemma_run_keeps_well_formed(m, events.drop_last());
        lemma_step(run(m, events.drop_last()), events.last());
    }
}

/// The life cycle only ever moves forward: whatever calls are made, the
/// state after them is not before the state they started from.
pub proof fn lemma_state_never_moves_back(m: RuntimeModel, events: Seq<Event>)
    requires
        m.wf(),
        all_allowed(events),
    ensures
        run(m, events).state.rank() >= m.state.rank(),
    decreases events.len(),
{
    if events.len() > 0 {
        lemma_state_never_moves_back(m, events.drop_last());
        lemma_run_keeps_well_formed(m, events.drop_last());
        lemma_step(run(m, events.drop_last()), events.last());
    }
}

/// Commands run in the order in which the queue took them. Whatever calls
/// are made, by however many threads, what the executor was handed is the
/// front of what was queued; and while the worker lives, what it was handed
/// together with what still waits is all that was queued, in that order.
pub proof fn lemma_runs_in_admission_order(m: RuntimeModel, events: Seq<Event>)
    requires
        m.wf(),
        all_allowed(events),
    ensures
        started_in(m, events).is_prefix_of(m.pending + queued_in(m, events)),
        !run(m, events).poisoned ==> started_in(m, events) + run(m, events).pending == m.pending
            + queued_in(m, events),
    decreases events.len(),
{
    if events.len() == 0 {
        assert(started_in(m, events) + m.pending =~= m.pending + queued_in(m, events));
    } else {
        let before = events.drop_last();
        let e = events.last();
        let mid = run(m, before);
        let end = run(m, events);
        lemma_runs_in_admission_order(m, before);
        lemma_run_keeps_well_formed(m, before);
        lemma_step(mid, e);
        let started = started_in(m, before);
        let queued = m.pending + queued_in(m, before);
        assert(m.pending + queued_in(m, events) =~= queued + queued_by(mid, e));
        if !mid.poisoned {
            assert(started + mid.pending == queued);
            if started_by(mid, e).len() > 0 {
                assert(queued[started.len() as int] == mid.pending[0]);
            }
            if !end.poisoned {
                assert(started_in(m, events) + end.pending =~= started + (started_by(mid, e)
                    + end.pending));
                assert(queued + queued_by(mid, e) =~= started + (mid.pending + queued_by(mid, e)));
            }
        }
    }
}

/// Serializability: once the executor has been handed everything that was
/// queued, what it ran is what the queue took, in the order in which the
/// queue took it, and the engine is in the state in which running those
/// commands one after the other in that order leaves it.
pub proof fn lemma_serializable<S>(
    m: RuntimeModel,
    events: Seq<Event>,
    apply: spec_fn(S, Command) -> S,
    engine: S,
)
    requires
        m.wf(),
        all_allowed(events),
        !run(m, events).poisoned,
        run(m, events).pending.len() == 0,
    ensures
        started_in(m, events) == m.pending + queued_in(m, events),
        apply_all(apply, engine, started_in(m, events)) == apply_all(
            apply,
            engine,
            m.pending + queued_in(m, events),
        ),
{
    lemma_runs_in_admission_order(m, events);
    assert(started_in(m, events) + run(m, events).pending =~= started_in(m, events));
}

/// The release of the engine is the last command there is: whatever calls
/// are made, nothing is queued behind it, so every destructor that the
/// runtime took stands before it in the queue.
pub proof fn lemma_release_is_queued_last(m: RuntimeModel, events: Seq<Event>)
    requires
        m.wf(),
        all_allowed(events),
    ensures
        release_only_last(m.outstanding() + queued_in(m, events)),
        (m.outstanding() + queued_in(m, events)).len() > 0 && (m.outstanding() + queued_in(
            m,
            events,
        )).last().kind == CommandKind::ReleaseEngine ==> run(m, events).state.rank()
            >= RuntimeState::ShuttingDown.rank(),
    decreases events.len(),
{
    if events.len() == 0 {
        assert(m.outstanding() + queued_in(m, events) =~= m.outstanding());
    } else {
        let before = events.drop_last();
        let e = events.last();
        let mid = run(m, before);
        lemma_release_is_queued_last(m, before);
        lemma_run_keeps_well_formed(m, before);
        lemma_step(mid, e);
        let all_before = m.outstanding() + queued_in(m, before);
        let all = m.outstanding() + queued_in(m, events);
        assert(all =~= all_before + queued_by(mid, e));
        if queued_by(mid, e).len() == 1 {
            assert(all =~= all_before.push(queued_by(mid, e)[0]));
            assert forall|i: int| 0 <= i < all.len() - 1 implies (#[trigger] all[i]).kind
                != CommandKind::ReleaseEngine by {
                assert(all[i] == all_before[i]);
            }
        } else {
            assert(all =~= all_before);
        }
    }
}

/// Nothing runs after the release of the engine: whatever calls are made,
/// only the last command that the executor was handed can be the release.
/// A destructor that ran therefore ran before the engine was released.
pub proof fn lemma_nothing_runs_after_release(m: RuntimeModel, events: Seq<Event>)
    requires
        m.wf(),
        all_allowed(events),
    ensures
        release_only_last(started_in(m, events)),
{
    lemma_runs_in_admission_order(m, events);
    lemma_release_is_queued_last(m, events);
    let started = started_in(m, events);
    let queued = m.pending + queued_in(m, events);
    let all = m.outstanding() + queued_in(m, events);
    assert forall|i: int| 0 <= i < started.len() - 1 implies (#[trigger] started[i]).kind
        != CommandKind::ReleaseEngine by {
        assert(started[i] == queued[i]);
        match m.in_flight {
            Some(c) => {
                assert(all =~= seq![c] + queued);
                assert(queued[i] == all[i + 1]);
            },
            None => {
                assert(all =~= queued);
            },
        }
    }
}

/// Asking for a shutdown twice is asking for it once: the second request
/// changes nothing and never begins a second shutdown.
pub proof fn lemma_shutdown_is_idempotent(m: RuntimeModel)
    requires
        m.wf(),
    ensures
        m.shutdown().0.shutdown().0 == m.shutdown().0,
        m.shutdown().0.shutdown().1 != ShutdownStep::Drain,
{
}

/// After a request for shutdown no other thread gets work in: what it
/// submits is refused as not running, at once and without a change to the
/// runtime.
pub proof fn lemma_submit_after_shutdown_is_refused(m: RuntimeModel, kind: CommandKind)
    requires
        m.wf(),
    ensures
        m.shutdown().0.accept(kind, false) == (
            m.shutdown().0,
            Err::<Admission, ObsError>(ObsError::NotRunning),
        ),
{
    lemma_shutdown(m);
}

/// A stopped runtime refuses every submission as not running, from whatever
/// thread it comes.
pub proof fn lemma_stopped_refuses_all(m: RuntimeModel, kind: CommandKind, on_executor_thread: bool)
    requires
        m.wf(),
        m.state == RuntimeState::Stopped,
    ensures
        m.accept(kind, on_executor_thread) == (m, Err::<Admission, ObsError>(ObsError::NotRunning)),
{
    assert(m.outstanding().len() == 0);
    if m.in_flight.is_some() {
        assert(m.outstanding().len() > 0);
    }
}

/// One command at a time: the executor is handed a command only while it
/// runs none, and none again before the one it was handed is over.
pub proof fn lemma_one_command_at_a_time(m: RuntimeModel)
    requires
        m.wf(),
    ensures
        m.next().1.is_some() ==> m.in_flight.is_none() && m.next().0.in_flight == m.next().1,
        m.next().1.is_some() ==> m.next().0.next() == (m.next().0, None::<Command>),
{
}

/// A completion is written once: after a command was reported over, a second
/// report finds no command and is refused.
pub proof fn lemma_completion_is_written_once(m: RuntimeModel, first: bool, second: bool)
    requires
        m.wf(),
    ensures
        m.complete(first).0.complete(second) == (
            m.complete(first).0,
            Err::<Completion, ObsError>(ObsError::InvalidOperation),
        ),
{
}

/// The runtime after the executor has run everything that is outstanding,
/// one command after the other.
pub open spec fn drained(m: RuntimeModel) -> RuntimeModel
    decreases m.outstanding().len(),
{
    if m.in_flight.is_some() {
        drained(m.complete(true).0)
    } else if m.pending.len() > 0 {
        drained(m.next().0.complete(true).0)
    } else {
        m
    }
}

/// A shutdown always completes: once it was asked for and the executor has
/// run what was outstanding, the runtime is stopped and holds no command,
/// and asking again finds it so.
pub proof fn lemma_shutdown_completes(m: RuntimeModel)
    requires
        m.wf(),
        m.state == RuntimeState::Running || m.state == RuntimeState::ShuttingDown,
    ensures
        drained(m.shutdown().0).wf(),
        drained(m.shutdown().0).state == RuntimeState::Stopped,
        drained(m.shutdown().0).outstanding().len() == 0,
        drained(m.shutdown().0).shutdown() == (drained(m.shutdown().0), ShutdownStep::Done),
{
    lemma_shutdown(m);
    lemma_drained(m.shutdown().0);
}

/// Draining a runtime that is shutting down or stopped stops it.
proof fn lemma_drained(m: RuntimeModel)
    requires
        m.wf(),
        m.state == RuntimeState::ShuttingDown || m.state == RuntimeState::Stopped,
    ensures
        drained(m).wf(),
        drained(m).state == RuntimeState::Stopped,
        drained(m).outstanding().len() == 0,
    decreases m.outstanding().len(),
{
    if m.in_flight.is_some() {
        let n = m.complete(true).0;
        lemma_step(m, Event::Complete { succeeded: true });
        assert(n.outstanding() =~= m.outstanding().drop_first());
        lemma_drained(n);
    } else if m.pending.len() > 0 {
        let mid = m.next().0;
        lemma_step(m, Event::Next);
        assert(mid.outstanding() =~= m.outstanding());
        let n = mid.complete(true).0;
        lemma_step(mid, Event::Complete { succeeded: true });
        assert(n.outstanding() =~= mid.outstanding().drop_first());
        lemma_drained(n);
    } else {
    }
}

} // verus!
