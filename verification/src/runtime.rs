//! The executor's state machine.
//!
//! One dedicated thread owns the native engine. Every other thread hands it
//! commands, and the executor runs them one at a time in the order in which
//! they were admitted. This module holds the decisions of that design: who is
//! admitted and when, which command runs next, what a shutdown does and in
//! which order things are torn down. The thread and the channel that carry
//! those decisions out belong to the caller: it feeds the events in and
//! performs what comes back.
//!
//! A command whose body fails is completed with [`ObsError::ExecutionFailed`]
//! and fails alone: the executor goes on with the next command. Only the
//! death of the executor thread itself poisons the runtime.

pub mod trace;

use crate::error::ObsError;
use crate::handle::SafeHandle;
use std::collections::VecDeque;
use vstd::prelude::*;

verus! {

/// The life cycle of a runtime. It only ever moves forward.
#[derive(Clone, Copy, Debug, PartialEq, Eq, Structural)]
pub enum RuntimeState {
    /// The engine has not been constructed yet.
    Uninitialized,
    /// The executor accepts and runs commands.
    Running,
    /// No new command is accepted; what is queued still runs.
    ShuttingDown,
    /// The queue is drained, the engine released, the thread joined.
    Stopped,
}

impl RuntimeState {
    /// How far along its life cycle a runtime in this state is.
    pub open spec fn rank(self) -> nat {
        match self {
            RuntimeState::Uninitialized => 0,
            RuntimeState::Running => 1,
            RuntimeState::ShuttingDown => 2,
            RuntimeState::Stopped => 3,
        }
    }
}

/// What a command does.
#[derive(Clone, Copy, Debug, PartialEq, Eq, Structural)]
pub enum CommandKind {
    /// It runs a closure of the caller against the engine.
    Execute,
    /// It destroys the native object behind the handle.
    Destroy(SafeHandle),
    /// It releases the engine: the last command a runtime ever runs.
    ReleaseEngine,
}

/// A unit of work in the executor's queue.
#[derive(Clone, Copy, Debug, PartialEq, Eq, Structural)]
pub struct Command {
    /// The number under which the command was admitted.
    pub ticket: u64,
    /// What the command does.
    pub kind: CommandKind,
}

/// What became of work that was handed to the runtime.
#[derive(Clone, Copy, Debug, PartialEq, Eq, Structural)]
pub enum Admission {
    /// The work was queued under this ticket; the caller waits for its
    /// completion.
    Queued(u64),
    /// The caller is the executor thread, in the middle of a command: the
    /// work is to be run at once, in place.
    InPlace,
}

/// What the caller of a shutdown has to do next.
#[derive(Clone, Copy, Debug, PartialEq, Eq, Structural)]
pub enum ShutdownStep {
    /// The runtime was never started: there is nothing to shut down.
    NotStarted,
    /// This call began the shutdown: let the executor run what is queued,
    /// the release of the engine last, and join its thread.
    Drain,
    /// A shutdown is already under way: wait for it to finish.
    Wait,
    /// The runtime is stopped: return at once.
    Done,
}

/// The completion of a command: written once, when the command has run.
#[derive(Clone, Copy, Debug, PartialEq, Eq, Structural)]
pub struct Completion {
    /// The command that ran.
    pub command: Command,
    /// `None` where its body ran through, the error where it failed.
    pub error: Option<ObsError>,
}

/// The number of tickets a runtime can hand out in its life.
pub open spec fn ticket_limit() -> nat {
    u64::MAX as nat
}

/// The runtime as the contracts see it.
pub struct RuntimeModel {
    /// Where the runtime is in its life cycle.
    pub state: RuntimeState,
    /// Whether the executor thread died.
    pub poisoned: bool,
    /// The commands that wait, the next one first.
    pub pending: Seq<Command>,
    /// The command that the executor is running.
    pub in_flight: Option<Command>,
    /// How many commands are over: completed, or given up with the worker.
    pub retired: nat,
    /// How many handles on the runtime are alive.
    pub handles: nat,
}

impl RuntimeModel {
    /// A runtime before its engine is constructed.
    pub open spec fn initial() -> RuntimeModel {
        RuntimeModel {
            state: RuntimeState::Uninitialized,
            poisoned: false,
            pending: Seq::empty(),
            in_flight: None,
            retired: 0,
            handles: 0,
        }
    }

    /// The commands that are not over yet, in the order in which they run.
    pub open spec fn outstanding(self) -> Seq<Command> {
        match self.in_flight {
            Some(c) => seq![c] + self.pending,
            None => self.pending,
        }
    }

    /// How many commands were admitted so far.
    pub open spec fn admitted(self) -> nat {
        self.retired + self.outstanding().len()
    }

    /// What holds of every runtime: tickets count up along the queue, the
    /// release of the engine is the last command there is, and the queue fits
    /// the state.
    pub open spec fn wf(self) -> bool {
        &&& self.admitted() <= ticket_limit()
        &&& forall|i: int|
            0 <= i < self.outstanding().len() ==> (#[trigger] self.outstanding()[i]).ticket
                == self.retired + i
        &&& forall|i: int|
            0 <= i < self.outstanding().len() - 1 ==> (#[trigger] self.outstanding()[i]).kind
                != CommandKind::ReleaseEngine
        &&& self.poisoned ==> self.outstanding().len() == 0
        &&& match self.state {
            RuntimeState::Uninitialized => {
                &&& self.outstanding().len() == 0
                &&& self.retired == 0
                &&& self.handles == 0
                &&& !self.poisoned
            },
            RuntimeState::Running => {
                &&& self.handles >= 1
                &&& self.admitted() < ticket_limit()
                &&& self.outstanding().len() > 0 ==> self.outstanding().last().kind
                    != CommandKind::ReleaseEngine
            },
            RuntimeState::ShuttingDown => {
                &&& self.outstanding().len() > 0
                &&& self.outstanding().last().kind == CommandKind::ReleaseEngine
            },
            RuntimeState::Stopped => self.outstanding().len() == 0,
        }
    }

    /// The engine was constructed, or failed to be.
    pub open spec fn start(self, engine_ready: bool) -> (RuntimeModel, Result<(), ObsError>) {
        if self.state != RuntimeState::Uninitialized {
            (self, Err(ObsError::InvalidOperation))
        } else if !engine_ready {
            (self, Err(ObsError::NullHandle))
        } else {
            (RuntimeModel { state: RuntimeState::Running, handles: 1, ..self }, Ok(()))
        }
    }

    /// Work of kind `kind` is handed in, by the executor thread itself or by
    /// another thread.
    pub open spec fn accept(self, kind: CommandKind, on_executor_thread: bool) -> (
        RuntimeModel,
        Result<Admission, ObsError>,
    ) {
        if on_executor_thread && self.in_flight.is_some() {
            (self, Ok(Admission::InPlace))
        } else if self.state != RuntimeState::Running {
            (self, Err(ObsError::NotRunning))
        } else if self.poisoned {
            (self, Err(ObsError::WorkerFailed))
        } else if self.admitted() + 1 >= ticket_limit() {
            (self, Err(ObsError::InvalidOperation))
        } else {
            let ticket = self.admitted() as u64;
            (
                RuntimeModel { pending: self.pending.push(Command { ticket, kind }), ..self },
                Ok(Admission::Queued(ticket)),
            )
        }
    }

    /// The executor asks for its next command.
    pub open spec fn next(self) -> (RuntimeModel, Option<Command>) {
        if self.in_flight.is_some() || self.pending.len() == 0 {
            (self, None)
        } else {
            (
                RuntimeModel {
                    in_flight: Some(self.pending[0]),
                    pending: self.pending.drop_first(),
                    ..self
                },
                Some(self.pending[0]),
            )
        }
    }

    /// The executor reports that the command it was running is over.
    pub open spec fn complete(self, succeeded: bool) -> (
        RuntimeModel,
        Result<Completion, ObsError>,
    ) {
        match self.in_flight {
            None => (self, Err(ObsError::InvalidOperation)),
            Some(command) => (
                RuntimeModel {
                    in_flight: None,
                    retired: self.retired + 1,
                    state: if command.kind == CommandKind::ReleaseEngine {
                        RuntimeState::Stopped
                    } else {
                        self.state
                    },
                    ..self
                },
                Ok(
                    Completion {
                        command,
                        error: if succeeded {
                            None
                        } else {
                            Some(ObsError::ExecutionFailed)
                        },
                    },
                ),
            ),
        }
    }

    /// A shutdown is asked for.
    pub open spec fn shutdown(self) -> (RuntimeModel, ShutdownStep) {
        match self.state {
            RuntimeState::Uninitialized => (self, ShutdownStep::NotStarted),
            RuntimeState::Running => if self.poisoned {
                (RuntimeModel { state: RuntimeState::Stopped, ..self }, ShutdownStep::Done)
            } else {
                (
                    RuntimeModel {
                        state: RuntimeState::ShuttingDown,
                        pending: self.pending.push(
                            Command {
                                ticket: self.admitted() as u64,
                                kind: CommandKind::ReleaseEngine,
                            },
                        ),
                        ..self
                    },
                    ShutdownStep::Drain,
                )
            },
            RuntimeState::ShuttingDown => (self, ShutdownStep::Wait),
            RuntimeState::Stopped => (self, ShutdownStep::Done),
        }
    }

    /// A handle on the runtime is cloned.
    pub open spec fn clone_handle(self) -> (RuntimeModel, Result<(), ObsError>) {
        if self.handles == 0 || self.handles >= u64::MAX {
            (self, Err(ObsError::InvalidOperation))
        } else {
            (RuntimeModel { handles: self.handles + 1, ..self }, Ok(()))
        }
    }

    /// A handle on the runtime is dropped. Dropping the last one shuts the
    /// runtime down.
    pub open spec fn drop_handle(self) -> (RuntimeModel, Result<Option<ShutdownStep>, ObsError>) {
        if self.handles == 0 {
            (self, Err(ObsError::InvalidOperation))
        } else if self.handles > 1 {
            (RuntimeModel { handles: (self.handles - 1) as nat, ..self }, Ok(None))
        } else {
            let last = RuntimeModel { handles: 0, ..self }.shutdown();
            (last.0, Ok(Some(last.1)))
        }
    }

    /// The executor thread died. What it was running and what waited will
    /// never run.
    pub open spec fn worker_failed(self) -> (RuntimeModel, Seq<Command>) {
        match self.state {
            RuntimeState::Uninitialized => (self, Seq::empty()),
            RuntimeState::Stopped => (self, Seq::empty()),
            RuntimeState::Running => (
                RuntimeModel {
                    poisoned: true,
                    in_flight: None,
                    pending: Seq::empty(),
                    retired: self.admitted(),
                    ..self
                },
                self.outstanding(),
            ),
            RuntimeState::ShuttingDown => (
                RuntimeModel {
                    state: RuntimeState::Stopped,
                    poisoned: true,
                    in_flight: None,
                    pending: Seq::empty(),
                    retired: self.admitted(),
                    ..self
                },
                self.outstanding(),
            ),
        }
    }
}

/// The state of one runtime: its life cycle, its queue and its handles.
pub struct Runtime {
    state: RuntimeState,
    poisoned: bool,
    pending: VecDeque<Command>,
    in_flight: Option<Command>,
    retired: u64,
    handles: u64,
}

impl View for Runtime {
    type V = RuntimeModel;

    closed spec fn view(&self) -> RuntimeModel {
        RuntimeModel {
            state: self.state,
            poisoned: self.poisoned,
            pending: self.pending@,
            in_flight: self.in_flight,
            retired: self.retired as nat,
            handles: self.handles as nat,
        }
    }
}

impl Runtime {
    /// What holds of every runtime (see [`RuntimeModel::wf`]).
    pub open spec fn wf(&self) -> bool {
        self@.wf()
    }

    /// A runtime whose engine is not constructed yet.
    pub fn new() -> (rt: Runtime)
        ensures
            rt@ == RuntimeModel::initial(),
            rt.wf(),
    {
        Runtime {
            state: RuntimeState::Uninitialized,
            poisoned: false,
            pending: VecDeque::new(),
            in_flight: None,
            retired: 0,
            handles: 0,
        }
    }

    /// Where the runtime is in its life cycle.
    pub fn state(&self) -> (s: RuntimeState)
        ensures
            s == self@.state,
    {
        self.state
    }

    /// Whether the executor thread died.
    pub fn is_poisoned(&self) -> (p: bool)
        ensures
            p == self@.poisoned,
    {
        self.poisoned
    }

    /// How many commands wait in the queue.
    pub fn pending_len(&self) -> (n: usize)
        ensures
            n == self@.pending.len(),
    {
        self.pending.len()
    }

    /// The command that the executor is running.
    pub fn in_flight(&self) -> (c: Option<Command>)
        ensures
            c == self@.in_flight,
    {
        self.in_flight
    }

    /// How many handles on the runtime are alive.
    pub fn handles(&self) -> (n: u64)
        ensures
            n == self@.handles,
    {
        self.handles
    }

    /// How many commands were admitted so far.
    fn admitted(&self) -> (n: u64)
        requires
            self.wf(),
        ensures
            n == self@.admitted(),
    {
        let in_flight: u64 = if self.in_flight.is_some() {
            1
        } else {
            0
        };
        self.retired + in_flight + self.pending.len() as u64
    }

    /// Records how the construction of the engine ended. A runtime starts
    /// once: it runs from a successful construction on, with one handle.
    pub fn start(&mut self, engine_ready: bool) -> (r: Result<(), ObsError>)
        requires
            old(self).wf(),
        ensures
            final(self).wf(),
            final(self)@ == old(self)@.start(engine_ready).0,
            r == old(self)@.start(engine_ready).1,
    {
        if self.state != RuntimeState::Uninitialized {
            return Err(ObsError::InvalidOperation);
        }
        if !engine_ready {
            return Err(ObsError::NullHandle);
        }
        self.state = RuntimeState::Running;
        self.handles = 1;
        Ok(())
    }

    fn accept(&mut self, kind: CommandKind, on_executor_thread: bool) -> (r: Result<
        Admission,
        ObsError,
    >)
        requires
            old(self).wf(),
            kind != CommandKind::ReleaseEngine,
        ensures
            final(self).wf(),
            final(self)@ == old(self)@.accept(kind, on_executor_thread).0,
            r == old(self)@.accept(kind, on_executor_thread).1,
    {
        if on_executor_thread && self.in_flight.is_some() {
            return Ok(Admission::InPlace);
        }
        if self.state != RuntimeState::Running {
            return Err(ObsError::NotRunning);
        }
        if self.poisoned {
            return Err(ObsError::WorkerFailed);
        }
        let ticket = self.admitted();
        if ticket >= u64::MAX - 1 {
            return Err(ObsError::InvalidOperation);
        }
        let ghost before = self@;
        self.pending.push_back(Command { ticket, kind });
        proof {
            let after = self@;
            assert(after.outstanding() =~= before.outstanding().push(Command { ticket, kind }));
        }
        Ok(Admission::Queued(ticket))
    }

    /// Hands a closure to the executor. While the runtime runs, the closure
    /// is queued behind everything admitted before it. From the executor
    /// thread itself, in the middle of a command, it is to be run in place
    /// instead, as queueing would have the thread wait for itself.
    pub fn submit(&mut self, on_executor_thread: bool) -> (r: Result<Admission, ObsError>)
        requires
            old(self).wf(),
        ensures
            final(self).wf(),
            final(self)@ == old(self)@.accept(CommandKind::Execute, on_executor_thread).0,
            r == old(self)@.accept(CommandKind::Execute, on_executor_thread).1,
    {
        self.accept(CommandKind::Execute, on_executor_thread)
    }

    /// Hands in the destructor of the native object behind `resource`, under
    /// the rules of [`Runtime::submit`]. Where the runtime no longer runs the
    /// destructor is refused and the object is abandoned.
    pub fn release_resource(&mut self, resource: SafeHandle, on_executor_thread: bool) -> (r:
        Result<Admission, ObsError>)
        requires
            old(self).wf(),
        ensures
            final(self).wf(),
            final(self)@ == old(self)@.accept(CommandKind::Destroy(resource), on_executor_thread).0,
            r == old(self)@.accept(CommandKind::Destroy(resource), on_executor_thread).1,
    {
        self.accept(CommandKind::Destroy(resource), on_executor_thread)
    }

    /// Gives the executor its next command: the one that was admitted first
    /// among those that wait. There is none while a command is still running
    /// or while nothing waits.
    pub fn next_command(&mut self) -> (c: Option<Command>)
        requires
            old(self).wf(),
        ensures
            final(self).wf(),
            final(self)@ == old(self)@.next().0,
            c == old(self)@.next().1,
    {
        if self.in_flight.is_some() {
            return None;
        }
        let ghost before = self@;
        let next = self.pending.pop_front();
        match next {
            Some(command) => {
                self.in_flight = Some(command);
                proof {
                    assert(self@.pending =~= before.pending.drop_first());
                    assert(self@.outstanding() =~= before.outstanding());
                }
                Some(command)
            },
            None => None,
        }
    }

    /// Records that the command the executor was running is over, and hands
    /// back what goes into its completion slot. Once the release of the
    /// engine is over, the runtime is stopped, whether the release failed or
    /// not.
    pub fn complete(&mut self, succeeded: bool) -> (r: Result<Completion, ObsError>)
        requires
            old(self).wf(),
        ensures
            final(self).wf(),
            final(self)@ == old(self)@.complete(succeeded).0,
            r == old(self)@.complete(succeeded).1,
    {
        match self.in_flight {
            None => Err(ObsError::InvalidOperation),
            Some(command) => {
                let ghost before = self@;
                self.in_flight = None;
                self.retired = self.retired + 1;
                if command.kind == CommandKind::ReleaseEngine {
                    assert(before.outstanding().len() == 1) by {
                        if before.outstanding().len() > 1 {
                            assert(before.outstanding()[0].kind != CommandKind::ReleaseEngine);
                        }
                    }
                    self.state = RuntimeState::Stopped;
                }
                proof {
                    let after = self@;
                    assert(after.outstanding() =~= before.outstanding().drop_first());
                    assert forall|i: int| 0 <= i < after.outstanding().len() implies (
                    #[trigger] after.outstanding()[i]).ticket == after.retired + i by {
                        assert(after.outstanding()[i] == before.outstanding()[i + 1]);
                    }
                    assert forall|i: int| 0 <= i < after.outstanding().len() - 1 implies (
                    #[trigger] after.outstanding()[i]).kind != CommandKind::ReleaseEngine by {
                        assert(after.outstanding()[i] == before.outstanding()[i + 1]);
                    }
                    if after.outstanding().len() > 0 {
                        assert(after.outstanding().last() == before.outstanding().last());
                    }
                }
                let error = if succeeded {
                    None
                } else {
                    Some(ObsError::ExecutionFailed)
                };
                Ok(Completion { command, error })
            },
        }
    }

    /// Asks for the shutdown of the runtime. The first call on a running
    /// runtime closes it to new work and queues the release of the engine
    /// behind everything that was admitted. Every later call changes nothing.
    pub fn shutdown(&mut self) -> (step: ShutdownStep)
        requires
            old(self).wf(),
        ensures
            final(self).wf(),
            final(self)@ == old(self)@.shutdown().0,
            step == old(self)@.shutdown().1,
    {
        match self.state {
            RuntimeState::Uninitialized => ShutdownStep::NotStarted,
            RuntimeState::Running => {
                if self.poisoned {
                    self.state = RuntimeState::Stopped;
                    ShutdownStep::Done
                } else {
                    let ticket = self.admitted();
                    let ghost before = self@;
                    let release = Command { ticket, kind: CommandKind::ReleaseEngine };
                    self.pending.push_back(release);
                    self.state = RuntimeState::ShuttingDown;
                    proof {
                        assert(self@.outstanding() =~= before.outstanding().push(release));
                    }
                    ShutdownStep::Drain
                }
            },
            RuntimeState::ShuttingDown => ShutdownStep::Wait,
            RuntimeState::Stopped => ShutdownStep::Done,
        }
    }

    /// Records that a handle on the runtime was cloned. Cloning adds a
    /// handle, never an executor.
    pub fn clone_handle(&mut self) -> (r: Result<(), ObsError>)
        requires
            old(self).wf(),
        ensures
            final(self).wf(),
            final(self)@ == old(self)@.clone_handle().0,
            r == old(self)@.clone_handle().1,
    {
        if self.handles == 0 || self.handles == u64::MAX {
            return Err(ObsError::InvalidOperation);
        }
        self.handles = self.handles + 1;
        Ok(())
    }

    /// Records that a handle on the runtime was dropped. With the last
    /// handle the runtime shuts down as if [`Runtime::shutdown`] had been
    /// called.
    pub fn drop_handle(&mut self) -> (r: Result<Option<ShutdownStep>, ObsError>)
        requires
            old(self).wf(),
        ensures
            final(self).wf(),
            final(self)@ == old(self)@.drop_handle().0,
            r == old(self)@.drop_handle().1,
    {
        if self.handles == 0 {
            return Err(ObsError::InvalidOperation);
        }
        if self.handles > 1 {
            self.handles = self.handles - 1;
            return Ok(None);
        }
        let step = self.shutdown();
        self.handles = 0;
        Ok(Some(step))
    }

    /// Records that the executor thread died, and hands back the commands
    /// that will never run, in the order in which they were admitted: each
    /// is to be completed with [`ObsError::WorkerFailed`].
    pub fn worker_failed(&mut self) -> (lost: Vec<Command>)
        requires
            old(self).wf(),
        ensures
            final(self).wf(),
            final(self)@ == old(self)@.worker_failed().0,
            lost@ == old(self)@.worker_failed().1,
    {
        let mut lost: Vec<Command> = Vec::new();
        match self.state {
            RuntimeState::Uninitialized => {
                return lost;
            },
            RuntimeState::Stopped => {
                return lost;
            },
            _ => {},
        }
        let total = self.admitted();
        let ghost before = self@;
        match self.in_flight {
            Some(command) => {
                lost.push(command);
            },
            None => {},
        }
        self.in_flight = None;
        while self.pending.len() > 0
            invariant
                lost@ + self.pending@ == before.outstanding(),
                before.wf(),
                total == before.admitted(),
                self.state == before.state,
                self.handles == before.handles,
                self.in_flight.is_none(),
            decreases self.pending.len(),
        {
            let ghost queue = self.pending@;
            let ghost gone = lost@;
            match self.pending.pop_front() {
                Some(command) => {
                    lost.push(command);
                    proof {
                        assert(lost@ + self.pending@ =~= gone + queue);
                    }
                },
                None => {},
            }
        }
        proof {
            assert(lost@ =~= lost@ + self.pending@);
            assert(self.pending@ =~= Seq::<Command>::empty());
        }
        self.poisoned = true;
        self.retired = total;
        if self.state == RuntimeState::ShuttingDown {
            self.state = RuntimeState::Stopped;
        }
        lost
    }
}

} // verus!
