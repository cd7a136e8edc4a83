use libobs_wrapper::error::ObsError;
use libobs_wrapper::handle::SafeHandle;
use libobs_wrapper::runtime::{
    Admission, Command, CommandKind, Completion, Runtime, RuntimeState, ShutdownStep,
};
use std::collections::HashMap;

/// The engine of these tests: a counter and a record of what ran on it.
struct Engine {
    counter: u64,
    log: Vec<u64>,
    destroyed: Vec<SafeHandle>,
    released: bool,
}

type Work = Box<dyn FnOnce(&mut Engine) -> u64 + Send>;

/// A runtime together with what the executor thread would hold: the engine,
/// the closures that wait, and the completion slots.
struct Harness {
    runtime: Runtime,
    engine: Engine,
    waiting: HashMap<u64, Work>,
    slots: HashMap<u64, Result<u64, ObsError>>,
}

fn harness() -> Harness {
    let mut runtime = Runtime::new();
    assert_eq!(runtime.start(true), Ok(()));
    Harness {
        runtime,
        engine: Engine { counter: 0, log: Vec::new(), destroyed: Vec::new(), released: false },
        waiting: HashMap::new(),
        slots: HashMap::new(),
    }
}

fn submit(h: &mut Harness, work: Work) -> Result<u64, ObsError> {
    match h.runtime.submit(false)? {
        Admission::Queued(ticket) => {
            h.waiting.insert(ticket, work);
            Ok(ticket)
        }
        Admission::InPlace => unreachable!(),
    }
}

/// One turn of the executor: runs the next command, if there is one.
fn turn(h: &mut Harness) -> bool {
    let command = match h.runtime.next_command() {
        Some(command) => command,
        None => return false,
    };
    let value = match command.kind {
        CommandKind::Execute => {
            let work = h.waiting.remove(&command.ticket).unwrap();
            assert!(!h.engine.released);
            work(&mut h.engine)
        }
        CommandKind::Destroy(handle) => {
            assert!(!h.engine.released);
            h.engine.destroyed.push(handle);
            0
        }
        CommandKind::ReleaseEngine => {
            h.engine.released = true;
            0
        }
    };
    h.engine.log.push(command.ticket);
    let completion = h.runtime.complete(true).unwrap();
    assert_eq!(completion, Completion { command, error: None });
    h.slots.insert(command.ticket, Ok(value));
    true
}

fn drain(h: &mut Harness) {
    while turn(h) {}
}

/// Submits and waits, as a caller on another thread would.
fn call(h: &mut Harness, work: Work) -> Result<u64, ObsError> {
    let ticket = submit(h, work)?;
    drain(h);
    h.slots.remove(&ticket).unwrap()
}

fn shutdown(h: &mut Harness) -> Result<(), ObsError> {
    match h.runtime.shutdown() {
        ShutdownStep::Drain => drain(h),
        ShutdownStep::Wait => drain(h),
        ShutdownStep::Done => {}
        ShutdownStep::NotStarted => {}
    }
    Ok(())
}

#[test]
fn a_runtime_starts_and_stops_with_its_last_handle() {
    let mut runtime = Runtime::new();
    assert_eq!(runtime.state(), RuntimeState::Uninitialized);
    assert_eq!(runtime.start(true), Ok(()));
    assert_eq!(runtime.state(), RuntimeState::Running);
    assert_eq!(runtime.handles(), 1);
    // The context goes out of scope: its one handle is dropped.
    assert_eq!(runtime.drop_handle(), Ok(Some(ShutdownStep::Drain)));
    assert_eq!(runtime.state(), RuntimeState::ShuttingDown);
    let release = runtime.next_command().unwrap();
    assert_eq!(release, Command { ticket: 0, kind: CommandKind::ReleaseEngine });
    assert!(runtime.complete(true).is_ok());
    assert_eq!(runtime.state(), RuntimeState::Stopped);
    assert_eq!(runtime.pending_len(), 0);
}

#[test]
fn submit_returns_the_closures_value() {
    let mut h = harness();
    assert_eq!(call(&mut h, Box::new(|_| 42)), Ok(42));
}

#[test]
fn submit_after_shutdown_is_not_running() {
    let mut h = harness();
    assert_eq!(shutdown(&mut h), Ok(()));
    assert_eq!(h.runtime.state(), RuntimeState::Stopped);
    assert_eq!(call(&mut h, Box::new(|_| 1)), Err(ObsError::NotRunning));
    assert_eq!(h.runtime.submit(false), Err(ObsError::NotRunning));
    assert_eq!(h.runtime.submit(true), Err(ObsError::NotRunning));
    assert_eq!(h.runtime.pending_len(), 0);
}

#[test]
fn a_hundred_callers_increment_the_counter() {
    // A hundred callers. Their submissions arrive while the executor is at
    // work: some before it takes its next command, some after.
    let mut h = harness();
    let mut tickets = Vec::new();
    for caller in 0..100u64 {
        tickets.push(submit(&mut h, Box::new(|engine| {
            engine.counter += 1;
            engine.counter
        })).unwrap());
        if caller % 7 == 3 {
            assert!(turn(&mut h));
        }
    }
    drain(&mut h);
    for ticket in tickets {
        assert!(h.slots[&ticket].is_ok());
    }
    assert_eq!(call(&mut h, Box::new(|engine| engine.counter)), Ok(100));
}

#[test]
fn commands_run_in_the_order_of_their_admission() {
    let mut h = harness();
    let mut tickets = Vec::new();
    for i in 0..10u64 {
        tickets.push(submit(&mut h, Box::new(move |engine| {
            engine.counter = engine.counter * 3 + i;
            engine.counter
        })).unwrap());
    }
    assert_eq!(tickets, (0..10).collect::<Vec<u64>>());
    drain(&mut h);
    assert_eq!(h.engine.log, tickets);
    // The same commands, one after the other, in that order.
    let mut expected = 0u64;
    for i in 0..10u64 {
        expected = expected * 3 + i;
    }
    assert_eq!(h.engine.counter, expected);
    assert_eq!(h.slots[&9], Ok(expected));
}

#[test]
fn submissions_between_turns_keep_their_order() {
    let mut h = harness();
    let a = submit(&mut h, Box::new(|e| { e.counter += 1; e.counter })).unwrap();
    let b = submit(&mut h, Box::new(|e| { e.counter *= 10; e.counter })).unwrap();
    assert!(turn(&mut h));
    let c = submit(&mut h, Box::new(|e| { e.counter += 5; e.counter })).unwrap();
    drain(&mut h);
    assert_eq!(h.engine.log, vec![a, b, c]);
    assert_eq!(h.engine.counter, 15);
}

#[test]
fn one_command_at_a_time() {
    let mut runtime = Runtime::new();
    runtime.start(true).unwrap();
    assert_eq!(runtime.submit(false), Ok(Admission::Queued(0)));
    assert_eq!(runtime.submit(false), Ok(Admission::Queued(1)));
    assert_eq!(runtime.next_command(), Some(Command { ticket: 0, kind: CommandKind::Execute }));
    assert_eq!(runtime.in_flight(), Some(Command { ticket: 0, kind: CommandKind::Execute }));
    assert_eq!(runtime.next_command(), None);
    assert_eq!(runtime.pending_len(), 1);
    assert!(runtime.complete(true).is_ok());
    assert_eq!(runtime.in_flight(), None);
    assert_eq!(runtime.next_command(), Some(Command { ticket: 1, kind: CommandKind::Execute }));
}

#[test]
fn a_completion_is_written_once() {
    let mut runtime = Runtime::new();
    runtime.start(true).unwrap();
    assert_eq!(runtime.complete(true), Err(ObsError::InvalidOperation));
    runtime.submit(false).unwrap();
    let command = runtime.next_command().unwrap();
    assert_eq!(runtime.complete(true), Ok(Completion { command, error: None }));
    assert_eq!(runtime.complete(true), Err(ObsError::InvalidOperation));
}

#[test]
fn a_failing_command_fails_alone() {
    let mut runtime = Runtime::new();
    runtime.start(true).unwrap();
    runtime.submit(false).unwrap();
    runtime.submit(false).unwrap();
    let first = runtime.next_command().unwrap();
    assert_eq!(
        runtime.complete(false),
        Ok(Completion { command: first, error: Some(ObsError::ExecutionFailed) })
    );
    assert!(!runtime.is_poisoned());
    assert_eq!(runtime.state(), RuntimeState::Running);
    let second = runtime.next_command().unwrap();
    assert_eq!(runtime.complete(true), Ok(Completion { command: second, error: None }));
    assert_eq!(runtime.submit(false), Ok(Admission::Queued(2)));
}

#[test]
fn submit_before_start_is_not_running() {
    let mut runtime = Runtime::new();
    assert_eq!(runtime.submit(false), Err(ObsError::NotRunning));
    assert_eq!(runtime.release_resource(SafeHandle::new(8), false), Err(ObsError::NotRunning));
    assert_eq!(runtime.next_command(), None);
}

#[test]
fn an_engine_that_was_not_constructed_leaves_the_runtime_unstarted() {
    let mut runtime = Runtime::new();
    assert_eq!(runtime.start(false), Err(ObsError::NullHandle));
    assert_eq!(runtime.state(), RuntimeState::Uninitialized);
    assert_eq!(runtime.start(true), Ok(()));
    assert_eq!(runtime.start(true), Err(ObsError::InvalidOperation));
    assert_eq!(runtime.state(), RuntimeState::Running);
}

#[test]
fn shutdown_twice_is_shutdown_once() {
    let mut h = harness();
    submit(&mut h, Box::new(|e| { e.counter += 1; 0 })).unwrap();
    assert_eq!(h.runtime.shutdown(), ShutdownStep::Drain);
    assert_eq!(h.runtime.pending_len(), 2);
    assert_eq!(h.runtime.shutdown(), ShutdownStep::Wait);
    assert_eq!(h.runtime.pending_len(), 2);
    drain(&mut h);
    assert_eq!(h.runtime.state(), RuntimeState::Stopped);
    assert_eq!(h.runtime.shutdown(), ShutdownStep::Done);
    assert_eq!(h.runtime.shutdown(), ShutdownStep::Done);
    assert_eq!(h.runtime.state(), RuntimeState::Stopped);
    // The engine was released once: one release command ran, the last one.
    assert_eq!(h.engine.log, vec![0, 1]);
    assert!(h.engine.released);
    assert_eq!(h.engine.counter, 1);
}

#[test]
fn shutdown_of_a_runtime_that_never_started() {
    let mut runtime = Runtime::new();
    assert_eq!(runtime.shutdown(), ShutdownStep::NotStarted);
    assert_eq!(runtime.state(), RuntimeState::Uninitialized);
    assert_eq!(runtime.submit(false), Err(ObsError::NotRunning));
}

#[test]
fn what_is_queued_still_runs_during_shutdown() {
    let mut h = harness();
    for _ in 0..3 {
        submit(&mut h, Box::new(|e| { e.counter += 1; e.counter })).unwrap();
    }
    assert_eq!(h.runtime.shutdown(), ShutdownStep::Drain);
    assert_eq!(h.runtime.submit(false), Err(ObsError::NotRunning));
    drain(&mut h);
    assert_eq!(h.engine.counter, 3);
    assert_eq!(h.engine.log, vec![0, 1, 2, 3]);
    assert!(h.engine.released);
}

#[test]
fn destructors_run_before_the_engine_is_released() {
    for order in [[1usize, 2, 3], [3, 2, 1], [2, 3, 1]] {
        let mut h = harness();
        for n in order {
            let r = h.runtime.release_resource(SafeHandle::new(n * 16), false);
            assert!(matches!(r, Ok(Admission::Queued(_))));
        }
        assert_eq!(h.runtime.shutdown(), ShutdownStep::Drain);
        // `turn` checks, for every destructor, that the engine is not released yet.
        drain(&mut h);
        let expected: Vec<SafeHandle> = order.iter().map(|n| SafeHandle::new(n * 16)).collect();
        assert_eq!(h.engine.destroyed, expected);
        assert!(h.engine.released);
        assert_eq!(*h.engine.log.last().unwrap(), 3);
    }
}

#[test]
fn a_leaked_resource_is_abandoned_after_shutdown() {
    let mut h = harness();
    shutdown(&mut h).unwrap();
    assert_eq!(
        h.runtime.release_resource(SafeHandle::new(0x80), false),
        Err(ObsError::NotRunning)
    );
    assert_eq!(h.runtime.pending_len(), 0);
    assert!(h.engine.destroyed.is_empty());
}

#[test]
fn work_from_the_executor_thread_runs_in_place() {
    let mut runtime = Runtime::new();
    runtime.start(true).unwrap();
    runtime.submit(false).unwrap();
    // Nothing runs yet: a caller that claims to be the executor is queued.
    assert_eq!(runtime.submit(true), Ok(Admission::Queued(1)));
    let _ = runtime.next_command().unwrap();
    assert_eq!(runtime.submit(true), Ok(Admission::InPlace));
    assert_eq!(runtime.release_resource(SafeHandle::new(8), true), Ok(Admission::InPlace));
    assert_eq!(runtime.pending_len(), 1);
    // Also while the runtime shuts down: the engine is still there.
    assert_eq!(runtime.shutdown(), ShutdownStep::Drain);
    assert_eq!(runtime.release_resource(SafeHandle::new(8), true), Ok(Admission::InPlace));
    assert_eq!(runtime.release_resource(SafeHandle::new(8), false), Err(ObsError::NotRunning));
}

#[test]
fn handles_are_counted_and_the_last_one_shuts_down() {
    let mut h = harness();
    assert_eq!(h.runtime.clone_handle(), Ok(()));
    assert_eq!(h.runtime.clone_handle(), Ok(()));
    assert_eq!(h.runtime.handles(), 3);
    assert_eq!(h.runtime.drop_handle(), Ok(None));
    assert_eq!(h.runtime.drop_handle(), Ok(None));
    assert_eq!(h.runtime.state(), RuntimeState::Running);
    assert_eq!(h.runtime.drop_handle(), Ok(Some(ShutdownStep::Drain)));
    assert_eq!(h.runtime.state(), RuntimeState::ShuttingDown);
    drain(&mut h);
    assert_eq!(h.runtime.state(), RuntimeState::Stopped);
    assert_eq!(h.runtime.drop_handle(), Err(ObsError::InvalidOperation));
    assert_eq!(h.runtime.clone_handle(), Err(ObsError::InvalidOperation));
}

#[test]
fn a_handle_dropped_after_shutdown_finds_the_runtime_stopped() {
    let mut h = harness();
    h.runtime.clone_handle().unwrap();
    shutdown(&mut h).unwrap();
    assert_eq!(h.runtime.drop_handle(), Ok(None));
    assert_eq!(h.runtime.drop_handle(), Ok(Some(ShutdownStep::Done)));
}

#[test]
fn a_dead_worker_poisons_the_runtime() {
    let mut runtime = Runtime::new();
    runtime.start(true).unwrap();
    runtime.submit(false).unwrap();
    runtime.release_resource(SafeHandle::new(0x20), false).unwrap();
    runtime.submit(false).unwrap();
    let running = runtime.next_command().unwrap();
    let lost = runtime.worker_failed();
    assert_eq!(
        lost,
        vec![
            running,
            Command { ticket: 1, kind: CommandKind::Destroy(SafeHandle::new(0x20)) },
            Command { ticket: 2, kind: CommandKind::Execute },
        ]
    );
    assert!(runtime.is_poisoned());
    assert_eq!(runtime.submit(false), Err(ObsError::WorkerFailed));
    assert_eq!(runtime.submit(false), Err(ObsError::WorkerFailed));
    assert_eq!(runtime.next_command(), None);
    assert_eq!(runtime.shutdown(), ShutdownStep::Done);
    assert_eq!(runtime.state(), RuntimeState::Stopped);
    assert_eq!(runtime.submit(false), Err(ObsError::NotRunning));
}

#[test]
fn a_worker_that_dies_during_shutdown_stops_the_runtime() {
    let mut runtime = Runtime::new();
    runtime.start(true).unwrap();
    runtime.submit(false).unwrap();
    assert_eq!(runtime.shutdown(), ShutdownStep::Drain);
    let lost = runtime.worker_failed();
    assert_eq!(lost.len(), 2);
    assert_eq!(lost[1].kind, CommandKind::ReleaseEngine);
    assert_eq!(runtime.state(), RuntimeState::Stopped);
    assert_eq!(runtime.worker_failed(), vec![]);
}

#[test]
fn a_failed_release_still_stops_the_runtime() {
    let mut runtime = Runtime::new();
    runtime.start(true).unwrap();
    assert_eq!(runtime.shutdown(), ShutdownStep::Drain);
    let release = runtime.next_command().unwrap();
    assert_eq!(
        runtime.complete(false),
        Ok(Completion { command: release, error: Some(ObsError::ExecutionFailed) })
    );
    assert_eq!(runtime.state(), RuntimeState::Stopped);
}
