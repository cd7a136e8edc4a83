use libobs_wrapper::error::ObsError;
use libobs_wrapper::runtime::{Admission, Runtime};
use libobs_wrapper::signals::{SignalDispatcher, Subscribed, SubscriptionHandle};
use std::collections::HashMap;

#[test]
fn two_subscribers_are_called_in_subscription_order() {
    // The engine's state, changed by the command that is running.
    let mut engine_state = 0u64;
    let mut runtime = Runtime::new();
    runtime.start(true).unwrap();
    let mut dispatcher = SignalDispatcher::new();
    let first = dispatcher.subscribe("activate").unwrap();
    let second = dispatcher.subscribe("activate").unwrap();
    let mut seen: Vec<(u64, u64)> = Vec::new();
    let mut callbacks: HashMap<u64, Box<dyn Fn(u64, &mut Vec<(u64, u64)>)>> = HashMap::new();
    callbacks.insert(first.handle.id, Box::new(|state, seen| seen.push((1, state))));
    callbacks.insert(second.handle.id, Box::new(|state, seen| seen.push((2, state))));

    assert_eq!(runtime.submit(false), Ok(Admission::Queued(0)));
    let _command = runtime.next_command().unwrap();
    engine_state = engine_state + 7;
    // The engine fires the event once, inside the command.
    for call in dispatcher.dispatch("activate") {
        callbacks[&call.id](engine_state, &mut seen);
    }
    assert!(runtime.complete(true).is_ok());

    assert_eq!(seen, vec![(1, 7), (2, 7)]);
}

#[test]
fn the_first_subscription_to_a_key_hooks_into_the_engine() {
    let mut dispatcher = SignalDispatcher::new();
    assert_eq!(
        dispatcher.subscribe("rename"),
        Ok(Subscribed { handle: SubscriptionHandle { id: 0 }, hook_needed: true })
    );
    assert_eq!(
        dispatcher.subscribe("rename"),
        Ok(Subscribed { handle: SubscriptionHandle { id: 1 }, hook_needed: false })
    );
    assert_eq!(
        dispatcher.subscribe("destroy"),
        Ok(Subscribed { handle: SubscriptionHandle { id: 2 }, hook_needed: true })
    );
    assert_eq!(dispatcher.len(), 3);
}

#[test]
fn an_event_goes_to_the_subscribers_of_its_key_only() {
    let mut dispatcher = SignalDispatcher::new();
    let a = dispatcher.subscribe("show").unwrap().handle;
    let b = dispatcher.subscribe("hide").unwrap().handle;
    let c = dispatcher.subscribe("show").unwrap().handle;
    assert_eq!(dispatcher.dispatch("show"), vec![a, c]);
    assert_eq!(dispatcher.dispatch("hide"), vec![b]);
    assert_eq!(dispatcher.dispatch("mute"), vec![]);
    assert_eq!(dispatcher.dispatch(""), vec![]);
}

#[test]
fn a_cancelled_subscription_is_not_called() {
    let mut dispatcher = SignalDispatcher::new();
    let a = dispatcher.subscribe("show").unwrap().handle;
    let b = dispatcher.subscribe("show").unwrap().handle;
    let c = dispatcher.subscribe("show").unwrap().handle;
    assert!(dispatcher.is_live(b));
    assert!(dispatcher.cancel(b));
    assert!(!dispatcher.is_live(b));
    assert_eq!(dispatcher.dispatch("show"), vec![a, c]);
    // Cancelling again changes nothing.
    assert!(!dispatcher.cancel(b));
    assert_eq!(dispatcher.dispatch("show"), vec![a, c]);
    // Neither does cancelling what was never subscribed.
    assert!(!dispatcher.cancel(SubscriptionHandle { id: 99 }));
    assert!(!dispatcher.is_live(SubscriptionHandle { id: 99 }));
    assert_eq!(dispatcher.dispatch("show"), vec![a, c]);
}

#[test]
fn pruning_forgets_cancelled_subscriptions_and_keeps_the_hooks() {
    let mut dispatcher = SignalDispatcher::new();
    let a = dispatcher.subscribe("show").unwrap().handle;
    let b = dispatcher.subscribe("hide").unwrap().handle;
    let c = dispatcher.subscribe("show").unwrap().handle;
    dispatcher.cancel(a);
    dispatcher.cancel(b);
    dispatcher.prune();
    assert_eq!(dispatcher.len(), 1);
    assert_eq!(dispatcher.dispatch("show"), vec![c]);
    assert_eq!(dispatcher.dispatch("hide"), vec![]);
    // The hook for "hide" is still in place: a new subscriber needs none.
    let d = dispatcher.subscribe("hide").unwrap();
    assert!(!d.hook_needed);
    assert_eq!(d.handle, SubscriptionHandle { id: 3 });
    assert_eq!(dispatcher.dispatch("hide"), vec![d.handle]);
}

#[test]
fn a_failing_subscriber_does_not_stop_the_others() {
    let mut dispatcher = SignalDispatcher::new();
    let a = dispatcher.subscribe("show").unwrap().handle;
    let b = dispatcher.subscribe("show").unwrap().handle;
    let c = dispatcher.subscribe("show").unwrap().handle;
    let mut called = Vec::new();
    let mut failures: Vec<(SubscriptionHandle, ObsError)> = Vec::new();
    for call in dispatcher.dispatch("show") {
        let outcome: Result<(), ObsError> =
            if call == b { Err(ObsError::ExecutionFailed) } else { Ok(()) };
        match outcome {
            Ok(()) => called.push(call),
            Err(e) => failures.push((call, e)),
        }
    }
    assert_eq!(called, vec![a, c]);
    assert_eq!(failures, vec![(b, ObsError::ExecutionFailed)]);
}
