use redux_store::counter::{
    CounterAction, CounterMiddleware, CounterReducer, CounterState, RecordingSubscriber,
    MIDDLEWARE_FAILURE_CODE, POISON_CODE, SUBSCRIBER_FAILURE_CODE,
};
use redux_store::errors::{DispatchError, MiddlewareError, ReducerError, RegistrationError};
use redux_store::store::Store;

type CounterStore = Store<
    CounterState,
    CounterAction,
    CounterReducer,
    CounterMiddleware,
    RecordingSubscriber,
>;

fn fresh_store(count: u64) -> CounterStore {
    Store::new(CounterState { count })
}

fn recorder() -> RecordingSubscriber {
    RecordingSubscriber {
        seen: Vec::new(),
        fail: false,
    }
}

#[test]
fn increment_commits_and_notifies_once() {
    let mut store = fresh_store(0);
    store.add_reducer(CounterReducer {});
    store.subscribe(recorder());

    let r = store.dispatch(CounterAction::Increment);

    assert_eq!(r, Ok(()));
    assert_eq!(store.get_state().count, 1);
    let subs = store.subscribers();
    assert_eq!(subs.len(), 1);
    assert_eq!(subs[0].1.seen, vec![1]);
}

#[test]
fn fanout_folds_into_a_single_commit() {
    let mut store = fresh_store(0);
    store.add_middleware(CounterMiddleware::Doubling);
    store.add_reducer(CounterReducer {});
    store.subscribe(recorder());

    let r = store.dispatch(CounterAction::Increment);

    assert_eq!(r, Ok(()));
    assert_eq!(store.get_state().count, 2);
    // One commit, one notification carrying the final value; never two.
    assert_eq!(store.subscribers()[0].1.seen, vec![2]);
}

#[test]
fn poison_aborts_and_leaves_state_unchanged() {
    let mut store = fresh_store(7);
    store.add_reducer(CounterReducer {});
    store.subscribe(recorder());

    let r = store.dispatch(CounterAction::Poison);

    assert_eq!(
        r,
        Err(DispatchError::Reducer(ReducerError { code: POISON_CODE }))
    );
    assert_eq!(store.get_state().count, 7);
    // No commit, so no notification either.
    assert!(store.subscribers()[0].1.seen.is_empty());
}

#[test]
fn suppression_runs_no_reducer() {
    let mut store = fresh_store(3);
    store.add_middleware(CounterMiddleware::Suppressing);
    store.add_reducer(CounterReducer {});
    store.subscribe(recorder());

    let r = store.dispatch(CounterAction::Increment);

    assert_eq!(r, Ok(()));
    // The action was suppressed: the state is unchanged by it.
    assert_eq!(store.get_state().count, 3);
    // The dispatch itself still committed (the unchanged value).
    assert_eq!(store.subscribers()[0].1.seen, vec![3]);
}

#[test]
fn middleware_error_aborts_whole_dispatch() {
    let mut store = fresh_store(5);
    store.add_middleware(CounterMiddleware::Failing);
    store.add_reducer(CounterReducer {});
    store.subscribe(recorder());

    let r = store.dispatch(CounterAction::Increment);

    assert_eq!(
        r,
        Err(DispatchError::Middleware(MiddlewareError {
            code: MIDDLEWARE_FAILURE_CODE
        }))
    );
    assert_eq!(store.get_state().count, 5);
    assert!(store.subscribers()[0].1.seen.is_empty());
}

#[test]
fn passthrough_middleware_keeps_the_action() {
    let mut store = fresh_store(0);
    store.add_middleware(CounterMiddleware::Passthrough);
    store.add_reducer(CounterReducer {});

    assert_eq!(store.dispatch(CounterAction::Increment), Ok(()));
    assert_eq!(store.get_state().count, 1);
}

#[test]
fn subscriber_error_is_isolated_and_recorded() {
    let mut store = fresh_store(0);
    store.add_reducer(CounterReducer {});
    let failing_id = store.subscribe(RecordingSubscriber {
        seen: Vec::new(),
        fail: true,
    });
    store.subscribe(recorder());

    let r = store.dispatch(CounterAction::Increment);

    // The subscriber error is never propagated to the dispatch caller.
    assert_eq!(r, Ok(()));
    assert_eq!(store.get_state().count, 1);
    // Both subscribers were still notified, in registration order.
    let subs = store.subscribers();
    assert_eq!(subs[0].1.seen, vec![1]);
    assert_eq!(subs[1].1.seen, vec![1]);
    // The error was recorded against the failing subscriber's handle.
    let errors = store.subscriber_errors();
    assert_eq!(errors.len(), 1);
    assert_eq!(errors[0].0, failing_id);
    assert_eq!(errors[0].1.code, SUBSCRIBER_FAILURE_CODE);
}

#[test]
fn notifications_keep_commit_order_across_dispatches() {
    let mut store = fresh_store(0);
    store.add_reducer(CounterReducer {});
    store.subscribe(recorder());
    store.subscribe(recorder());

    assert_eq!(store.dispatch(CounterAction::Increment), Ok(()));
    assert_eq!(store.dispatch(CounterAction::Increment), Ok(()));

    // Every subscriber saw the first commit before the second.
    let subs = store.subscribers();
    assert_eq!(subs[0].1.seen, vec![1, 2]);
    assert_eq!(subs[1].1.seen, vec![1, 2]);
}

#[test]
fn replay_is_deterministic() {
    let actions = [
        CounterAction::Increment,
        CounterAction::Increment,
        CounterAction::Poison,
        CounterAction::Increment,
    ];

    let mut first = fresh_store(0);
    first.add_reducer(CounterReducer {});
    let mut second = fresh_store(0);
    second.add_reducer(CounterReducer {});

    for action in actions.iter() {
        let _ = first.dispatch(*action);
    }
    for action in actions.iter() {
        let _ = second.dispatch(*action);
    }

    assert_eq!(first.get_state().count, second.get_state().count);
    assert_eq!(first.get_state().count, 3);
}

#[test]
fn two_reducers_compose_in_registration_order() {
    let mut store = fresh_store(0);
    store.add_reducer(CounterReducer {});
    store.add_reducer(CounterReducer {});

    assert_eq!(store.dispatch(CounterAction::Increment), Ok(()));
    assert_eq!(store.get_state().count, 2);
}

#[test]
fn removal_by_handle() {
    let mut store = fresh_store(0);
    let first = store.add_reducer(CounterReducer {});
    let second = store.add_reducer(CounterReducer {});
    assert_ne!(first, second);

    assert_eq!(store.remove_reducer(first), Ok(()));
    assert_eq!(store.dispatch(CounterAction::Increment), Ok(()));
    assert_eq!(store.get_state().count, 1);

    // A handle no longer registered is reported, and the store is unchanged.
    assert_eq!(
        store.remove_reducer(first),
        Err(RegistrationError { id: first })
    );
    assert_eq!(store.dispatch(CounterAction::Increment), Ok(()));
    assert_eq!(store.get_state().count, 2);
}

#[test]
fn unsubscribe_stops_notifications() {
    let mut store = fresh_store(0);
    store.add_reducer(CounterReducer {});
    let kept = store.subscribe(recorder());
    let dropped = store.subscribe(recorder());

    assert_eq!(store.dispatch(CounterAction::Increment), Ok(()));
    assert_eq!(store.unsubscribe(dropped), Ok(()));
    assert_eq!(store.dispatch(CounterAction::Increment), Ok(()));

    let subs = store.subscribers();
    assert_eq!(subs.len(), 1);
    assert_eq!(subs[0].0, kept);
    assert_eq!(subs[0].1.seen, vec![1, 2]);
}

#[test]
fn remove_middleware_by_handle() {
    let mut store = fresh_store(0);
    store.add_reducer(CounterReducer {});
    let doubling = store.add_middleware(CounterMiddleware::Doubling);

    assert_eq!(store.dispatch(CounterAction::Increment), Ok(()));
    assert_eq!(store.get_state().count, 2);

    assert_eq!(store.remove_middleware(doubling), Ok(()));
    assert_eq!(store.dispatch(CounterAction::Increment), Ok(()));
    assert_eq!(store.get_state().count, 3);

    assert_eq!(
        store.remove_middleware(doubling),
        Err(RegistrationError { id: doubling })
    );
}

#[test]
fn dispatch_without_reducers_commits_unchanged_state() {
    let mut store = fresh_store(9);
    store.subscribe(recorder());

    assert_eq!(store.dispatch(CounterAction::Increment), Ok(()));
    assert_eq!(store.get_state().count, 9);
    assert_eq!(store.subscribers()[0].1.seen, vec![9]);
}

#[test]
fn chained_middleware_stages_run_in_order() {
    // Doubling twice: one increment fans out to four.
    let mut store = fresh_store(0);
    store.add_middleware(CounterMiddleware::Doubling);
    store.add_middleware(CounterMiddleware::Doubling);
    store.add_reducer(CounterReducer {});
    store.subscribe(recorder());

    assert_eq!(store.dispatch(CounterAction::Increment), Ok(()));
    assert_eq!(store.get_state().count, 4);
    assert_eq!(store.subscribers()[0].1.seen, vec![4]);
}

#[test]
fn counter_saturates_at_the_top_of_its_range() {
    let mut store = fresh_store(u64::MAX);
    store.add_reducer(CounterReducer {});

    assert_eq!(store.dispatch(CounterAction::Increment), Ok(()));
    assert_eq!(store.get_state().count, u64::MAX);
}
