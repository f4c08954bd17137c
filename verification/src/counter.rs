use vstd::prelude::*;

use crate::errors::{MiddlewareError, ReducerError, SubscriberError};
use crate::middleware::Middleware;
use crate::reducer::Reducer;
use crate::subscriber::Subscriber;

verus! {

/// Error code a reducer reports when it meets a poison action.
pub const POISON_CODE: u64 = 1;

/// Error code a failing middleware stage reports.
pub const MIDDLEWARE_FAILURE_CODE: u64 = 2;

/// Error code a failing subscriber reports.
pub const SUBSCRIBER_FAILURE_CODE: u64 = 3;

/// A minimal application state: one counter.
#[derive(Clone, Copy, Debug, PartialEq, Eq, Structural)]
pub struct CounterState {
    pub count: u64,
}

/// The actions of the counter application. `Increment` raises the counter;
/// `Poison` makes the reducer fail, so a dispatch that carries it aborts.
#[derive(Clone, Copy, Debug, PartialEq, Eq, Structural)]
pub enum CounterAction {
    Increment,
    Poison,
}

/// The counter's reducer: `Increment` raises the counter by one, saturating
/// at the top of its range; `Poison` raises a reducer error.
pub struct CounterReducer {}

impl Reducer<CounterState, CounterAction> for CounterReducer {
    open spec fn reduce_spec(
        &self,
        state: CounterState,
        action: CounterAction,
    ) -> Result<CounterState, ReducerError> {
        match action {
            CounterAction::Increment => Ok(
                CounterState {
                    count: if state.count == u64::MAX {
                        u64::MAX
                    } else {
                        (state.count + 1) as u64
                    },
                },
            ),
            CounterAction::Poison => Err(ReducerError { code: POISON_CODE }),
        }
    }

    fn reduce(&self, state: &CounterState, action: &CounterAction) -> (r: Result<
        CounterState,
        ReducerError,
    >) {
        match action {
            CounterAction::Increment => {
                if state.count == u64::MAX {
                    Ok(CounterState { count: u64::MAX })
                } else {
                    Ok(CounterState { count: state.count + 1 })
                }
            },
            CounterAction::Poison => Err(ReducerError { code: POISON_CODE }),
        }
    }
}

/// Middleware stages for the counter application.
///
/// - `Passthrough` hands every action on unchanged.
/// - `Doubling` fans an `Increment` out into two `Increment`s and hands any
///   other action on unchanged.
/// - `Suppressing` returns no successor for any action.
/// - `Failing` aborts every dispatch with a middleware error.
pub enum CounterMiddleware {
    Passthrough,
    Doubling,
    Suppressing,
    Failing,
}

impl Middleware<CounterState, CounterAction> for CounterMiddleware {
    open spec fn run_spec(&self, state: CounterState, action: CounterAction) -> Result<
        Seq<CounterAction>,
        MiddlewareError,
    > {
        match self {
            CounterMiddleware::Passthrough => Ok(seq![action]),
            CounterMiddleware::Doubling => match action {
                CounterAction::Increment => Ok(
                    seq![CounterAction::Increment, CounterAction::Increment],
                ),
                _ => Ok(seq![action]),
            },
            CounterMiddleware::Suppressing => Ok(Seq::empty()),
            CounterMiddleware::Failing => Err(MiddlewareError { code: MIDDLEWARE_FAILURE_CODE }),
        }
    }

    fn run(&self, state: &CounterState, action: CounterAction) -> (r: Result<
        Vec<CounterAction>,
        MiddlewareError,
    >) {
        match self {
            CounterMiddleware::Passthrough => {
                let out = vec![action];
                proof {
                    assert(out@ =~= seq![action]);
                }
                Ok(out)
            },
            CounterMiddleware::Doubling => match action {
                CounterAction::Increment => {
                    let out = vec![CounterAction::Increment, CounterAction::Increment];
                    proof {
                        assert(out@ =~= seq![CounterAction::Increment, CounterAction::Increment]);
                    }
                    Ok(out)
                },
                _ => {
                    let out = vec![action];
                    proof {
                        assert(out@ =~= seq![action]);
                    }
                    Ok(out)
                },
            },
            CounterMiddleware::Suppressing => {
                let out: Vec<CounterAction> = Vec::new();
                proof {
                    assert(out@ =~= Seq::<CounterAction>::empty());
                }
                Ok(out)
            },
            CounterMiddleware::Failing => Err(MiddlewareError { code: MIDDLEWARE_FAILURE_CODE }),
        }
    }
}

/// A subscriber that records every counter value it is notified with, in
/// order. With `fail` set it also reports an error on every notification,
/// which the store records and isolates — the log is kept either way.
pub struct RecordingSubscriber {
    pub seen: Vec<u64>,
    pub fail: bool,
}

impl Subscriber<CounterState> for RecordingSubscriber {
    open spec fn notified(pre: Self, state: CounterState, post: Self) -> bool {
        post.seen@ == pre.seen@.push(state.count) && post.fail == pre.fail
    }

    open spec fn notify_result_spec(pre: Self, state: CounterState) -> Result<
        (),
        SubscriberError,
    > {
        if pre.fail {
            Err(SubscriberError { code: SUBSCRIBER_FAILURE_CODE })
        } else {
            Ok(())
        }
    }

    fn notify(&mut self, state: &CounterState) -> (r: Result<(), SubscriberError>) {
        self.seen.push(state.count);
        if self.fail {
            Err(SubscriberError { code: SUBSCRIBER_FAILURE_CODE })
        } else {
            Ok(())
        }
    }
}

} // verus!
