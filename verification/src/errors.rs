use vstd::prelude::*;

verus! {

/// Error raised by a reducer stage. A reducer error aborts the in-flight
/// dispatch before any commit, so the store's state is left unchanged.
#[derive(Clone, Copy, Debug, PartialEq, Eq, Structural)]
pub struct ReducerError {
    pub code: u64,
}

/// Error raised by a middleware stage. A middleware error aborts the whole
/// dispatch: no action of the dispatch reaches the reducers and no commit
/// happens.
#[derive(Clone, Copy, Debug, PartialEq, Eq, Structural)]
pub struct MiddlewareError {
    pub code: u64,
}

/// Error raised by a subscriber. Subscriber errors are isolated: they are
/// recorded by the store but never propagated to the dispatch caller and
/// never affect the committed state or the other subscribers.
#[derive(Clone, Copy, Debug, PartialEq, Eq, Structural)]
pub struct SubscriberError {
    pub code: u64,
}

/// Error returned by a removal call that names a handle that is not
/// registered. Carries the offending handle; the store is left unchanged.
#[derive(Clone, Copy, Debug, PartialEq, Eq, Structural)]
pub struct RegistrationError {
    pub id: u64,
}

/// Error surfaced to the caller of `dispatch`: either a middleware stage or
/// a reducer stage failed. Either way, no commit happened.
#[derive(Clone, Copy, Debug, PartialEq, Eq, Structural)]
pub enum DispatchError {
    Middleware(MiddlewareError),
    Reducer(ReducerError),
}

} // verus!
