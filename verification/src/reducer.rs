use vstd::prelude::*;

use crate::errors::ReducerError;

verus! {

/// A pure, synchronous state transition: given the current state and an
/// action, it either produces a new state or fails. Reducers never mutate
/// a state in place; every transition builds a fresh state value.
///
/// `reduce_spec` is the mathematical description of the transition and
/// `reduce` is bound to it exactly, so a chain of reducers is deterministic:
/// the same state and action always give the same result.
pub trait Reducer<S, A>: Sized {
    /// What this reducer computes, as a function of the state and the action.
    spec fn reduce_spec(&self, state: S, action: A) -> Result<S, ReducerError>;

    /// Apply the reducer to one state and one action.
    fn reduce(&self, state: &S, action: &A) -> (r: Result<S, ReducerError>)
        ensures
            r == self.reduce_spec(*state, *action),
    ;
}

} // verus!
