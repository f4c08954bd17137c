use vstd::prelude::*;

use crate::errors::MiddlewareError;

verus! {

/// A pre-processing stage of the dispatch pipeline. Given read access to the
/// current state and one pending action, a middleware stage replaces the
/// action with its successor actions:
///
/// - an empty vector suppresses the action (nothing of it reaches a reducer);
/// - one action passes it on, possibly rewritten;
/// - several actions fan it out, and the successors keep their order.
///
/// A stage may also fail, which aborts the whole dispatch before any commit.
///
/// `run_spec` is the mathematical description of the stage; `run` is bound to
/// it exactly, over the view of the returned vector.
pub trait Middleware<S, A>: Sized {
    /// What this stage returns, as a function of the state and the action.
    spec fn run_spec(&self, state: S, action: A) -> Result<Seq<A>, MiddlewareError>;

    /// Run the stage on one pending action.
    fn run(&self, state: &S, action: A) -> (r: Result<Vec<A>, MiddlewareError>)
        ensures
            (match r {
                Ok(v) => self.run_spec(*state, action) == Ok::<Seq<A>, MiddlewareError>(v@),
                Err(e) => self.run_spec(*state, action) == Err::<Seq<A>, MiddlewareError>(e),
            }),
    ;
}

} // verus!
