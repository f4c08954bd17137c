use vstd::prelude::*;

use crate::errors::{DispatchError, MiddlewareError, ReducerError};
use crate::middleware::Middleware;
use crate::reducer::Reducer;
use crate::semantics::{
    delivery_batch, dispatch_outcome, expand_from, flat_run, lemma_expand_empty, reduce_all,
    registered,
};
use crate::store::Store;
use crate::subscriber::Subscriber;

verus! {

/// Replaying a sequence of dispatches: the state after each dispatch is its
/// committed outcome, or the unchanged state where the dispatch aborted.
pub open spec fn replay<S, A, R: Reducer<S, A>, M: Middleware<S, A>>(
    state: S,
    reducers: Seq<R>,
    middlewares: Seq<M>,
    actions: Seq<A>,
) -> S
    decreases actions.len(),
{
    if actions.len() == 0 {
        state
    } else {
        let next = match dispatch_outcome(state, reducers, middlewares, actions[0]) {
            Ok(s) => s,
            Err(_) => state,
        };
        replay(next, reducers, middlewares, actions.drop_first())
    }
}

/// Dispatch is deterministic. The outcome of a dispatch is a function of the
/// store's state and of its registered reducers and middleware stages alone:
/// two stores that agree on those decide the same outcome for the same
/// action, whatever their subscribers, handles or histories.
pub proof fn lemma_dispatch_deterministic<
    S,
    A,
    R: Reducer<S, A>,
    M: Middleware<S, A>,
    U: Subscriber<S>,
>(first: Store<S, A, R, M, U>, second: Store<S, A, R, M, U>, action: A)
    requires
        first.spec_state() == second.spec_state(),
        registered(first.reducers_seq()) == registered(second.reducers_seq()),
        registered(first.middlewares_seq()) == registered(second.middlewares_seq()),
    ensures
        first.outcome_of(action) == second.outcome_of(action),
{
}

/// Replay is deterministic: replaying the same action sequence from the same
/// initial state through the same reducers and middleware stages always
/// yields the same final state.
pub proof fn lemma_replay_deterministic<
    S,
    A,
    R: Reducer<S, A>,
    M: Middleware<S, A>,
    U: Subscriber<S>,
>(first: Store<S, A, R, M, U>, second: Store<S, A, R, M, U>, actions: Seq<A>)
    requires
        first.spec_state() == second.spec_state(),
        registered(first.reducers_seq()) == registered(second.reducers_seq()),
        registered(first.middlewares_seq()) == registered(second.middlewares_seq()),
    ensures
        replay(
            first.spec_state(),
            registered(first.reducers_seq()),
            registered(first.middlewares_seq()),
            actions,
        ) == replay(
            second.spec_state(),
            registered(second.reducers_seq()),
            registered(second.middlewares_seq()),
            actions,
        ),
{
}

/// Middleware suppression: a stage that returns no successor action removes
/// the action from the dispatch entirely — nothing of it reaches any later
/// stage or any reducer, and folding the empty remainder leaves any state
/// unchanged.
pub proof fn lemma_suppression<S, A, R: Reducer<S, A>, M: Middleware<S, A>>(
    middlewares: Seq<M>,
    i: int,
    state: S,
    action: A,
    reducers: Seq<R>,
)
    requires
        0 <= i < middlewares.len(),
        middlewares[i].run_spec(state, action) == Ok::<Seq<A>, MiddlewareError>(Seq::<A>::empty()),
    ensures
        expand_from(middlewares, i, state, seq![action]) == Ok::<Seq<A>, MiddlewareError>(
            Seq::<A>::empty(),
        ),
        reduce_all(reducers, state, Seq::<A>::empty()) == Ok::<S, ReducerError>(state),
{
    let one = seq![action];
    assert(one[0] == action);
    assert(one.drop_first() =~= Seq::<A>::empty());
    assert(flat_run(middlewares[i], state, one.drop_first()) == Ok::<Seq<A>, MiddlewareError>(
        Seq::<A>::empty(),
    ));
    assert(Seq::<A>::empty() + Seq::<A>::empty() =~= Seq::<A>::empty());
    assert(flat_run(middlewares[i], state, one) == Ok::<Seq<A>, MiddlewareError>(
        Seq::<A>::empty(),
    ));
    lemma_expand_empty::<S, A, M>(middlewares, i + 1, state);
}

/// Middleware suppression at the first stage leaves the store's state
/// untouched: the dispatch still succeeds, and it commits the state it found.
pub proof fn lemma_suppressed_action_leaves_state<S, A, R: Reducer<S, A>, M: Middleware<S, A>>(
    state: S,
    reducers: Seq<R>,
    middlewares: Seq<M>,
    action: A,
)
    requires
        middlewares.len() > 0,
        middlewares[0].run_spec(state, action) == Ok::<Seq<A>, MiddlewareError>(Seq::<A>::empty()),
    ensures
        dispatch_outcome(state, reducers, middlewares, action) == Ok::<S, DispatchError>(state),
{
    lemma_suppression(middlewares, 0, state, action, reducers);
}

/// Middleware fan-out: a stage that returns k successor actions hands
/// exactly those k actions, in their order, to the remaining stages; the
/// expansion of the original action is the expansion of its successors.
pub proof fn lemma_fanout<S, A, M: Middleware<S, A>>(
    middlewares: Seq<M>,
    i: int,
    state: S,
    action: A,
    successors: Seq<A>,
)
    requires
        0 <= i < middlewares.len(),
        middlewares[i].run_spec(state, action) == Ok::<Seq<A>, MiddlewareError>(successors),
    ensures
        expand_from(middlewares, i, state, seq![action]) == expand_from(
            middlewares,
            i + 1,
            state,
            successors,
        ),
{
    let one = seq![action];
    assert(one[0] == action);
    assert(one.drop_first() =~= Seq::<A>::empty());
    assert(flat_run(middlewares[i], state, one.drop_first()) == Ok::<Seq<A>, MiddlewareError>(
        Seq::<A>::empty(),
    ));
    assert(successors + Seq::<A>::empty() =~= successors);
    assert(flat_run(middlewares[i], state, one) == Ok::<Seq<A>, MiddlewareError>(successors));
}

/// Middleware fan-out through a single stage reaches the reducers whole: all
/// k successors fold, first to last, into the one state the dispatch
/// commits — one commit for the whole fan-out, not one per successor.
pub proof fn lemma_fanout_single_stage<S, A, R: Reducer<S, A>, M: Middleware<S, A>>(
    state: S,
    reducers: Seq<R>,
    middlewares: Seq<M>,
    action: A,
    successors: Seq<A>,
)
    requires
        middlewares.len() == 1,
        middlewares[0].run_spec(state, action) == Ok::<Seq<A>, MiddlewareError>(successors),
    ensures
        dispatch_outcome(state, reducers, middlewares, action) == (match reduce_all(
            reducers,
            state,
            successors,
        ) {
            Ok(committed) => Ok::<S, DispatchError>(committed),
            Err(e) => Err::<S, DispatchError>(DispatchError::Reducer(e)),
        }),
{
    lemma_fanout(middlewares, 0, state, action, successors);
}

/// Commit atomicity: the state a successful dispatch commits is the fold of
/// the whole expansion from the pre-dispatch state, however many actions the
/// middleware chained — never the fold of a proper prefix. Together with the
/// dispatch contract, which replaces the state exactly once per call, a
/// reader observes the pre-dispatch state or this one committed value, and
/// none of the expansion's intermediate states.
pub proof fn lemma_commit_atomicity<S, A, R: Reducer<S, A>, M: Middleware<S, A>>(
    state: S,
    reducers: Seq<R>,
    middlewares: Seq<M>,
    action: A,
)
    requires
        expand_from(middlewares, 0, state, seq![action]) is Ok,
        reduce_all(reducers, state, expand_from(middlewares, 0, state, seq![action])->Ok_0) is Ok,
    ensures
        dispatch_outcome(state, reducers, middlewares, action) == Ok::<S, DispatchError>(
            reduce_all(
                reducers,
                state,
                expand_from(middlewares, 0, state, seq![action])->Ok_0,
            )->Ok_0,
        ),
{
}

/// Error abort: where the reducer fold of the surviving actions fails, the
/// dispatch surfaces exactly that reducer error — and by the dispatch
/// contract the store then keeps its pre-dispatch state, with no partial
/// commit of the chain's earlier results.
pub proof fn lemma_reducer_error_aborts<S, A, R: Reducer<S, A>, M: Middleware<S, A>>(
    state: S,
    reducers: Seq<R>,
    middlewares: Seq<M>,
    action: A,
)
    requires
        expand_from(middlewares, 0, state, seq![action]) is Ok,
        reduce_all(reducers, state, expand_from(middlewares, 0, state, seq![action])->Ok_0) is Err,
    ensures
        dispatch_outcome(state, reducers, middlewares, action) == Err::<S, DispatchError>(
            DispatchError::Reducer(
                reduce_all(
                    reducers,
                    state,
                    expand_from(middlewares, 0, state, seq![action])->Ok_0,
                )->Err_0,
            ),
        ),
{
}

/// Subscriber ordering within one commit: the delivery batch of a commit has
/// one entry per registered subscriber, and its j-th entry delivers the
/// committed state to the j-th registered subscriber. Batches of successive
/// commits are appended whole, so every delivery of an earlier commit stands
/// before every delivery of a later one in the store's delivery history.
pub proof fn lemma_delivery_batch_order<S, T>(subs: Seq<(u64, T)>, state: S, j: int)
    requires
        0 <= j < subs.len(),
    ensures
        delivery_batch(subs, state).len() == subs.len(),
        delivery_batch(subs, state)[j] == (subs[j].0, state),
{
}

} // verus!
