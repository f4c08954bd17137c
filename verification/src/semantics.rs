use vstd::prelude::*;

use crate::errors::{DispatchError, MiddlewareError, ReducerError, SubscriberError};
use crate::middleware::Middleware;
use crate::reducer::Reducer;
use crate::subscriber::Subscriber;

verus! {

/// The registered callbacks of one registry, in registration order, without
/// their handles.
pub open spec fn registered<T>(entries: Seq<(u64, T)>) -> Seq<T> {
    entries.map_values(|e: (u64, T)| e.1)
}

/// One middleware level: run one stage over a whole pending queue, keeping
/// the queue order, and concatenate the successor actions. The first failing
/// action aborts the level with its error.
pub open spec fn flat_run<S, A, M: Middleware<S, A>>(
    m: M,
    state: S,
    actions: Seq<A>,
) -> Result<Seq<A>, MiddlewareError>
    decreases actions.len(),
{
    if actions.len() == 0 {
        Ok(Seq::empty())
    } else {
        match m.run_spec(state, actions[0]) {
            Ok(head) => match flat_run(m, state, actions.drop_first()) {
                Ok(tail) => Ok(head + tail),
                Err(e) => Err(e),
            },
            Err(e) => Err(e),
        }
    }
}

/// Run the middleware stages `i ..` over a pending queue, one level at a
/// time. Every action of one level passes stage `i` before any action
/// reaches stage `i + 1`, which is exactly the breadth-first order of the
/// dispatch queue: successors are appended behind the actions already
/// pending.
pub open spec fn expand_from<S, A, M: Middleware<S, A>>(
    middlewares: Seq<M>,
    i: int,
    state: S,
    actions: Seq<A>,
) -> Result<Seq<A>, MiddlewareError>
    decreases middlewares.len() - i,
{
    if i < 0 || i >= middlewares.len() {
        Ok(actions)
    } else {
        match flat_run(middlewares[i], state, actions) {
            Ok(next) => expand_from(middlewares, i + 1, state, next),
            Err(e) => Err(e),
        }
    }
}

/// Fold one action through the whole reducer chain, in registration order:
/// each reducer observes the output of the reducers before it. The first
/// failing reducer aborts the chain with its error.
pub open spec fn reduce_chain<S, A, R: Reducer<S, A>>(
    reducers: Seq<R>,
    state: S,
    action: A,
) -> Result<S, ReducerError>
    decreases reducers.len(),
{
    if reducers.len() == 0 {
        Ok(state)
    } else {
        match reducers[0].reduce_spec(state, action) {
            Ok(next) => reduce_chain(reducers.drop_first(), next, action),
            Err(e) => Err(e),
        }
    }
}

/// Fold a whole sequence of surviving actions through the reducer chain, in
/// queue order, threading the state from one action to the next. The first
/// failing action aborts the fold with its error.
pub open spec fn reduce_all<S, A, R: Reducer<S, A>>(
    reducers: Seq<R>,
    state: S,
    actions: Seq<A>,
) -> Result<S, ReducerError>
    decreases actions.len(),
{
    if actions.len() == 0 {
        Ok(state)
    } else {
        match reduce_chain(reducers, state, actions[0]) {
            Ok(next) => reduce_all(reducers, next, actions.drop_first()),
            Err(e) => Err(e),
        }
    }
}

/// What one external dispatch call decides, as a function of the state it
/// found, the registered reducers and middleware stages, and the incoming
/// action: either the single committed state, or the error that aborted the
/// dispatch. The whole expansion folds into one state, so a reader of the
/// store only ever sees the state before the dispatch or this one result.
pub open spec fn dispatch_outcome<S, A, R: Reducer<S, A>, M: Middleware<S, A>>(
    state: S,
    reducers: Seq<R>,
    middlewares: Seq<M>,
    action: A,
) -> Result<S, DispatchError> {
    match expand_from(middlewares, 0, state, seq![action]) {
        Ok(survivors) => match reduce_all(reducers, state, survivors) {
            Ok(committed) => Ok(committed),
            Err(e) => Err(DispatchError::Reducer(e)),
        },
        Err(e) => Err(DispatchError::Middleware(e)),
    }
}

/// One middleware level over a concatenation is the concatenation of the
/// levels: queue order is kept, and the first error of the left part comes
/// before any error of the right part.
pub proof fn lemma_flat_run_append<S, A, M: Middleware<S, A>>(m: M, state: S, xs: Seq<A>, ys: Seq<A>)
    ensures
        flat_run(m, state, xs + ys) == (match flat_run(m, state, xs) {
            Ok(ex) => match flat_run(m, state, ys) {
                Ok(ey) => Ok::<Seq<A>, MiddlewareError>(ex + ey),
                Err(e) => Err::<Seq<A>, MiddlewareError>(e),
            },
            Err(e) => Err::<Seq<A>, MiddlewareError>(e),
        }),
    decreases xs.len(),
{
    if xs.len() == 0 {
        assert(xs + ys =~= ys);
        match flat_run(m, state, ys) {
            Ok(ey) => {
                assert(Seq::<A>::empty() + ey =~= ey);
            },
            Err(_) => {},
        }
    } else {
        assert((xs + ys)[0] == xs[0]);
        assert((xs + ys).drop_first() =~= xs.drop_first() + ys);
        lemma_flat_run_append(m, state, xs.drop_first(), ys);
        match m.run_spec(state, xs[0]) {
            Ok(head) => {
                match flat_run(m, state, xs.drop_first()) {
                    Ok(tx) => {
                        match flat_run(m, state, ys) {
                            Ok(ey) => {
                                assert(head + (tx + ey) =~= (head + tx) + ey);
                            },
                            Err(_) => {},
                        }
                    },
                    Err(_) => {},
                }
            },
            Err(_) => {},
        }
    }
}

/// An empty pending queue stays empty through every remaining middleware
/// level.
pub proof fn lemma_expand_empty<S, A, M: Middleware<S, A>>(middlewares: Seq<M>, i: int, state: S)
    ensures
        expand_from(middlewares, i, state, Seq::<A>::empty()) == Ok::<Seq<A>, MiddlewareError>(
            Seq::<A>::empty(),
        ),
    decreases middlewares.len() - i,
{
    if 0 <= i < middlewares.len() {
        lemma_expand_empty::<S, A, M>(middlewares, i + 1, state);
    }
}

/// Middleware expansion over a concatenation is the concatenation of the
/// expansions, when both sides pass every stage: breadth-first order is kept
/// across the whole dispatch queue.
pub proof fn lemma_expand_from_append<S, A, M: Middleware<S, A>>(
    middlewares: Seq<M>,
    i: int,
    state: S,
    xs: Seq<A>,
    ys: Seq<A>,
)
    requires
        expand_from(middlewares, i, state, xs) is Ok,
        expand_from(middlewares, i, state, ys) is Ok,
    ensures
        expand_from(middlewares, i, state, xs + ys) == Ok::<Seq<A>, MiddlewareError>(
            expand_from(middlewares, i, state, xs)->Ok_0 + expand_from(middlewares, i, state, ys)->Ok_0,
        ),
    decreases middlewares.len() - i,
{
    if i < 0 || i >= middlewares.len() {
    } else {
        lemma_flat_run_append(middlewares[i], state, xs, ys);
        let nx = flat_run(middlewares[i], state, xs)->Ok_0;
        let ny = flat_run(middlewares[i], state, ys)->Ok_0;
        lemma_expand_from_append(middlewares, i + 1, state, nx, ny);
    }
}

/// Folding the reducers over a queue with one more action at its back first
/// folds the front of the queue, then the last action.
pub proof fn lemma_reduce_all_push<S, A, R: Reducer<S, A>>(
    reducers: Seq<R>,
    state: S,
    actions: Seq<A>,
    action: A,
)
    ensures
        reduce_all(reducers, state, actions.push(action)) == (match reduce_all(
            reducers,
            state,
            actions,
        ) {
            Ok(mid) => reduce_chain(reducers, mid, action),
            Err(e) => Err::<S, ReducerError>(e),
        }),
    decreases actions.len(),
{
    if actions.len() == 0 {
        assert(actions.push(action)[0] == action);
        assert(actions.push(action).drop_first() =~= Seq::<A>::empty());
        assert(reduce_all(reducers, state, actions) == Ok::<S, ReducerError>(state));
        match reduce_chain(reducers, state, action) {
            Ok(next) => {
                assert(reduce_all(reducers, next, actions.push(action).drop_first())
                    == Ok::<S, ReducerError>(next));
            },
            Err(_) => {},
        }
    } else {
        assert(actions.push(action)[0] == actions[0]);
        assert(actions.push(action).drop_first() =~= actions.drop_first().push(action));
        match reduce_chain(reducers, state, actions[0]) {
            Ok(next) => {
                lemma_reduce_all_push(reducers, next, actions.drop_first(), action);
            },
            Err(_) => {},
        }
    }
}

/// The notifications one commit schedules: every registered subscriber, in
/// registration order, receives the one committed state.
pub open spec fn delivery_batch<S, T>(subs: Seq<(u64, T)>, state: S) -> Seq<(u64, S)> {
    Seq::new(subs.len(), |j: int| (subs[j].0, state))
}

/// The subscriber errors one commit produces, in registration order: the
/// handle of each subscriber that reports an error for the committed state,
/// paired with its error. Errors of other subscribers do not hide it and it
/// hides nothing.
pub open spec fn error_batch<S, U: Subscriber<S>>(
    subs: Seq<(u64, U)>,
    state: S,
) -> Seq<(u64, SubscriberError)>
    decreases subs.len(),
{
    if subs.len() == 0 {
        Seq::empty()
    } else {
        let rest = error_batch(subs.drop_first(), state);
        match U::notify_result_spec(subs[0].1, state) {
            Ok(_) => rest,
            Err(e) => seq![(subs[0].0, e)] + rest,
        }
    }
}

/// After one commit, every subscriber has been notified exactly once with
/// the committed state, and the registry keeps its handles and its order.
pub open spec fn subs_notified<S, U: Subscriber<S>>(
    pre: Seq<(u64, U)>,
    state: S,
    post: Seq<(u64, U)>,
) -> bool {
    &&& post.len() == pre.len()
    &&& forall|j: int|
        0 <= j < pre.len() ==> (#[trigger] post[j]).0 == pre[j].0 && U::notified(
            pre[j].1,
            state,
            post[j].1,
        )
}

/// Appending one subscriber at the back of the registry appends its error,
/// if it reports one, at the back of the error batch.
pub proof fn lemma_error_batch_push<S, U: Subscriber<S>>(
    subs: Seq<(u64, U)>,
    state: S,
    entry: (u64, U),
)
    ensures
        error_batch(subs.push(entry), state) == (match U::notify_result_spec(entry.1, state) {
            Ok(_) => error_batch(subs, state),
            Err(e) => error_batch(subs, state) + seq![(entry.0, e)],
        }),
    decreases subs.len(),
{
    if subs.len() == 0 {
        assert(subs.push(entry)[0] == entry);
        assert(subs.push(entry).drop_first() =~= Seq::<(u64, U)>::empty());
        assert(error_batch(subs.push(entry).drop_first(), state) =~= Seq::<(
            u64,
            SubscriberError,
        )>::empty());
        assert(error_batch(subs, state) =~= Seq::<(u64, SubscriberError)>::empty());
        match U::notify_result_spec(entry.1, state) {
            Ok(_) => {},
            Err(e) => {
                assert(seq![(entry.0, e)] + Seq::<(u64, SubscriberError)>::empty() =~= Seq::<(
                    u64,
                    SubscriberError,
                )>::empty() + seq![(entry.0, e)]);
            },
        }
    } else {
        assert(subs.push(entry)[0] == subs[0]);
        assert(subs.push(entry).drop_first() =~= subs.drop_first().push(entry));
        lemma_error_batch_push(subs.drop_first(), state, entry);
        match U::notify_result_spec(entry.1, state) {
            Ok(_) => {},
            Err(e) => {
                match U::notify_result_spec(subs[0].1, state) {
                    Ok(_) => {},
                    Err(e0) => {
                        assert(seq![(subs[0].0, e0)] + (error_batch(subs.drop_first(), state)
                            + seq![(entry.0, e)]) =~= (seq![(subs[0].0, e0)] + error_batch(
                            subs.drop_first(),
                            state,
                        )) + seq![(entry.0, e)]);
                    },
                }
            },
        }
    }
}

/// Folding the reducers over a concatenation folds the left part first and
/// threads its final state into the right part.
pub proof fn lemma_reduce_all_append<S, A, R: Reducer<S, A>>(
    reducers: Seq<R>,
    state: S,
    xs: Seq<A>,
    ys: Seq<A>,
)
    ensures
        reduce_all(reducers, state, xs + ys) == (match reduce_all(reducers, state, xs) {
            Ok(mid) => reduce_all(reducers, mid, ys),
            Err(e) => Err::<S, ReducerError>(e),
        }),
    decreases xs.len(),
{
    if xs.len() == 0 {
        assert(xs + ys =~= ys);
    } else {
        assert((xs + ys)[0] == xs[0]);
        assert((xs + ys).drop_first() =~= xs.drop_first() + ys);
        match reduce_chain(reducers, state, xs[0]) {
            Ok(next) => {
                lemma_reduce_all_append(reducers, next, xs.drop_first(), ys);
            },
            Err(_) => {},
        }
    }
}

} // verus!
