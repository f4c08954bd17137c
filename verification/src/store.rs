use core::marker::PhantomData;
use vstd::prelude::*;

use crate::errors::{
    DispatchError, MiddlewareError, ReducerError, RegistrationError, SubscriberError,
};
use crate::middleware::Middleware;
use crate::reducer::Reducer;
use crate::semantics::{
    delivery_batch, dispatch_outcome, error_batch, expand_from, flat_run, reduce_all, reduce_chain,
    registered, subs_notified,
};
use crate::subscriber::Subscriber;

verus! {

/// Well-formedness of one registry: every entry carries a distinct handle,
/// and every handle was minted below the store's next fresh handle.
pub open spec fn ids_ok<T>(entries: Seq<(u64, T)>, bound: u64) -> bool {
    &&& forall|j: int, k: int|
        0 <= j < k < entries.len() ==> (#[trigger] entries[j]).0 != (#[trigger] entries[k]).0
    &&& forall|j: int| 0 <= j < entries.len() ==> (#[trigger] entries[j]).0 < bound
}

/// Whether some entry of the registry carries this handle.
pub open spec fn has_id<T>(entries: Seq<(u64, T)>, id: u64) -> bool {
    exists|j: int| 0 <= j < entries.len() && (#[trigger] entries[j]).0 == id
}

/// The position of the first entry that carries this handle.
pub open spec fn index_of_id<T>(entries: Seq<(u64, T)>, id: u64) -> int
    decreases entries.len(),
{
    if entries.len() == 0 {
        0
    } else if entries[0].0 == id {
        0
    } else {
        1 + index_of_id(entries.drop_first(), id)
    }
}

proof fn lemma_index_of_id<T>(entries: Seq<(u64, T)>, id: u64)
    requires
        has_id(entries, id),
    ensures
        0 <= index_of_id(entries, id) < entries.len(),
        entries[index_of_id(entries, id)].0 == id,
        forall|k: int| 0 <= k < index_of_id(entries, id) ==> (#[trigger] entries[k]).0 != id,
    decreases entries.len(),
{
    if entries.len() == 0 {
    } else if entries[0].0 == id {
    } else {
        let tail = entries.drop_first();
        assert(has_id(tail, id)) by {
            let j = choose|j: int| 0 <= j < entries.len() && entries[j].0 == id;
            assert(tail[j - 1].0 == id);
        }
        lemma_index_of_id(tail, id);
        assert forall|k: int| 0 <= k < index_of_id(entries, id) implies (#[trigger] entries[k]).0
            != id by {
            if k > 0 {
                assert(entries[k] == tail[k - 1]);
            }
        }
    }
}

/// Remove the entry that carries this handle, keeping the order of the other
/// entries; report the handle if no entry carries it.
fn remove_by_id<T>(entries: &mut Vec<(u64, T)>, id: u64) -> (r: Result<(), RegistrationError>)
    ensures
        (match r {
            Ok(_) => has_id(old(entries)@, id) && final(entries)@ == old(entries)@.remove(
                index_of_id(old(entries)@, id),
            ),
            Err(e) => !has_id(old(entries)@, id) && e == (RegistrationError { id })
                && final(entries)@ == old(entries)@,
        }),
{
    let ghost orig = entries@;
    let mut j: usize = 0;
    while j < entries.len()
        invariant
            j <= entries.len(),
            entries@ == orig,
            orig == old(entries)@,
            forall|k: int| 0 <= k < j ==> (#[trigger] orig[k]).0 != id,
        decreases entries.len() - j,
    {
        if entries[j].0 == id {
            proof {
                assert(has_id(orig, id));
                lemma_index_of_id(orig, id);
                let idx = index_of_id(orig, id);
                assert(idx == j) by {
                    if idx < j {
                        assert(orig[idx].0 != id);
                    }
                    if idx > j {
                        assert(orig[j as int].0 != id);
                    }
                }
            }
            entries.remove(j);
            return Ok(());
        }
        j += 1;
    }
    Err(RegistrationError { id })
}

proof fn lemma_ids_ok_remove<T>(entries: Seq<(u64, T)>, bound: u64, at: int)
    requires
        ids_ok(entries, bound),
        0 <= at < entries.len(),
    ensures
        ids_ok(entries.remove(at), bound),
{
    let removed = entries.remove(at);
    assert forall|j: int, k: int| 0 <= j < k < removed.len() implies (#[trigger] removed[j]).0 != (
    #[trigger] removed[k]).0 by {
        let j0: int = if j < at {
            j
        } else {
            j + 1
        };
        let k0: int = if k < at {
            k
        } else {
            k + 1
        };
        assert(removed[j] == entries[j0]);
        assert(removed[k] == entries[k0]);
    }
    assert forall|j: int| 0 <= j < removed.len() implies (#[trigger] removed[j]).0 < bound by {
        let j0: int = if j < at {
            j
        } else {
            j + 1
        };
        assert(removed[j] == entries[j0]);
    }
}

/// The candidate state of an in-flight dispatch: the fold of the reducers so
/// far, or the pre-dispatch state while no reducer has produced a value yet.
pub open spec fn candidate<S>(fold: Option<S>, pre_state: S) -> S {
    match fold {
        Some(s) => s,
        None => pre_state,
    }
}

/// The single-writer, multi-reader application-state container: one
/// authoritative state value, mutated only through dispatched actions, with
/// a middleware pipeline before the reducers and a subscriber pipeline after
/// each commit.
///
/// The store owns the state and three ordered registries. Each registration
/// returns a fresh handle usable to remove the entry again. `dispatch` is the
/// only path that replaces the state, and it replaces it exactly once per
/// call: readers observe the state it found or the state it committed, never
/// an intermediate value of the expansion.
pub struct Store<S, A, R, M, U> {
    state: S,
    reducers: Vec<(u64, R)>,
    middlewares: Vec<(u64, M)>,
    subscribers: Vec<(u64, U)>,
    subscriber_errors: Vec<(u64, SubscriberError)>,
    next_id: u64,
    deliveries: Ghost<Seq<(u64, S)>>,
    actions: PhantomData<A>,
}

impl<S, A, R: Reducer<S, A>, M: Middleware<S, A>, U: Subscriber<S>> Store<S, A, R, M, U> {
    /// The current committed state.
    pub closed spec fn spec_state(self) -> S {
        self.state
    }

    /// The reducer registry, in registration order.
    pub closed spec fn reducers_seq(self) -> Seq<(u64, R)> {
        self.reducers@
    }

    /// The middleware registry, in registration order.
    pub closed spec fn middlewares_seq(self) -> Seq<(u64, M)> {
        self.middlewares@
    }

    /// The subscriber registry, in registration order.
    pub closed spec fn subscribers_seq(self) -> Seq<(u64, U)> {
        self.subscribers@
    }

    /// Every subscriber error the store has recorded, oldest first.
    pub closed spec fn errors_seq(self) -> Seq<(u64, SubscriberError)> {
        self.subscriber_errors@
    }

    /// The next fresh registration handle.
    pub closed spec fn next_id_spec(self) -> u64 {
        self.next_id
    }

    /// The history of subscriber notifications: which subscriber received
    /// which committed state, in the order the deliveries happened. One
    /// commit appends one batch, in registration order; batches of later
    /// commits come entirely after batches of earlier ones.
    pub closed spec fn deliveries_seq(self) -> Seq<(u64, S)> {
        self.deliveries@
    }

    /// Registration handles are distinct within each registry and below the
    /// next fresh handle.
    pub open spec fn wf(self) -> bool {
        &&& ids_ok(self.reducers_seq(), self.next_id_spec())
        &&& ids_ok(self.middlewares_seq(), self.next_id_spec())
        &&& ids_ok(self.subscribers_seq(), self.next_id_spec())
    }

    /// What dispatching this action on the store as it stands would decide:
    /// the committed state, or the error that aborts the dispatch.
    pub open spec fn outcome_of(self, action: A) -> Result<S, DispatchError> {
        dispatch_outcome(
            self.spec_state(),
            registered(self.reducers_seq()),
            registered(self.middlewares_seq()),
            action,
        )
    }

    /// Create a store that holds this state, with empty registries.
    pub fn new(initial_state: S) -> (store: Self)
        ensures
            store.wf(),
            store.spec_state() == initial_state,
            store.reducers_seq() == Seq::<(u64, R)>::empty(),
            store.middlewares_seq() == Seq::<(u64, M)>::empty(),
            store.subscribers_seq() == Seq::<(u64, U)>::empty(),
            store.errors_seq() == Seq::<(u64, SubscriberError)>::empty(),
            store.deliveries_seq() == Seq::<(u64, S)>::empty(),
            store.next_id_spec() == 0,
    {
        Store {
            state: initial_state,
            reducers: Vec::new(),
            middlewares: Vec::new(),
            subscribers: Vec::new(),
            subscriber_errors: Vec::new(),
            next_id: 0,
            deliveries: Ghost(Seq::empty()),
            actions: PhantomData,
        }
    }

    /// A borrow of the current state: always a fully committed value, never
    /// a value from an in-flight dispatch.
    pub fn get_state(&self) -> (r: &S)
        ensures
            *r == self.spec_state(),
    {
        &self.state
    }

    /// Every subscriber error recorded so far, oldest first: each entry is
    /// the handle of the subscriber beside the error it reported.
    pub fn subscriber_errors(&self) -> (r: &Vec<(u64, SubscriberError)>)
        ensures
            r@ == self.errors_seq(),
    {
        &self.subscriber_errors
    }

    /// The subscriber registry, for inspection: handles beside subscribers,
    /// in registration order.
    pub fn subscribers(&self) -> (r: &Vec<(u64, U)>)
        ensures
            r@ == self.subscribers_seq(),
    {
        &self.subscribers
    }

    /// Append a reducer to the reducer registry; it runs after every reducer
    /// already registered. Returns the handle that removes it again.
    pub fn add_reducer(&mut self, reducer: R) -> (id: u64)
        requires
            old(self).wf(),
            old(self).next_id_spec() < u64::MAX,
        ensures
            final(self).wf(),
            id == old(self).next_id_spec(),
            final(self).next_id_spec() == old(self).next_id_spec() + 1,
            final(self).reducers_seq() == old(self).reducers_seq().push((id, reducer)),
            final(self).middlewares_seq() == old(self).middlewares_seq(),
            final(self).subscribers_seq() == old(self).subscribers_seq(),
            final(self).spec_state() == old(self).spec_state(),
            final(self).errors_seq() == old(self).errors_seq(),
            final(self).deliveries_seq() == old(self).deliveries_seq(),
    {
        let id = self.next_id;
        self.next_id = self.next_id + 1;
        self.reducers.push((id, reducer));
        id
    }

    /// Append a middleware stage to the middleware registry; it runs after
    /// every stage already registered. Returns the handle that removes it
    /// again.
    pub fn add_middleware(&mut self, middleware: M) -> (id: u64)
        requires
            old(self).wf(),
            old(self).next_id_spec() < u64::MAX,
        ensures
            final(self).wf(),
            id == old(self).next_id_spec(),
            final(self).next_id_spec() == old(self).next_id_spec() + 1,
            final(self).middlewares_seq() == old(self).middlewares_seq().push((id, middleware)),
            final(self).reducers_seq() == old(self).reducers_seq(),
            final(self).subscribers_seq() == old(self).subscribers_seq(),
            final(self).spec_state() == old(self).spec_state(),
            final(self).errors_seq() == old(self).errors_seq(),
            final(self).deliveries_seq() == old(self).deliveries_seq(),
    {
        let id = self.next_id;
        self.next_id = self.next_id + 1;
        self.middlewares.push((id, middleware));
        id
    }

    /// Append a subscriber to the subscriber registry; it is notified after
    /// every subscriber already registered. Returns the handle that removes
    /// it again.
    pub fn subscribe(&mut self, subscriber: U) -> (id: u64)
        requires
            old(self).wf(),
            old(self).next_id_spec() < u64::MAX,
        ensures
            final(self).wf(),
            id == old(self).next_id_spec(),
            final(self).next_id_spec() == old(self).next_id_spec() + 1,
            final(self).subscribers_seq() == old(self).subscribers_seq().push((id, subscriber)),
            final(self).reducers_seq() == old(self).reducers_seq(),
            final(self).middlewares_seq() == old(self).middlewares_seq(),
            final(self).spec_state() == old(self).spec_state(),
            final(self).errors_seq() == old(self).errors_seq(),
            final(self).deliveries_seq() == old(self).deliveries_seq(),
    {
        let id = self.next_id;
        self.next_id = self.next_id + 1;
        self.subscribers.push((id, subscriber));
        id
    }

    /// Remove the reducer this handle names; report the handle if it names
    /// none. The other entries keep their order.
    pub fn remove_reducer(&mut self, id: u64) -> (r: Result<(), RegistrationError>)
        requires
            old(self).wf(),
        ensures
            final(self).wf(),
            (match r {
                Ok(_) => has_id(old(self).reducers_seq(), id) && final(self).reducers_seq()
                    == old(self).reducers_seq().remove(
                    index_of_id(old(self).reducers_seq(), id),
                ),
                Err(e) => !has_id(old(self).reducers_seq(), id) && e == (RegistrationError { id })
                    && final(self).reducers_seq() == old(self).reducers_seq(),
            }),
            final(self).middlewares_seq() == old(self).middlewares_seq(),
            final(self).subscribers_seq() == old(self).subscribers_seq(),
            final(self).spec_state() == old(self).spec_state(),
            final(self).errors_seq() == old(self).errors_seq(),
            final(self).deliveries_seq() == old(self).deliveries_seq(),
            final(self).next_id_spec() == old(self).next_id_spec(),
    {
        let r = remove_by_id(&mut self.reducers, id);
        proof {
            if r is Ok {
                lemma_index_of_id(old(self).reducers_seq(), id);
                lemma_ids_ok_remove(
                    old(self).reducers_seq(),
                    self.next_id,
                    index_of_id(old(self).reducers_seq(), id),
                );
            }
        }
        r
    }

    /// Remove the middleware stage this handle names; report the handle if
    /// it names none. The other entries keep their order.
    pub fn remove_middleware(&mut self, id: u64) -> (r: Result<(), RegistrationError>)
        requires
            old(self).wf(),
        ensures
            final(self).wf(),
            (match r {
                Ok(_) => has_id(old(self).middlewares_seq(), id) && final(self).middlewares_seq()
                    == old(self).middlewares_seq().remove(
                    index_of_id(old(self).middlewares_seq(), id),
                ),
                Err(e) => !has_id(old(self).middlewares_seq(), id) && e == (RegistrationError {
                    id,
                }) && final(self).middlewares_seq() == old(self).middlewares_seq(),
            }),
            final(self).reducers_seq() == old(self).reducers_seq(),
            final(self).subscribers_seq() == old(self).subscribers_seq(),
            final(self).spec_state() == old(self).spec_state(),
            final(self).errors_seq() == old(self).errors_seq(),
            final(self).deliveries_seq() == old(self).deliveries_seq(),
            final(self).next_id_spec() == old(self).next_id_spec(),
    {
        let r = remove_by_id(&mut self.middlewares, id);
        proof {
            if r is Ok {
                lemma_index_of_id(old(self).middlewares_seq(), id);
                lemma_ids_ok_remove(
                    old(self).middlewares_seq(),
                    self.next_id,
                    index_of_id(old(self).middlewares_seq(), id),
                );
            }
        }
        r
    }

    /// Remove the subscriber this handle names; report the handle if it
    /// names none. The other entries keep their order.
    pub fn unsubscribe(&mut self, id: u64) -> (r: Result<(), RegistrationError>)
        requires
            old(self).wf(),
        ensures
            final(self).wf(),
            (match r {
                Ok(_) => has_id(old(self).subscribers_seq(), id) && final(self).subscribers_seq()
                    == old(self).subscribers_seq().remove(
                    index_of_id(old(self).subscribers_seq(), id),
                ),
                Err(e) => !has_id(old(self).subscribers_seq(), id) && e == (RegistrationError {
                    id,
                }) && final(self).subscribers_seq() == old(self).subscribers_seq(),
            }),
            final(self).reducers_seq() == old(self).reducers_seq(),
            final(self).middlewares_seq() == old(self).middlewares_seq(),
            final(self).spec_state() == old(self).spec_state(),
            final(self).errors_seq() == old(self).errors_seq(),
            final(self).deliveries_seq() == old(self).deliveries_seq(),
            final(self).next_id_spec() == old(self).next_id_spec(),
    {
        let r = remove_by_id(&mut self.subscribers, id);
        proof {
            if r is Ok {
                lemma_index_of_id(old(self).subscribers_seq(), id);
                lemma_ids_ok_remove(
                    old(self).subscribers_seq(),
                    self.next_id,
                    index_of_id(old(self).subscribers_seq(), id),
                );
            }
        }
        r
    }

    /// Dispatch one action.
    ///
    /// The action runs through the middleware stages in registration order,
    /// one level of the pending queue at a time: a stage may suppress it,
    /// pass it on, or fan it out, and successor actions queue behind the
    /// actions already pending, so the expansion keeps breadth-first order.
    /// Every surviving action then folds through the reducer chain, and the
    /// whole expansion commits as one single state replacement. After the
    /// commit, every subscriber is notified with the committed state, in
    /// registration order; a subscriber error is recorded and isolated.
    ///
    /// A middleware or reducer error aborts the dispatch instead: the error
    /// is returned, and the store is left exactly as it was — no commit, no
    /// notification.
    #[verifier::loop_isolation(false)]
    pub fn dispatch(&mut self, action: A) -> (r: Result<(), DispatchError>)
        requires
            old(self).wf(),
        ensures
            final(self).wf(),
            final(self).reducers_seq() == old(self).reducers_seq(),
            final(self).middlewares_seq() == old(self).middlewares_seq(),
            final(self).next_id_spec() == old(self).next_id_spec(),
            (match r {
                Ok(_) => {
                    &&& old(self).outcome_of(action) == Ok::<S, DispatchError>(
                        final(self).spec_state(),
                    )
                    &&& subs_notified(
                        old(self).subscribers_seq(),
                        final(self).spec_state(),
                        final(self).subscribers_seq(),
                    )
                    &&& final(self).deliveries_seq() == old(self).deliveries_seq()
                        + delivery_batch(old(self).subscribers_seq(), final(self).spec_state())
                    &&& final(self).errors_seq() == old(self).errors_seq() + error_batch(
                        old(self).subscribers_seq(),
                        final(self).spec_state(),
                    )
                },
                Err(e) => {
                    &&& old(self).outcome_of(action) == Err::<S, DispatchError>(e)
                    &&& *final(self) == *old(self)
                },
            }),
    {
        let ghost pre = *old(self);
        let ghost st0 = pre.spec_state();
        let ghost mws = registered(pre.middlewares_seq());
        let ghost rs = registered(pre.reducers_seq());
        let ghost initial = seq![action];

        // Middleware expansion, one level of the pending queue at a time.
        let mut pending: Vec<A> = Vec::new();
        pending.push(action);
        proof {
            assert(pending@ =~= initial);
        }
        let mut i: usize = 0;
        while i < self.middlewares.len()
            invariant
                i <= self.middlewares.len(),
                expand_from(mws, i as int, st0, pending@) == expand_from(mws, 0, st0, initial),
            decreases self.middlewares.len() - i,
        {
            let ghost m = mws[i as int];
            let ghost level = pending@;
            let mut next: Vec<A> = Vec::new();
            proof {
                assert(next@ =~= Seq::<A>::empty());
            }
            while pending.len() > 0
                invariant
                    i < self.middlewares.len(),
                    (match flat_run(m, st0, pending@) {
                        Ok(tail) => flat_run(m, st0, level) == Ok::<Seq<A>, MiddlewareError>(next@ + tail),
                        Err(e) => flat_run(m, st0, level) == Err::<Seq<A>, MiddlewareError>(e),
                    }),
                decreases pending.len(),
            {
                let ghost before = pending@;
                let a = pending.remove(0);
                proof {
                    assert(before[0] == a);
                    assert(pending@ =~= before.drop_first());
                    assert(m == self.middlewares@[i as int].1);
                }
                match self.middlewares[i].1.run(&self.state, a) {
                    Ok(mut produced) => {
                        let ghost out = produced@;
                        let ghost prev_next = next@;
                        next.append(&mut produced);
                        proof {
                            assert(m.run_spec(st0, a) == Ok::<Seq<A>, MiddlewareError>(out));
                            assert(next@ == prev_next + out);
                            match flat_run(m, st0, pending@) {
                                Ok(tail) => {
                                    assert(flat_run(m, st0, before) == Ok::<Seq<A>,
                                        MiddlewareError,
                                    >(out + tail));
                                    assert(flat_run(m, st0, level) == Ok::<Seq<A>,
                                        MiddlewareError,
                                    >(prev_next + (out + tail)));
                                    assert(prev_next + (out + tail) =~= next@ + tail);
                                },
                                Err(_) => {},
                            }
                        }
                    },
                    Err(e) => {
                        proof {
                            assert(m.run_spec(st0, a) == Err::<Seq<A>, MiddlewareError>(e));
                            assert(flat_run(m, st0, before) == Err::<Seq<A>, MiddlewareError>(e));
                            assert(expand_from(mws, i as int, st0, level) == Err::<Seq<A>, MiddlewareError>(e));
                        }
                        return Err(DispatchError::Middleware(e));
                    },
                }
            }
            proof {
                assert(flat_run(m, st0, pending@) == Ok::<Seq<A>, MiddlewareError>(Seq::<A>::empty()));
                assert(next@ + Seq::<A>::empty() =~= next@);
                assert(flat_run(m, st0, level) == Ok::<Seq<A>, MiddlewareError>(next@));
                assert(expand_from(mws, i as int, st0, level) == expand_from(
                    mws,
                    i as int + 1,
                    st0,
                    next@,
                ));
            }
            pending = next;
            i += 1;
        }
        let ghost acts = pending@;
        proof {
            assert(expand_from(mws, 0, st0, initial) == Ok::<Seq<A>, MiddlewareError>(acts));
        }

        // Reducer fold: every surviving action, in queue order, through the
        // whole chain, into one candidate state.
        let mut committed: Option<S> = None;
        let mut k: usize = 0;
        proof {
            assert(acts.take(0) =~= Seq::<A>::empty());
        }
        while k < pending.len()
            invariant
                k <= pending.len(),
                pending@ == acts,
                (match committed {
                    Some(s) => reduce_all(rs, st0, acts.take(k as int)) == Ok::<S, ReducerError>(s),
                    None => reduce_all(rs, st0, acts.take(k as int)) == Ok::<S, ReducerError>(st0),
                }),
            decreases pending.len() - k,
        {
            let ghost base = candidate(committed, st0);
            proof {
                assert(reduce_all(rs, st0, acts.take(k as int)) == Ok::<S, ReducerError>(base));
                assert(rs.skip(0) =~= rs);
            }
            let mut j: usize = 0;
            while j < self.reducers.len()
                invariant
                    j <= self.reducers.len(),
                    k < pending.len(),
                    (match committed {
                        Some(s) => reduce_chain(rs.skip(j as int), s, acts[k as int])
                            == reduce_chain(rs, base, acts[k as int]),
                        None => reduce_chain(rs.skip(j as int), st0, acts[k as int])
                            == reduce_chain(rs, base, acts[k as int]),
                    }),
                decreases self.reducers.len() - j,
            {
                let ghost cur = candidate(committed, st0);
                let input: &S = match &committed {
                    Some(s) => s,
                    None => &self.state,
                };
                proof {
                    assert(rs.skip(j as int)[0] == rs[j as int]);
                    assert(rs.skip(j as int).drop_first() =~= rs.skip(j as int + 1));
                    assert(rs[j as int] == self.reducers@[j as int].1);
                }
                match self.reducers[j].1.reduce(input, &pending[k]) {
                    Ok(s2) => {
                        proof {
                            assert(rs[j as int].reduce_spec(cur, acts[k as int]) == Ok::<S, ReducerError>(
                                s2,
                            ));
                            assert(reduce_chain(rs.skip(j as int), cur, acts[k as int])
                                == reduce_chain(rs.skip(j as int + 1), s2, acts[k as int]));
                        }
                        committed = Some(s2);
                    },
                    Err(e) => {
                        proof {
                            assert(rs[j as int].reduce_spec(cur, acts[k as int]) == Err::<S, ReducerError>(
                                e,
                            ));
                            assert(reduce_chain(rs, base, acts[k as int]) == Err::<S, ReducerError>(e));
                            crate::semantics::lemma_reduce_all_append(
                                rs,
                                st0,
                                acts.take(k as int),
                                acts.skip(k as int),
                            );
                            assert(acts.take(k as int) + acts.skip(k as int) =~= acts);
                            assert(acts.skip(k as int)[0] == acts[k as int]);
                            assert(acts.skip(k as int).drop_first() =~= acts.skip(k as int + 1));
                            assert(reduce_all(rs, base, acts.skip(k as int)) == Err::<S, ReducerError>(e));
                            assert(reduce_all(rs, st0, acts) == Err::<S, ReducerError>(e));
                        }
                        return Err(DispatchError::Reducer(e));
                    },
                }
                j += 1;
            }
            proof {
                let cur2 = candidate(committed, st0);
                assert(rs.skip(self.reducers.len() as int) =~= Seq::<R>::empty());
                assert(reduce_chain(rs, base, acts[k as int]) == Ok::<S, ReducerError>(cur2));
                crate::semantics::lemma_reduce_all_push(rs, st0, acts.take(k as int), acts[k as int]);
                assert(acts.take(k as int).push(acts[k as int]) =~= acts.take(k as int + 1));
            }
            k += 1;
        }
        proof {
            assert(acts.take(pending.len() as int) =~= acts);
        }

        // Commit: one single state replacement for the whole dispatch.
        match committed {
            Some(s) => {
                self.state = s;
            },
            None => {},
        }
        let ghost committed_state = self.state;
        proof {
            assert(reduce_all(rs, st0, acts) == Ok::<S, ReducerError>(committed_state));
            assert(pre.outcome_of(action) == Ok::<S, DispatchError>(committed_state));
        }

        // Notification: every subscriber, in registration order, receives
        // the committed state; errors are recorded and isolated.
        let ghost pre_subs = pre.subscribers_seq();
        let ghost pre_errs = pre.errors_seq();
        let ghost pre_deliv = pre.deliveries_seq();
        let n = self.subscribers.len();
        let mut t: usize = 0;
        while t < n
            invariant
                t <= n,
                self.subscribers@.len() == n,
                self.state == committed_state,
                self.reducers@ == pre.reducers_seq(),
                self.middlewares@ == pre.middlewares_seq(),
                self.next_id == pre.next_id_spec(),
                self.subscribers@.subrange(0, n - t) == pre_subs.skip(t as int),
                forall|x: int|
                    0 <= x < t ==> (#[trigger] self.subscribers@[n - t + x]).0 == pre_subs[x].0
                        && U::notified(
                        pre_subs[x].1,
                        committed_state,
                        self.subscribers@[n - t + x].1,
                    ),
                self.subscriber_errors@ == pre_errs + error_batch(
                    pre_subs.take(t as int),
                    committed_state,
                ),
                self.deliveries@ == pre_deliv + delivery_batch(
                    pre_subs.take(t as int),
                    committed_state,
                ),
            decreases n - t,
        {
            let ghost subs_before = self.subscribers@;
            proof {
                assert(subs_before[0] == subs_before.subrange(0, n - t)[0]);
                assert(subs_before[0] == pre_subs[t as int]);
            }
            let (id, mut u) = self.subscribers.remove(0);
            let res = u.notify(&self.state);
            match res {
                Ok(_) => {},
                Err(e) => {
                    self.subscriber_errors.push((id, e));
                },
            }
            self.subscribers.push((id, u));
            self.deliveries = Ghost(self.deliveries@.push((id, committed_state)));
            proof {
                let subs_after = self.subscribers@;
                assert(subs_after =~= subs_before.remove(0).push((id, u)));
                assert(subs_after.subrange(0, n - t - 1) =~= pre_subs.skip(t as int + 1)) by {
                    assert forall|x: int| 0 <= x < n - t - 1 implies subs_after[x] == pre_subs[t
                        + 1 + x] by {
                        assert(subs_after[x] == subs_before[x + 1]);
                        assert(subs_before[x + 1] == subs_before.subrange(0, n - t)[x + 1]);
                    }
                }
                assert forall|x: int|
                    0 <= x < t + 1 implies (#[trigger] subs_after[n - (t + 1) + x]).0
                    == pre_subs[x].0 && U::notified(
                    pre_subs[x].1,
                    committed_state,
                    subs_after[n - (t + 1) + x].1,
                ) by {
                    if x < t {
                        assert(subs_after[n - t - 1 + x] == subs_before[n - t + x]);
                    } else {
                        assert(subs_after[n - 1] == (id, u));
                    }
                }
                assert(pre_subs.take(t as int + 1) =~= pre_subs.take(t as int).push(
                    pre_subs[t as int],
                ));
                crate::semantics::lemma_error_batch_push(
                    pre_subs.take(t as int),
                    committed_state,
                    pre_subs[t as int],
                );
                match U::notify_result_spec(pre_subs[t as int].1, committed_state) {
                    Ok(_) => {},
                    Err(e) => {
                        assert((pre_errs + error_batch(pre_subs.take(t as int), committed_state))
                            + seq![(id, e)] =~= pre_errs + (error_batch(
                            pre_subs.take(t as int),
                            committed_state,
                        ) + seq![(id, e)]));
                    },
                }
                assert(delivery_batch(pre_subs.take(t as int + 1), committed_state)
                    =~= delivery_batch(pre_subs.take(t as int), committed_state).push(
                    (pre_subs[t as int].0, committed_state),
                ));
                assert((pre_deliv + delivery_batch(pre_subs.take(t as int), committed_state)).push(
                    (id, committed_state),
                ) =~= pre_deliv + delivery_batch(pre_subs.take(t as int + 1), committed_state));
            }
            t += 1;
        }
        proof {
            assert(pre_subs.take(n as int) =~= pre_subs);
            assert forall|x: int|
                0 <= x < n implies (#[trigger] self.subscribers@[x]).0 == pre_subs[x].0
                && U::notified(pre_subs[x].1, committed_state, self.subscribers@[x].1) by {
                assert(self.subscribers@[n - t + x].0 == pre_subs[x].0 && U::notified(
                    pre_subs[x].1,
                    committed_state,
                    self.subscribers@[n - t + x].1,
                ));
            }
            assert(subs_notified(pre_subs, committed_state, self.subscribers@));
            assert(ids_ok(self.subscribers@, self.next_id)) by {
                assert forall|j2: int, k2: int|
                    0 <= j2 < k2 < self.subscribers@.len() implies (
                    #[trigger] self.subscribers@[j2]).0 != (#[trigger] self.subscribers@[k2]).0 by {
                    assert(self.subscribers@[j2].0 == pre_subs[j2].0);
                    assert(self.subscribers@[k2].0 == pre_subs[k2].0);
                }
                assert forall|j2: int| 0 <= j2 < self.subscribers@.len() implies (
                #[trigger] self.subscribers@[j2]).0 < self.next_id by {
                    assert(self.subscribers@[j2].0 == pre_subs[j2].0);
                }
            }
        }
        Ok(())
    }
}

} // verus!
