use vstd::prelude::*;

verus! {

/// Declares tokio's unbounded mpsc sender so the registry can own one per
/// listener. The channel's internal state is opaque to the library.
#[verifier::external_type_specification]
#[verifier::external_body]
#[verifier::reject_recursive_types(T)]
pub struct ExUnboundedSender<T>(tokio::sync::mpsc::UnboundedSender<T>);

/// Declares tokio's unbounded mpsc receiver: the handle a listener consumes.
#[verifier::external_type_specification]
#[verifier::external_body]
#[verifier::reject_recursive_types(T)]
pub struct ExUnboundedReceiver<T>(tokio::sync::mpsc::UnboundedReceiver<T>);

/// Relies on tokio's `mpsc::unbounded_channel`: returns the two halves of a
/// fresh channel; what is pushed into the sending half comes out of the
/// receiving half in push order.
#[verifier::external_body]
fn make_channel<T>() -> (
    tokio::sync::mpsc::UnboundedSender<T>,
    tokio::sync::mpsc::UnboundedReceiver<T>,
) {
    tokio::sync::mpsc::unbounded_channel()
}

/// Relies on tokio's `UnboundedSender::send`: a synchronous push that never
/// blocks, succeeds exactly when the receiving half is still open, and hands
/// values to the receiver in push order; and on `T::clone` for the listener's
/// own copy of the event.
#[verifier::external_body]
fn push_to_listener<T: Clone>(
    tx: &tokio::sync::mpsc::UnboundedSender<T>,
    event: &T,
) -> (delivered: bool) {
    tx.send(event.clone()).is_ok()
}

/// The ids of a sequence of listener entries, in the same order.
spec fn ids_of<T>(s: Seq<ListenerEntry<T>>) -> Seq<u64> {
    s.map_values(|e: ListenerEntry<T>| e.id)
}

/// One registered listener: its id and the sending half of its delivery
/// channel.
#[verifier::reject_recursive_types(T)]
struct ListenerEntry<T> {
    id: u64,
    tx: tokio::sync::mpsc::UnboundedSender<T>,
}

/// Fan-out registry: every event posted with `notify` is delivered once, in
/// posting order, to every listener registered at that moment; a listener
/// registered later starts with an empty history and never sees earlier
/// events (there is no replay buffer). A listener whose receiving half is
/// gone is pruned on the next post.
#[verifier::reject_recursive_types(T)]
pub struct ShareListener<T> {
    entries: Vec<ListenerEntry<T>>,
    next_id: u64,
    log: Ghost<Map<u64, Seq<T>>>,
}

impl<T> ShareListener<T> {
    /// Ids of the currently registered listeners, in registration order.
    pub closed spec fn ids(self) -> Seq<u64> {
        ids_of(self.entries@)
    }

    /// Whether a listener with this id is currently registered.
    pub open spec fn registered(self, id: u64) -> bool {
        self.ids().contains(id)
    }

    /// How many ids have been handed out; also the next id to be given.
    pub closed spec fn allocated(self) -> u64 {
        self.next_id
    }

    /// The events delivered so far to each listener ever registered, in
    /// delivery order.
    pub closed spec fn history(self) -> Map<u64, Seq<T>> {
        self.log@
    }

    /// Registered ids are strictly increasing (so unique), below the
    /// allocator, and each has a delivery history.
    pub open spec fn wf(self) -> bool {
        &&& forall|i: int, j: int|
            0 <= i < j < self.ids().len() ==> self.ids()[i] < self.ids()[j]
        &&& forall|i: int| 0 <= i < self.ids().len() ==> #[trigger] self.ids()[i] < self.allocated()
        &&& forall|i: int|
            0 <= i < self.ids().len() ==> self.history().dom().contains(#[trigger] self.ids()[i])
    }

    /// How many listener ids have been handed out, as `allocated` says:
    /// lets an unverified caller test the id allocator's machine limit
    /// before registering a listener.
    pub fn allocated_count(&self) -> (n: u64)
        ensures
            n == self.allocated(),
    {
        self.next_id
    }

    /// An empty registry: no listeners, no histories, ids start at zero.
    pub fn new() -> (r: Self)
        ensures
            r.wf(),
            r.ids() == Seq::<u64>::empty(),
            r.allocated() == 0,
            r.history() == Map::<u64, Seq<T>>::empty(),
    {
        ShareListener { entries: Vec::new(), next_id: 0, log: Ghost(Map::empty()) }
    }

    /// Registers a new listener and returns the receiving half of its
    /// delivery channel. The listener's history starts empty: events posted
    /// before this call are never observed by it.
    pub fn new_listener(&mut self) -> (rx: tokio::sync::mpsc::UnboundedReceiver<T>)
        requires
            old(self).wf(),
            old(self).allocated() < u64::MAX,
        ensures
            final(self).wf(),
            final(self).allocated() == old(self).allocated() + 1,
            final(self).ids() == old(self).ids().push(old(self).allocated()),
            !old(self).registered(old(self).allocated()),
            final(self).history() == old(self).history().insert(
                old(self).allocated(),
                Seq::<T>::empty(),
            ),
    {
        let (tx, rx) = make_channel::<T>();
        let id = self.next_id;
        self.next_id = id + 1;
        self.entries.push(ListenerEntry { id, tx });
        proof {
            self.log@ = self.log@.insert(id, Seq::empty());
            assert(self.ids() =~= old(self).ids().push(id));
            assert(forall|i: int|
                0 <= i < old(self).ids().len() ==> old(self).ids()[i] == self.ids()[i]);
        }
        rx
    }

    /// What one post does to the registry: no listener appears, the
    /// allocator stands still, and the history of every id is extended by
    /// exactly the posted event if the listener is still registered
    /// afterwards, untouched otherwise — so a listener that stays sees
    /// every posted event, in posting order, exactly once.
    pub open spec fn notified(pre: Self, post: Self, event: T) -> bool {
        &&& post.allocated() == pre.allocated()
        &&& post.history().dom() == pre.history().dom()
        &&& forall|id: u64| #[trigger] post.registered(id) ==> pre.registered(id)
        &&& forall|id: u64|
            pre.history().dom().contains(id) ==> post.history()[id] == (if post.registered(id) {
                pre.history()[id].push(event)
            } else {
                pre.history()[id]
            })
    }

    /// Posts one event: every listener registered now receives it, after
    /// everything delivered to it before; a listener whose receiving half is
    /// gone is removed instead, its history left as it was. Listeners are
    /// never added here, and no delivery is reordered or dropped for a
    /// listener that stays.
    pub fn notify(&mut self, event: T) where T: Clone
        requires
            old(self).wf(),
        ensures
            final(self).wf(),
            Self::notified(*old(self), *final(self), event),
    {
        let ghost orig_ids = self.ids();
        let ghost orig_log = self.log@;
        let mut kept: Vec<ListenerEntry<T>> = Vec::new();
        while self.entries.len() > 0
            invariant
                self.next_id == old(self).next_id,
                self.log@.dom() == orig_log.dom(),
                self.entries@.len() <= orig_ids.len(),
                // what is still to be processed is a suffix of the original ids
                self.ids() =~= orig_ids.subrange(
                    orig_ids.len() - self.entries@.len(),
                    orig_ids.len() as int,
                ),
                // kept ids come from the original registration, stay sorted,
                // and precede everything still unprocessed
                forall|p: int, q: int|
                    0 <= p < q < ids_of(kept@).len() ==> ids_of(kept@)[p] < ids_of(kept@)[q],
                forall|p: int|
                    0 <= p < ids_of(kept@).len() ==> orig_ids.contains(#[trigger] ids_of(kept@)[p]),
                forall|p: int|
                    0 <= p < ids_of(kept@).len() ==> #[trigger] ids_of(kept@)[p] < self.next_id,
                forall|p: int|
                    0 <= p < ids_of(kept@).len() ==> self.log@.dom().contains(
                        #[trigger] ids_of(kept@)[p],
                    ),
                forall|p: int, q: int|
                    0 <= p < ids_of(kept@).len() && 0 <= q < self.ids().len() ==> ids_of(kept@)[p]
                        < self.ids()[q],
                // the log: extended by the event for kept ids, untouched else
                forall|id: u64|
                    orig_log.dom().contains(id) ==> self.log@[id] == (
                    if ids_of(kept@).contains(id) {
                        orig_log[id].push(event)
                    } else {
                        orig_log[id]
                    }),
                // unprocessed entries still satisfy the original well-formedness
                forall|q: int, r: int|
                    0 <= q < r < self.ids().len() ==> self.ids()[q] < self.ids()[r],
                forall|q: int| 0 <= q < self.ids().len() ==> #[trigger] self.ids()[q] < self.next_id,
                forall|q: int|
                    0 <= q < self.ids().len() ==> self.log@.dom().contains(#[trigger] self.ids()[q]),
            decreases self.entries.len(),
        {
            let ghost kept_ids_pre = ids_of(kept@);
            let ghost prev = self.entries@;
            let ghost k = orig_ids.len() - self.entries@.len();
            proof {
                assert(self.ids()[0] == self.entries@[0].id);
                assert(self.ids()[0] == orig_ids[k]);
            }
            let e = self.entries.remove(0);
            proof {
                assert(e.id == orig_ids[k]);
                assert(orig_ids.contains(e.id)) by {
                    assert(orig_ids[k] == e.id);
                }
                prev.remove_ensures(0);
                assert forall|i: int| 0 <= i < self.entries@.len() implies #[trigger] self.ids()[i]
                    == orig_ids[k + 1 + i] by {
                    assert(self.entries@[i] == prev[i + 1]);
                    assert(ids_of(prev)[i + 1] == prev[i + 1].id);
                }
                assert(self.ids() =~= orig_ids.subrange(k + 1, orig_ids.len() as int));
                assert forall|q: int| 0 <= q < self.ids().len() implies e.id < self.ids()[q] by {
                    assert(self.ids()[q] == orig_ids[k + 1 + q]);
                    assert(ids_of(prev)[0] == orig_ids[k]);
                    assert(ids_of(prev)[1 + q] == orig_ids[k + 1 + q]);
                    assert(ids_of(prev)[0] < ids_of(prev)[1 + q]);
                }
                assert(!kept_ids_pre.contains(e.id)) by {
                    assert forall|p: int|
                        0 <= p < kept_ids_pre.len() implies kept_ids_pre[p] != e.id by {
                        assert(kept_ids_pre[p] < ids_of(prev)[0]);
                    }
                }
                assert forall|q: int, r: int|
                    0 <= q < r < self.ids().len() implies self.ids()[q] < self.ids()[r] by {
                    assert(self.ids()[q] == ids_of(prev)[q + 1]);
                    assert(self.ids()[r] == ids_of(prev)[r + 1]);
                    assert(ids_of(prev)[q + 1] < ids_of(prev)[r + 1]);
                }
                assert forall|q: int|
                    0 <= q < self.ids().len() implies self.ids()[q] < self.next_id by {
                    assert(self.ids()[q] == ids_of(prev)[q + 1]);
                    assert(ids_of(prev)[q + 1] < self.next_id);
                }
                assert forall|q: int|
                    0 <= q < self.ids().len() implies self.log@.dom().contains(self.ids()[q]) by {
                    assert(self.ids()[q] == ids_of(prev)[q + 1]);
                    assert(self.log@.dom().contains(ids_of(prev)[q + 1]));
                }
            }
            let delivered = push_to_listener(&e.tx, &event);
            if delivered {
                let ghost log_pre = self.log@;
                proof {
                    self.log@ = self.log@.insert(e.id, self.log@[e.id].push(event));
                }
                kept.push(e);
                proof {
                    assert(ids_of(kept@) =~= kept_ids_pre.push(e.id));
                    assert(self.log@.dom() =~= log_pre.dom());
                    assert forall|id: u64| orig_log.dom().contains(id) implies self.log@[id] == (
                    if ids_of(kept@).contains(id) {
                        orig_log[id].push(event)
                    } else {
                        orig_log[id]
                    }) by {
                        if id == e.id {
                            assert(ids_of(kept@)[ids_of(kept@).len() - 1] == e.id);
                            assert(ids_of(kept@).contains(e.id));
                            assert(log_pre[e.id] == orig_log[e.id]);
                        } else {
                            assert(self.log@[id] == log_pre[id]);
                            if kept_ids_pre.contains(id) {
                                let p = choose|p: int|
                                    0 <= p < kept_ids_pre.len() && kept_ids_pre[p] == id;
                                assert(ids_of(kept@)[p] == id);
                                assert(ids_of(kept@).contains(id));
                            } else {
                                if ids_of(kept@).contains(id) {
                                    let p = choose|p: int|
                                        0 <= p < ids_of(kept@).len() && ids_of(kept@)[p] == id;
                                    assert(p < kept_ids_pre.len());
                                    assert(kept_ids_pre[p] == id);
                                    assert(false);
                                }
                            }
                        }
                    }
                }
            } else {
                proof {
                    assert(ids_of(kept@) == kept_ids_pre);
                }
            }
        }
        self.entries = kept;
    }
}

impl<T> ShareListener<T> {
    /// A run of consecutive posts: each event of `events`, in order, was
    /// posted by one `notify` call, with no other operation in between.
    pub open spec fn notified_all(pre: Self, post: Self, events: Seq<T>) -> bool
        decreases events.len(),
    {
        if events.len() == 0 {
            post == pre
        } else {
            exists|mid: Self|
                #[trigger] Self::notified(pre, mid, events[0]) && Self::notified_all(
                    mid,
                    post,
                    events.skip(1),
                )
        }
    }

    /// Law: over any run of posts, a listener still registered at the end
    /// was registered throughout and observed exactly the posted sequence,
    /// in posting order, appended to what it had observed before — no
    /// drops, no reordering.
    pub proof fn lemma_listener_observes_all(pre: Self, post: Self, events: Seq<T>, id: u64)
        requires
            Self::notified_all(pre, post, events),
            post.registered(id),
            pre.history().dom().contains(id),
        ensures
            pre.registered(id),
            post.history()[id] == pre.history()[id] + events,
        decreases events.len(),
    {
        if events.len() == 0 {
            assert(post == pre);
            assert(pre.history()[id] + events =~= pre.history()[id]);
        } else {
            let mid = choose|mid: Self|
                #[trigger] Self::notified(pre, mid, events[0]) && Self::notified_all(
                    mid,
                    post,
                    events.skip(1),
                );
            assert(mid.history().dom() == pre.history().dom());
            Self::lemma_listener_observes_all(mid, post, events.skip(1), id);
            assert(mid.history()[id] == pre.history()[id].push(events[0]));
            assert(events =~= seq![events[0]] + events.skip(1));
            assert(pre.history()[id].push(events[0]) =~= pre.history()[id] + seq![events[0]]);
            assert(post.history()[id] =~= pre.history()[id] + events);
        }
    }

    /// Law: a listener registered after some events were posted never
    /// observes them — its history at registration is empty, so after any
    /// further run of posts it holds exactly the events posted since, and
    /// nothing from before.
    pub proof fn lemma_no_replay(at_subscribe: Self, later: Self, events: Seq<T>, id: u64)
        requires
            at_subscribe.history().dom().contains(id),
            at_subscribe.history()[id] == Seq::<T>::empty(),
            Self::notified_all(at_subscribe, later, events),
            later.registered(id),
        ensures
            later.history()[id] == events,
    {
        Self::lemma_listener_observes_all(at_subscribe, later, events, id);
        assert(Seq::<T>::empty() + events =~= events);
    }
}

impl<T> Default for ShareListener<T> {
    /// Same as `new`: an empty registry.
    fn default() -> (r: Self)
        ensures
            r.wf(),
            r.ids() == Seq::<u64>::empty(),
            r.allocated() == 0,
            r.history() == Map::<u64, Seq<T>>::empty(),
    {
        ShareListener::new()
    }
}

} // verus!
