//! A mutable cell with an ordered list of live subscriptions.
//!
//! The cell does not hold callbacks. Each subscription is a handle, and a
//! mutation answers with the handles to call, in the order in which they were
//! registered. Whoever owns the callbacks runs them from that answer.

use vstd::prelude::*;

verus! {

/// The subscriptions `subs` without `handle`, the others in their order.
pub open spec fn without(subs: Seq<u64>, handle: u64) -> Seq<u64> {
    if subs.contains(handle) {
        subs.remove(subs.index_of(handle))
    } else {
        subs
    }
}

/// The notifications of one mutation: one for each subscription, in
/// subscription order, each carrying the value that the mutation set.
pub open spec fn round<T>(subs: Seq<u64>, value: T) -> Seq<(u64, T)> {
    Seq::new(subs.len(), |i: int| (subs[i], value))
}

/// The notifications of the mutations `values`, applied one after another
/// while the subscriptions stay `subs`.
pub open spec fn deliveries<T>(subs: Seq<u64>, values: Seq<T>) -> Seq<(u64, T)>
    decreases values.len(),
{
    if values.len() == 0 {
        Seq::empty()
    } else {
        deliveries(subs, values.drop_last()) + round(subs, values.last())
    }
}

/// The values that the subscription `handle` was handed in `log`, in order.
pub open spec fn received<T>(log: Seq<(u64, T)>, handle: u64) -> Seq<T>
    decreases log.len(),
{
    if log.len() == 0 {
        Seq::empty()
    } else if log.last().0 == handle {
        received(log.drop_last(), handle).push(log.last().1)
    } else {
        received(log.drop_last(), handle)
    }
}

/// The live subscriptions of one cell, oldest first, and the count of the
/// handles given out.
pub struct Subscriptions {
    handles: Vec<u64>,
    issued: u64,
}

impl Subscriptions {
    /// The live handles, oldest first.
    pub closed spec fn handles(&self) -> Seq<u64> {
        self.handles@
    }

    /// How many handles were given out so far.
    pub closed spec fn issued(&self) -> nat {
        self.issued as nat
    }

    /// No handle is live twice, and every live handle was given out.
    pub open spec fn wf(&self) -> bool {
        &&& self.handles().no_duplicates()
        &&& forall|i: int|
            0 <= i < self.handles().len() ==> (#[trigger] self.handles()[i]) < self.issued()
    }

    #[verifier::type_invariant]
    closed spec fn always(&self) -> bool {
        self.wf()
    }

    pub fn new() -> (subs: Self)
        ensures
            subs.wf(),
            subs.handles() == Seq::<u64>::empty(),
            subs.issued() == 0,
    {
        Subscriptions { handles: Vec::new(), issued: 0 }
    }

    pub fn len(&self) -> (n: usize)
        ensures
            n == self.handles().len(),
    {
        self.handles.len()
    }

    pub fn contains(&self, handle: u64) -> (live: bool)
        ensures
            live == self.handles().contains(handle),
    {
        let mut i: usize = 0;
        while i < self.handles.len()
            invariant
                i <= self.handles.len(),
                forall|j: int| 0 <= j < i ==> self.handles@[j] != handle,
            decreases self.handles.len() - i,
        {
            if self.handles[i] == handle {
                return true;
            }
            i += 1;
        }
        false
    }

    /// Whether a handle is left to give out.
    pub fn can_add(&self) -> (left: bool)
        ensures
            left == (self.issued() < u64::MAX),
            self.wf(),
    {
        proof {
            use_type_invariant(self);
        }
        self.issued < u64::MAX
    }

    /// Adds a subscription behind all live ones and gives its handle.
    pub fn add(&mut self) -> (handle: u64)
        requires
            old(self).issued() < u64::MAX,
        ensures
            final(self).wf(),
            handle == old(self).issued(),
            final(self).issued() == old(self).issued() + 1,
            final(self).handles() == old(self).handles().push(handle),
    {
        proof {
            use_type_invariant(&*self);
        }
        let handle: u64 = self.issued;
        let mut handles = self.live();
        handles.push(handle);
        *self = Subscriptions { handles, issued: handle + 1 };
        handle
    }

    /// Takes `handle` out, and says whether it was live.
    pub fn remove(&mut self, handle: u64) -> (was_live: bool)
        ensures
            final(self).wf(),
            final(self).issued() == old(self).issued(),
            final(self).handles() == without(old(self).handles(), handle),
            was_live == old(self).handles().contains(handle),
            !final(self).handles().contains(handle),
    {
        proof {
            use_type_invariant(&*self);
        }
        let mut i: usize = 0;
        while i < self.handles.len()
            invariant
                i <= self.handles.len(),
                *self == *old(self),
                self.wf(),
                forall|j: int| 0 <= j < i ==> self.handles@[j] != handle,
            decreases self.handles.len() - i,
        {
            if self.handles[i] == handle {
                proof {
                    let subs = self.handles@;
                    assert(subs.contains(handle));
                    let k = subs.index_of(handle);
                    assert(subs[k] == handle);
                    assert(k == i);
                    lemma_without_drops(subs, handle);
                }
                let mut handles = self.live();
                handles.remove(i);
                *self = Subscriptions { handles, issued: self.issued };
                return true;
            }
            i += 1;
        }
        false
    }

    /// The live handles, oldest first, as a copy.
    pub fn live(&self) -> (handles: Vec<u64>)
        ensures
            handles@ == self.handles(),
            self.wf(),
    {
        proof {
            use_type_invariant(self);
        }
        let mut handles: Vec<u64> = Vec::new();
        let mut i: usize = 0;
        while i < self.handles.len()
            invariant
                i <= self.handles.len(),
                handles@ == self.handles@.subrange(0, i as int),
            decreases self.handles.len() - i,
        {
            handles.push(self.handles[i]);
            proof {
                assert(self.handles@.subrange(0, i + 1) =~= self.handles@.subrange(
                    0,
                    i as int,
                ).push(self.handles@[i as int]));
            }
            i += 1;
        }
        proof {
            assert(self.handles@.subrange(0, self.handles@.len() as int) =~= self.handles@);
        }
        handles
    }
}

/// A value, and the subscriptions that are told of its changes.
pub struct ReactiveContainer<T> {
    /// The value held. A change made in place is announced by `notify`.
    pub value: T,
    pub subscriptions: Subscriptions,
}

impl<T> ReactiveContainer<T> {
    /// The value held.
    pub open spec fn value(&self) -> T {
        self.value
    }

    /// The live subscriptions, oldest first.
    pub open spec fn subscribers(&self) -> Seq<u64> {
        self.subscriptions.handles()
    }

    /// How many handles were given out so far.
    pub open spec fn issued(&self) -> nat {
        self.subscriptions.issued()
    }

    /// No handle is live twice, and every live handle was given out.
    pub open spec fn wf(&self) -> bool {
        self.subscriptions.wf()
    }

    pub fn new(value: T) -> (cell: Self)
        ensures
            cell.wf(),
            cell.value() == value,
            cell.subscribers() == Seq::<u64>::empty(),
            cell.issued() == 0,
    {
        ReactiveContainer { value, subscriptions: Subscriptions::new() }
    }

    pub fn read(&self) -> (value: &T)
        ensures
            *value == self.value(),
    {
        &self.value
    }

    /// The number of live subscriptions.
    pub fn subscriber_count(&self) -> (n: usize)
        ensures
            n == self.subscribers().len(),
    {
        self.subscriptions.len()
    }

    /// Whether `handle` is live.
    pub fn is_subscribed(&self, handle: u64) -> (live: bool)
        ensures
            live == self.subscribers().contains(handle),
    {
        self.subscriptions.contains(handle)
    }

    /// Whether `subscribe` has a handle left to give out.
    pub fn can_subscribe(&self) -> (left: bool)
        ensures
            left == (self.issued() < u64::MAX),
            self.wf(),
    {
        self.subscriptions.can_add()
    }

    /// Registers a subscription behind all live ones and gives its handle,
    /// which no earlier call gave.
    pub fn subscribe(&mut self) -> (handle: u64)
        requires
            old(self).issued() < u64::MAX,
        ensures
            final(self).wf(),
            final(self).value() == old(self).value(),
            handle == old(self).issued(),
            final(self).issued() == old(self).issued() + 1,
            final(self).subscribers() == old(self).subscribers().push(handle),
    {
        self.subscriptions.add()
    }

    /// Ends the subscription `handle`: it is in no later round. Says whether
    /// it was live.
    pub fn detach(&mut self, handle: u64) -> (was_live: bool)
        ensures
            final(self).wf(),
            final(self).value() == old(self).value(),
            final(self).issued() == old(self).issued(),
            final(self).subscribers() == without(old(self).subscribers(), handle),
            was_live == old(self).subscribers().contains(handle),
            !final(self).subscribers().contains(handle),
    {
        self.subscriptions.remove(handle)
    }

    /// Sets the value and answers with the round to notify: the handles live
    /// at this moment, oldest first. The round is a copy, so a subscription
    /// made or ended while it is worked through does not change it.
    pub fn update(&mut self, value: T) -> (notify: Vec<u64>)
        ensures
            final(self).value() == value,
            final(self).subscriptions == old(self).subscriptions,
            final(self).wf(),
            notify@ == old(self).subscribers(),
    {
        self.value = value;
        self.subscriptions.live()
    }

    /// The round to notify after a change made in place: the handles live
    /// at this moment, oldest first, as a copy.
    pub fn notify(&self) -> (handles: Vec<u64>)
        ensures
            handles@ == self.subscribers(),
            self.wf(),
    {
        self.subscriptions.live()
    }
}

/// Without duplicates in `subs`, `without(subs, handle)` holds no `handle`,
/// has no duplicates, and holds every other handle of `subs`.
pub proof fn lemma_without_drops(subs: Seq<u64>, handle: u64)
    requires
        subs.no_duplicates(),
    ensures
        !without(subs, handle).contains(handle),
        without(subs, handle).no_duplicates(),
        forall|h: u64| h != handle ==> (without(subs, handle).contains(h) <==> subs.contains(h)),
        forall|i: int|
            0 <= i < without(subs, handle).len() ==> subs.contains(
                #[trigger] without(subs, handle)[i],
            ),
{
    let rest = without(subs, handle);
    if subs.contains(handle) {
        let k = subs.index_of(handle);
        assert forall|i: int| 0 <= i < rest.len() implies rest[i] != handle && subs.contains(
            #[trigger] rest[i],
        ) by {
            if i < k {
                assert(rest[i] == subs[i]);
            } else {
                assert(rest[i] == subs[i + 1]);
            }
        }
        assert forall|i: int, j: int| 0 <= i < rest.len() && 0 <= j < rest.len() && i != j implies rest[i] != rest[j] by {
            let a = if i < k { i } else { i + 1 };
            let b = if j < k { j } else { j + 1 };
            assert(rest[i] == subs[a]);
            assert(rest[j] == subs[b]);
        }
        assert forall|h: u64| h != handle && subs.contains(h) implies rest.contains(h) by {
            let a = subs.index_of(h);
            if a < k {
                assert(rest[a] == h);
            } else {
                assert(rest[a - 1] == h);
            }
        }
    }
}

/// What a subscription received from two logs in a row is what it received
/// from the first, then from the second.
pub proof fn lemma_received_concat<T>(first: Seq<(u64, T)>, second: Seq<(u64, T)>, handle: u64)
    ensures
        received(first + second, handle) == received(first, handle) + received(second, handle),
    decreases second.len(),
{
    if second.len() == 0 {
        assert(first + second =~= first);
        assert(received(first, handle) + received(second, handle) =~= received(first, handle));
    } else {
        let whole = first + second;
        assert(whole.drop_last() =~= first + second.drop_last());
        assert(whole.last() == second.last());
        lemma_received_concat(first, second.drop_last(), handle);
        if second.last().0 == handle {
            assert(received(first, handle) + received(second.drop_last(), handle).push(
                second.last().1,
            ) =~= (received(first, handle) + received(second.drop_last(), handle)).push(
                second.last().1,
            ));
        }
    }
}

/// From one round a live subscription receives the new value once, and one
/// that is not live receives nothing.
pub proof fn lemma_received_round<T>(subs: Seq<u64>, value: T, handle: u64)
    requires
        subs.no_duplicates(),
    ensures
        subs.contains(handle) ==> received(round(subs, value), handle) == seq![value],
        !subs.contains(handle) ==> received(round(subs, value), handle) == Seq::<T>::empty(),
    decreases subs.len(),
{
    let log = round(subs, value);
    if subs.len() > 0 {
        let front = subs.drop_last();
        assert(log.drop_last() =~= round(front, value));
        assert(log.last() == (subs.last(), value));
        assert(front.no_duplicates());
        lemma_received_round(front, value, handle);
        if subs.last() == handle {
            assert(!front.contains(handle)) by {
                if front.contains(handle) {
                    let k = front.index_of(handle);
                    assert(subs[k] == handle);
                    assert(subs[subs.len() - 1] == handle);
                }
            }
            assert(Seq::<T>::empty().push(value) =~= seq![value]);
        } else {
            if subs.contains(handle) {
                let k = subs.index_of(handle);
                assert(front[k] == handle);
            }
            if front.contains(handle) {
                let k = front.index_of(handle);
                assert(subs[k] == handle);
            }
        }
    }
}

/// Every subscription that stays live through a run of mutations receives
/// one notification for each of them, carrying the value of that mutation, in
/// the order of the mutations; and within each round the subscriptions are
/// served in the order in which they were registered.
pub proof fn law_live_subscription_receives_every_value<T>(
    subs: Seq<u64>,
    values: Seq<T>,
    handle: u64,
)
    requires
        subs.no_duplicates(),
        subs.contains(handle),
    ensures
        received(deliveries(subs, values), handle) == values,
        received(deliveries(subs, values), handle).len() == values.len(),
        forall|value: T, i: int|
            0 <= i < subs.len() ==> (#[trigger] round(subs, value)[i]) == (subs[i], value),
    decreases values.len(),
{
    if values.len() == 0 {
        assert(received(deliveries(subs, values), handle) =~= values);
    } else {
        law_live_subscription_receives_every_value(subs, values.drop_last(), handle);
        lemma_received_concat(
            deliveries(subs, values.drop_last()),
            round(subs, values.last()),
            handle,
        );
        lemma_received_round(subs, values.last(), handle);
        assert(values.drop_last() + seq![values.last()] =~= values);
    }
}

/// A subscription that is not live receives nothing from any run of
/// mutations.
pub proof fn law_absent_subscription_receives_nothing<T>(
    subs: Seq<u64>,
    values: Seq<T>,
    handle: u64,
)
    requires
        subs.no_duplicates(),
        !subs.contains(handle),
    ensures
        received(deliveries(subs, values), handle) == Seq::<T>::empty(),
    decreases values.len(),
{
    if values.len() > 0 {
        law_absent_subscription_receives_nothing(subs, values.drop_last(), handle);
        lemma_received_concat(
            deliveries(subs, values.drop_last()),
            round(subs, values.last()),
            handle,
        );
        lemma_received_round(subs, values.last(), handle);
        assert(Seq::<T>::empty() + Seq::<T>::empty() =~= Seq::<T>::empty());
    }
}

/// The round of a mutation is fixed by the subscriptions live at that
/// moment. A subscription live then receives the value, also if it is
/// detached while the round is worked through; one made later, whose handle
/// was not yet given out, receives nothing from that round.
pub proof fn law_round_is_fixed_at_mutation<T>(
    cell: ReactiveContainer<T>,
    value: T,
    live: u64,
    later: u64,
)
    requires
        cell.wf(),
        cell.subscribers().contains(live),
        later >= cell.issued(),
    ensures
        received(round(cell.subscribers(), value), live) == seq![value],
        received(round(without(cell.subscribers(), live), value), live) == Seq::<T>::empty(),
        received(round(cell.subscribers(), value), later) == Seq::<T>::empty(),
{
    let subs = cell.subscribers();
    lemma_received_round(subs, value, live);
    lemma_without_drops(subs, live);
    lemma_received_round(without(subs, live), value, live);
    assert(!subs.contains(later)) by {
        if subs.contains(later) {
            let k = subs.index_of(later);
            assert(subs[k] < cell.issued());
        }
    }
    lemma_received_round(subs, value, later);
}

/// Once a subscription is detached, no mutation from then on notifies it,
/// while every other subscription still receives every value.
pub proof fn law_detached_subscription_is_silent<T>(subs: Seq<u64>, values: Seq<T>, handle: u64)
    requires
        subs.no_duplicates(),
    ensures
        received(deliveries(without(subs, handle), values), handle) == Seq::<T>::empty(),
        forall|other: u64|
            other != handle && subs.contains(other) ==> #[trigger] received(
                deliveries(without(subs, handle), values),
                other,
            ) == values,
{
    lemma_without_drops(subs, handle);
    law_absent_subscription_receives_nothing(without(subs, handle), values, handle);
    assert forall|other: u64| other != handle && subs.contains(other) implies #[trigger] received(
        deliveries(without(subs, handle), values),
        other,
    ) == values by {
        law_live_subscription_receives_every_value(without(subs, handle), values, other);
    }
}

} // verus!
