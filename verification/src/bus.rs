//! The update bus: every published update goes to each subscriber's own
//! bounded queue, and each subscriber takes its updates out in the order
//! in which they were published.

use vstd::prelude::*;
use crate::update::Update;

verus! {

/// What a queue bounded by `capacity` holds once `update` has arrived: the
/// update goes to the back, and a full queue gives up its oldest entry to
/// make room. A queue of capacity zero retains nothing.
pub open spec fn enqueue(queue: Seq<Seq<char>>, update: Seq<char>, capacity: nat) -> Seq<
    Seq<char>,
> {
    if queue.len() < capacity {
        queue.push(update)
    } else if capacity == 0 {
        queue
    } else {
        queue.drop_first().push(update)
    }
}

/// The bus as a mathematical value: for each subscriber, by identity, the
/// updates published since it subscribed that it has not yet taken.
pub struct BusState {
    /// How many undelivered updates each subscriber's queue can hold.
    pub capacity: nat,
    /// The identity that the next subscriber will get.
    pub next_id: nat,
    /// The queue of each current subscriber, oldest update first.
    pub queues: Map<u64, Seq<Seq<char>>>,
}

impl BusState {
    /// Identities are handed out in increasing order and no queue exceeds
    /// the capacity.
    pub open spec fn wf(self) -> bool {
        &&& self.next_id <= u64::MAX
        &&& forall|id: u64| #[trigger]
            self.queues.dom().contains(id) ==> id < self.next_id && self.queues[id].len()
                <= self.capacity
    }

    /// Whether `id` names a current subscriber.
    pub open spec fn subscribed(self, id: u64) -> bool {
        self.queues.dom().contains(id)
    }

    /// The updates waiting for subscriber `id`, oldest first.
    pub open spec fn pending(self, id: u64) -> Seq<Seq<char>> {
        self.queues[id]
    }

    /// Whether an identity is left for one more subscriber.
    pub open spec fn can_subscribe(self) -> bool {
        self.next_id < u64::MAX
    }

    /// The bus with one more subscriber, named `next_id`, whose queue is
    /// empty: it sees nothing that was published before.
    pub open spec fn joined(self) -> BusState {
        BusState {
            capacity: self.capacity,
            next_id: self.next_id + 1,
            queues: self.queues.insert(self.next_id as u64, Seq::empty()),
        }
    }

    /// The bus without subscriber `id`; every other queue is as it was.
    pub open spec fn left(self, id: u64) -> BusState {
        BusState { capacity: self.capacity, next_id: self.next_id, queues: self.queues.remove(id) }
    }

    /// The bus after `update` has been published: it has arrived in the
    /// queue of every current subscriber, and of nobody else.
    pub open spec fn published(self, update: Seq<char>) -> BusState {
        BusState {
            capacity: self.capacity,
            next_id: self.next_id,
            queues: Map::new(
                |id: u64| self.queues.dom().contains(id),
                |id: u64| enqueue(self.queues[id], update, self.capacity),
            ),
        }
    }

    /// The bus after subscriber `id` has taken its oldest pending update.
    pub open spec fn taken(self, id: u64) -> BusState {
        BusState {
            capacity: self.capacity,
            next_id: self.next_id,
            queues: self.queues.insert(id, self.queues[id].drop_first()),
        }
    }
}

/// A subscriber's handle into the bus. Its view is the subscriber's
/// identity. A handle is made by subscribing only and handed back when the
/// subscriber leaves.
#[derive(Debug)]
pub struct Subscription {
    id: u64,
}

impl View for Subscription {
    type V = u64;

    closed spec fn view(&self) -> u64 {
        self.id
    }
}

impl Subscription {
    /// The subscriber's identity.
    pub fn id(&self) -> (id: u64)
        ensures
            id == self@,
    {
        self.id
    }
}

/// What a subscriber gets when it asks the bus for its next update.
#[derive(Debug)]
pub enum Delivery {
    /// The oldest update that was waiting.
    Update(Update),
    /// Nothing is waiting at the moment.
    Empty,
    /// The handle names no subscriber of this bus: nothing will ever come.
    Closed,
}

struct Subscriber {
    id: u64,
    queue: Vec<Update>,
}

spec fn contents(queue: Seq<Update>) -> Seq<Seq<char>> {
    queue.map_values(|update: Update| update@)
}

spec fn holds(subscribers: Seq<Subscriber>, id: u64) -> bool {
    exists|i: int| 0 <= i < subscribers.len() && (#[trigger] subscribers[i]).id == id
}

spec fn slot(subscribers: Seq<Subscriber>, id: u64) -> int {
    choose|i: int| 0 <= i < subscribers.len() && (#[trigger] subscribers[i]).id == id
}

spec fn distinct(subscribers: Seq<Subscriber>) -> bool {
    forall|i: int, j: int|
        0 <= i < subscribers.len() && 0 <= j < subscribers.len() && i != j ==> (
        #[trigger] subscribers[i]).id != (#[trigger] subscribers[j]).id
}

/// Every identity in use is below `next_id` and no queue exceeds
/// `capacity`.
spec fn bounded(subscribers: Seq<Subscriber>, next_id: u64, capacity: usize) -> bool {
    forall|i: int|
        0 <= i < subscribers.len() ==> (#[trigger] subscribers[i]).id < next_id
            && subscribers[i].queue@.len() <= capacity
}

spec fn queues_of(subscribers: Seq<Subscriber>) -> Map<u64, Seq<Seq<char>>> {
    Map::new(
        |id: u64| holds(subscribers, id),
        |id: u64| contents(subscribers[slot(subscribers, id)].queue@),
    )
}

/// With distinct identities, the subscriber at place `i` is the one that
/// its identity leads to.
proof fn lemma_slot(subscribers: Seq<Subscriber>, i: int)
    requires
        distinct(subscribers),
        0 <= i < subscribers.len(),
    ensures
        holds(subscribers, subscribers[i].id),
        slot(subscribers, subscribers[i].id) == i,
        queues_of(subscribers)[subscribers[i].id] == contents(subscribers[i].queue@),
{
}

/// Two lists with the same identities at the same places hold the same
/// subscribers, each at the same place.
proof fn lemma_same_identities(before: Seq<Subscriber>, after: Seq<Subscriber>)
    requires
        distinct(before),
        after.len() == before.len(),
        forall|i: int| 0 <= i < before.len() ==> (#[trigger] after[i]).id == before[i].id,
    ensures
        distinct(after),
        forall|id: u64| holds(after, id) == holds(before, id),
        forall|id: u64| holds(before, id) ==> slot(after, id) == slot(before, id),
{
    assert forall|a: int, b: int|
        0 <= a < after.len() && 0 <= b < after.len() && a != b implies (#[trigger] after[a]).id
        != (#[trigger] after[b]).id by {
        assert(before[a].id != before[b].id);
    }
    assert forall|id: u64| holds(after, id) == holds(before, id) by {
        if holds(after, id) {
            assert(before[slot(after, id)].id == id);
        }
        if holds(before, id) {
            assert(after[slot(before, id)].id == id);
        }
    }
    assert forall|id: u64| holds(before, id) implies slot(after, id) == slot(before, id) by {
        lemma_slot(after, slot(before, id));
    }
}

/// A new subscriber with a fresh identity, put at the end, adds its queue
/// and changes no other.
proof fn lemma_joined(before: Seq<Subscriber>, after: Seq<Subscriber>)
    requires
        distinct(before),
        after.len() == before.len() + 1,
        forall|i: int| 0 <= i < before.len() ==> #[trigger] after[i] == before[i],
        forall|i: int| 0 <= i < before.len() ==> (#[trigger] before[i]).id != after.last().id,
    ensures
        distinct(after),
        queues_of(after) == queues_of(before).insert(
            after.last().id,
            contents(after.last().queue@),
        ),
{
    let last = before.len() as int;
    let id = after[last].id;
    assert(distinct(after)) by {
        assert forall|a: int, b: int|
            0 <= a < after.len() && 0 <= b < after.len() && a != b implies (
        #[trigger] after[a]).id != (#[trigger] after[b]).id by {
            if a < last && b < last {
                assert(before[a].id != before[b].id);
            } else if a < last {
                assert(before[a].id != id);
            } else {
                assert(before[b].id != id);
            }
        }
    }
    assert forall|other: u64| holds(after, other) <==> (other == id || holds(before, other)) by {
        if holds(after, other) {
            let i = slot(after, other);
            if i < last {
                assert(before[i].id == other);
            }
        }
        if holds(before, other) {
            assert(after[slot(before, other)].id == other);
        }
        if other == id {
            assert(after[last].id == other);
        }
    }
    assert forall|other: u64| holds(after, other) implies #[trigger] queues_of(after)[other]
        == queues_of(before).insert(id, contents(after[last].queue@))[other] by {
        let i = slot(after, other);
        lemma_slot(after, i);
        if i < last {
            lemma_slot(before, i);
        }
    }
    assert(queues_of(after) =~= queues_of(before).insert(id, contents(after[last].queue@)));
}

/// Taking out the subscriber at place `at` removes its queue and changes
/// no other.
proof fn lemma_left(before: Seq<Subscriber>, at: int)
    requires
        distinct(before),
        0 <= at < before.len(),
    ensures
        distinct(before.remove(at)),
        queues_of(before.remove(at)) == queues_of(before).remove(before[at].id),
{
    let after = before.remove(at);
    let id = before[at].id;
    assert forall|i: int| 0 <= i < after.len() implies #[trigger] after[i] == (if i < at {
        before[i]
    } else {
        before[i + 1]
    }) by {}
    assert(distinct(after)) by {
        assert forall|a: int, b: int|
            0 <= a < after.len() && 0 <= b < after.len() && a != b implies (
        #[trigger] after[a]).id != (#[trigger] after[b]).id by {
            let a0 = if a < at { a } else { a + 1 };
            let b0 = if b < at { b } else { b + 1 };
            assert(before[a0].id != before[b0].id);
        }
    }
    assert forall|other: u64| holds(after, other) <==> (other != id && holds(before, other)) by {
        if holds(after, other) {
            let i = slot(after, other);
            let i0 = if i < at { i } else { i + 1 };
            assert(before[i0].id == other);
            assert(before[i0].id != before[at].id);
        }
        if other != id && holds(before, other) {
            let i = slot(before, other);
            let i1 = if i < at { i } else { i - 1 };
            assert(after[i1].id == other);
        }
    }
    assert forall|other: u64| holds(after, other) implies #[trigger] queues_of(after)[other]
        == queues_of(before)[other] by {
        let i = slot(after, other);
        lemma_slot(after, i);
        lemma_slot(before, if i < at { i } else { i + 1 });
    }
    assert(queues_of(after) =~= queues_of(before).remove(id));
}

/// As many identities are subscribed as there are subscribers.
proof fn lemma_domain(subscribers: Seq<Subscriber>)
    requires
        distinct(subscribers),
    ensures
        queues_of(subscribers).dom().finite(),
        queues_of(subscribers).dom().len() == subscribers.len(),
    decreases subscribers.len(),
{
    if subscribers.len() == 0 {
        assert(queues_of(subscribers).dom() =~= Set::empty());
    } else {
        let rest = subscribers.drop_last();
        assert(distinct(rest)) by {
            assert forall|i: int, j: int|
                0 <= i < rest.len() && 0 <= j < rest.len() && i != j implies (#[trigger] rest[i]).id
                != (#[trigger] rest[j]).id by {
                assert(subscribers[i].id != subscribers[j].id);
            }
        }
        lemma_domain(rest);
        assert forall|i: int| 0 <= i < rest.len() implies (#[trigger] rest[i]).id
            != subscribers.last().id by {
            assert(subscribers[i].id != subscribers[subscribers.len() - 1].id);
        }
        lemma_joined(rest, subscribers);
        assert(!holds(rest, subscribers.last().id));
    }
}

/// The place of the subscriber named `id`, if there is one.
fn position(subscribers: &Vec<Subscriber>, id: u64) -> (found: Option<usize>)
    ensures
        match found {
            Some(i) => i < subscribers@.len() && subscribers@[i as int].id == id,
            None => !holds(subscribers@, id),
        },
{
    let mut i: usize = 0;
    while i < subscribers.len()
        invariant
            i <= subscribers@.len(),
            forall|j: int| 0 <= j < i ==> (#[trigger] subscribers@[j]).id != id,
        decreases subscribers@.len() - i,
    {
        if subscribers[i].id == id {
            return Some(i);
        }
        i += 1;
    }
    None
}

/// Puts `update` at the back of `queue`, dropping the oldest entry of a
/// full queue first.
fn deliver(queue: &mut Vec<Update>, update: Update, capacity: usize)
    requires
        old(queue)@.len() <= capacity,
    ensures
        contents(final(queue)@) == enqueue(contents(old(queue)@), update@, capacity as nat),
        final(queue)@.len() <= capacity,
{
    if queue.len() < capacity {
        queue.push(update);
        assert(contents(queue@) =~= contents(old(queue)@).push(update@));
    } else if capacity > 0 {
        let _ = queue.remove(0);
        queue.push(update);
        assert(contents(queue@) =~= contents(old(queue)@).drop_first().push(update@));
    }
}

/// Delivers a copy of `update` to each of `subscribers`.
fn deliver_to_all(subscribers: &mut Vec<Subscriber>, update: &Update, capacity: usize)
    requires
        forall|j: int|
            0 <= j < old(subscribers)@.len() ==> (#[trigger] old(subscribers)@[j]).queue@.len()
                <= capacity,
    ensures
        final(subscribers)@.len() == old(subscribers)@.len(),
        forall|j: int|
            0 <= j < old(subscribers)@.len() ==> {
                &&& (#[trigger] final(subscribers)@[j]).id == old(subscribers)@[j].id
                &&& final(subscribers)@[j].queue@.len() <= capacity
                &&& contents(final(subscribers)@[j].queue@) == enqueue(
                    contents(old(subscribers)@[j].queue@),
                    update@,
                    capacity as nat,
                )
            },
{
    let count = subscribers.len();
    let mut i: usize = 0;
    while i < count
        invariant
            i <= count,
            count == subscribers@.len(),
            count == old(subscribers)@.len(),
            forall|j: int|
                0 <= j < count ==> (#[trigger] subscribers@[j]).id == old(subscribers)@[j].id,
            forall|j: int| 0 <= j < count ==> (#[trigger] subscribers@[j]).queue@.len() <= capacity,
            forall|j: int|
                0 <= j < i ==> contents((#[trigger] subscribers@[j]).queue@) == enqueue(
                    contents(old(subscribers)@[j].queue@),
                    update@,
                    capacity as nat,
                ),
            forall|j: int| i <= j < count ==> (#[trigger] subscribers@[j]) == old(subscribers)@[j],
        decreases count - i,
    {
        deliver(&mut subscribers[i].queue, update.clone(), capacity);
        i += 1;
    }
}

/// The fan-out broadcaster. Its view is a [`BusState`], which is well
/// formed at all times.
pub struct UpdateBus {
    capacity: usize,
    next_id: u64,
    subscribers: Vec<Subscriber>,
}

impl View for UpdateBus {
    type V = BusState;

    closed spec fn view(&self) -> BusState {
        BusState {
            capacity: self.capacity as nat,
            next_id: self.next_id as nat,
            queues: queues_of(self.subscribers@),
        }
    }
}

impl UpdateBus {
    /// No two subscribers share an identity, every identity in use was
    /// handed out, and no queue exceeds the capacity.
    #[verifier::type_invariant]
    spec fn inv(&self) -> bool {
        &&& distinct(self.subscribers@)
        &&& bounded(self.subscribers@, self.next_id, self.capacity)
    }

    proof fn lemma_wf(&self)
        requires
            self.inv(),
        ensures
            self@.wf(),
    {
        assert forall|id: u64| #[trigger] self@.queues.dom().contains(id) implies id
            < self@.next_id && self@.queues[id].len() <= self@.capacity by {
            lemma_slot(self.subscribers@, slot(self.subscribers@, id));
        }
    }

    /// Takes the list of subscribers out, to be worked on and put back.
    fn take_subscribers(&mut self) -> (subscribers: Vec<Subscriber>)
        ensures
            subscribers == old(self).subscribers,
            old(self).inv(),
            final(self).capacity == old(self).capacity,
            final(self).next_id == old(self).next_id,
            final(self).subscribers@.len() == 0,
    {
        proof {
            use_type_invariant(&*self);
        }
        let mut subscribers: Vec<Subscriber> = Vec::new();
        core::mem::swap(&mut self.subscribers, &mut subscribers);
        subscribers
    }

    /// A bus without subscribers whose queues will hold up to `capacity`
    /// undelivered updates each.
    pub fn new(capacity: usize) -> (bus: UpdateBus)
        ensures
            bus@ == (BusState { capacity: capacity as nat, next_id: 0, queues: Map::empty() }),
    {
        let bus = UpdateBus { capacity, next_id: 0, subscribers: Vec::new() };
        assert(bus@.queues =~= Map::empty());
        bus
    }

    /// The number of current subscribers.
    pub fn subscriber_count(&self) -> (count: usize)
        ensures
            self@.wf(),
            self@.queues.dom().finite(),
            count == self@.queues.dom().len(),
    {
        proof {
            use_type_invariant(self);
            self.lemma_wf();
            lemma_domain(self.subscribers@);
        }
        self.subscribers.len()
    }

    /// Adds a subscriber and returns its handle. The new subscriber will
    /// get every update published from now on and none published before.
    /// `None`, with the bus unchanged, once every identity has been used.
    pub fn subscribe(&mut self) -> (handle: Option<Subscription>)
        ensures
            old(self)@.wf(),
            final(self)@.wf(),
            match handle {
                Some(subscription) => old(self)@.can_subscribe() && subscription@ == old(
                    self,
                )@.next_id && final(self)@ == old(self)@.joined(),
                None => !old(self)@.can_subscribe() && final(self)@ == old(self)@,
            },
    {
        proof {
            use_type_invariant(&*self);
            self.lemma_wf();
        }
        if self.next_id == u64::MAX {
            return None;
        }
        let id = self.next_id;
        let mut subscribers = self.take_subscribers();
        subscribers.push(Subscriber { id, queue: Vec::new() });
        proof {
            let before = old(self).subscribers@;
            assert forall|i: int| 0 <= i < before.len() implies (#[trigger] before[i]).id
                != id by {}
            lemma_joined(before, subscribers@);
            assert(contents(subscribers@.last().queue@) =~= Seq::empty());
        }
        self.next_id = id + 1;
        self.subscribers = subscribers;
        proof {
            self.lemma_wf();
        }
        Some(Subscription { id })
    }

    /// Removes the subscriber that `subscription` names, with whatever was
    /// still waiting for it. Every other subscriber is left as it was. A
    /// handle that names no subscriber changes nothing.
    pub fn unsubscribe(&mut self, subscription: Subscription)
        ensures
            old(self)@.wf(),
            final(self)@.wf(),
            final(self)@ == old(self)@.left(subscription@),
    {
        proof {
            use_type_invariant(&*self);
            self.lemma_wf();
        }
        let mut subscribers = self.take_subscribers();
        match position(&subscribers, subscription.id) {
            Some(at) => {
                let _ = subscribers.remove(at);
                proof {
                    lemma_left(old(self).subscribers@, at as int);
                }
            },
            None => {
                assert(queues_of(subscribers@) =~= queues_of(subscribers@).remove(subscription.id));
            },
        }
        self.subscribers = subscribers;
        proof {
            self.lemma_wf();
        }
    }

    /// Delivers a copy of `update` to every current subscriber, at the back
    /// of its queue. On a bus without subscribers this does nothing. A
    /// subscriber whose queue is full loses its oldest waiting update:
    /// publishing never waits for a slow subscriber.
    pub fn publish(&mut self, update: &Update)
        ensures
            old(self)@.wf(),
            final(self)@.wf(),
            final(self)@ == old(self)@.published(update@),
    {
        proof {
            use_type_invariant(&*self);
            self.lemma_wf();
        }
        let mut subscribers = self.take_subscribers();
        deliver_to_all(&mut subscribers, update, self.capacity);
        proof {
            let before = old(self).subscribers@;
            let after = subscribers@;
            lemma_same_identities(before, after);
            assert forall|id: u64| holds(after, id) implies #[trigger] queues_of(after)[id]
                == old(self)@.published(update@).queues[id] by {
                let k = slot(after, id);
                lemma_slot(after, k);
                lemma_slot(before, k);
            }
            assert(queues_of(after) =~= old(self)@.published(update@).queues);
        }
        self.subscribers = subscribers;
        proof {
            self.lemma_wf();
        }
    }

    /// Takes the oldest update waiting for the subscriber that
    /// `subscription` names. Updates come out in the order in which they
    /// were published.
    pub fn receive(&mut self, subscription: &Subscription) -> (delivery: Delivery)
        ensures
            old(self)@.wf(),
            final(self)@.wf(),
            match delivery {
                Delivery::Update(update) => {
                    &&& old(self)@.subscribed(subscription@)
                    &&& old(self)@.pending(subscription@).len() > 0
                    &&& update@ == old(self)@.pending(subscription@)[0]
                    &&& final(self)@ == old(self)@.taken(subscription@)
                },
                Delivery::Empty => {
                    &&& old(self)@.subscribed(subscription@)
                    &&& old(self)@.pending(subscription@).len() == 0
                    &&& final(self)@ == old(self)@
                },
                Delivery::Closed => {
                    &&& !old(self)@.subscribed(subscription@)
                    &&& final(self)@ == old(self)@
                },
            },
    {
        proof {
            use_type_invariant(&*self);
            self.lemma_wf();
        }
        let id = subscription.id;
        let mut subscribers = self.take_subscribers();
        let delivery = match position(&subscribers, id) {
            None => Delivery::Closed,
            Some(at) => {
                proof {
                    lemma_slot(subscribers@, at as int);
                }
                if subscribers[at].queue.len() == 0 {
                    Delivery::Empty
                } else {
                    let update = subscribers[at].queue.remove(0);
                    proof {
                        let before = old(self).subscribers@;
                        let after = subscribers@;
                        lemma_same_identities(before, after);
                        assert(contents(after[at as int].queue@) =~= contents(
                            before[at as int].queue@,
                        ).drop_first());
                        assert forall|other: u64| holds(after, other) implies #[trigger] queues_of(
                            after,
                        )[other] == old(self)@.taken(id).queues[other] by {
                            let k = slot(after, other);
                            lemma_slot(after, k);
                            lemma_slot(before, k);
                        }
                        assert(queues_of(after) =~= old(self)@.taken(id).queues);
                    }
                    Delivery::Update(update)
                }
            },
        };
        self.subscribers = subscribers;
        proof {
            self.lemma_wf();
        }
        delivery
    }
}

} // verus!
