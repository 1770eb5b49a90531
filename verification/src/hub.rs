//! The hub: the document and the bus as one value, so that every write
//! replaces the document and fans out through the one publish path.

use vstd::prelude::*;
use crate::bus::{BusState, Delivery, Subscription, UpdateBus};
use crate::document::Document;
use crate::update::Update;
use vstd::string::*;

verus! {

/// The content that the document holds before anyone has written to it.
pub const INITIAL_CONTENT: &'static str = "Start editing your shared note...";

/// How many undelivered updates wait for one subscriber at most.
pub const QUEUE_CAPACITY: usize = 100;

/// The hub as a mathematical value: the document's content and the state
/// of the bus.
pub struct HubState {
    /// The current content of the document.
    pub document: Seq<char>,
    /// The subscribers and what is waiting for each.
    pub bus: BusState,
}

impl HubState {
    /// The bus is well formed, and the newest update waiting for any
    /// subscriber is the document's current content: a subscriber that
    /// takes all that waits for it ends on the last write.
    pub open spec fn wf(self) -> bool {
        &&& self.bus.wf()
        &&& forall|id: u64| #[trigger]
            self.bus.queues.dom().contains(id) && self.bus.queues[id].len() > 0
                ==> self.bus.queues[id].last() == self.document
    }

    /// The hub after a write of `update`: the document is the update, and
    /// the update has been published.
    pub open spec fn written(self, update: Seq<char>) -> HubState {
        HubState { document: update, bus: self.bus.published(update) }
    }

    /// The hub with one more subscriber.
    pub open spec fn joined(self) -> HubState {
        HubState { document: self.document, bus: self.bus.joined() }
    }

    /// The hub without subscriber `id`.
    pub open spec fn left(self, id: u64) -> HubState {
        HubState { document: self.document, bus: self.bus.left(id) }
    }

    /// The hub after subscriber `id` has taken its oldest pending update.
    pub open spec fn taken(self, id: u64) -> HubState {
        HubState { document: self.document, bus: self.bus.taken(id) }
    }

    /// A write keeps the hub well formed.
    pub proof fn lemma_written_wf(self, update: Seq<char>)
        requires
            self.wf(),
        ensures
            self.written(update).wf(),
    {
    }

    /// A new subscriber keeps the hub well formed.
    pub proof fn lemma_joined_wf(self)
        requires
            self.wf(),
            self.bus.can_subscribe(),
        ensures
            self.joined().wf(),
    {
    }

    /// A subscriber's leaving keeps the hub well formed.
    pub proof fn lemma_left_wf(self, id: u64)
        requires
            self.wf(),
        ensures
            self.left(id).wf(),
    {
    }

    /// A subscriber's taking an update keeps the hub well formed.
    pub proof fn lemma_taken_wf(self, id: u64)
        requires
            self.wf(),
            self.bus.subscribed(id),
            self.bus.pending(id).len() > 0,
        ensures
            self.taken(id).wf(),
    {
    }
}

/// The shared state of a server: one document and one bus, made once and
/// handed by reference to every handler and session.
pub struct Hub {
    document: Document,
    bus: UpdateBus,
}

impl View for Hub {
    type V = HubState;

    closed spec fn view(&self) -> HubState {
        HubState { document: self.document@, bus: self.bus@ }
    }
}

impl Hub {
    /// The hub's state is well formed at all times.
    #[verifier::type_invariant]
    pub open spec fn inv(&self) -> bool {
        self@.wf()
    }

    /// Takes the bus out, to be worked on and put back; an empty bus
    /// stands in for it meanwhile.
    fn take_bus(&mut self) -> (bus: UpdateBus)
        ensures
            bus == old(self).bus,
            old(self)@.wf(),
            final(self).document == old(self).document,
            final(self).bus@ == (BusState { capacity: 0, next_id: 0, queues: Map::empty() }),
    {
        proof {
            use_type_invariant(&*self);
        }
        let mut bus = UpdateBus::new(0);
        core::mem::swap(&mut self.bus, &mut bus);
        bus
    }

    /// A hub whose document starts out as `initial` and whose bus has no
    /// subscriber yet; each subscriber's queue will hold up to `capacity`
    /// undelivered updates.
    pub fn new(initial: String, capacity: usize) -> (hub: Hub)
        ensures
            hub@.wf(),
            hub@.document == initial@,
            hub@.bus == (BusState { capacity: capacity as nat, next_id: 0, queues: Map::empty() }),
    {
        Hub { document: Document::new(initial), bus: UpdateBus::new(capacity) }
    }

    /// The hub as a server starts it: the document holds the placeholder
    /// [`INITIAL_CONTENT`], and each subscriber's queue will hold up to
    /// [`QUEUE_CAPACITY`] undelivered updates.
    pub fn start() -> (hub: Hub)
        ensures
            hub@.wf(),
            hub@.document == INITIAL_CONTENT@,
            hub@.bus == (BusState {
                capacity: QUEUE_CAPACITY as nat,
                next_id: 0,
                queues: Map::empty(),
            }),
    {
        Hub::new(String::from_str(INITIAL_CONTENT), QUEUE_CAPACITY)
    }

    /// The number of current subscribers.
    pub fn subscriber_count(&self) -> (count: usize)
        ensures
            self@.wf(),
            self@.bus.queues.dom().finite(),
            count == self@.bus.queues.dom().len(),
    {
        proof {
            use_type_invariant(self);
        }
        self.bus.subscriber_count()
    }

    /// The current content of the document, as the update that a reader
    /// is answered with.
    pub fn read(&self) -> (update: Update)
        ensures
            self@.wf(),
            update@ == self@.document,
    {
        proof {
            use_type_invariant(self);
        }
        self.document.snapshot()
    }

    /// Applies a write: replaces the document by the update's content and
    /// publishes the update to every subscriber.
    pub fn write(&mut self, update: Update)
        ensures
            old(self)@.wf(),
            final(self)@.wf(),
            final(self)@ == old(self)@.written(update@),
    {
        let mut bus = self.take_bus();
        self.document.replace(update.content.clone());
        bus.publish(&update);
        proof {
            old(self)@.lemma_written_wf(update@);
        }
        self.bus = bus;
    }

    /// Adds a subscriber to the bus. The document is not touched.
    /// `None`, with the hub unchanged, once every identity has been used.
    pub fn subscribe(&mut self) -> (handle: Option<Subscription>)
        ensures
            old(self)@.wf(),
            final(self)@.wf(),
            match handle {
                Some(subscription) => old(self)@.bus.can_subscribe() && subscription@ == old(
                    self,
                )@.bus.next_id && final(self)@ == old(self)@.joined(),
                None => !old(self)@.bus.can_subscribe() && final(self)@ == old(self)@,
            },
    {
        let mut bus = self.take_bus();
        let handle = bus.subscribe();
        proof {
            if handle is Some {
                old(self)@.lemma_joined_wf();
            }
        }
        self.bus = bus;
        handle
    }

    /// Removes a subscriber from the bus. The document and every other
    /// subscriber are left as they were.
    pub fn unsubscribe(&mut self, subscription: Subscription)
        ensures
            old(self)@.wf(),
            final(self)@.wf(),
            final(self)@ == old(self)@.left(subscription@),
    {
        let mut bus = self.take_bus();
        proof {
            old(self)@.lemma_left_wf(subscription@);
        }
        bus.unsubscribe(subscription);
        self.bus = bus;
    }

    /// Takes the oldest update waiting for a subscriber. The document and
    /// every other subscriber are left as they were.
    pub fn receive(&mut self, subscription: &Subscription) -> (delivery: Delivery)
        ensures
            old(self)@.wf(),
            final(self)@.wf(),
            match delivery {
                Delivery::Update(update) => {
                    &&& old(self)@.bus.subscribed(subscription@)
                    &&& old(self)@.bus.pending(subscription@).len() > 0
                    &&& update@ == old(self)@.bus.pending(subscription@)[0]
                    &&& final(self)@ == old(self)@.taken(subscription@)
                },
                Delivery::Empty => {
                    &&& old(self)@.bus.subscribed(subscription@)
                    &&& old(self)@.bus.pending(subscription@).len() == 0
                    &&& final(self)@ == old(self)@
                },
                Delivery::Closed => {
                    &&& !old(self)@.bus.subscribed(subscription@)
                    &&& final(self)@ == old(self)@
                },
            },
    {
        let mut bus = self.take_bus();
        let delivery = bus.receive(subscription);
        proof {
            if delivery is Update {
                old(self)@.lemma_taken_wf(subscription@);
            }
        }
        self.bus = bus;
        delivery
    }
}

} // verus!
