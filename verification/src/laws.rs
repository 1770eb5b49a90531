//! What holds of a hub and its sessions, whatever the events and their
//! order. Every statement is over the mathematical values that the
//! contracts of the hub and of the session speak of.

use vstd::prelude::*;
use crate::bus::BusState;
use crate::hub::HubState;
use crate::session::{forward, step_of, ActionView, Event, SessionState};
use crate::wire::wire_text;

verus! {

/// The hub after subscriber `id` has taken `n` updates, one after another.
pub open spec fn after_takes(hub: HubState, id: u64, n: nat) -> HubState
    decreases n,
{
    if n == 0 {
        hub
    } else {
        after_takes(hub, id, (n - 1) as nat).taken(id)
    }
}

/// Publishing to nobody is a no-op: on a bus without subscribers a
/// published update changes nothing and is retained for no one.
pub proof fn lemma_publish_without_subscribers(bus: BusState, update: Seq<char>)
    requires
        bus.queues.dom() =~= Set::empty(),
    ensures
        bus.published(update) == bus,
{
    assert(bus.published(update).queues =~= bus.queues);
}

/// No history is replayed: whoever subscribes after an update was
/// published finds nothing waiting, while those who were subscribed
/// before keep what was published for them.
pub proof fn lemma_late_subscriber_sees_no_history(bus: BusState, update: Seq<char>)
    requires
        bus.wf(),
        bus.can_subscribe(),
    ensures
        bus.published(update).joined().subscribed(bus.next_id as u64),
        bus.published(update).joined().pending(bus.next_id as u64).len() == 0,
        forall|id: u64|
            bus.subscribed(id) ==> bus.published(update).joined().pending(id)
                == bus.published(update).pending(id),
{
}

/// Who has left gets nothing more: an update published after a subscriber
/// has left is queued for the others only, and leaving twice is leaving
/// once.
pub proof fn lemma_unsubscribed_gets_nothing(bus: BusState, id: u64, update: Seq<char>)
    requires
        bus.wf(),
    ensures
        !bus.left(id).published(update).subscribed(id),
        bus.left(id).left(id) == bus.left(id),
        forall|other: u64|
            other != id && bus.subscribed(other) ==> bus.left(id).published(update).pending(
                other,
            ) == bus.published(update).pending(other),
{
    assert(bus.left(id).left(id).queues =~= bus.left(id).queues);
}

/// No step breaks the hub: from a well-formed hub every session, in every
/// state and on every event, leads to a well-formed hub.
pub proof fn lemma_step_keeps_wf(session: SessionState, hub: HubState, event: Event)
    requires
        hub.wf(),
    ensures
        step_of(session, hub, event).hub.wf(),
{
    match session {
        SessionState::Starting => {
            if hub.bus.can_subscribe() {
                hub.lemma_joined_wf();
            }
        },
        SessionState::Active(id) => {
            match event {
                Event::Received(update) => {
                    hub.lemma_written_wf(update@);
                },
                Event::Sent | Event::BusReady => {
                    if hub.bus.subscribed(id) && hub.bus.pending(id).len() > 0 {
                        hub.lemma_taken_wf(id);
                    }
                },
                Event::SendFailed | Event::Failed | Event::Ended => {
                    hub.lemma_left_wf(id);
                },
                Event::Malformed | Event::NotText => {},
            }
        },
        SessionState::Closed => {},
    }
}

/// The snapshot comes first. A session that is starting asks for no
/// message to be sent, touches neither the document nor any subscriber's
/// queue, and becomes active on one event only: the delivery of its
/// snapshot. When it does, the document is still what the hub held before
/// the step, and nothing waits for the new subscriber. So if nothing is
/// written between the opening of a session and the delivery of its
/// snapshot, the first message the client gets is the document as it
/// stands when the session subscribes.
pub proof fn lemma_snapshot_comes_first(hub: HubState, event: Event)
    requires
        hub.wf(),
    ensures
        !(step_of(SessionState::Starting, hub, event).action is Send),
        step_of(SessionState::Starting, hub, event).hub.document == hub.document,
        step_of(SessionState::Starting, hub, event).session is Active ==> event is Sent,
        forall|id: u64|
            step_of(SessionState::Starting, hub, event).session == SessionState::Active(id) ==> {
                &&& !hub.bus.subscribed(id)
                &&& step_of(SessionState::Starting, hub, event).hub.bus.subscribed(id)
                &&& step_of(SessionState::Starting, hub, event).hub.bus.pending(id).len() == 0
            },
        forall|other: u64|
            hub.bus.subscribed(other) ==> {
                &&& step_of(SessionState::Starting, hub, event).hub.bus.subscribed(other)
                &&& step_of(SessionState::Starting, hub, event).hub.bus.pending(other)
                    == hub.bus.pending(other)
            },
{
}

/// Fan-out is complete. A write reaches every subscriber: the document
/// becomes the update, the set of subscribers stays as it is, and in the
/// queue of each subscriber that has room the update stands last, behind
/// all that was published before and is still waiting.
pub proof fn lemma_write_reaches_every_subscriber(hub: HubState, update: Seq<char>)
    requires
        hub.wf(),
    ensures
        hub.written(update).document == update,
        forall|id: u64| hub.written(update).bus.subscribed(id) == hub.bus.subscribed(id),
        forall|id: u64|
            hub.bus.subscribed(id) && hub.bus.pending(id).len() < hub.bus.capacity
                ==> hub.written(update).bus.pending(id) == hub.bus.pending(id).push(update),
        forall|id: u64|
            hub.bus.subscribed(id) && hub.bus.capacity > 0 ==> {
                &&& hub.written(update).bus.pending(id).len() > 0
                &&& hub.written(update).bus.pending(id).last() == update
            },
{
    assert forall|id: u64| hub.written(update).bus.subscribed(id) == hub.bus.subscribed(id) by {}
}

/// Two writes in a row arrive in that order at every subscriber that has
/// room for both.
pub proof fn lemma_writes_arrive_in_order(
    hub: HubState,
    first: Seq<char>,
    second: Seq<char>,
    id: u64,
)
    requires
        hub.wf(),
        hub.bus.subscribed(id),
        hub.bus.pending(id).len() + 2 <= hub.bus.capacity,
    ensures
        hub.written(first).written(second).bus.pending(id) == hub.bus.pending(id).push(
            first,
        ).push(second),
{
}

/// Delivery is first in, first out. After a subscriber has taken `n` of
/// the updates that wait for it, the rest waits unchanged, and the next
/// message its session sends is the one that carries the update that
/// stood at place `n`.
pub proof fn lemma_delivery_in_order(hub: HubState, id: u64, n: nat)
    requires
        hub.wf(),
        hub.bus.subscribed(id),
        n < hub.bus.pending(id).len(),
    ensures
        after_takes(hub, id, n).wf(),
        after_takes(hub, id, n).document == hub.document,
        after_takes(hub, id, n).bus.subscribed(id),
        after_takes(hub, id, n).bus.pending(id) == hub.bus.pending(id).skip(n as int),
        forward(id, after_takes(hub, id, n)).action == ActionView::Send(
            wire_text(hub.bus.pending(id)[n as int]),
        ),
        forward(id, after_takes(hub, id, n)).hub == after_takes(hub, id, n + 1),
        forward(id, after_takes(hub, id, n)).session == SessionState::Active(id),
    decreases n,
{
    if n == 0 {
        assert(hub.bus.pending(id).skip(0) =~= hub.bus.pending(id));
    } else {
        let before = (n - 1) as nat;
        lemma_delivery_in_order(hub, id, before);
        let earlier = after_takes(hub, id, before);
        earlier.lemma_taken_wf(id);
        assert(earlier.taken(id).bus.pending(id) =~= hub.bus.pending(id).skip(n as int));
    }
    assert(after_takes(hub, id, n + 1) == after_takes(hub, id, n).taken(id));
}

/// The last write wins. Whatever waits for a subscriber, the last of it is
/// the document's current content: once the session has forwarded all
/// that waits, the client has last been sent the document as `read`
/// returns it, and nothing is left waiting.
pub proof fn lemma_last_write_wins(hub: HubState, id: u64)
    requires
        hub.wf(),
        hub.bus.subscribed(id),
        hub.bus.pending(id).len() > 0,
    ensures
        forward(
            id,
            after_takes(hub, id, (hub.bus.pending(id).len() - 1) as nat),
        ).action == ActionView::Send(wire_text(hub.document)),
        forward(
            id,
            after_takes(hub, id, (hub.bus.pending(id).len() - 1) as nat),
        ).hub.document == hub.document,
        forward(
            id,
            after_takes(hub, id, (hub.bus.pending(id).len() - 1) as nat),
        ).hub.bus.pending(id).len() == 0,
{
    let n = (hub.bus.pending(id).len() - 1) as nat;
    lemma_delivery_in_order(hub, id, n);
    assert(hub.bus.pending(id)[n as int] == hub.bus.pending(id).last());
    let rest = after_takes(hub, id, n);
    assert(rest.bus.pending(id).len() == 1);
    assert(rest.taken(id).bus.pending(id).len() == 0);
}

/// A malformed message is tolerated. A message from the client that
/// carries no update changes neither the document nor any queue nor the
/// session's state, and a session that has not ended goes on waiting.
pub proof fn lemma_malformed_is_ignored(session: SessionState, hub: HubState, event: Event)
    requires
        event.is_noise(),
    ensures
        step_of(session, hub, event).hub == hub,
        step_of(session, hub, event).session == session,
        !(session is Closed) ==> step_of(session, hub, event).action == ActionView::Wait,
{
}

/// Failure is isolated. When the connection of the session subscribed as
/// `id` fails, in either direction, that session ends and gives up its
/// subscription; the document, every other subscriber and what waits for
/// it, and the identities left for new subscribers are as before.
pub proof fn lemma_failure_is_isolated(hub: HubState, id: u64, event: Event)
    requires
        hub.wf(),
        event.is_fatal(),
    ensures
        step_of(SessionState::Active(id), hub, event).session == SessionState::Closed,
        step_of(SessionState::Active(id), hub, event).action == ActionView::Close,
        !step_of(SessionState::Active(id), hub, event).hub.bus.subscribed(id),
        step_of(SessionState::Active(id), hub, event).hub.wf(),
        step_of(SessionState::Active(id), hub, event).hub.document == hub.document,
        step_of(SessionState::Active(id), hub, event).hub.bus.can_subscribe()
            == hub.bus.can_subscribe(),
        forall|other: u64|
            other != id ==> {
                &&& step_of(SessionState::Active(id), hub, event).hub.bus.subscribed(other)
                    == hub.bus.subscribed(other)
                &&& step_of(SessionState::Active(id), hub, event).hub.bus.pending(other)
                    == hub.bus.pending(other)
            },
{
    hub.lemma_left_wf(id);
}

/// Sessions do not disturb one another. Whatever one session does, another
/// subscriber stays subscribed, and what waits for it changes in one way
/// only: an update that the session wrote is added at the back, where
/// there is room for it.
pub proof fn lemma_sessions_are_independent(
    session: SessionState,
    hub: HubState,
    event: Event,
    other: u64,
)
    requires
        hub.wf(),
        hub.bus.subscribed(other),
        session != SessionState::Active(other),
        hub.bus.pending(other).len() < hub.bus.capacity,
    ensures
        step_of(session, hub, event).hub.bus.subscribed(other),
        match (session, event) {
            (SessionState::Active(_), Event::Received(update)) => step_of(
                session,
                hub,
                event,
            ).hub.bus.pending(other) == hub.bus.pending(other).push(update@),
            _ => step_of(session, hub, event).hub.bus.pending(other) == hub.bus.pending(other),
        },
{
}

/// Closed is final. A session that has ended stays ended, asks for
/// nothing but the release of its transport, and changes nothing. And a
/// session that ends holds no subscription any more.
pub proof fn lemma_closed_is_final(session: SessionState, hub: HubState, event: Event)
    requires
        hub.wf(),
    ensures
        step_of(SessionState::Closed, hub, event).session == SessionState::Closed,
        step_of(SessionState::Closed, hub, event).action == ActionView::Close,
        step_of(SessionState::Closed, hub, event).hub == hub,
        forall|id: u64|
            session == SessionState::Active(id) && step_of(session, hub, event).session
                is Closed ==> !step_of(session, hub, event).hub.bus.subscribed(id),
{
}

} // verus!
