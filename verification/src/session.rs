//! The connection session: the state machine that serves one client, from
//! the snapshot it starts with to the close that ends it.
//!
//! A session never waits and never touches a transport. The server hands
//! it one event at a time, together with the hub, and carries out the
//! action it answers with.

use vstd::prelude::*;
use crate::bus::{Delivery, Subscription};
use crate::hub::{Hub, HubState};
use crate::update::Update;
use crate::wire::wire_text;

verus! {

/// Where a session stands, with the identity of its subscription while it
/// has one.
pub enum SessionState {
    /// The snapshot is on its way to the client; nothing is subscribed.
    Starting,
    /// The session is subscribed under this identity and serves both
    /// directions.
    Active(u64),
    /// The session has ended. There is no way back.
    Closed,
}

/// One client's session. Its view is a [`SessionState`].
#[derive(Debug)]
pub enum Session {
    /// The snapshot is on its way to the client.
    Starting,
    /// The session is subscribed and serves both directions.
    Active(Subscription),
    /// The session has ended.
    Closed,
}

impl View for Session {
    type V = SessionState;

    open spec fn view(&self) -> SessionState {
        match self {
            Session::Starting => SessionState::Starting,
            Session::Active(subscription) => SessionState::Active(subscription@),
            Session::Closed => SessionState::Closed,
        }
    }
}

/// What happened on a session's connection or on the bus.
#[derive(Debug)]
pub enum Event {
    /// The message of the last `Send` reached the client.
    Sent,
    /// The message of the last `Send` could not be delivered.
    SendFailed,
    /// The client sent a message that reads as an update.
    Received(Update),
    /// The client sent a text message that does not read as an update.
    Malformed,
    /// The client sent a message that is not text.
    NotText,
    /// The inbound direction reported an error.
    Failed,
    /// The inbound direction came to its end.
    Ended,
    /// Something may be waiting for this session on the bus.
    BusReady,
}

/// What the server is to do next for a session.
#[derive(Debug)]
pub enum Action {
    /// Send this message to the client, then report `Sent` or
    /// `SendFailed`.
    Send(String),
    /// Wait for the next inbound message or the next wake-up of the bus.
    Wait,
    /// Release the transport: the session is over.
    Close,
}

/// An [`Action`] as a mathematical value.
pub enum ActionView {
    /// Send the message with this text.
    Send(Seq<char>),
    /// Wait for the next event.
    Wait,
    /// Release the transport.
    Close,
}

impl View for Action {
    type V = ActionView;

    open spec fn view(&self) -> ActionView {
        match self {
            Action::Send(text) => ActionView::Send(text@),
            Action::Wait => ActionView::Wait,
            Action::Close => ActionView::Close,
        }
    }
}

/// The outcome of one step: the session and the hub after it, and the
/// action that the session asks for.
pub struct Step {
    pub session: SessionState,
    pub hub: HubState,
    pub action: ActionView,
}

/// What an active session does when it may send: it takes the oldest
/// update that waits for it and sends it on; with nothing waiting it
/// waits; and it closes if its subscription is gone.
pub open spec fn forward(id: u64, hub: HubState) -> Step {
    if !hub.bus.subscribed(id) {
        Step { session: SessionState::Closed, hub, action: ActionView::Close }
    } else if hub.bus.pending(id).len() == 0 {
        Step { session: SessionState::Active(id), hub, action: ActionView::Wait }
    } else {
        Step {
            session: SessionState::Active(id),
            hub: hub.taken(id),
            action: ActionView::Send(wire_text(hub.bus.pending(id)[0])),
        }
    }
}

impl Event {
    /// Whether the event is a message from the client that carries no
    /// update.
    pub open spec fn is_noise(self) -> bool {
        self is Malformed || self is NotText
    }

    /// Whether the event ends the connection: a send that failed, or an
    /// inbound direction that failed or came to its end.
    pub open spec fn is_fatal(self) -> bool {
        self is SendFailed || self is Failed || self is Ended
    }
}

/// The session's transition function.
///
/// Starting: once the snapshot has reached the client the session
/// subscribes and becomes active; if the snapshot could not be delivered,
/// the connection ended, or no subscription can be had, it closes without
/// ever being active; any other event is left unserved.
///
/// Active: an update from the client is written to the hub, which replaces
/// the document and publishes the update to every subscriber, this session
/// among them; a message that carries no update is ignored; whenever the
/// session may send, it forwards what waits for it; a failed send, an
/// error or the end of the connection gives up the subscription and closes
/// the session.
///
/// Closed: nothing changes any more.
pub open spec fn step_of(session: SessionState, hub: HubState, event: Event) -> Step {
    match session {
        SessionState::Starting => match event {
            Event::Sent => if hub.bus.can_subscribe() {
                Step {
                    session: SessionState::Active(hub.bus.next_id as u64),
                    hub: hub.joined(),
                    action: ActionView::Wait,
                }
            } else {
                Step { session: SessionState::Closed, hub, action: ActionView::Close }
            },
            Event::SendFailed | Event::Failed | Event::Ended => Step {
                session: SessionState::Closed,
                hub,
                action: ActionView::Close,
            },
            _ => Step { session: SessionState::Starting, hub, action: ActionView::Wait },
        },
        SessionState::Active(id) => match event {
            Event::Received(update) => Step {
                session: SessionState::Active(id),
                hub: hub.written(update@),
                action: ActionView::Wait,
            },
            Event::Malformed | Event::NotText => Step {
                session: SessionState::Active(id),
                hub,
                action: ActionView::Wait,
            },
            Event::Sent | Event::BusReady => forward(id, hub),
            Event::SendFailed | Event::Failed | Event::Ended => Step {
                session: SessionState::Closed,
                hub: hub.left(id),
                action: ActionView::Close,
            },
        },
        SessionState::Closed => Step { session: SessionState::Closed, hub, action: ActionView::Close },
    }
}

impl Session {
    /// Opens a session: takes a snapshot of the document and asks for it
    /// to be sent as the session's first message. Nothing is subscribed
    /// yet.
    pub fn open(hub: &Hub) -> (opening: (Session, Action))
        ensures
            hub@.wf(),
            opening.0@ == SessionState::Starting,
            opening.1@ == ActionView::Send(wire_text(hub@.document)),
    {
        let snapshot = hub.read();
        (Session::Starting, Action::Send(snapshot.encode()))
    }

    /// Whether the session has ended.
    pub fn is_closed(&self) -> (closed: bool)
        ensures
            closed == (self@ == SessionState::Closed),
    {
        match self {
            Session::Closed => true,
            _ => false,
        }
    }

    /// Takes the session one step: applies `event` to the session and the
    /// hub as [`step_of`] says, and returns the session after the step
    /// with the action to carry out.
    pub fn step(self, hub: &mut Hub, event: Event) -> (next: (Session, Action))
        ensures
            old(hub)@.wf(),
            final(hub)@.wf(),
            next.0@ == step_of(self@, old(hub)@, event).session,
            final(hub)@ == step_of(self@, old(hub)@, event).hub,
            next.1@ == step_of(self@, old(hub)@, event).action,
    {
        proof {
            use_type_invariant(&*hub);
        }
        match self {
            Session::Starting => match event {
                Event::Sent => match hub.subscribe() {
                    Some(subscription) => (Session::Active(subscription), Action::Wait),
                    None => (Session::Closed, Action::Close),
                },
                Event::SendFailed | Event::Failed | Event::Ended => (
                    Session::Closed,
                    Action::Close,
                ),
                _ => (Session::Starting, Action::Wait),
            },
            Session::Active(subscription) => match event {
                Event::Received(update) => {
                    hub.write(update);
                    (Session::Active(subscription), Action::Wait)
                },
                Event::Malformed | Event::NotText => (Session::Active(subscription), Action::Wait),
                Event::Sent | Event::BusReady => match hub.receive(&subscription) {
                    Delivery::Update(update) => (
                        Session::Active(subscription),
                        Action::Send(update.encode()),
                    ),
                    Delivery::Empty => (Session::Active(subscription), Action::Wait),
                    Delivery::Closed => (Session::Closed, Action::Close),
                },
                Event::SendFailed | Event::Failed | Event::Ended => {
                    hub.unsubscribe(subscription);
                    (Session::Closed, Action::Close)
                },
            },
            Session::Closed => (Session::Closed, Action::Close),
        }
    }
}

} // verus!
