use shared_note::handlers::{read_content, save_content};
use shared_note::hub::Hub;
use shared_note::session::{Action, Event, Session};
use shared_note::update::Update;

fn received(text: &str) -> Event {
    Event::Received(Update::new(text.to_string()))
}

fn sent_text(action: Action) -> String {
    match action {
        Action::Send(text) => text,
        other => panic!("expected a send, got {:?}", other),
    }
}

fn connect(hub: &mut Hub) -> (Session, String) {
    let (session, action) = Session::open(hub);
    let snapshot = sent_text(action);
    let (session, action) = session.step(hub, Event::Sent);
    assert!(matches!(action, Action::Wait));
    assert!(matches!(session, Session::Active(_)));
    (session, snapshot)
}

#[test]
fn first_message_is_the_snapshot() {
    let mut hub = Hub::new("A".to_string(), 4);
    let (session, action) = Session::open(&hub);
    assert!(matches!(session, Session::Starting));
    assert_eq!(sent_text(action), "{\"content\":\"A\"}");
    assert_eq!(hub.subscriber_count(), 0);
    let (session, action) = session.step(&mut hub, Event::Sent);
    assert!(matches!(session, Session::Active(_)));
    assert!(matches!(action, Action::Wait));
    assert_eq!(hub.subscriber_count(), 1);
    assert_eq!(read_content(&hub), "{\"content\":\"A\"}");
}

#[test]
fn snapshot_is_the_latest_write() {
    let mut hub = Hub::new("A".to_string(), 4);
    hub.write(Update::new("B".to_string()));
    hub.write(Update::new("C".to_string()));
    let (_session, action) = Session::open(&hub);
    assert_eq!(sent_text(action), "{\"content\":\"C\"}");
}

#[test]
fn new_session_gets_no_history() {
    let mut hub = Hub::new("A".to_string(), 4);
    hub.write(Update::new("B".to_string()));
    let (session, snapshot) = connect(&mut hub);
    assert_eq!(snapshot, "{\"content\":\"B\"}");
    let (_session, action) = session.step(&mut hub, Event::BusReady);
    assert!(matches!(action, Action::Wait));
}

#[test]
fn failed_snapshot_closes_without_subscribing() {
    let mut hub = Hub::new("A".to_string(), 4);
    let (session, _action) = Session::open(&hub);
    let (session, action) = session.step(&mut hub, Event::SendFailed);
    assert!(session.is_closed());
    assert!(matches!(action, Action::Close));
    assert_eq!(hub.subscriber_count(), 0);
}

#[test]
fn disconnect_while_starting_closes() {
    for event in [Event::Ended, Event::Failed] {
        let mut hub = Hub::new("A".to_string(), 4);
        let (session, _action) = Session::open(&hub);
        let (session, action) = session.step(&mut hub, event);
        assert!(session.is_closed());
        assert!(matches!(action, Action::Close));
        assert_eq!(hub.subscriber_count(), 0);
    }
}

#[test]
fn transport_error_closes_and_unsubscribes() {
    let mut hub = Hub::new("A".to_string(), 4);
    let (session, _) = connect(&mut hub);
    let (other, _) = connect(&mut hub);
    let (session, action) = session.step(&mut hub, Event::Failed);
    assert!(session.is_closed());
    assert!(matches!(action, Action::Close));
    assert_eq!(hub.subscriber_count(), 1);
    let (_other, action) = other.step(&mut hub, Event::BusReady);
    assert!(matches!(action, Action::Wait));
}

#[test]
fn message_that_is_not_text_changes_nothing() {
    let mut hub = Hub::new("A".to_string(), 4);
    let (session, _) = connect(&mut hub);
    let (session, action) = session.step(&mut hub, Event::NotText);
    assert!(matches!(session, Session::Active(_)));
    assert!(matches!(action, Action::Wait));
    assert_eq!(hub.read().content, "A");
    assert_eq!(hub.subscriber_count(), 1);
    let (_session, action) = session.step(&mut hub, Event::BusReady);
    assert!(matches!(action, Action::Wait));
}

#[test]
fn starting_session_serves_nothing_else() {
    let mut hub = Hub::new("A".to_string(), 4);
    let (session, _action) = Session::open(&hub);
    let (session, action) = session.step(&mut hub, received("B"));
    assert!(matches!(session, Session::Starting));
    assert!(matches!(action, Action::Wait));
    let (session, action) = session.step(&mut hub, Event::Malformed);
    assert!(matches!(session, Session::Starting));
    assert!(matches!(action, Action::Wait));
    let (session, action) = session.step(&mut hub, Event::NotText);
    assert!(matches!(session, Session::Starting));
    assert!(matches!(action, Action::Wait));
    let (session, action) = session.step(&mut hub, Event::BusReady);
    assert!(matches!(session, Session::Starting));
    assert!(matches!(action, Action::Wait));
    assert_eq!(hub.read().content, "A");
    assert_eq!(hub.subscriber_count(), 0);
}

#[test]
fn two_clients_and_one_edit() {
    let mut hub = Hub::new("A".to_string(), 4);
    let (first, snapshot) = connect(&mut hub);
    assert_eq!(snapshot, "{\"content\":\"A\"}");
    let (second, snapshot) = connect(&mut hub);
    assert_eq!(snapshot, "{\"content\":\"A\"}");

    let (first, action) = first.step(&mut hub, received("B"));
    assert!(matches!(action, Action::Wait));
    assert_eq!(read_content(&hub), "{\"content\":\"B\"}");

    let (second, action) = second.step(&mut hub, Event::BusReady);
    assert_eq!(sent_text(action), "{\"content\":\"B\"}");
    let (second, action) = second.step(&mut hub, Event::Sent);
    assert!(matches!(action, Action::Wait));
    assert!(matches!(second, Session::Active(_)));

    let (first, action) = first.step(&mut hub, Event::BusReady);
    assert_eq!(sent_text(action), "{\"content\":\"B\"}");
    let (first, action) = first.step(&mut hub, Event::Sent);
    assert!(matches!(action, Action::Wait));
    assert!(matches!(first, Session::Active(_)));
}

#[test]
fn save_request_reaches_a_streaming_client() {
    let mut hub = Hub::new("A".to_string(), 4);
    let (session, _snapshot) = connect(&mut hub);
    assert_eq!(save_content(&mut hub, Update::new("X".to_string())), "\"OK\"");
    let (session, action) = session.step(&mut hub, Event::BusReady);
    assert_eq!(sent_text(action), "{\"content\":\"X\"}");
    let (_session, action) = session.step(&mut hub, Event::Sent);
    assert!(matches!(action, Action::Wait));
}

#[test]
fn updates_are_forwarded_in_the_order_of_writing() {
    let mut hub = Hub::new("A".to_string(), 8);
    let (writer, _) = connect(&mut hub);
    let (reader, _) = connect(&mut hub);
    let (writer, _) = writer.step(&mut hub, received("1"));
    let (writer, _) = writer.step(&mut hub, received("2"));
    let (_writer, _) = writer.step(&mut hub, received("3"));
    let (reader, action) = reader.step(&mut hub, Event::BusReady);
    assert_eq!(sent_text(action), "{\"content\":\"1\"}");
    let (reader, action) = reader.step(&mut hub, Event::Sent);
    assert_eq!(sent_text(action), "{\"content\":\"2\"}");
    let (reader, action) = reader.step(&mut hub, Event::Sent);
    assert_eq!(sent_text(action), "{\"content\":\"3\"}");
    let (_reader, action) = reader.step(&mut hub, Event::Sent);
    assert!(matches!(action, Action::Wait));
    assert_eq!(hub.read().content, "3");
}

#[test]
fn malformed_message_changes_nothing() {
    let mut hub = Hub::new("A".to_string(), 4);
    let (session, _) = connect(&mut hub);
    let (other, _) = connect(&mut hub);
    let (session, action) = session.step(&mut hub, Event::Malformed);
    assert!(matches!(session, Session::Active(_)));
    assert!(matches!(action, Action::Wait));
    assert_eq!(hub.read().content, "A");
    assert_eq!(hub.subscriber_count(), 2);
    let (_other, action) = other.step(&mut hub, Event::BusReady);
    assert!(matches!(action, Action::Wait));
    let (_session, action) = session.step(&mut hub, received("B"));
    assert!(matches!(action, Action::Wait));
    assert_eq!(hub.read().content, "B");
}

#[test]
fn empty_content_is_a_valid_edit() {
    let mut hub = Hub::new("A".to_string(), 4);
    let (session, _) = connect(&mut hub);
    let (session, _) = session.step(&mut hub, received(""));
    assert_eq!(hub.read().content, "");
    let (_session, action) = session.step(&mut hub, Event::BusReady);
    assert_eq!(sent_text(action), "{\"content\":\"\"}");
}

#[test]
fn failure_of_one_session_leaves_the_rest_alone() {
    let mut hub = Hub::new("A".to_string(), 4);
    let (failing, _) = connect(&mut hub);
    let (healthy, _) = connect(&mut hub);
    let (healthy, _) = healthy.step(&mut hub, received("B"));

    let (failing, action) = failing.step(&mut hub, Event::Ended);
    assert!(failing.is_closed());
    assert!(matches!(action, Action::Close));
    assert_eq!(hub.subscriber_count(), 1);
    assert_eq!(hub.read().content, "B");

    let (healthy, action) = healthy.step(&mut hub, Event::BusReady);
    assert_eq!(sent_text(action), "{\"content\":\"B\"}");
    let (healthy, _) = healthy.step(&mut hub, Event::Sent);

    let (joined, snapshot) = connect(&mut hub);
    assert_eq!(snapshot, "{\"content\":\"B\"}");
    assert_eq!(hub.subscriber_count(), 2);

    let (joined, _) = joined.step(&mut hub, received("C"));
    let (_healthy, action) = healthy.step(&mut hub, Event::BusReady);
    assert_eq!(sent_text(action), "{\"content\":\"C\"}");
    let (_joined, action) = joined.step(&mut hub, Event::BusReady);
    assert_eq!(sent_text(action), "{\"content\":\"C\"}");
}

#[test]
fn failed_send_closes_and_unsubscribes() {
    let mut hub = Hub::new("A".to_string(), 4);
    let (session, _) = connect(&mut hub);
    hub.write(Update::new("B".to_string()));
    let (session, action) = session.step(&mut hub, Event::BusReady);
    assert_eq!(sent_text(action), "{\"content\":\"B\"}");
    let (session, action) = session.step(&mut hub, Event::SendFailed);
    assert!(session.is_closed());
    assert!(matches!(action, Action::Close));
    assert_eq!(hub.subscriber_count(), 0);
    assert_eq!(hub.read().content, "B");
}

#[test]
fn closed_session_stays_closed() {
    let mut hub = Hub::new("A".to_string(), 4);
    let (session, _) = connect(&mut hub);
    let (session, _) = session.step(&mut hub, Event::Ended);
    let (session, action) = session.step(&mut hub, received("B"));
    assert!(session.is_closed());
    assert!(matches!(action, Action::Close));
    let (session, action) = session.step(&mut hub, Event::Sent);
    assert!(session.is_closed());
    assert!(matches!(action, Action::Close));
    let (session, action) = session.step(&mut hub, Event::BusReady);
    assert!(session.is_closed());
    assert!(matches!(action, Action::Close));
    assert_eq!(hub.read().content, "A");
    assert_eq!(hub.subscriber_count(), 0);
}

#[test]
fn session_whose_subscription_is_gone_closes() {
    let mut hub = Hub::new("A".to_string(), 4);
    let mut other = Hub::new("Z".to_string(), 4);
    let (stray, _) = connect(&mut hub);
    let (stray, action) = stray.step(&mut other, Event::BusReady);
    assert!(stray.is_closed());
    assert!(matches!(action, Action::Close));
    assert_eq!(other.read().content, "Z");
    assert_eq!(other.subscriber_count(), 0);
}

#[test]
fn sessions_converge_on_the_last_write() {
    let mut hub = Hub::new("A".to_string(), 4);
    let (one, _) = connect(&mut hub);
    let (two, _) = connect(&mut hub);
    let (one, _) = one.step(&mut hub, received("from one"));
    let (two, _) = two.step(&mut hub, received("from two"));
    save_content(&mut hub, Update::new("from a request".to_string()));

    let mut last = Vec::new();
    for session in [one, two] {
        let mut session = session;
        let mut event = Event::BusReady;
        let mut latest = String::new();
        loop {
            let (next, action) = session.step(&mut hub, event);
            session = next;
            match action {
                Action::Send(text) => {
                    latest = text;
                    event = Event::Sent;
                }
                Action::Wait => break,
                Action::Close => panic!("the session is healthy"),
            }
        }
        last.push(latest);
    }
    assert_eq!(last, vec!["{\"content\":\"from a request\"}"; 2]);
    assert_eq!(read_content(&hub), "{\"content\":\"from a request\"}");
}
