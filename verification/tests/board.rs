use std::cell::RefCell;
use std::rc::Rc;

use message_board::errors::{RequestError, StoreError};
use message_board::message::MessageStore;
use message_board::pipeline::{delete_message, login, message_details, post_message, render_message};
use message_board::session::{resolve, SessionStore};
use message_board::user::{get_user_from_session, UserStore};
use message_board::websocket::{Connection, WebSocketHandler};

/// A loopback connection that records every payload it accepts.
#[derive(Clone)]
struct RecordingConnection {
    received: Rc<RefCell<Vec<String>>>,
}

impl RecordingConnection {
    fn new() -> Self {
        RecordingConnection { received: Rc::new(RefCell::new(Vec::new())) }
    }

    fn received(&self) -> Vec<String> {
        self.received.borrow().clone()
    }
}

impl Connection for RecordingConnection {
    fn send(&self, payload: &str) -> bool {
        self.received.borrow_mut().push(payload.to_string());
        true
    }
}

#[test]
fn anonymous_post_is_unauthenticated_and_leaves_no_trace() {
    let mut sessions = SessionStore::new();
    let users = UserStore::new();
    let mut messages = MessageStore::new();
    let mut hub: WebSocketHandler<RecordingConnection> = WebSocketHandler::new();
    let viewer = RecordingConnection::new();
    hub.add_websocket(viewer.clone());

    let session = resolve(&mut sessions, None).expect("fresh session");
    assert!(session.user_id.is_none());

    let result = post_message(&users, &mut messages, &mut hub, &session, "hi");
    assert!(matches!(result, Err(RequestError::Unauthenticated)));
    assert_eq!(messages.messages.len(), 0);
    assert_eq!(viewer.received(), Vec::<String>::new());
}

#[test]
fn authenticated_post_persists_and_broadcasts_to_all_connections() {
    let mut sessions = SessionStore::new();
    let mut users = UserStore::new();
    let mut messages = MessageStore::new();
    let mut hub: WebSocketHandler<RecordingConnection> = WebSocketHandler::new();
    let first_viewer = RecordingConnection::new();
    let second_viewer = RecordingConnection::new();
    hub.add_websocket(first_viewer.clone());
    hub.add_websocket(second_viewer.clone());

    let session = resolve(&mut sessions, None).expect("fresh session");
    let (alice, session) =
        login(&mut users, &mut sessions, &session, "alice").expect("login succeeds");
    assert_eq!(alice.name, "alice".to_string());
    assert_eq!(session.user_id, Some(alice.id));

    let message =
        post_message(&users, &mut messages, &mut hub, &session, "hello world").expect("post");
    assert_eq!(message.text, "hello world".to_string());
    assert_eq!(message.author_id, alice.id);
    assert_eq!(message.author_name, "alice".to_string());
    assert_eq!(messages.messages.len(), 1);

    let first_feed = first_viewer.received();
    let second_feed = second_viewer.received();
    assert_eq!(first_feed.len(), 1);
    assert_eq!(first_feed, second_feed);
    assert!(first_feed[0].contains("hello world"));
}

#[test]
fn delete_by_non_author_is_denied_and_message_survives() {
    let mut sessions = SessionStore::new();
    let mut users = UserStore::new();
    let mut messages = MessageStore::new();
    let mut hub: WebSocketHandler<RecordingConnection> = WebSocketHandler::new();

    let s1 = resolve(&mut sessions, None).expect("fresh session");
    let (u1, s1) = login(&mut users, &mut sessions, &s1, "alice").expect("login");
    let m1 = post_message(&users, &mut messages, &mut hub, &s1, "mine").expect("post");
    assert_eq!(m1.author_id, u1.id);

    let s2 = resolve(&mut sessions, None).expect("fresh session");
    let (u2, s2) = login(&mut users, &mut sessions, &s2, "bob").expect("login");
    assert_ne!(u1.id, u2.id);

    let result = delete_message(&users, &mut messages, &s2, m1.id);
    assert!(matches!(result, Err(RequestError::PermissionDenied)));
    assert!(messages.get(m1.id).is_some());
    assert_eq!(messages.messages.len(), 1);
}

#[test]
fn delete_by_author_removes_exactly_that_message() {
    let mut sessions = SessionStore::new();
    let mut users = UserStore::new();
    let mut messages = MessageStore::new();
    let mut hub: WebSocketHandler<RecordingConnection> = WebSocketHandler::new();

    let session = resolve(&mut sessions, None).expect("fresh session");
    let (_, session) = login(&mut users, &mut sessions, &session, "alice").expect("login");
    let first = post_message(&users, &mut messages, &mut hub, &session, "first").expect("post");
    let second = post_message(&users, &mut messages, &mut hub, &session, "second").expect("post");

    let result = delete_message(&users, &mut messages, &session, first.id);
    assert_eq!(result.ok(), Some(first.id));
    assert!(messages.get(first.id).is_none());
    assert!(messages.get(second.id).is_some());
    assert_eq!(messages.messages.len(), 1);
}

#[test]
fn deleting_a_missing_message_is_not_found() {
    let mut sessions = SessionStore::new();
    let mut users = UserStore::new();
    let mut messages = MessageStore::new();

    let session = resolve(&mut sessions, None).expect("fresh session");
    let (_, session) = login(&mut users, &mut sessions, &session, "alice").expect("login");

    let result = delete_message(&users, &mut messages, &session, 42);
    assert!(matches!(result, Err(RequestError::NotFound)));
}

#[test]
fn empty_post_is_a_validation_error() {
    let mut sessions = SessionStore::new();
    let mut users = UserStore::new();
    let mut messages = MessageStore::new();
    let mut hub: WebSocketHandler<RecordingConnection> = WebSocketHandler::new();
    let viewer = RecordingConnection::new();
    hub.add_websocket(viewer.clone());

    let session = resolve(&mut sessions, None).expect("fresh session");
    let (_, session) = login(&mut users, &mut sessions, &session, "alice").expect("login");

    let result = post_message(&users, &mut messages, &mut hub, &session, "");
    assert!(matches!(result, Err(RequestError::Validation(_))));
    assert_eq!(messages.messages.len(), 0);
    assert_eq!(viewer.received(), Vec::<String>::new());
}

#[test]
fn exhausted_message_store_is_a_persistence_error_and_nothing_is_broadcast() {
    let mut sessions = SessionStore::new();
    let mut users = UserStore::new();
    let mut messages = MessageStore { messages: Vec::new(), next_id: i32::MAX };
    let mut hub: WebSocketHandler<RecordingConnection> = WebSocketHandler::new();
    let viewer = RecordingConnection::new();
    hub.add_websocket(viewer.clone());

    let session = resolve(&mut sessions, None).expect("fresh session");
    let (_, session) = login(&mut users, &mut sessions, &session, "alice").expect("login");

    let result = post_message(&users, &mut messages, &mut hub, &session, "doomed");
    assert!(matches!(result, Err(RequestError::Persistence)));
    assert_eq!(messages.messages.len(), 0);
    assert_eq!(viewer.received(), Vec::<String>::new());
}

#[test]
fn exhausted_user_store_fails_login() {
    let mut sessions = SessionStore::new();
    let mut users = UserStore { users: Vec::new(), next_id: i32::MAX };

    let session = resolve(&mut sessions, None).expect("fresh session");
    let result = login(&mut users, &mut sessions, &session, "alice");
    assert!(matches!(result, Err(RequestError::Persistence)));
    assert!(matches!(users.create("bob"), Err(StoreError::Full)));
}

#[test]
fn message_list_keeps_creation_order_with_monotonic_ids() {
    let mut sessions = SessionStore::new();
    let mut users = UserStore::new();
    let mut messages = MessageStore::new();
    let mut hub: WebSocketHandler<RecordingConnection> = WebSocketHandler::new();

    let session = resolve(&mut sessions, None).expect("fresh session");
    let (_, session) = login(&mut users, &mut sessions, &session, "alice").expect("login");
    post_message(&users, &mut messages, &mut hub, &session, "one").expect("post");
    post_message(&users, &mut messages, &mut hub, &session, "two").expect("post");
    post_message(&users, &mut messages, &mut hub, &session, "three").expect("post");

    let listed = messages.list();
    assert_eq!(listed.len(), 3);
    assert_eq!(listed[0].text, "one".to_string());
    assert_eq!(listed[1].text, "two".to_string());
    assert_eq!(listed[2].text, "three".to_string());
    assert!(listed[0].id < listed[1].id && listed[1].id < listed[2].id);
}

#[test]
fn message_details_mark_only_the_viewers_own_messages_deletable() {
    let mut sessions = SessionStore::new();
    let mut users = UserStore::new();
    let mut messages = MessageStore::new();
    let mut hub: WebSocketHandler<RecordingConnection> = WebSocketHandler::new();

    let s1 = resolve(&mut sessions, None).expect("fresh session");
    let (alice, s1) = login(&mut users, &mut sessions, &s1, "alice").expect("login");
    let s2 = resolve(&mut sessions, None).expect("fresh session");
    let (_bob, s2) = login(&mut users, &mut sessions, &s2, "bob").expect("login");

    post_message(&users, &mut messages, &mut hub, &s1, "from alice").expect("post");
    post_message(&users, &mut messages, &mut hub, &s2, "from bob").expect("post");

    let details = message_details(&messages, Some(&alice));
    assert_eq!(details.len(), 2);
    assert!(details[0].can_delete);
    assert!(!details[1].can_delete);

    let anonymous = message_details(&messages, None);
    assert!(anonymous.iter().all(|detail| !detail.can_delete));
}

#[test]
fn viewer_identity_follows_the_session_binding() {
    let mut sessions = SessionStore::new();
    let mut users = UserStore::new();

    let session = resolve(&mut sessions, None).expect("fresh session");
    assert!(get_user_from_session(&users, &session).is_none());

    let (alice, session) = login(&mut users, &mut sessions, &session, "alice").expect("login");
    let viewer = get_user_from_session(&users, &session).expect("bound user exists");
    assert_eq!(viewer.id, alice.id);
    assert_eq!(viewer.name, "alice".to_string());
}

#[test]
fn rendering_is_a_pure_function_of_the_message() {
    let message = message_board::message::Message::new(
        3,
        "hi there".to_string(),
        1,
        "alice".to_string(),
    );
    assert_eq!(render_message(&message), "alice: hi there".to_string());
    assert_eq!(render_message(&message), "alice: hi there".to_string());
}
