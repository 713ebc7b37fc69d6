use message_board::message::{can_delete, can_user_delete, Message};
use message_board::session::Session;
use message_board::user::User;
use message_board::validators::{validate_message, ValidationError};

fn sample_message(author_id: i32) -> Message {
    Message::new(1, "hello".to_string(), author_id, "alice".to_string())
}

#[test]
fn author_may_delete_own_message() {
    let message = sample_message(5);
    let author = User::new(5, "alice".to_string());
    assert!(can_user_delete(&message, &author));
}

#[test]
fn non_author_may_not_delete() {
    let message = sample_message(5);
    let stranger = User::new(6, "bob".to_string());
    assert!(!can_user_delete(&message, &stranger));
}

#[test]
fn session_bound_to_author_may_delete() {
    let message = sample_message(5);
    let session = Session::new("token".to_string(), Some(5));
    assert!(can_delete(&message, &session));
}

#[test]
fn session_bound_to_other_user_may_not_delete() {
    let message = sample_message(5);
    let session = Session::new("token".to_string(), Some(6));
    assert!(!can_delete(&message, &session));
}

#[test]
fn anonymous_session_may_never_delete() {
    let message = sample_message(5);
    let session = Session::new("token".to_string(), None);
    assert!(!can_delete(&message, &session));
}

#[test]
fn empty_message_is_too_short() {
    assert!(matches!(validate_message(""), Err(ValidationError::TooShort)));
}

#[test]
fn one_character_message_is_accepted() {
    assert!(validate_message("x").is_ok());
}

#[test]
fn ordinary_message_is_accepted() {
    assert!(validate_message("hello world").is_ok());
}
