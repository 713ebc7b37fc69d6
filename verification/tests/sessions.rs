use message_board::errors::{RequestError, StoreError};
use message_board::session::{resolve, resolve_with_token, SessionStore};

#[test]
fn resolving_without_credential_issues_fresh_unique_tokens() {
    let mut store = SessionStore::new();

    let first = resolve(&mut store, None).expect("fresh session");
    let second = resolve(&mut store, None).expect("fresh session");

    assert_eq!(first.id.len(), 36);
    assert_eq!(second.id.len(), 36);
    assert_ne!(first.id, second.id);
    assert!(first.user_id.is_none());
    assert!(second.user_id.is_none());
    assert_eq!(store.sessions.len(), 2);
}

#[test]
fn resolving_with_valid_credential_returns_stored_binding_without_mutation() {
    let mut store = SessionStore::new();

    let session = resolve(&mut store, None).expect("fresh session");
    store.set_user(&session.id, 7).expect("session is stored");

    let resolved = resolve(&mut store, Some(&session.id)).expect("existing session");
    assert_eq!(resolved.id, session.id);
    assert_eq!(resolved.user_id, Some(7));
    assert_eq!(store.sessions.len(), 1);

    // resolving alone mutates nothing: the binding is still what set_user left
    let again = resolve(&mut store, Some(&session.id)).expect("existing session");
    assert_eq!(again.user_id, Some(7));
    assert_eq!(store.sessions.len(), 1);
}

#[test]
fn resolving_with_unknown_credential_creates_a_fresh_session() {
    let mut store = SessionStore::new();

    let resolved = resolve(&mut store, Some("not-a-known-token")).expect("fresh session");
    assert_ne!(resolved.id, "not-a-known-token".to_string());
    assert!(resolved.user_id.is_none());
    assert_eq!(store.sessions.len(), 1);
}

#[test]
fn a_colliding_fresh_token_makes_resolution_unavailable() {
    let mut store = SessionStore::new();
    store.create("taken".to_string()).expect("first use of the token");

    let result = resolve_with_token(&mut store, None, "taken".to_string());
    assert!(matches!(result, Err(RequestError::SessionUnavailable)));
    assert_eq!(store.sessions.len(), 1);
}

#[test]
fn creating_a_duplicate_token_is_rejected() {
    let mut store = SessionStore::new();
    store.create("token-a".to_string()).expect("first use of the token");

    let result = store.create("token-a".to_string());
    assert!(matches!(result, Err(StoreError::Duplicate)));
    assert_eq!(store.sessions.len(), 1);
}

#[test]
fn binding_an_unknown_token_is_rejected() {
    let mut store = SessionStore::new();

    let result = store.set_user("never-issued", 3);
    assert!(matches!(result, Err(StoreError::Missing)));
    assert_eq!(store.sessions.len(), 0);
}

#[test]
fn get_finds_exactly_the_stored_session() {
    let mut store = SessionStore::new();
    store.create("token-a".to_string()).expect("fresh token");
    store.create("token-b".to_string()).expect("fresh token");

    let found = store.get("token-b").expect("stored session");
    assert_eq!(found.id, "token-b".to_string());
    assert!(found.user_id.is_none());
    assert!(store.get("token-c").is_none());
}
