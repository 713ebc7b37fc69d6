use vstd::prelude::*;
use vstd::string::StringExecFns;

use crate::errors::RequestError;
use crate::message::{can_user_delete, Message, MessageStore};
use crate::session::{Session, SessionStore};
use crate::user::{User, UserStore};
use crate::validators::validate_message;
use crate::websocket::{mask_filter, Connection, WebSocketHandler};

verus! {

/// The transport payload pushed to live viewers for a message: a pure
/// function of the message alone. Full HTML rendering is a display concern
/// outside this core.
pub open spec fn spec_render(message: Message) -> Seq<char> {
    message.author_name@ + ": "@ + message.text@
}

/// Renders a message into the payload broadcast to live viewers.
pub fn render_message(message: &Message) -> (payload: String)
    ensures
        payload@ == spec_render(*message),
{
    let mut payload = message.author_name.clone();
    payload.append(": ");
    payload.append(message.text.as_str());
    payload
}

/// One message joined with whether the viewing user may delete it.
pub struct MessageDetail {
    pub message: Message,
    pub can_delete: bool,
}

/// Joins every stored message, in creation order, with whether the viewing
/// user is its author and so may delete it. An anonymous viewer may delete
/// nothing.
pub fn message_details(messages: &MessageStore, viewer: Option<&User>) -> (details: Vec<
    MessageDetail,
>)
    ensures
        details@.len() == messages.messages@.len(),
        forall|i: int|
            0 <= i < details@.len() ==> {
                &&& (#[trigger] details@[i]).message == messages.messages@[i]
                &&& details@[i].can_delete == (match viewer {
                    Some(user) => messages.messages@[i].author_id == user.id,
                    None => false,
                })
            },
{
    let mut details: Vec<MessageDetail> = Vec::new();
    let mut i: usize = 0;
    while i < messages.messages.len()
        invariant
            i <= messages.messages@.len(),
            details@.len() == i,
            forall|j: int|
                0 <= j < i ==> {
                    &&& (#[trigger] details@[j]).message == messages.messages@[j]
                    &&& details@[j].can_delete == (match viewer {
                        Some(user) => messages.messages@[j].author_id == user.id,
                        None => false,
                    })
                },
        decreases messages.messages@.len() - i,
    {
        let message = messages.messages[i].clone();
        let can_delete = match viewer {
            Some(user) => can_user_delete(&message, user),
            None => false,
        };
        details.push(MessageDetail { message, can_delete });
        i = i + 1;
    }
    details
}

/// The write path: validates the text, requires an authenticated session
/// whose user exists, persists the message, and only after a successful
/// persist broadcasts its rendering to every live connection. Errors leave
/// both the store and the hub untouched; broadcast outcomes never fail the
/// request.
pub fn post_message<C: Connection>(
    users: &UserStore,
    messages: &mut MessageStore,
    hub: &mut WebSocketHandler<C>,
    session: &Session,
    text: &str,
) -> (result: Result<Message, RequestError>)
    requires
        users.wf(),
        old(messages).wf(),
    ensures
        final(messages).wf(),
        text@.len() == 0 ==> {
            &&& result matches Err(e) && e matches RequestError::Validation(v) && v is TooShort
            &&& *final(messages) == *old(messages)
            &&& *final(hub) == *old(hub)
        },
        text@.len() > 0 ==> (match session.user_id {
            None => {
                &&& result matches Err(e) && e is Unauthenticated
                &&& *final(messages) == *old(messages)
                &&& *final(hub) == *old(hub)
            },
            Some(author_id) => {
                &&& !users.contains_id(author_id) ==> {
                    &&& result matches Err(e) && e is Unauthenticated
                    &&& *final(messages) == *old(messages)
                    &&& *final(hub) == *old(hub)
                }
                &&& users.contains_id(author_id) ==> {
                    &&& result is Ok <==> old(messages).next_id < i32::MAX
                    &&& result matches Ok(message) ==> {
                        &&& message.id == old(messages).next_id
                        &&& message.text@ == text@
                        &&& message.author_id == author_id
                        &&& exists|user: User|
                            #[trigger] users.users@.contains(user) && user.id == author_id
                                && message.author_name == user.name
                        &&& final(messages).messages@ == old(messages).messages@.push(message)
                        &&& final(messages).next_id == old(messages).next_id + 1
                        &&& exists|outcomes: Seq<bool>|
                            outcomes.len() == old(hub).websockets@.len() && final(hub).websockets@
                                == #[trigger] mask_filter(old(hub).websockets@, outcomes)
                    }
                    &&& result matches Err(e) ==> {
                        &&& e is Persistence
                        &&& *final(messages) == *old(messages)
                        &&& *final(hub) == *old(hub)
                    }
                }
            },
        }),
{
    if let Err(reason) = validate_message(text) {
        return Err(RequestError::Validation(reason));
    }

    let author_id = match session.user_id {
        Some(author_id) => author_id,
        None => {
            return Err(RequestError::Unauthenticated);
        },
    };

    let author = match users.get(author_id) {
        Some(author) => author,
        None => {
            return Err(RequestError::Unauthenticated);
        },
    };

    let message = match messages.create(text, &author) {
        Ok(message) => message,
        Err(_) => {
            return Err(RequestError::Persistence);
        },
    };

    let payload = render_message(&message);
    let outcomes = hub.broadcast(payload.as_str());
    proof {
        assert(outcomes@.len() == old(hub).websockets@.len() && hub.websockets@ == mask_filter(
            old(hub).websockets@,
            outcomes@,
        ));
    }
    Ok(message)
}

/// The delete path: requires an authenticated session whose user exists,
/// finds the addressed message, and deletes it only when the session's
/// user is its author. A refusal is short-circuited with no state change:
/// never a partial delete, and deletions are not broadcast.
pub fn delete_message(
    users: &UserStore,
    messages: &mut MessageStore,
    session: &Session,
    message_id: i32,
) -> (result: Result<i32, RequestError>)
    requires
        users.wf(),
        old(messages).wf(),
    ensures
        final(messages).wf(),
        (match session.user_id {
            None => {
                &&& result matches Err(e) && e is Unauthenticated
                &&& *final(messages) == *old(messages)
            },
            Some(user_id) => {
                &&& !users.contains_id(user_id) ==> {
                    &&& result matches Err(e) && e is Unauthenticated
                    &&& *final(messages) == *old(messages)
                }
                &&& users.contains_id(user_id) ==> {
                    &&& !old(messages).contains_id(message_id) ==> {
                        &&& result matches Err(e) && e is NotFound
                        &&& *final(messages) == *old(messages)
                    }
                    &&& (forall|i: int|
                        0 <= i < old(messages).messages@.len()
                            && (#[trigger] old(messages).messages@[i]).id == message_id
                            ==> old(messages).messages@[i].author_id != user_id) ==> {
                        &&& old(messages).contains_id(message_id) ==> {
                            &&& result matches Err(e) && e is PermissionDenied
                            &&& *final(messages) == *old(messages)
                        }
                    }
                    &&& (exists|i: int|
                        0 <= i < old(messages).messages@.len()
                            && (#[trigger] old(messages).messages@[i]).id == message_id
                            && old(messages).messages@[i].author_id == user_id) ==> {
                        &&& (result matches Ok(id) && id == message_id)
                        &&& !final(messages).contains_id(message_id)
                        &&& exists|i: int|
                            0 <= i < old(messages).messages@.len()
                                && (#[trigger] old(messages).messages@[i]).id == message_id
                                && final(messages).messages@ == old(
                                messages,
                            ).messages@.remove(i)
                    }
                }
            },
        }),
{
    let user_id = match session.user_id {
        Some(user_id) => user_id,
        None => {
            return Err(RequestError::Unauthenticated);
        },
    };

    let user = match users.get(user_id) {
        Some(user) => user,
        None => {
            return Err(RequestError::Unauthenticated);
        },
    };

    let message = match messages.get(message_id) {
        Some(message) => message,
        None => {
            return Err(RequestError::NotFound);
        },
    };

    if !can_user_delete(&message, &user) {
        proof {
            let j = choose|j: int|
                0 <= j < messages.messages@.len() && messages.messages@[j] == message;
            assert(messages.contains_id(message_id));
            if exists|i: int|
                0 <= i < messages.messages@.len() && (#[trigger] messages.messages@[i]).id
                    == message_id && messages.messages@[i].author_id == user_id {
                let i = choose|i: int|
                    0 <= i < messages.messages@.len() && (#[trigger] messages.messages@[i]).id
                        == message_id && messages.messages@[i].author_id == user_id;
                messages.lemma_id_unique(i, j);
                assert(false);
            }
        }
        return Err(RequestError::PermissionDenied);
    }

    messages.delete(message_id);
    proof {
        let j = choose|j: int|
            0 <= j < old(messages).messages@.len() && old(messages).messages@[j] == message;
        let i = choose|i: int|
            0 <= i < old(messages).messages@.len() && (#[trigger] old(messages).messages@[i]).id
                == message_id && final(messages).messages@ == old(messages).messages@.remove(i);
        assert(old(messages).messages@[j].author_id == user_id);
    }
    Ok(message_id)
}

/// The login action: creates a fresh identity under the given name and
/// binds the session to it. The identity is created first; a session the
/// store no longer knows leaves the new identity behind but binds nothing.
pub fn login(
    users: &mut UserStore,
    sessions: &mut SessionStore,
    session: &Session,
    name: &str,
) -> (result: Result<(User, Session), RequestError>)
    requires
        old(users).wf(),
        old(sessions).wf(),
    ensures
        final(users).wf(),
        final(sessions).wf(),
        result is Ok <==> old(users).next_id < i32::MAX && old(sessions).contains_token(
            session.id@,
        ),
        result matches Ok(pair) ==> {
            &&& pair.0.id == old(users).next_id
            &&& pair.0.name@ == name@
            &&& final(users).users@ == old(users).users@.push(pair.0)
            &&& final(users).next_id == old(users).next_id + 1
            &&& pair.1.id@ == session.id@
            &&& pair.1.user_id == Some(pair.0.id)
            &&& exists|i: int|
                0 <= i < old(sessions).sessions@.len() && (#[trigger] old(
                    sessions,
                ).sessions@[i]).id@ == session.id@ && final(sessions).sessions@ == old(
                    sessions,
                ).sessions@.update(i, pair.1)
        },
        old(users).next_id == i32::MAX ==> {
            &&& result matches Err(e) && e is Persistence
            &&& *final(users) == *old(users)
            &&& *final(sessions) == *old(sessions)
        },
        (old(users).next_id < i32::MAX && !old(sessions).contains_token(session.id@)) ==> {
            &&& result matches Err(e) && e is SessionUnavailable
            &&& exists|user: User|
                user.id == old(users).next_id && user.name@ == name@ && final(users).users@
                    == #[trigger] old(users).users@.push(user)
            &&& final(users).next_id == old(users).next_id + 1
            &&& *final(sessions) == *old(sessions)
        },
{
    let user = match users.create(name) {
        Ok(user) => user,
        Err(_) => {
            return Err(RequestError::Persistence);
        },
    };

    let bound = match sessions.set_user(session.id.as_str(), user.id) {
        Ok(bound) => bound,
        Err(_) => {
            return Err(RequestError::SessionUnavailable);
        },
    };

    Ok((user, bound))
}

} // verus!
