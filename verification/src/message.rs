use vstd::prelude::*;

use crate::errors::StoreError;
use crate::session::Session;
use crate::user::User;

verus! {

/// A posted message. The author's name is denormalized onto the record for
/// display; `author_id` references the user that existed when the message
/// was created.
pub struct Message {
    pub id: i32,
    pub text: String,
    pub author_id: i32,
    pub author_name: String,
}

impl Message {
    pub fn new(id: i32, text: String, author_id: i32, author_name: String) -> (message: Message)
        ensures
            message.id == id,
            message.text == text,
            message.author_id == author_id,
            message.author_name == author_name,
    {
        Message { id, text, author_id, author_name }
    }
}

impl Clone for Message {
    fn clone(&self) -> (copy: Self)
        ensures
            copy == *self,
    {
        Message {
            id: self.id,
            text: self.text.clone(),
            author_id: self.author_id,
            author_name: self.author_name.clone(),
        }
    }
}

/// Whether a message may be deleted by a given user.
///
/// A message may only be deleted by its own author.
pub fn can_user_delete(message: &Message, user: &User) -> (allowed: bool)
    ensures
        allowed == (message.author_id == user.id),
{
    message.author_id == user.id
}

/// The authorization policy on destructive calls: a session may delete a
/// message exactly when it is bound to the message's author. An anonymous
/// session may delete nothing.
pub fn can_delete(message: &Message, session: &Session) -> (allowed: bool)
    ensures
        allowed == (session.user_id == Some(message.author_id)),
        session.user_id is None ==> !allowed,
{
    match session.user_id {
        Some(user_id) => user_id == message.author_id,
        None => false,
    }
}

/// System of record for messages. Ids are assigned in creation order, so
/// they strictly increase along the list.
pub struct MessageStore {
    pub messages: Vec<Message>,
    pub next_id: i32,
}

impl MessageStore {
    /// Well-formed: ids are positive, strictly increasing in list order,
    /// and below `next_id`.
    pub open spec fn wf(self) -> bool {
        &&& 1 <= self.next_id
        &&& forall|i: int|
            0 <= i < self.messages@.len() ==> 1 <= #[trigger] self.messages@[i].id < self.next_id
        &&& forall|i: int, j: int|
            0 <= i < j < self.messages@.len() ==> self.messages@[i].id < self.messages@[j].id
    }

    /// Whether some message carries the given id.
    pub open spec fn contains_id(self, id: i32) -> bool {
        exists|i: int| 0 <= i < self.messages@.len() && self.messages@[i].id == id
    }

    pub fn new() -> (store: MessageStore)
        ensures
            store.wf(),
            store.messages@.len() == 0,
    {
        MessageStore { messages: Vec::new(), next_id: 1 }
    }

    /// Where the message with the given id sits, if anywhere.
    fn index_of(&self, id: i32) -> (found: Option<usize>)
        ensures
            found matches Some(i) ==> i < self.messages@.len()
                && self.messages@[i as int].id == id,
            found is None ==> !self.contains_id(id),
    {
        let mut i: usize = 0;
        while i < self.messages.len()
            invariant
                i <= self.messages@.len(),
                forall|j: int| 0 <= j < i ==> #[trigger] self.messages@[j].id != id,
            decreases self.messages@.len() - i,
        {
            if self.messages[i].id == id {
                return Some(i);
            }
            i = i + 1;
        }
        None
    }

    /// Persists a new message under a fresh id, in creation order, with the
    /// author's identity denormalized onto the record. Fails only when the
    /// id space is exhausted, and then changes nothing.
    pub fn create(&mut self, text: &str, author: &User) -> (result: Result<Message, StoreError>)
        requires
            old(self).wf(),
        ensures
            final(self).wf(),
            result is Ok <==> old(self).next_id < i32::MAX,
            result matches Ok(message) ==> {
                &&& message.id == old(self).next_id
                &&& message.text@ == text@
                &&& message.author_id == author.id
                &&& message.author_name == author.name
                &&& final(self).messages@ == old(self).messages@.push(message)
                &&& final(self).next_id == old(self).next_id + 1
            },
            result matches Err(e) ==> e is Full && *final(self) == *old(self),
    {
        if self.next_id == i32::MAX {
            return Err(StoreError::Full);
        }

        let message = Message {
            id: self.next_id,
            text: text.to_owned(),
            author_id: author.id,
            author_name: author.name.clone(),
        };
        self.next_id = self.next_id + 1;
        self.messages.push(message.clone());
        Ok(message)
    }

    /// All messages, in creation order.
    pub fn list(&self) -> (messages: Vec<Message>)
        ensures
            messages@ == self.messages@,
    {
        let mut messages: Vec<Message> = Vec::new();
        let mut i: usize = 0;
        while i < self.messages.len()
            invariant
                i <= self.messages@.len(),
                messages@ == self.messages@.take(i as int),
            decreases self.messages@.len() - i,
        {
            messages.push(self.messages[i].clone());
            proof {
                assert(self.messages@.take(i + 1 as int)
                    =~= self.messages@.take(i as int).push(self.messages@[i as int]));
            }
            i = i + 1;
        }
        proof {
            assert(self.messages@.take(self.messages@.len() as int) =~= self.messages@);
        }
        messages
    }

    /// Looks a message up by id; returns a copy of the matching record.
    pub fn get(&self, id: i32) -> (found: Option<Message>)
        ensures
            found matches Some(message) ==> self.messages@.contains(message)
                && message.id == id,
            found is None ==> !self.contains_id(id),
    {
        match self.index_of(id) {
            Some(i) => {
                let message = self.messages[i].clone();
                proof {
                    assert(self.messages@[i as int] == message);
                    assert(self.messages@.contains(message));
                }
                Some(message)
            },
            None => None,
        }
    }

    /// In a well-formed store ids are unique: two slots carrying the same
    /// id are the same slot.
    pub proof fn lemma_id_unique(self, i: int, j: int)
        requires
            self.wf(),
            0 <= i < self.messages@.len(),
            0 <= j < self.messages@.len(),
            self.messages@[i].id == self.messages@[j].id,
        ensures
            i == j,
    {
        if i < j {
            assert(self.messages@[i].id < self.messages@[j].id);
        } else if j < i {
            assert(self.messages@[j].id < self.messages@[i].id);
        }
    }

    /// Deletes the message with the given id, keeping every other message
    /// in order, and reports how many records were removed: one when the id
    /// was present, none otherwise.
    pub fn delete(&mut self, id: i32) -> (removed: usize)
        requires
            old(self).wf(),
        ensures
            final(self).wf(),
            final(self).next_id == old(self).next_id,
            removed <= 1,
            removed == 1 <==> old(self).contains_id(id),
            removed == 0 ==> *final(self) == *old(self),
            removed == 1 ==> exists|i: int| 0 <= i < old(self).messages@.len()
                && old(self).messages@[i].id == id
                && final(self).messages@ == old(self).messages@.remove(i),
            !final(self).contains_id(id),
    {
        match self.index_of(id) {
            Some(i) => {
                self.messages.remove(i);
                proof {
                    assert(old(self).contains_id(id));
                    assert(self.messages@ == old(self).messages@.remove(i as int));
                    assert forall|j: int| 0 <= j < self.messages@.len()
                        implies self.messages@[j].id != id by {
                        if j < i as int {
                            assert(old(self).messages@[j].id < old(self).messages@[i as int].id);
                        } else {
                            assert(self.messages@[j] == old(self).messages@[j + 1]);
                            assert(old(self).messages@[i as int].id < old(self).messages@[j
                                + 1].id);
                        }
                    }
                }
                1
            },
            None => 0,
        }
    }
}

} // verus!
