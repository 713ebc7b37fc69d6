use vstd::prelude::*;

use crate::errors::StoreError;
use crate::session::Session;

verus! {

/// An authenticated identity: a bare name, created once per login action
/// and immutable thereafter.
pub struct User {
    pub id: i32,
    pub name: String,
}

impl User {
    pub fn new(id: i32, name: String) -> (user: User)
        ensures
            user.id == id,
            user.name == name,
    {
        User { id, name }
    }
}

impl Clone for User {
    fn clone(&self) -> (copy: Self)
        ensures
            copy == *self,
    {
        User { id: self.id, name: self.name.clone() }
    }
}

/// System of record for users. Ids are assigned in creation order.
pub struct UserStore {
    pub users: Vec<User>,
    pub next_id: i32,
}

impl UserStore {
    /// Well-formed: ids are positive, unique, and below `next_id`.
    pub open spec fn wf(self) -> bool {
        &&& 1 <= self.next_id
        &&& forall|i: int| 0 <= i < self.users@.len() ==> 1 <= #[trigger] self.users@[i].id < self.next_id
        &&& forall|i: int, j: int|
            0 <= i < j < self.users@.len() ==> self.users@[i].id != self.users@[j].id
    }

    /// Whether some user carries the given id.
    pub open spec fn contains_id(self, id: i32) -> bool {
        exists|i: int| 0 <= i < self.users@.len() && self.users@[i].id == id
    }

    pub fn new() -> (store: UserStore)
        ensures
            store.wf(),
            store.users@.len() == 0,
    {
        UserStore { users: Vec::new(), next_id: 1 }
    }

    /// Creates a user with a fresh id carrying the given name. Every login
    /// action creates a new identity. Fails only when the id space is
    /// exhausted, and then changes nothing.
    pub fn create(&mut self, name: &str) -> (result: Result<User, StoreError>)
        requires
            old(self).wf(),
        ensures
            final(self).wf(),
            result is Ok <==> old(self).next_id < i32::MAX,
            result matches Ok(user) ==> {
                &&& user.id == old(self).next_id
                &&& user.name@ == name@
                &&& final(self).users@ == old(self).users@.push(user)
                &&& final(self).next_id == old(self).next_id + 1
            },
            result matches Err(e) ==> e is Full && *final(self) == *old(self),
    {
        if self.next_id == i32::MAX {
            return Err(StoreError::Full);
        }

        let user = User { id: self.next_id, name: name.to_owned() };
        self.next_id = self.next_id + 1;
        self.users.push(user.clone());
        Ok(user)
    }

    /// Looks a user up by id; returns a copy of the matching record.
    pub fn get(&self, id: i32) -> (found: Option<User>)
        ensures
            found matches Some(user) ==> self.users@.contains(user) && user.id == id,
            found is None ==> !self.contains_id(id),
    {
        let mut i: usize = 0;
        while i < self.users.len()
            invariant
                i <= self.users@.len(),
                forall|j: int| 0 <= j < i ==> #[trigger] self.users@[j].id != id,
            decreases self.users@.len() - i,
        {
            if self.users[i].id == id {
                let user = self.users[i].clone();
                assert(self.users@.contains(user));
                return Some(user);
            }
            i = i + 1;
        }
        None
    }
}

/// The user a session speaks for: `None` for an anonymous session or when
/// the bound id matches no stored user.
pub fn get_user_from_session(users: &UserStore, session: &Session) -> (found: Option<User>)
    ensures
        session.user_id is None ==> found is None,
        session.user_id matches Some(user_id) ==> {
            &&& found matches Some(user) ==> users.users@.contains(user) && user.id == user_id
            &&& found is None ==> !users.contains_id(user_id)
        },
{
    match session.user_id {
        None => None,
        Some(user_id) => users.get(user_id),
    }
}

} // verus!
