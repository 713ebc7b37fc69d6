use vstd::pervasive::VecAdditionalExecFns;
use vstd::prelude::*;

use crate::errors::{RequestError, StoreError};

verus! {

/// A per-visitor identity. A session exists independent of a bound user:
/// anonymous browsing is a first-class state, and exactly the `user_id`
/// field changes when the visitor logs in.
pub struct Session {
    /// Opaque unguessable token, issued once and echoed by the client.
    pub id: String,
    /// The authenticated user this session speaks for, if any.
    pub user_id: Option<i32>,
}

impl Session {
    pub fn new(id: String, user_id: Option<i32>) -> (session: Session)
        ensures
            session.id == id,
            session.user_id == user_id,
    {
        Session { id, user_id }
    }
}

impl Clone for Session {
    fn clone(&self) -> (copy: Self)
        ensures
            copy == *self,
    {
        Session { id: self.id.clone(), user_id: self.user_id }
    }
}

/// System of record for sessions, keyed by token. Sessions are never
/// removed, so the tokens present are exactly the tokens ever issued.
pub struct SessionStore {
    pub sessions: Vec<Session>,
}

impl SessionStore {
    /// Well-formed: tokens are unique.
    pub open spec fn wf(self) -> bool {
        forall|i: int, j: int|
            0 <= i < j < self.sessions@.len() ==> self.sessions@[i].id@ != self.sessions@[j].id@
    }

    /// Whether some session carries the given token.
    pub open spec fn contains_token(self, token: Seq<char>) -> bool {
        exists|i: int| 0 <= i < self.sessions@.len() && self.sessions@[i].id@ == token
    }

    pub fn new() -> (store: SessionStore)
        ensures
            store.wf(),
            store.sessions@.len() == 0,
    {
        SessionStore { sessions: Vec::new() }
    }

    /// Where the session with the given token sits, if anywhere.
    fn index_of(&self, token: &String) -> (found: Option<usize>)
        ensures
            found matches Some(i) ==> i < self.sessions@.len()
                && self.sessions@[i as int].id@ == token@,
            found is None ==> !self.contains_token(token@),
    {
        let mut i: usize = 0;
        while i < self.sessions.len()
            invariant
                i <= self.sessions@.len(),
                forall|j: int| 0 <= j < i ==> #[trigger] self.sessions@[j].id@ != token@,
            decreases self.sessions@.len() - i,
        {
            if self.sessions[i].id == *token {
                return Some(i);
            }
            i = i + 1;
        }
        None
    }

    /// Creates an anonymous session under the given token. A duplicate
    /// token is rejected and changes nothing, as the store's key
    /// constraint would reject it.
    pub fn create(&mut self, token: String) -> (result: Result<Session, StoreError>)
        requires
            old(self).wf(),
        ensures
            final(self).wf(),
            result is Ok <==> !old(self).contains_token(token@),
            result matches Ok(session) ==> {
                &&& session.id@ == token@
                &&& session.user_id is None
                &&& final(self).sessions@ == old(self).sessions@.push(session)
            },
            result matches Err(e) ==> e is Duplicate && *final(self) == *old(self),
    {
        if let Some(i) = self.index_of(&token) {
            proof {
                assert(old(self).contains_token(token@));
            }
            return Err(StoreError::Duplicate);
        }

        let session = Session { id: token, user_id: None };
        self.sessions.push(session.clone());
        proof {
            assert forall|m: int, n: int| 0 <= m < n < self.sessions@.len()
                implies self.sessions@[m].id@ != self.sessions@[n].id@ by {
                if n == self.sessions@.len() - 1 {
                    assert(old(self).sessions@[m].id@ != session.id@);
                }
            }
        }
        Ok(session)
    }

    /// Looks a session up by token; returns a copy of the matching record.
    pub fn get(&self, token: &str) -> (found: Option<Session>)
        ensures
            found matches Some(session) ==> self.sessions@.contains(session)
                && session.id@ == token@,
            found is None ==> !self.contains_token(token@),
    {
        let token_string = token.to_owned();
        match self.index_of(&token_string) {
            Some(i) => {
                let session = self.sessions[i].clone();
                proof {
                    assert(self.sessions@[i as int] == session);
                    assert(self.sessions@.contains(session));
                }
                Some(session)
            },
            None => None,
        }
    }

    /// Binds the session with the given token to a user, touching no other
    /// session. Fails, and changes nothing, exactly when the token is
    /// unknown.
    pub fn set_user(&mut self, token: &str, user_id: i32) -> (result: Result<Session, StoreError>)
        requires
            old(self).wf(),
        ensures
            final(self).wf(),
            result is Ok <==> old(self).contains_token(token@),
            result matches Ok(session) ==> {
                &&& session.id@ == token@
                &&& session.user_id == Some(user_id)
                &&& exists|i: int| 0 <= i < old(self).sessions@.len()
                    && old(self).sessions@[i].id@ == token@
                    && session.id == old(self).sessions@[i].id
                    && final(self).sessions@ == old(self).sessions@.update(i, session)
            },
            result matches Err(e) ==> e is Missing && *final(self) == *old(self),
    {
        let token_string = token.to_owned();
        match self.index_of(&token_string) {
            Some(i) => {
                let session = Session {
                    id: self.sessions[i].id.clone(),
                    user_id: Some(user_id),
                };
                self.sessions.set(i, session.clone());
                proof {
                    assert(old(self).contains_token(token@));
                    assert((i as int) < old(self).sessions@.len()
                        && old(self).sessions@[i as int].id@ == token@
                        && session.id == old(self).sessions@[i as int].id
                        && self.sessions@ == old(self).sessions@.update(i as int, session));
                    assert forall|m: int, n: int| 0 <= m < n < self.sessions@.len()
                        implies self.sessions@[m].id@ != self.sessions@[n].id@ by {
                        assert(session.id@ == old(self).sessions@[i as int].id@);
                    }
                }
                Ok(session)
            },
            None => Err(StoreError::Missing),
        }
    }
}

/// Relies on uuid's `Uuid::new_v4` and its display form: a fresh random
/// version-4 identifier rendered as 36 hyphenated lowercase hex characters.
#[verifier::external_body]
fn generate_session_id() -> (token: String)
    ensures
        token@.len() == 36,
{
    uuid::Uuid::new_v4().to_string()
}

/// Resolves the session a request speaks for, given the credential the
/// request carried and the token to issue if a fresh session is needed.
///
/// A matching credential returns the stored session unchanged; otherwise a
/// fresh anonymous session is created under `fresh_token`, which succeeds
/// exactly when that token was never issued before.
pub fn resolve_with_token(
    store: &mut SessionStore,
    credential: Option<&str>,
    fresh_token: String,
) -> (result: Result<Session, RequestError>)
    requires
        old(store).wf(),
    ensures
        final(store).wf(),
        (match credential {
            Some(token) => old(store).contains_token(token@),
            None => false,
        }) ==> {
            &&& *final(store) == *old(store)
            &&& result matches Ok(session) && old(store).sessions@.contains(session)
                && (credential matches Some(token) && session.id@ == token@)
        },
        (match credential {
            Some(token) => !old(store).contains_token(token@),
            None => true,
        }) ==> {
            &&& result is Ok <==> !old(store).contains_token(fresh_token@)
            &&& result matches Ok(session) ==> {
                &&& session.id@ == fresh_token@
                &&& session.user_id is None
                &&& final(store).sessions@ == old(store).sessions@.push(session)
            }
            &&& result is Err ==> result == Err::<Session, RequestError>(
                RequestError::SessionUnavailable,
            ) && *final(store) == *old(store)
        },
{
    if let Some(token) = credential {
        if let Some(session) = store.get(token) {
            return Ok(session);
        }
    }

    match store.create(fresh_token) {
        Ok(session) => Ok(session),
        Err(_) => Err(RequestError::SessionUnavailable),
    }
}

/// Resolves the session a request speaks for. With a valid credential the
/// stored session is returned with no mutation; otherwise a fresh
/// anonymous session is created under a token never issued before.
/// Resolution fails only when the freshly drawn token collides with an
/// issued one, and then changes nothing.
pub fn resolve(store: &mut SessionStore, credential: Option<&str>) -> (result: Result<
    Session,
    RequestError,
>)
    requires
        old(store).wf(),
    ensures
        final(store).wf(),
        (match credential {
            Some(token) => old(store).contains_token(token@),
            None => false,
        }) ==> {
            &&& *final(store) == *old(store)
            &&& result matches Ok(session) && old(store).sessions@.contains(session)
                && (credential matches Some(token) && session.id@ == token@)
        },
        (match credential {
            Some(token) => !old(store).contains_token(token@),
            None => true,
        }) ==> {
            &&& result matches Ok(session) ==> {
                &&& !old(store).contains_token(session.id@)
                &&& session.user_id is None
                &&& final(store).sessions@ == old(store).sessions@.push(session)
            }
            &&& result is Err ==> result == Err::<Session, RequestError>(
                RequestError::SessionUnavailable,
            ) && *final(store) == *old(store)
        },
{
    let fresh_token = generate_session_id();
    resolve_with_token(store, credential, fresh_token)
}

} // verus!
