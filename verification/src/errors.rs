use vstd::prelude::*;

use crate::validators::ValidationError;

verus! {

/// Why a store call failed.
#[derive(Debug, PartialEq, Eq, Structural)]
pub enum StoreError {
    /// The store's id space is exhausted: no further record can be created.
    Full,
    /// A record with the same key already exists.
    Duplicate,
    /// No record with the given key exists.
    Missing,
}

/// Why a request failed, as surfaced to the caller of the request pipeline.
#[derive(Debug, PartialEq, Eq, Structural)]
pub enum RequestError {
    /// The session store could not resolve or create a session; fatal for
    /// the request.
    SessionUnavailable,
    /// The submitted content was rejected before any state change.
    Validation(ValidationError),
    /// A write was attempted by a session with no bound user.
    Unauthenticated,
    /// A delete was attempted by someone other than the message's author.
    PermissionDenied,
    /// The store write failed after validation passed; nothing was broadcast.
    Persistence,
    /// The addressed message does not exist.
    NotFound,
}

} // verus!
