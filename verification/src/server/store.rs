//! What the decisions of the server's sessions do to the store.
//!
//! The store itself is the caller's. The laws here are stated of a store
//! that answers truthfully and that nobody else writes to between a
//! session's question and its write: a map from usernames to credential
//! records.

use crate::error::ServerError;
use crate::server::{lookup_decision, record_decision, removed_decision, stored_decision};
use vstd::prelude::*;

verus! {

/// What the end of a registration does to `store`: the store afterwards,
/// and whether the registration reports success.
pub open spec fn register_in(
    store: Map<Seq<u8>, Seq<u8>>,
    username: Seq<u8>,
    record: Seq<u8>,
) -> (Map<Seq<u8>, Seq<u8>>, Result<bool, ServerError>) {
    match lookup_decision(Ok(store.contains_key(username))) {
        Err(error) => (store, Err(error)),
        Ok(()) => (store.insert(username, record), stored_decision(Ok(()))),
    }
}

/// What the store answers to the lookup of `username`.
pub open spec fn lookup_in(store: Map<Seq<u8>, Seq<u8>>, username: Seq<u8>) -> Result<
    Option<Seq<u8>>,
    String,
> {
    if store.contains_key(username) {
        Ok(Some(store[username]))
    } else {
        Ok(None)
    }
}

/// The record that a login for `username` goes on with.
pub open spec fn find_in(store: Map<Seq<u8>, Seq<u8>>, username: Seq<u8>) -> Result<
    Seq<u8>,
    ServerError,
> {
    record_decision(lookup_in(store, username))
}

/// What the end of a deletion does to `store`, given whether the client
/// confirmed the login: the store afterwards, and whether a record was
/// removed.
pub open spec fn delete_in(store: Map<Seq<u8>, Seq<u8>>, username: Seq<u8>, confirmed: bool) -> (
    Map<Seq<u8>, Seq<u8>>,
    Result<bool, ServerError>,
) {
    if confirmed {
        (store.remove(username), removed_decision(Ok(store.contains_key(username))))
    } else {
        (store, Ok(false))
    }
}

/// A registration writes a record only where the username has none: every
/// record that was in the store is still there, unchanged.
pub proof fn lemma_registration_overwrites_nothing(
    store: Map<Seq<u8>, Seq<u8>>,
    username: Seq<u8>,
    record: Seq<u8>,
    other: Seq<u8>,
)
    requires
        store.contains_key(other),
    ensures
        register_in(store, username, record).0.contains_key(other),
        register_in(store, username, record).0[other] == store[other],
{
}

/// Registering a username twice: the first attempt stores its record, the
/// second fails with `UserAlreadyExists`, and the first record is still the
/// one that a login finds.
pub proof fn lemma_duplicate_registration(
    store: Map<Seq<u8>, Seq<u8>>,
    username: Seq<u8>,
    first: Seq<u8>,
    second: Seq<u8>,
)
    requires
        !store.contains_key(username),
    ensures
        ({
            let (after_first, first_outcome) = register_in(store, username, first);
            let (after_second, second_outcome) = register_in(after_first, username, second);
            &&& first_outcome == Ok::<bool, ServerError>(true)
            &&& second_outcome == Err::<bool, ServerError>(ServerError::UserAlreadyExists)
            &&& after_second == after_first
            &&& find_in(after_second, username) == Ok::<Seq<u8>, ServerError>(first)
        }),
{
}

/// A login for a username that has no record fails with `UserDoesNotExist`
/// at the lookup.
pub proof fn lemma_unknown_user(store: Map<Seq<u8>, Seq<u8>>, username: Seq<u8>)
    requires
        !store.contains_key(username),
    ensures
        find_in(store, username) == Err::<Seq<u8>, ServerError>(ServerError::UserDoesNotExist),
{
}

/// A login for a registered username finds the record that the
/// registration stored.
pub proof fn lemma_registered_user(
    store: Map<Seq<u8>, Seq<u8>>,
    username: Seq<u8>,
    record: Seq<u8>,
)
    requires
        !store.contains_key(username),
    ensures
        find_in(register_in(store, username, record).0, username) == Ok::<Seq<u8>, ServerError>(
            record,
        ),
{
}

/// A deletion removes the record exactly where the client confirmed the
/// login. A confirmed deletion of a stored record reports a removal and
/// leaves the user unknown to the next login; an unconfirmed one reports
/// none and leaves the store as it was.
pub proof fn lemma_deletion_is_gated(
    store: Map<Seq<u8>, Seq<u8>>,
    username: Seq<u8>,
    confirmed: bool,
)
    requires
        store.contains_key(username),
    ensures
        ({
            let (after, outcome) = delete_in(store, username, confirmed);
            if confirmed {
                &&& outcome == Ok::<bool, ServerError>(true)
                &&& !after.contains_key(username)
                &&& find_in(after, username) == Err::<Seq<u8>, ServerError>(
                    ServerError::UserDoesNotExist,
                )
            } else {
                &&& outcome == Ok::<bool, ServerError>(false)
                &&& after == store
                &&& find_in(after, username) == Ok::<Seq<u8>, ServerError>(store[username])
            }
        }),
{
}

/// A deletion touches no record but the user's own.
pub proof fn lemma_deletion_spares_others(
    store: Map<Seq<u8>, Seq<u8>>,
    username: Seq<u8>,
    confirmed: bool,
    other: Seq<u8>,
)
    requires
        store.contains_key(other),
        other != username,
    ensures
        delete_in(store, username, confirmed).0.contains_key(other),
        delete_in(store, username, confirmed).0[other] == store[other],
{
}

/// A confirmed deletion of a user that the store no longer knows reports
/// that nothing was removed.
pub proof fn lemma_deletion_of_missing_record(store: Map<Seq<u8>, Seq<u8>>, username: Seq<u8>)
    requires
        !store.contains_key(username),
    ensures
        delete_in(store, username, true).1 == Ok::<bool, ServerError>(false),
        delete_in(store, username, true).0 == store,
{
}

} // verus!
