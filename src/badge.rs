use vstd::prelude::*;

use crate::ids::{ids_view, Address, EventId};
use crate::storage::{
    add_event_owner, add_user_badge, contains_id, get_user_badges, list_of, with_member, Store,
    StoreModel,
};
use crate::RegistryError;

verus! {

/// The store after `recipient` was handed the badge of `event_id`: each index
/// gains the pair at its end, unless it holds it already.
pub open spec fn minted(s: StoreModel, event_id: Seq<u8>, recipient: Seq<char>) -> StoreModel {
    StoreModel {
        user_badges: with_member(s.user_badges, recipient, event_id),
        event_owners: with_member(s.event_owners, event_id, recipient),
        ..s
    }
}

/// Hands `recipient` the badge of `event_id`. Fails, changing nothing, where
/// no such event was created; a badge already held is left as it is.
pub fn mint_badge(store: &mut Store, event_id: &EventId, recipient: &Address) -> (r: Result<
    (),
    RegistryError,
>)
    ensures
        !old(store)@.events.contains(event_id@) ==> r == Err::<(), RegistryError>(
            RegistryError::EventNotFound,
        ) && final(store)@ == old(store)@,
        old(store)@.events.contains(event_id@) ==> r is Ok && final(store)@ == minted(
            old(store)@,
            event_id@,
            recipient@,
        ),
{
    if !contains_id(store.catalog(), event_id) {
        return Err(RegistryError::EventNotFound);
    }
    add_user_badge(store, recipient, event_id);
    add_event_owner(store, event_id, recipient);
    Ok(())
}

/// The events whose badge `user` holds, in minting order.
pub fn list_user_badges(store: &Store, user: &Address) -> (r: Vec<EventId>)
    ensures
        ids_view(r@) == list_of(store@.user_badges, user@),
{
    get_user_badges(store, user)
}

/// Whether `user` holds the badge of `event_id`; false for an unknown user
/// or event.
pub fn has_badge(event_id: &EventId, user: &Address, store: &Store) -> (r: bool)
    ensures
        r == list_of(store@.user_badges, user@).contains(event_id@),
{
    let badges = get_user_badges(store, user);
    contains_id(&badges, event_id)
}

} // verus!
