use vstd::prelude::*;

use crate::badge::minted;
use crate::event::{created, EventMetadata};
use crate::ids::{addrs_view, ids_view, Address, EventId};
use crate::laws::{lemma_create_keeps_wf, lemma_mint_keeps_wf, wf};
use crate::storage::{list_of, Store};

pub mod badge;
pub mod event;
pub mod ids;
pub mod laws;
pub mod storage;
pub mod table;

verus! {

/// Why an operation of the registry was refused.
#[derive(Clone, Copy, Debug, PartialEq, Eq, Structural)]
pub enum RegistryError {
    EventAlreadyExists,
    EventNotFound,
}

/// Sum of two counters; the caller guarantees that it fits.
pub fn add(left: u64, right: u64) -> (r: u64)
    requires
        left + right <= u64::MAX,
    ensures
        r == left + right,
{
    left + right
}

/// The registry's public operations over a store: events are created before
/// badges of them can be handed out, and each operation keeps the store's
/// invariant.
pub struct PoapBadge;

impl PoapBadge {
    pub fn create_event(
        env: &mut Store,
        event_id: EventId,
        organizer: Address,
        name: String,
        description: String,
        image: String,
    ) -> (r: Result<(), RegistryError>)
        ensures
            old(env)@.events.contains(event_id@) ==> r == Err::<(), RegistryError>(
                RegistryError::EventAlreadyExists,
            ) && final(env)@ == old(env)@,
            !old(env)@.events.contains(event_id@) ==> r is Ok && final(env)@ == created(
                old(env)@,
                event_id@,
                organizer@,
                crate::event::MetadataModel {
                    name: name@,
                    description: description@,
                    image: image@,
                },
            ),
            wf(old(env)@) ==> wf(final(env)@),
    {
        let ghost before = env@;
        let r = event::create_event(env, event_id, organizer, name, description, image);
        proof {
            if wf(before) && r is Ok {
                lemma_create_keeps_wf(
                    before,
                    event_id@,
                    organizer@,
                    crate::event::MetadataModel {
                        name: name@,
                        description: description@,
                        image: image@,
                    },
                );
            }
        }
        r
    }

    pub fn mint_badge(env: &mut Store, event_id: &EventId, recipient: &Address) -> (r: Result<
        (),
        RegistryError,
    >)
        ensures
            !old(env)@.events.contains(event_id@) ==> r == Err::<(), RegistryError>(
                RegistryError::EventNotFound,
            ) && final(env)@ == old(env)@,
            old(env)@.events.contains(event_id@) ==> r is Ok && final(env)@ == minted(
                old(env)@,
                event_id@,
                recipient@,
            ),
            wf(old(env)@) ==> wf(final(env)@),
    {
        let ghost before = env@;
        let r = badge::mint_badge(env, event_id, recipient);
        proof {
            if wf(before) && r is Ok {
                lemma_mint_keeps_wf(before, event_id@, recipient@);
            }
        }
        r
    }

    pub fn list_user_badges(env: &Store, user: &Address) -> (r: Vec<EventId>)
        ensures
            ids_view(r@) == list_of(env@.user_badges, user@),
    {
        badge::list_user_badges(env, user)
    }

    pub fn list_event_owners(env: &Store, event_id: &EventId) -> (r: Vec<Address>)
        ensures
            addrs_view(r@) == list_of(env@.event_owners, event_id@),
    {
        event::list_event_owners(env, event_id)
    }
}

/// The registry's operations with the metadata of an event given as one
/// record.
pub struct PoapContract;

impl PoapContract {
    pub fn create_event(
        env: &mut Store,
        event_id: EventId,
        organizer: Address,
        metadata: EventMetadata,
    ) -> (r: Result<(), RegistryError>)
        ensures
            old(env)@.events.contains(event_id@) ==> r == Err::<(), RegistryError>(
                RegistryError::EventAlreadyExists,
            ) && final(env)@ == old(env)@,
            !old(env)@.events.contains(event_id@) ==> r is Ok && final(env)@ == created(
                old(env)@,
                event_id@,
                organizer@,
                metadata@,
            ),
            wf(old(env)@) ==> wf(final(env)@),
    {
        PoapBadge::create_event(
            env,
            event_id,
            organizer,
            metadata.name,
            metadata.description,
            metadata.image,
        )
    }

    pub fn mint_badge(env: &mut Store, event_id: &EventId, recipient: &Address) -> (r: Result<
        (),
        RegistryError,
    >)
        ensures
            !old(env)@.events.contains(event_id@) ==> r == Err::<(), RegistryError>(
                RegistryError::EventNotFound,
            ) && final(env)@ == old(env)@,
            old(env)@.events.contains(event_id@) ==> r is Ok && final(env)@ == minted(
                old(env)@,
                event_id@,
                recipient@,
            ),
            wf(old(env)@) ==> wf(final(env)@),
    {
        PoapBadge::mint_badge(env, event_id, recipient)
    }

    pub fn has_badge(env: &Store, event_id: &EventId, recipient: &Address) -> (r: bool)
        ensures
            r == list_of(env@.user_badges, recipient@).contains(event_id@),
    {
        badge::has_badge(event_id, recipient, env)
    }

    pub fn list_user_badges(env: &Store, user: &Address) -> (r: Vec<EventId>)
        ensures
            ids_view(r@) == list_of(env@.user_badges, user@),
    {
        badge::list_user_badges(env, user)
    }

    pub fn list_event_owners(env: &Store, event_id: &EventId) -> (r: Vec<Address>)
        ensures
            addrs_view(r@) == list_of(env@.event_owners, event_id@),
    {
        event::list_event_owners(env, event_id)
    }
}

} // verus!
