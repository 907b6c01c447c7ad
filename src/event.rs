use vstd::prelude::*;

use crate::ids::{addrs_view, ids_view, Address, EventId};
use crate::storage::{get_event_owners, list_of, Store, StoreModel};
use crate::table::TableValue;
use crate::RegistryError;

verus! {

/// The descriptive record of an event; fixed once the event is created.
#[derive(Clone, Debug)]
pub struct EventMetadata {
    pub name: String,
    pub description: String,
    /// A link to the badge's image (a URL or a content hash).
    pub image: String,
}

pub struct MetadataModel {
    pub name: Seq<char>,
    pub description: Seq<char>,
    pub image: Seq<char>,
}

impl View for EventMetadata {
    type V = MetadataModel;

    open spec fn view(&self) -> MetadataModel {
        MetadataModel { name: self.name@, description: self.description@, image: self.image@ }
    }
}

impl TableValue for EventMetadata {
    fn copy_value(&self) -> (r: Self) {
        EventMetadata {
            name: self.name.clone(),
            description: self.description.clone(),
            image: self.image.clone(),
        }
    }
}

/// The store after the event `id` has been created.
pub open spec fn created(
    s: StoreModel,
    id: Seq<u8>,
    organizer: Seq<char>,
    metadata: MetadataModel,
) -> StoreModel {
    StoreModel {
        events: s.events.push(id),
        metadata: s.metadata.insert(id, metadata),
        organizers: s.organizers.insert(id, organizer),
        ..s
    }
}

/// Creates the event `event_id`: records its metadata and organizer and
/// appends it to the catalog. Fails, changing nothing, where the catalog
/// already holds it.
pub fn create_event(
    store: &mut Store,
    event_id: EventId,
    organizer: Address,
    name: String,
    description: String,
    image: String,
) -> (r: Result<(), RegistryError>)
    ensures
        old(store)@.events.contains(event_id@) ==> r == Err::<(), RegistryError>(
            RegistryError::EventAlreadyExists,
        ) && final(store)@ == old(store)@,
        !old(store)@.events.contains(event_id@) ==> r is Ok && final(store)@ == created(
            old(store)@,
            event_id@,
            organizer@,
            MetadataModel { name: name@, description: description@, image: image@ },
        ),
{
    if crate::storage::contains_id(store.catalog(), &event_id) {
        return Err(RegistryError::EventAlreadyExists);
    }
    let metadata = EventMetadata { name, description, image };
    let mut events = list_events(store);
    events.push(event_id);
    assert(ids_view(events@) =~= old(store)@.events.push(event_id@));
    store.set_metadata(event_id, metadata);
    store.set_catalog(events);
    store.set_organizer(event_id, organizer);
    Ok(())
}

/// Every created event, in creation order.
pub fn list_events(store: &Store) -> (r: Vec<EventId>)
    ensures
        ids_view(r@) == store@.events,
{
    store.catalog().copy_value()
}

/// The metadata of `event_id`; fails where no such event was created.
pub fn get_event_metadata(store: &Store, event_id: &EventId) -> (r: Result<
    EventMetadata,
    RegistryError,
>)
    ensures
        store@.metadata.contains_key(event_id@) <==> r is Ok,
        r matches Ok(m) ==> m@ == store@.metadata[event_id@],
        r matches Err(e) ==> e == RegistryError::EventNotFound,
{
    match store.metadata_of(event_id) {
        Some(m) => Ok(m.copy_value()),
        None => Err(RegistryError::EventNotFound),
    }
}

/// The holders of the badge of `event_id`, in minting order. An unknown
/// event has none.
pub fn list_event_owners(store: &Store, event_id: &EventId) -> (r: Vec<Address>)
    ensures
        addrs_view(r@) == list_of(store@.event_owners, event_id@),
{
    get_event_owners(store, event_id)
}

} // verus!
