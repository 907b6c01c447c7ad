use vstd::prelude::*;

use crate::event::{get_event_metadata, list_events, EventMetadata, MetadataModel};
use crate::RegistryError;
use crate::ids::{addrs_view, ids_view, Address, EventId};
use crate::table::{Table, TableValue};

verus! {

/// What the store holds, table by table.
pub struct StoreModel {
    /// Every created event, in creation order.
    pub events: Seq<Seq<u8>>,
    /// The metadata of each created event.
    pub metadata: Map<Seq<u8>, MetadataModel>,
    /// The organizer recorded for each created event.
    pub organizers: Map<Seq<u8>, Seq<char>>,
    /// For each holder, the events whose badge it holds, in minting order.
    pub user_badges: Map<Seq<char>, Seq<Seq<u8>>>,
    /// For each event, the holders of its badge, in minting order.
    pub event_owners: Map<Seq<u8>, Seq<Seq<char>>>,
}

/// The list a map holds under `k`; empty where it holds none.
pub open spec fn list_of<K, T>(m: Map<K, Seq<T>>, k: K) -> Seq<T> {
    if m.contains_key(k) {
        m[k]
    } else {
        Seq::empty()
    }
}

/// `m` with `x` appended to the list under `k`, unless that list holds it.
pub open spec fn with_member<K, T>(m: Map<K, Seq<T>>, k: K, x: T) -> Map<K, Seq<T>> {
    if list_of(m, k).contains(x) {
        m
    } else {
        m.insert(k, list_of(m, k).push(x))
    }
}

pub open spec fn empty_model() -> StoreModel {
    StoreModel {
        events: Seq::empty(),
        metadata: Map::empty(),
        organizers: Map::empty(),
        user_badges: Map::empty(),
        event_owners: Map::empty(),
    }
}

/// The registry's persistent state: a key-value store with one table for
/// each kind of record.
pub struct Store {
    events: Vec<EventId>,
    metadata: Table<EventId, EventMetadata>,
    organizers: Table<EventId, Address>,
    user_badges: Table<Address, Vec<EventId>>,
    event_owners: Table<EventId, Vec<Address>>,
}

impl View for Store {
    type V = StoreModel;

    closed spec fn view(&self) -> StoreModel {
        StoreModel {
            events: ids_view(self.events@),
            metadata: self.metadata@,
            organizers: self.organizers@,
            user_badges: self.user_badges@.map_values(|s: Seq<EventId>| ids_view(s)),
            event_owners: self.event_owners@.map_values(|s: Seq<Address>| addrs_view(s)),
        }
    }
}

impl Store {
    /// An empty store.
    pub fn new() -> (r: Store)
        ensures
            r@ == empty_model(),
            crate::laws::wf(r@),
    {
        let r = Store {
            events: Vec::new(),
            metadata: Table::new(),
            organizers: Table::new(),
            user_badges: Table::new(),
            event_owners: Table::new(),
        };
        proof {
            assert(r@.events =~= Seq::<Seq<u8>>::empty());
            assert(r@.user_badges =~= Map::<Seq<char>, Seq<Seq<u8>>>::empty());
            assert(r@.event_owners =~= Map::<Seq<u8>, Seq<Seq<char>>>::empty());
            crate::laws::lemma_empty_wf();
        }
        r
    }

    /// The catalog of events, in creation order.
    pub fn catalog(&self) -> (r: &Vec<EventId>)
        ensures
            ids_view(r@) == self@.events,
    {
        &self.events
    }

    /// Replaces the catalog of events.
    pub fn set_catalog(&mut self, events: Vec<EventId>)
        ensures
            final(self)@ == (StoreModel { events: ids_view(events@), ..old(self)@ }),
    {
        self.events = events;
    }

    pub fn metadata_of(&self, event_id: &EventId) -> (r: Option<&EventMetadata>)
        ensures
            match r {
                Some(m) => self@.metadata.contains_key(event_id@) && self@.metadata[event_id@]
                    == m@,
                None => !self@.metadata.contains_key(event_id@),
            },
    {
        self.metadata.get(event_id)
    }

    pub fn set_metadata(&mut self, event_id: EventId, metadata: EventMetadata)
        ensures
            final(self)@ == (StoreModel {
                metadata: old(self)@.metadata.insert(event_id@, metadata@),
                ..old(self)@
            }),
    {
        self.metadata.set(event_id, metadata);
    }

    pub fn organizer_of(&self, event_id: &EventId) -> (r: Option<&Address>)
        ensures
            match r {
                Some(a) => self@.organizers.contains_key(event_id@) && self@.organizers[event_id@]
                    == a@,
                None => !self@.organizers.contains_key(event_id@),
            },
    {
        self.organizers.get(event_id)
    }

    pub fn set_organizer(&mut self, event_id: EventId, organizer: Address)
        ensures
            final(self)@ == (StoreModel {
                organizers: old(self)@.organizers.insert(event_id@, organizer@),
                ..old(self)@
            }),
    {
        self.organizers.set(event_id, organizer);
    }

    /// Replaces the list of events whose badge `user` holds.
    pub fn set_user_badges(&mut self, user: &Address, badges: Vec<EventId>)
        ensures
            final(self)@ == (StoreModel {
                user_badges: old(self)@.user_badges.insert(user@, ids_view(badges@)),
                ..old(self)@
            }),
    {
        let ghost before = self.user_badges@;
        self.user_badges.set(user.duplicate(), badges);
        proof {
            assert(self.user_badges@.map_values(|s: Seq<EventId>| ids_view(s)) =~= before.map_values(
                |s: Seq<EventId>| ids_view(s),
            ).insert(user@, ids_view(badges@)));
        }
    }
}

/// The events whose badge `user` holds, in minting order; empty for an
/// unknown user.
pub fn get_user_badges(store: &Store, user: &Address) -> (r: Vec<EventId>)
    ensures
        ids_view(r@) == list_of(store@.user_badges, user@),
{
    match store.user_badges.get(user) {
        Some(badges) => badges.copy_value(),
        None => Vec::new(),
    }
}

/// Whether `seq` holds an identifier with the view of `id`.
pub fn contains_id(seq: &Vec<EventId>, id: &EventId) -> (r: bool)
    ensures
        r == ids_view(seq@).contains(id@),
{
    let mut i: usize = 0;
    while i < seq.len()
        invariant
            i <= seq@.len(),
            forall|j: int| 0 <= j < i ==> seq@[j]@ != id@,
        decreases seq@.len() - i,
    {
        if seq[i].same(id) {
            assert(ids_view(seq@)[i as int] == id@);
            return true;
        }
        i += 1;
    }
    assert(!ids_view(seq@).contains(id@)) by {
        if ids_view(seq@).contains(id@) {
            let j = choose|j: int| 0 <= j < ids_view(seq@).len() && ids_view(seq@)[j] == id@;
            assert(seq@[j]@ == id@);
        }
    }
    false
}

/// Whether `seq` holds an address with the view of `a`.
pub fn contains_address(seq: &Vec<Address>, a: &Address) -> (r: bool)
    ensures
        r == addrs_view(seq@).contains(a@),
{
    let mut i: usize = 0;
    while i < seq.len()
        invariant
            i <= seq@.len(),
            forall|j: int| 0 <= j < i ==> seq@[j]@ != a@,
        decreases seq@.len() - i,
    {
        if seq[i].same(a) {
            assert(addrs_view(seq@)[i as int] == a@);
            return true;
        }
        i += 1;
    }
    assert(!addrs_view(seq@).contains(a@)) by {
        if addrs_view(seq@).contains(a@) {
            let j = choose|j: int| 0 <= j < addrs_view(seq@).len() && addrs_view(seq@)[j] == a@;
            assert(seq@[j]@ == a@);
        }
    }
    false
}

/// Records that `user` holds the badge of `badge`, unless it already does.
pub fn add_user_badge(store: &mut Store, user: &Address, badge: &EventId)
    ensures
        final(store)@ == (StoreModel {
            user_badges: with_member(old(store)@.user_badges, user@, badge@),
            ..old(store)@
        }),
{
    let mut badges = get_user_badges(store, user);
    if !contains_id(&badges, badge) {
        badges.push(*badge);
        assert(ids_view(badges@) =~= list_of(old(store)@.user_badges, user@).push(badge@));
        store.set_user_badges(user, badges);
    }
}

/// The holders of the badge of `event_id`, in minting order; empty for an
/// unknown event.
pub fn get_event_owners(store: &Store, event_id: &EventId) -> (r: Vec<Address>)
    ensures
        addrs_view(r@) == list_of(store@.event_owners, event_id@),
{
    match store.event_owners.get(event_id) {
        Some(owners) => owners.copy_value(),
        None => Vec::new(),
    }
}

/// An event of the catalog together with its metadata.
#[derive(Clone, Debug)]
pub struct BadgeInfo {
    pub event_id: EventId,
    pub metadata: EventMetadata,
}

/// Every created event with its metadata, in creation order. Fails where an
/// event of the catalog has no metadata.
pub fn list_all_badges(store: &Store) -> (r: Result<Vec<BadgeInfo>, RegistryError>)
    ensures
        (forall|i: int| 0 <= i < store@.events.len() ==> store@.metadata.contains_key(store@.events[i]))
            <==> r is Ok,
        r matches Ok(v) ==> v@.len() == store@.events.len() && forall|i: int|
            0 <= i < v@.len() ==> v@[i].event_id@ == store@.events[i] && v@[i].metadata@
                == store@.metadata[store@.events[i]],
        r matches Err(e) ==> e == RegistryError::EventNotFound,
{
    let events = list_events(store);
    let mut badges: Vec<BadgeInfo> = Vec::new();
    let mut i: usize = 0;
    while i < events.len()
        invariant
            ids_view(events@) == store@.events,
            i <= events@.len(),
            badges@.len() == i,
            forall|j: int| 0 <= j < i ==> store@.metadata.contains_key(store@.events[j]),
            forall|j: int|
                0 <= j < i ==> badges@[j].event_id@ == store@.events[j] && badges@[j].metadata@
                    == store@.metadata[store@.events[j]],
        decreases events@.len() - i,
    {
        let event_id = events[i];
        assert(event_id@ == store@.events[i as int]);
        match get_event_metadata(store, &event_id) {
            Ok(metadata) => {
                badges.push(BadgeInfo { event_id, metadata });
            },
            Err(e) => {
                return Err(e);
            },
        }
        i += 1;
    }
    Ok(badges)
}

/// Replaces the list of holders of the badge of `event_id`.
pub fn set_event_owners(store: &mut Store, event_id: &EventId, owners: Vec<Address>)
    ensures
        final(store)@ == (StoreModel {
            event_owners: old(store)@.event_owners.insert(event_id@, addrs_view(owners@)),
            ..old(store)@
        }),
{
    let ghost before = store.event_owners@;
    store.event_owners.set(*event_id, owners);
    proof {
        assert(store.event_owners@.map_values(|s: Seq<Address>| addrs_view(s)) =~= before.map_values(
            |s: Seq<Address>| addrs_view(s),
        ).insert(event_id@, addrs_view(owners@)));
    }
}

/// Records `owner` as a holder of the badge of `event_id`, unless it already is.
pub fn add_event_owner(store: &mut Store, event_id: &EventId, owner: &Address)
    ensures
        final(store)@ == (StoreModel {
            event_owners: with_member(old(store)@.event_owners, event_id@, owner@),
            ..old(store)@
        }),
{
    let mut owners = get_event_owners(store, event_id);
    if !contains_address(&owners, owner) {
        owners.push(owner.duplicate());
        assert(addrs_view(owners@) =~= list_of(old(store)@.event_owners, event_id@).push(owner@));
        set_event_owners(store, event_id, owners);
    }
}

} // verus!
