use poap_badge::badge::{has_badge, list_user_badges, mint_badge};
use poap_badge::event::{create_event, get_event_metadata, list_event_owners, list_events, EventMetadata};
use poap_badge::ids::{Address, EventId};
use poap_badge::storage::{
    add_event_owner, add_user_badge, get_event_owners, get_user_badges, list_all_badges,
    set_event_owners, Store,
};
use poap_badge::{add, PoapBadge, PoapContract, RegistryError};

fn id(n: u32) -> EventId {
    let mut bytes = [0u8; 32];
    bytes[28..].copy_from_slice(&n.to_be_bytes());
    EventId::from_bytes(bytes)
}

fn addr(key: &str) -> Address {
    Address::new(String::from(key))
}

fn ids(v: &[EventId]) -> Vec<[u8; 32]> {
    v.iter().map(|e| e.bytes).collect()
}

fn keys(v: &[Address]) -> Vec<String> {
    v.iter().map(|a| a.key.clone()).collect()
}

fn setup_contract() -> (Store, Address) {
    (Store::new(), addr("GORGANIZER"))
}

fn new_event(store: &mut Store, n: u32, organizer: &Address, image: &str) -> Result<(), RegistryError> {
    PoapBadge::create_event(
        store,
        id(n),
        organizer.clone(),
        String::from("name"),
        String::from("description"),
        String::from(image),
    )
}

#[test]
fn it_works() {
    let result = add(2, 2);
    assert_eq!(result, 4);
}

#[test]
fn test_create_event_success() {
    let (mut env, organizer) = setup_contract();
    new_event(&mut env, 1, &organizer, "ipfs://event1").unwrap();
    let owners = PoapBadge::list_event_owners(&env, &id(1));
    assert_eq!(owners.len(), 0);
}

#[test]
fn test_mint_badge_success() {
    let (mut env, organizer) = setup_contract();
    let user = addr("GUSER");
    new_event(&mut env, 1, &organizer, "ipfs://event1").unwrap();
    PoapBadge::mint_badge(&mut env, &id(1), &user).unwrap();
    assert!(PoapContract::has_badge(&env, &id(1), &user));
}

#[test]
fn test_list_user_badges_and_event_owners() {
    let (mut env, organizer) = setup_contract();
    let user1 = addr("GUSER1");
    let user2 = addr("GUSER2");
    new_event(&mut env, 1, &organizer, "ipfs://event1").unwrap();
    new_event(&mut env, 2, &organizer, "ipfs://event2").unwrap();
    PoapBadge::mint_badge(&mut env, &id(1), &user1).unwrap();
    PoapBadge::mint_badge(&mut env, &id(2), &user1).unwrap();
    PoapBadge::mint_badge(&mut env, &id(1), &user2).unwrap();

    let badges_user1 = PoapBadge::list_user_badges(&env, &user1);
    assert_eq!(badges_user1.len(), 2);

    let owners_event1 = PoapBadge::list_event_owners(&env, &id(1));
    assert_eq!(owners_event1.len(), 2);
    assert!(keys(&owners_event1).contains(&user1.key));
    assert!(keys(&owners_event1).contains(&user2.key));
}

#[test]
fn test_has_badge_returns_false_if_not_minted() {
    let (mut env, organizer) = setup_contract();
    let user = addr("GUSER");
    new_event(&mut env, 1, &organizer, "ipfs://event1").unwrap();
    assert!(!PoapContract::has_badge(&env, &id(1), &user));
}

#[test]
fn create_event_twice_fails_and_lists_once() {
    let (mut env, organizer) = setup_contract();
    new_event(&mut env, 1, &organizer, "ipfs://event1").unwrap();
    let second = new_event(&mut env, 1, &organizer, "ipfs://event1_dup");
    assert_eq!(second, Err(RegistryError::EventAlreadyExists));
    assert_eq!(ids(&list_events(&env)), ids(&[id(1)]));
    let metadata = get_event_metadata(&env, &id(1)).unwrap();
    assert_eq!(metadata.image, "ipfs://event1");
}

#[test]
fn create_event_lists_the_event() {
    let mut env = Store::new();
    let e1 = id(1);
    create_event(&mut env, e1, addr("GORG"), String::from("n"), String::from("d"), String::from("i"))
        .unwrap();
    assert_eq!(ids(&list_events(&env)), ids(&[e1]));
    let metadata = get_event_metadata(&env, &e1).unwrap();
    assert_eq!(metadata.name, "n");
    assert_eq!(metadata.description, "d");
    assert_eq!(metadata.image, "i");
    assert_eq!(env.organizer_of(&e1).map(|a| a.key.clone()), Some(String::from("GORG")));
}

#[test]
fn duplicate_mint_keeps_owners() {
    let mut env = Store::new();
    let e1 = id(1);
    let u1 = addr("GU1");
    let u2 = addr("GU2");
    create_event(&mut env, e1, addr("GORG"), String::from("n"), String::from("d"), String::from("i"))
        .unwrap();
    mint_badge(&mut env, &e1, &u1).unwrap();
    mint_badge(&mut env, &e1, &u2).unwrap();
    assert_eq!(mint_badge(&mut env, &e1, &u1), Ok(()));
    assert_eq!(keys(&list_event_owners(&env, &e1)), vec!["GU1", "GU2"]);
    assert_eq!(ids(&list_user_badges(&env, &u1)), ids(&[e1]));
    assert!(has_badge(&e1, &u1, &env));
}

#[test]
fn mint_for_unknown_event_fails() {
    let mut env = Store::new();
    let u1 = addr("GU1");
    assert_eq!(mint_badge(&mut env, &id(999), &u1), Err(RegistryError::EventNotFound));
    assert!(list_event_owners(&env, &id(999)).is_empty());
    assert!(list_user_badges(&env, &u1).is_empty());
    assert!(!has_badge(&id(999), &u1, &env));
}

#[test]
fn owners_follow_mint_order() {
    let mut env = Store::new();
    let e1 = id(7);
    create_event(&mut env, e1, addr("GORG"), String::from("n"), String::from("d"), String::from("i"))
        .unwrap();
    mint_badge(&mut env, &e1, &addr("GZ")).unwrap();
    mint_badge(&mut env, &e1, &addr("GA")).unwrap();
    mint_badge(&mut env, &e1, &addr("GM")).unwrap();
    assert_eq!(keys(&list_event_owners(&env, &e1)), vec!["GZ", "GA", "GM"]);
}

#[test]
fn indices_agree_after_mints() {
    let mut env = Store::new();
    let org = addr("GORG");
    let users = [addr("GU1"), addr("GU2"), addr("GU3")];
    for n in 1..=3u32 {
        new_event(&mut env, n, &org, "i").unwrap();
    }
    mint_badge(&mut env, &id(1), &users[0]).unwrap();
    mint_badge(&mut env, &id(2), &users[0]).unwrap();
    mint_badge(&mut env, &id(2), &users[1]).unwrap();
    mint_badge(&mut env, &id(3), &users[2]).unwrap();
    for n in 1..=4u32 {
        for u in users.iter() {
            let owner = keys(&list_event_owners(&env, &id(n))).contains(&u.key);
            let holder = ids(&list_user_badges(&env, u)).contains(&id(n).bytes);
            assert_eq!(owner, holder);
        }
    }
    assert_eq!(ids(&list_user_badges(&env, &users[0])), ids(&[id(1), id(2)]));
}

#[test]
fn metadata_of_unknown_event_fails() {
    let env = Store::new();
    assert_eq!(get_event_metadata(&env, &id(3)).err(), Some(RegistryError::EventNotFound));
}

#[test]
fn list_all_badges_pairs_events_with_metadata() {
    let mut env = Store::new();
    let org = addr("GORG");
    new_event(&mut env, 1, &org, "ipfs://a").unwrap();
    new_event(&mut env, 2, &org, "ipfs://b").unwrap();
    let all = list_all_badges(&env).unwrap();
    assert_eq!(all.len(), 2);
    assert_eq!(all[0].event_id.bytes, id(1).bytes);
    assert_eq!(all[0].metadata.image, "ipfs://a");
    assert_eq!(all[1].event_id.bytes, id(2).bytes);
    assert_eq!(all[1].metadata.image, "ipfs://b");
}

#[test]
fn list_all_badges_fails_without_metadata() {
    let mut env = Store::new();
    env.set_catalog(vec![id(5)]);
    assert_eq!(list_all_badges(&env).err(), Some(RegistryError::EventNotFound));
}

#[test]
fn storage_indices_add_without_repeats() {
    let mut env = Store::new();
    let u = addr("GU");
    add_user_badge(&mut env, &u, &id(1));
    add_user_badge(&mut env, &u, &id(2));
    add_user_badge(&mut env, &u, &id(1));
    assert_eq!(ids(&get_user_badges(&env, &u)), ids(&[id(1), id(2)]));
    add_event_owner(&mut env, &id(1), &u);
    add_event_owner(&mut env, &id(1), &u);
    assert_eq!(keys(&get_event_owners(&env, &id(1))), vec!["GU"]);
    set_event_owners(&mut env, &id(1), vec![addr("GX"), addr("GY")]);
    assert_eq!(keys(&get_event_owners(&env, &id(1))), vec!["GX", "GY"]);
}

#[test]
fn contract_takes_metadata_record() {
    let mut env = Store::new();
    let metadata = EventMetadata {
        name: String::from("n"),
        description: String::from("d"),
        image: String::from("i"),
    };
    PoapContract::create_event(&mut env, id(1), addr("GORG"), metadata.clone()).unwrap();
    assert_eq!(
        PoapContract::create_event(&mut env, id(1), addr("GORG"), metadata),
        Err(RegistryError::EventAlreadyExists)
    );
    assert_eq!(PoapContract::mint_badge(&mut env, &id(2), &addr("GU")), Err(RegistryError::EventNotFound));
    PoapContract::mint_badge(&mut env, &id(1), &addr("GU")).unwrap();
    assert_eq!(ids(&PoapContract::list_user_badges(&env, &addr("GU"))), ids(&[id(1)]));
    assert_eq!(keys(&PoapContract::list_event_owners(&env, &id(1))), vec!["GU"]);
}

#[test]
fn ids_compare_by_bytes() {
    let a = id(1);
    let mut other = [0u8; 32];
    other[31] = 1;
    assert!(a.same(&EventId::from_bytes(other)));
    other[0] = 9;
    assert!(!a.same(&EventId::from_bytes(other)));
    assert!(addr("GA").same(&addr("GA")));
    assert!(!addr("GA").same(&addr("GB")));
}
