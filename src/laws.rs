use vstd::prelude::*;

use crate::badge::minted;
use crate::event::{created, MetadataModel};
use crate::storage::{empty_model, list_of, with_member, StoreModel};

verus! {

/// The two indices agree: `u` holds the badge of `e` in one exactly when it
/// does in the other.
pub open spec fn indices_agree(s: StoreModel) -> bool {
    forall|e: Seq<u8>, u: Seq<char>|
        #![trigger list_of(s.event_owners, e).contains(u), list_of(s.user_badges, u).contains(e)]
        list_of(s.event_owners, e).contains(u) <==> list_of(s.user_badges, u).contains(e)
}

/// The invariant of a store that the registry's operations built: the
/// catalog has no repeats, each created event has metadata and an organizer,
/// the two indices agree, hold no repeats, and name created events only.
pub open spec fn wf(s: StoreModel) -> bool {
    &&& s.events.no_duplicates()
    &&& forall|id: Seq<u8>| #[trigger]
        s.metadata.contains_key(id) <==> s.events.contains(id)
    &&& forall|id: Seq<u8>| #[trigger]
        s.organizers.contains_key(id) <==> s.events.contains(id)
    &&& indices_agree(s)
    &&& forall|u: Seq<char>| #[trigger] list_of(s.user_badges, u).no_duplicates()
    &&& forall|e: Seq<u8>| #[trigger] list_of(s.event_owners, e).no_duplicates()
    &&& forall|e: Seq<u8>, u: Seq<char>| #[trigger]
        list_of(s.user_badges, u).contains(e) ==> s.events.contains(e)
}

proof fn lemma_with_member<K, T>(m: Map<K, Seq<T>>, k: K, x: T, k2: K)
    ensures
        k2 != k ==> list_of(with_member(m, k, x), k2) == list_of(m, k2),
        list_of(with_member(m, k, x), k) == (if list_of(m, k).contains(x) {
            list_of(m, k)
        } else {
            list_of(m, k).push(x)
        }),
        forall|y: T| #[trigger]
            list_of(with_member(m, k2, x), k2).contains(y) <==> (list_of(m, k2).contains(y) || y
                == x),
        list_of(m, k).no_duplicates() ==> list_of(with_member(m, k, x), k).no_duplicates(),
{
    let l = list_of(m, k2);
    assert forall|y: T| #[trigger]
        list_of(with_member(m, k2, x), k2).contains(y) <==> (l.contains(y) || y == x) by {
        if !l.contains(x) {
            if l.push(x).contains(y) && y != x {
                let j = choose|j: int| 0 <= j < l.push(x).len() && l.push(x)[j] == y;
                assert(l[j] == y);
            }
            if y == x {
                assert(l.push(x)[l.len() as int] == y);
            }
            if l.contains(y) {
                let j = choose|j: int| 0 <= j < l.len() && l[j] == y;
                assert(l.push(x)[j] == y);
            }
        }
    }
    let lk = list_of(m, k);
    if lk.no_duplicates() && !lk.contains(x) {
        assert forall|i: int, j: int|
            0 <= i < lk.push(x).len() && 0 <= j < lk.push(x).len() && i != j implies lk.push(x)[i]
            != lk.push(x)[j] by {
            if i == lk.len() {
                assert(lk[j] == lk.push(x)[j]);
            } else if j == lk.len() {
                assert(lk[i] == lk.push(x)[i]);
            }
        }
    }
}

/// An empty store satisfies the invariant.
pub proof fn lemma_empty_wf()
    ensures
        wf(empty_model()),
{
    let s = empty_model();
    assert forall|e: Seq<u8>, u: Seq<char>|
        list_of(s.event_owners, e).contains(u) <==> list_of(s.user_badges, u).contains(e) by {}
}

/// Creating an event that does not exist yet keeps the invariant.
pub proof fn lemma_create_keeps_wf(
    s: StoreModel,
    id: Seq<u8>,
    organizer: Seq<char>,
    metadata: MetadataModel,
)
    requires
        wf(s),
        !s.events.contains(id),
    ensures
        wf(created(s, id, organizer, metadata)),
{
    let t = created(s, id, organizer, metadata);
    assert forall|x: Seq<u8>| #[trigger] t.events.contains(x) <==> (s.events.contains(x) || x == id) by {
        if t.events.contains(x) && x != id {
            let j = choose|j: int| 0 <= j < t.events.len() && t.events[j] == x;
            assert(s.events[j] == x);
        }
        if x == id {
            assert(t.events[s.events.len() as int] == x);
        }
        if s.events.contains(x) {
            let j = choose|j: int| 0 <= j < s.events.len() && s.events[j] == x;
            assert(t.events[j] == x);
        }
    }
    assert forall|i: int, j: int|
        0 <= i < t.events.len() && 0 <= j < t.events.len() && i != j implies t.events[i]
        != t.events[j] by {
        if i == s.events.len() {
            assert(s.events[j] == t.events[j]);
        } else if j == s.events.len() {
            assert(s.events[i] == t.events[i]);
        }
    }
    assert(indices_agree(t));
}

/// Handing out the badge of a created event keeps the invariant.
pub proof fn lemma_mint_keeps_wf(s: StoreModel, event_id: Seq<u8>, recipient: Seq<char>)
    requires
        wf(s),
        s.events.contains(event_id),
    ensures
        wf(minted(s, event_id, recipient)),
{
    let t = minted(s, event_id, recipient);
    assert forall|e: Seq<u8>, u: Seq<char>|
        #![trigger list_of(t.event_owners, e).contains(u), list_of(t.user_badges, u).contains(e)]
        list_of(t.event_owners, e).contains(u) <==> list_of(t.user_badges, u).contains(e) by {
        lemma_with_member(s.event_owners, event_id, recipient, e);
        lemma_with_member(s.user_badges, recipient, event_id, u);
        assert(list_of(s.event_owners, e).contains(u) <==> list_of(s.user_badges, u).contains(e));
    }
    assert forall|u: Seq<char>| #[trigger] list_of(t.user_badges, u).no_duplicates() by {
        lemma_with_member(s.user_badges, recipient, event_id, u);
        assert(list_of(s.user_badges, u).no_duplicates());
    }
    assert forall|e: Seq<u8>| #[trigger] list_of(t.event_owners, e).no_duplicates() by {
        lemma_with_member(s.event_owners, event_id, recipient, e);
        assert(list_of(s.event_owners, e).no_duplicates());
    }
    assert forall|e: Seq<u8>, u: Seq<char>| #[trigger]
        list_of(t.user_badges, u).contains(e) implies t.events.contains(e) by {
        lemma_with_member(s.user_badges, recipient, event_id, u);
    }
}

/// Once an event is created, creating it again fails (the catalog holds it),
/// and it stands in the catalog exactly once.
pub proof fn law_create_is_unique(
    s: StoreModel,
    id: Seq<u8>,
    organizer: Seq<char>,
    metadata: MetadataModel,
)
    requires
        !s.events.contains(id),
    ensures
        created(s, id, organizer, metadata).events.contains(id),
        exists|i: int|
            0 <= i < created(s, id, organizer, metadata).events.len() && #[trigger] created(
                s,
                id,
                organizer,
                metadata,
            ).events[i] == id && forall|j: int|
                0 <= j < created(s, id, organizer, metadata).events.len() && created(
                    s,
                    id,
                    organizer,
                    metadata,
                ).events[j] == id ==> j == i,
{
    let t = created(s, id, organizer, metadata).events;
    let n = s.events.len() as int;
    assert(t[n] == id);
    assert forall|j: int| 0 <= j < t.len() && t[j] == id implies j == n by {
        if j < n {
            assert(s.events[j] == id);
        }
    }
}

/// After a badge of a created event is handed out, its recipient holds it,
/// and handing it out again changes neither index.
pub proof fn law_mint_is_idempotent(s: StoreModel, event_id: Seq<u8>, recipient: Seq<char>)
    requires
        s.events.contains(event_id),
    ensures
        list_of(minted(s, event_id, recipient).user_badges, recipient).contains(event_id),
        minted(minted(s, event_id, recipient), event_id, recipient).events.contains(event_id),
        minted(minted(s, event_id, recipient), event_id, recipient) == minted(
            s,
            event_id,
            recipient,
        ),
        list_of(
            minted(minted(s, event_id, recipient), event_id, recipient).event_owners,
            event_id,
        ) == list_of(minted(s, event_id, recipient).event_owners, event_id),
{
    let t = minted(s, event_id, recipient);
    lemma_with_member(s.user_badges, recipient, event_id, recipient);
    lemma_with_member(s.event_owners, event_id, recipient, event_id);
    assert(list_of(t.user_badges, recipient).contains(event_id));
    assert(list_of(t.event_owners, event_id).contains(recipient));
}

/// In a store that the operations built, `u` is among the holders of `e`
/// exactly when `e` is among the badges of `u`.
pub proof fn law_indices_agree(s: StoreModel, e: Seq<u8>, u: Seq<char>)
    requires
        wf(s),
    ensures
        list_of(s.event_owners, e).contains(u) <==> list_of(s.user_badges, u).contains(e),
{
}

/// A first badge goes to the end of the event's holders; a repeated one
/// leaves them as they were.
pub proof fn law_owners_in_mint_order(s: StoreModel, event_id: Seq<u8>, recipient: Seq<char>)
    ensures
        !list_of(s.event_owners, event_id).contains(recipient) ==> list_of(
            minted(s, event_id, recipient).event_owners,
            event_id,
        ) == list_of(s.event_owners, event_id).push(recipient),
        list_of(s.event_owners, event_id).contains(recipient) ==> list_of(
            minted(s, event_id, recipient).event_owners,
            event_id,
        ) == list_of(s.event_owners, event_id),
{
    lemma_with_member(s.event_owners, event_id, recipient, event_id);
}

/// Two new holders of an event's badge follow its earlier holders in the
/// order in which they were first handed it.
pub proof fn law_two_mints_order(s: StoreModel, event_id: Seq<u8>, first: Seq<char>, second: Seq<char>)
    requires
        first != second,
        !list_of(s.event_owners, event_id).contains(first),
        !list_of(s.event_owners, event_id).contains(second),
    ensures
        list_of(minted(minted(s, event_id, first), event_id, second).event_owners, event_id)
            == list_of(s.event_owners, event_id).push(first).push(second),
{
    let t = minted(s, event_id, first);
    law_owners_in_mint_order(s, event_id, first);
    lemma_with_member(s.event_owners, event_id, first, event_id);
    assert(!list_of(t.event_owners, event_id).contains(second));
    law_owners_in_mint_order(t, event_id, second);
}

} // verus!
