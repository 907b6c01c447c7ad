use vstd::prelude::*;

use crate::ids::{Address, EventId};

verus! {

/// A key of a table: compared by its view.
pub trait TableKey: View + Sized {
    fn same_key(&self, other: &Self) -> (r: bool)
        ensures
            r == (self@ == other@),
    ;
}

/// A value that a table hands out by copy.
pub trait TableValue: View + Sized {
    fn copy_value(&self) -> (r: Self)
        ensures
            r@ == self@,
    ;
}

impl TableKey for EventId {
    fn same_key(&self, other: &Self) -> (r: bool) {
        self.same(other)
    }
}

impl TableKey for Address {
    fn same_key(&self, other: &Self) -> (r: bool) {
        self.same(other)
    }
}

impl TableValue for Address {
    fn copy_value(&self) -> (r: Self) {
        self.duplicate()
    }
}

impl TableValue for Vec<EventId> {
    fn copy_value(&self) -> (r: Self) {
        let mut r: Vec<EventId> = Vec::new();
        let mut i: usize = 0;
        while i < self.len()
            invariant
                i <= self@.len(),
                r@ == self@.take(i as int),
            decreases self@.len() - i,
        {
            r.push(self[i]);
            i += 1;
            assert(r@ =~= self@.take(i as int));
        }
        assert(self@.take(i as int) =~= self@);
        r
    }
}

impl TableValue for Vec<Address> {
    fn copy_value(&self) -> (r: Self) {
        let mut r: Vec<Address> = Vec::new();
        let mut i: usize = 0;
        while i < self.len()
            invariant
                i <= self@.len(),
                r@ == self@.take(i as int),
            decreases self@.len() - i,
        {
            r.push(Address { key: self[i].key.clone() });
            i += 1;
            assert(r@ =~= self@.take(i as int));
        }
        assert(self@.take(i as int) =~= self@);
        r
    }
}

/// The map that a sequence of writes leaves behind: a later write of a key
/// replaces an earlier one.
pub open spec fn latest<K, V>(s: Seq<(K, V)>) -> Map<K, V>
    decreases s.len(),
{
    if s.len() == 0 {
        Map::empty()
    } else {
        latest(s.drop_last()).insert(s.last().0, s.last().1)
    }
}

/// Where no entry from `n` on has key `k`, the prefix before `n` decides `k`.
proof fn lemma_latest_prefix<K, V>(s: Seq<(K, V)>, k: K, n: int)
    requires
        0 <= n <= s.len(),
        forall|j: int| n <= j < s.len() ==> s[j].0 != k,
    ensures
        latest(s).contains_key(k) == latest(s.take(n)).contains_key(k),
        latest(s).contains_key(k) ==> latest(s)[k] == latest(s.take(n))[k],
    decreases s.len(),
{
    if n == s.len() {
        assert(s.take(n) =~= s);
    } else {
        lemma_latest_prefix(s.drop_last(), k, n);
        assert(s.drop_last().take(n) =~= s.take(n));
    }
}

/// Overwriting the last entry of key `k` is a write of `k`.
proof fn lemma_latest_update<K, V>(s: Seq<(K, V)>, i: int, k: K, v: V)
    requires
        0 <= i < s.len(),
        s[i].0 == k,
        forall|j: int| i < j < s.len() ==> s[j].0 != k,
    ensures
        latest(s.update(i, (k, v))) =~= latest(s).insert(k, v),
    decreases s.len(),
{
    let t = s.update(i, (k, v));
    if i == s.len() - 1 {
        assert(t.drop_last() =~= s.drop_last());
    } else {
        lemma_latest_update(s.drop_last(), i, k, v);
        assert(t.drop_last() =~= s.drop_last().update(i, (k, v)));
    }
}

/// A finite map from keys to values, held as a list of entries.
pub struct Table<K, V> {
    entries: Vec<(K, V)>,
}

impl<K: View, V: View> View for Table<K, V> {
    type V = Map<K::V, V::V>;

    closed spec fn view(&self) -> Map<K::V, V::V> {
        latest(self.entries@.map_values(|p: (K, V)| (p.0@, p.1@)))
    }
}

impl<K: TableKey, V: TableValue> Table<K, V> {
    pub fn new() -> (r: Self)
        ensures
            r@ == Map::<K::V, V::V>::empty(),
    {
        Table { entries: Vec::new() }
    }

    /// Index of the last entry with key `k`.
    fn find(&self, k: &K) -> (r: Option<usize>)
        ensures
            match r {
                Some(i) => i < self.entries@.len() && self.entries@[i as int].0@ == k@
                    && forall|j: int| i < j < self.entries@.len() ==> self.entries@[j].0@ != k@,
                None => forall|j: int| 0 <= j < self.entries@.len() ==> self.entries@[j].0@ != k@,
            },
    {
        let mut i: usize = self.entries.len();
        while i > 0
            invariant
                i <= self.entries@.len(),
                forall|j: int| i <= j < self.entries@.len() ==> self.entries@[j].0@ != k@,
            decreases i,
        {
            if self.entries[i - 1].0.same_key(k) {
                return Some(i - 1);
            }
            i -= 1;
        }
        None
    }

    proof fn lemma_lookup(&self, k: K::V, n: int)
        requires
            0 <= n <= self.entries@.len(),
            forall|j: int| n <= j < self.entries@.len() ==> self.entries@[j].0@ != k,
        ensures
            n == 0 ==> !self@.contains_key(k),
            n > 0 && self.entries@[n - 1].0@ == k ==> self@.contains_key(k) && self@[k]
                == self.entries@[n - 1].1@,
    {
        let s = self.entries@.map_values(|p: (K, V)| (p.0@, p.1@));
        lemma_latest_prefix(s, k, n);
        if n > 0 {
            assert(s.take(n).drop_last() =~= s.take(n - 1));
        }
    }

    pub fn get(&self, k: &K) -> (r: Option<&V>)
        ensures
            match r {
                Some(v) => self@.contains_key(k@) && self@[k@] == v@,
                None => !self@.contains_key(k@),
            },
    {
        match self.find(k) {
            Some(i) => {
                proof {
                    self.lemma_lookup(k@, i + 1);
                }
                Some(&self.entries[i].1)
            },
            None => {
                proof {
                    self.lemma_lookup(k@, 0);
                }
                None
            },
        }
    }

    pub fn set(&mut self, k: K, v: V)
        ensures
            final(self)@ == old(self)@.insert(k@, v@),
    {
        let ghost kv = k@;
        let ghost vv = v@;
        let ghost before = self.entries@.map_values(|p: (K, V)| (p.0@, p.1@));
        match self.find(&k) {
            Some(i) => {
                self.entries.set(i, (k, v));
                proof {
                    lemma_latest_update(before, i as int, kv, vv);
                    assert(self.entries@.map_values(|p: (K, V)| (p.0@, p.1@)) =~= before.update(
                        i as int,
                        (kv, vv),
                    ));
                }
            },
            None => {
                self.entries.push((k, v));
                proof {
                    let after = self.entries@.map_values(|p: (K, V)| (p.0@, p.1@));
                    assert(after.drop_last() =~= before);
                }
            },
        }
    }
}

} // verus!
