//! A keyed table: byte-string keys to values, each key at most once.
//! Ledger storage is modelled with these tables.
use vstd::prelude::*;
use crate::bytes::bytes_eq;

verus! {

/// The views of a list of keyed entries.
pub open spec fn entries_view<V: View>(entries: Seq<(Vec<u8>, V)>) -> Seq<(Seq<u8>, V::V)> {
    entries.map_values(|e: (Vec<u8>, V)| (e.0@, e.1@))
}

/// The map that a list of keyed entries describes; a later entry for a
/// key replaces an earlier one.
pub open spec fn map_of<W>(entries: Seq<(Seq<u8>, W)>) -> Map<Seq<u8>, W>
    decreases entries.len(),
{
    if entries.len() == 0 {
        Map::empty()
    } else {
        map_of(entries.drop_last()).insert(entries.last().0, entries.last().1)
    }
}

/// With no key twice, the map of a list holds exactly its entries.
pub proof fn lemma_map_of_distinct<W>(entries: Seq<(Seq<u8>, W)>)
    requires
        forall|i: int, j: int| 0 <= i < j < entries.len() ==> entries[i].0 != entries[j].0,
    ensures
        forall|i: int|
            0 <= i < entries.len() ==> map_of(entries).contains_key(#[trigger] entries[i].0)
                && map_of(entries)[entries[i].0] == entries[i].1,
        forall|k: Seq<u8>| #[trigger]
            map_of(entries).contains_key(k) ==> exists|i: int|
                0 <= i < entries.len() && #[trigger] entries[i].0 == k,
    decreases entries.len(),
{
    if entries.len() > 0 {
        let rest = entries.drop_last();
        lemma_map_of_distinct(rest);
        let n = entries.len() - 1;
        assert(map_of(entries) == map_of(rest).insert(entries[n].0, entries[n].1));
        assert forall|i: int|
            0 <= i < entries.len() implies map_of(entries).contains_key(#[trigger] entries[i].0)
            && map_of(entries)[entries[i].0] == entries[i].1 by {
            if i < n {
                assert(rest[i] == entries[i]);
                assert(entries[i].0 != entries[n].0);
            }
        }
        assert forall|k: Seq<u8>| #[trigger]
            map_of(entries).contains_key(k) implies exists|i: int|
                0 <= i < entries.len() && #[trigger] entries[i].0 == k by {
            assert(map_of(entries) == map_of(rest).insert(entries[n].0, entries[n].1));
            if k != entries[n].0 {
                assert(map_of(rest).contains_key(k));
                let i = choose|i: int| 0 <= i < rest.len() && #[trigger] rest[i].0 == k;
                assert(entries[i] == rest[i]);
            } else {
                assert(entries[n].0 == k);
            }
        }
    }
}

/// When every entry's key is computed from its value, so is every key of
/// the map of the entries.
pub proof fn lemma_map_of_keyed<W>(entries: Seq<(Seq<u8>, W)>, key_of: spec_fn(W) -> Seq<u8>)
    requires
        forall|i: int| 0 <= i < entries.len() ==> #[trigger] entries[i].0 == key_of(entries[i].1),
    ensures
        forall|k: Seq<u8>| #[trigger]
            map_of(entries).contains_key(k) ==> key_of(map_of(entries)[k]) == k,
    decreases entries.len(),
{
    if entries.len() > 0 {
        let rest = entries.drop_last();
        assert forall|i: int| 0 <= i < rest.len() implies #[trigger] rest[i].0 == key_of(rest[i].1) by {
            assert(rest[i] == entries[i]);
        }
        lemma_map_of_keyed(rest, key_of);
        let n = entries.len() - 1;
        assert(entries[n].0 == key_of(entries[n].1));
        assert(map_of(entries) == map_of(rest).insert(entries[n].0, entries[n].1));
    }
}

/// An association list from byte-string keys to values.
/// Its view is the finite map from each key's bytes to its value's view.
pub struct Table<V: View> {
    entries: Vec<(Vec<u8>, V)>,
    contents: Ghost<Map<Seq<u8>, V::V>>,
}

impl<V: View> View for Table<V> {
    type V = Map<Seq<u8>, V::V>;

    closed spec fn view(&self) -> Map<Seq<u8>, V::V> {
        self.contents@
    }
}

impl<V: View> Table<V> {
    spec fn key_at(&self, i: int) -> Seq<u8> {
        self.entries@[i].0@
    }

    /// The table is well formed: its entries and its map agree, and no key
    /// occurs twice.
    pub closed spec fn wf(&self) -> bool {
        &&& forall|i: int|
            0 <= i < self.entries@.len() ==> {
                &&& self.contents@.contains_key(#[trigger] self.key_at(i))
                &&& self.contents@[self.key_at(i)] == self.entries@[i].1@
            }
        &&& forall|k: Seq<u8>| #[trigger]
            self.contents@.contains_key(k) ==> exists|i: int|
                0 <= i < self.entries@.len() && #[trigger] self.key_at(i) == k
        &&& forall|i: int, j: int|
            0 <= i < j < self.entries@.len() ==> self.key_at(i) != self.key_at(j)
        &&& self.contents@.dom().finite()
        &&& self.contents@.dom().len() == self.entries@.len()
    }

    /// The number of keys in a well-formed table fits in a `usize`.
    pub proof fn lemma_len_bound(&self)
        requires
            self.wf(),
        ensures
            self@.dom().finite(),
            self@.dom().len() <= usize::MAX,
    {
        assert(self.entries.len() == self.entries@.len());
    }

    /// How many keys the table holds.
    pub fn len(&self) -> (n: usize)
        requires
            self.wf(),
        ensures
            n == self@.dom().len(),
    {
        self.entries.len()
    }

    /// The entries of the table, each key once, in some order.
    pub fn into_entries(self) -> (entries: Vec<(Vec<u8>, V)>)
        requires
            self.wf(),
        ensures
            map_of(entries_view(entries@)) == self@,
            forall|i: int|
                0 <= i < entries@.len() ==> self@.contains_key(#[trigger] entries@[i].0@)
                    && self@[entries@[i].0@] == entries@[i].1@,
    {
        let ghost ev = entries_view(self.entries@);
        assert forall|i: int, j: int| 0 <= i < j < ev.len() implies ev[i].0 != ev[j].0 by {
            assert(ev[i].0 == self.key_at(i));
            assert(ev[j].0 == self.key_at(j));
        }
        proof {
            lemma_map_of_distinct(ev);
            assert forall|k: Seq<u8>| #[trigger] map_of(ev).contains_key(k) == self@.contains_key(k) by {
                if map_of(ev).contains_key(k) {
                    let i = choose|i: int| 0 <= i < ev.len() && #[trigger] ev[i].0 == k;
                    assert(self.key_at(i) == k);
                }
                if self@.contains_key(k) {
                    let i = choose|i: int| 0 <= i < self.entries@.len() && #[trigger] self.key_at(i) == k;
                    assert(ev[i].0 == k);
                }
            }
            assert forall|k: Seq<u8>| #[trigger] map_of(ev).contains_key(k) implies map_of(ev)[k]
                == self@[k] by {
                let i = choose|i: int| 0 <= i < ev.len() && #[trigger] ev[i].0 == k;
                assert(self.key_at(i) == k);
            }
            assert(map_of(ev) =~= self@);
            assert forall|i: int| 0 <= i < self.entries@.len() implies self@.contains_key(
                #[trigger] self.entries@[i].0@,
            ) && self@[self.entries@[i].0@] == self.entries@[i].1@ by {
                assert(self.key_at(i) == self.entries@[i].0@);
            }
        }
        self.entries
    }

    /// The table of a list of entries; a later entry for a key replaces an
    /// earlier one.
    pub fn from_entries(entries: Vec<(Vec<u8>, V)>) -> (t: Self)
        ensures
            t.wf(),
            t@ == map_of(entries_view(entries@)),
    {
        let ghost all = entries_view(entries@);
        let mut rest = entries;
        let mut t = Table::new();
        let ghost mut done: int = 0;
        while rest.len() > 0
            invariant
                t.wf(),
                0 <= done <= all.len(),
                entries_view(rest@) == all.skip(done),
                t@ == map_of(all.take(done)),
            decreases rest@.len(),
        {
            let ghost before = rest@;
            assert(entries_view(before).len() == before.len());
            assert(all.skip(done).len() == all.len() - done);
            let (k, v) = rest.remove(0);
            proof {
                assert(entries_view(before)[0] == all[done]);
                assert(all.take(done + 1).drop_last() =~= all.take(done));
                assert(all.take(done + 1).last() == all[done]);
            }
            t.insert(k, v);
            proof {
                done = done + 1;
                assert(entries_view(rest@) =~= all.skip(done)) by {
                    assert forall|j: int| 0 <= j < rest@.len() implies #[trigger] entries_view(rest@)[j]
                        == all.skip(done)[j] by {
                        assert(rest@[j] == before[j + 1]);
                        assert(entries_view(before)[j + 1] == all.skip(done - 1)[j + 1]);
                    }
                }
            }
        }
        assert(all.take(done) =~= all);
        t
    }

    /// An empty table.
    pub fn new() -> (t: Self)
        ensures
            t.wf(),
            t@ == Map::<Seq<u8>, V::V>::empty(),
    {
        Table { entries: Vec::new(), contents: Ghost(Map::empty()) }
    }

    fn find(&self, key: &Vec<u8>) -> (r: Option<usize>)
        requires
            self.wf(),
        ensures
            match r {
                Some(i) => i < self.entries@.len() && self.key_at(i as int) == key@,
                None => !self@.contains_key(key@),
            },
    {
        let n = self.entries.len();
        let mut i: usize = 0;
        while i < n
            invariant
                n == self.entries@.len(),
                i <= n,
                self.wf(),
                forall|j: int| 0 <= j < i ==> self.key_at(j) != key@,
            decreases n - i,
        {
            if bytes_eq(&self.entries[i].0, key) {
                return Some(i);
            }
            i = i + 1;
        }
        None
    }

    /// Whether the key is present.
    pub fn contains_key(&self, key: &Vec<u8>) -> (r: bool)
        requires
            self.wf(),
        ensures
            r == self@.contains_key(key@),
    {
        self.find(key).is_some()
    }

    /// The value stored under the key, if any.
    pub fn get(&self, key: &Vec<u8>) -> (r: Option<&V>)
        requires
            self.wf(),
        ensures
            match r {
                Some(v) => self@.contains_key(key@) && v@ == self@[key@],
                None => !self@.contains_key(key@),
            },
    {
        match self.find(key) {
            Some(i) => Some(&self.entries[i].1),
            None => None,
        }
    }

    /// Stores the value under the key, replacing any earlier value.
    pub fn insert(&mut self, key: Vec<u8>, value: V)
        requires
            old(self).wf(),
        ensures
            final(self).wf(),
            final(self)@ == old(self)@.insert(key@, value@),
    {
        let ghost k = key@;
        let ghost v = value@;
        let ghost old_entries = self.entries@;
        match self.find(&key) {
            Some(i) => {
                self.entries.set(i, (key, value));
                self.contents = Ghost(self.contents@.insert(k, v));
                assert(self.contents@.dom() =~= old(self).contents@.dom());
                assert forall|j: int| 0 <= j < self.entries@.len() implies {
                    &&& self.contents@.contains_key(#[trigger] self.key_at(j))
                    &&& self.contents@[self.key_at(j)] == self.entries@[j].1@
                } by {
                    if j != i {
                        assert(self.entries@[j] == old_entries[j]);
                        assert(old(self).key_at(j) != old(self).key_at(i as int) || j == i);
                    }
                }
                assert forall|kk: Seq<u8>| #[trigger]
                    self.contents@.contains_key(kk) implies exists|j: int|
                        0 <= j < self.entries@.len() && #[trigger] self.key_at(j) == kk by {
                    if kk != k {
                        let j = choose|j: int|
                            0 <= j < old_entries.len() && #[trigger] old(self).key_at(j) == kk;
                        assert(self.key_at(j) == kk);
                    } else {
                        assert(self.key_at(i as int) == kk);
                    }
                }
                assert forall|a: int, b: int|
                    0 <= a < b < self.entries@.len() implies self.key_at(a) != self.key_at(b) by {
                    assert(old(self).key_at(a) != old(self).key_at(b));
                }
            },
            None => {
                self.entries.push((key, value));
                self.contents = Ghost(self.contents@.insert(k, v));
                assert(self.contents@.dom() =~= old(self).contents@.dom().insert(k));
                let ghost n = old_entries.len();
                assert forall|j: int| 0 <= j < self.entries@.len() implies {
                    &&& self.contents@.contains_key(#[trigger] self.key_at(j))
                    &&& self.contents@[self.key_at(j)] == self.entries@[j].1@
                } by {
                    if j < n {
                        assert(self.entries@[j] == old_entries[j]);
                        assert(old(self).contents@.contains_key(old(self).key_at(j)));
                    }
                }
                assert forall|kk: Seq<u8>| #[trigger]
                    self.contents@.contains_key(kk) implies exists|j: int|
                        0 <= j < self.entries@.len() && #[trigger] self.key_at(j) == kk by {
                    if kk != k {
                        let j = choose|j: int|
                            0 <= j < old_entries.len() && #[trigger] old(self).key_at(j) == kk;
                        assert(self.entries@[j] == old_entries[j]);
                        assert(self.key_at(j) == kk);
                    } else {
                        assert(self.key_at(n as int) == kk);
                    }
                }
                assert forall|a: int, b: int|
                    0 <= a < b < self.entries@.len() implies self.key_at(a) != self.key_at(b) by {
                    if b < n {
                        assert(old(self).key_at(a) != old(self).key_at(b));
                    } else {
                        assert(self.entries@[a] == old_entries[a]);
                        assert(old(self).contents@.contains_key(old(self).key_at(a)));
                    }
                }
            },
        }
    }

    /// Removes the key and hands back the value that was stored under it.
    pub fn remove(&mut self, key: &Vec<u8>) -> (r: Option<V>)
        requires
            old(self).wf(),
        ensures
            final(self).wf(),
            final(self)@ == old(self)@.remove(key@),
            match r {
                Some(v) => old(self)@.contains_key(key@) && v@ == old(self)@[key@],
                None => !old(self)@.contains_key(key@),
            },
    {
        let ghost k = key@;
        let ghost old_entries = self.entries@;
        match self.find(key) {
            Some(i) => {
                let (_, v) = self.entries.remove(i);
                self.contents = Ghost(self.contents@.remove(k));
                assert(self.contents@.dom() =~= old(self).contents@.dom().remove(k));
                assert forall|j: int| 0 <= j < self.entries@.len() implies {
                    &&& self.contents@.contains_key(#[trigger] self.key_at(j))
                    &&& self.contents@[self.key_at(j)] == self.entries@[j].1@
                } by {
                    if j < i {
                        assert(self.entries@[j] == old_entries[j]);
                        assert(old(self).key_at(j) != old(self).key_at(i as int));
                        assert(old(self).contents@.contains_key(old(self).key_at(j)));
                    } else {
                        assert(self.entries@[j] == old_entries[j + 1]);
                        assert(old(self).key_at(i as int) != old(self).key_at(j + 1));
                        assert(old(self).contents@.contains_key(old(self).key_at(j + 1)));
                    }
                }
                assert forall|kk: Seq<u8>| #[trigger]
                    self.contents@.contains_key(kk) implies exists|j: int|
                        0 <= j < self.entries@.len() && #[trigger] self.key_at(j) == kk by {
                    let j = choose|j: int|
                        0 <= j < old_entries.len() && #[trigger] old(self).key_at(j) == kk;
                    assert(j != i);
                    if j < i {
                        assert(self.entries@[j] == old_entries[j]);
                        assert(self.key_at(j) == kk);
                    } else {
                        assert(self.entries@[j - 1] == old_entries[j]);
                        assert(self.key_at(j - 1) == kk);
                    }
                }
                assert forall|a: int, b: int|
                    0 <= a < b < self.entries@.len() implies self.key_at(a) != self.key_at(b) by {
                    let oa = if a < i { a } else { a + 1 };
                    let ob = if b < i { b } else { b + 1 };
                    assert(self.entries@[a] == old_entries[oa]);
                    assert(self.entries@[b] == old_entries[ob]);
                    assert(old(self).key_at(oa) != old(self).key_at(ob));
                }
                Some(v)
            },
            None => {
                assert(self.contents@ =~= old(self).contents@.remove(k));
                None
            },
        }
    }
}

} // verus!
