use vstd::prelude::*;

verus! {

/// A key of a [`Table`]: a value with a view, whose equality of views can
/// be tested.
pub trait TableKey: View + Sized {
    /// Whether the two keys have the same view.
    fn same(&self, other: &Self) -> (r: bool)
        ensures
            r == (self@ == other@),
    ;
}

impl TableKey for u32 {
    fn same(&self, other: &u32) -> (r: bool) {
        *self == *other
    }
}

/// A finite map from keys, compared by their views, to values, kept as a
/// list of entries with distinct keys.
pub struct Table<K: TableKey, V> {
    entries: Vec<(K, V)>,
    contents: Ghost<Map<K::V, V>>,
}

impl<K: TableKey, V> View for Table<K, V> {
    type V = Map<K::V, V>;

    closed spec fn view(&self) -> Map<K::V, V> {
        self.contents@
    }
}

impl<K: TableKey, V> Table<K, V> {
    /// The entries hold exactly the map, each key once.
    pub closed spec fn inv(&self) -> bool {
        &&& forall|i: int|
            0 <= i < self.entries@.len() ==> #[trigger] self.contents@.contains_key(
                self.entries@[i].0@,
            ) && self.contents@[self.entries@[i].0@] == self.entries@[i].1
        &&& forall|k: K::V|
            #[trigger] self.contents@.contains_key(k) ==> exists|i: int|
                0 <= i < self.entries@.len() && self.entries@[i].0@ == k
        &&& forall|i: int, j: int|
            0 <= i < j < self.entries@.len() ==> self.entries@[i].0@ != self.entries@[j].0@
    }

    /// An empty table.
    pub fn new() -> (r: Table<K, V>)
        ensures
            r.inv(),
            r@ == Map::<K::V, V>::empty(),
    {
        Table { entries: Vec::new(), contents: Ghost(Map::empty()) }
    }

    /// The position of the entry for `key`, if there is one.
    fn find(&self, key: &K) -> (r: Option<usize>)
        requires
            self.inv(),
        ensures
            r is None <==> !self@.contains_key(key@),
            r matches Some(i) ==> i < self.entries@.len() && self.entries@[i as int].0@ == key@,
    {
        let mut i: usize = 0;
        while i < self.entries.len()
            invariant
                self.inv(),
                i <= self.entries@.len(),
                forall|j: int| 0 <= j < i ==> self.entries@[j].0@ != key@,
            decreases self.entries@.len() - i,
        {
            if self.entries[i].0.same(key) {
                assert(self.contents@.contains_key(self.entries@[i as int].0@));
                return Some(i);
            }
            i = i + 1;
        }
        proof {
            if self@.contains_key(key@) {
                let j: int = choose|j: int| 0 <= j < self.entries@.len() && self.entries@[j].0@ == key@;
                assert(self.entries@[j].0@ != key@);
            }
        }
        None
    }

    /// Whether the table holds an entry for `key`.
    pub fn contains(&self, key: &K) -> (r: bool)
        requires
            self.inv(),
        ensures
            r == self@.contains_key(key@),
    {
        self.find(key).is_some()
    }

    /// The value stored for `key`, if any.
    pub fn get(&self, key: &K) -> (r: Option<&V>)
        requires
            self.inv(),
        ensures
            match r {
                Some(v) => self@.contains_key(key@) && *v == self@[key@],
                None => !self@.contains_key(key@),
            },
    {
        match self.find(key) {
            Some(i) => Some(&self.entries[i].1),
            None => None,
        }
    }

    /// Stores `value` for `key`, in place of any earlier value.
    pub fn insert(&mut self, key: K, value: V)
        requires
            old(self).inv(),
        ensures
            final(self).inv(),
            final(self)@ == old(self)@.insert(key@, value),
    {
        let ghost k = key@;
        let ghost v = value;
        let ghost mut idx: int = 0;
        match self.find(&key) {
            Some(i) => {
                self.entries.set(i, (key, value));
                proof {
                    idx = i as int;
                }
            },
            None => {
                self.entries.push((key, value));
                proof {
                    idx = self.entries@.len() - 1;
                }
            },
        }
        self.contents = Ghost(self.contents@.insert(k, v));
        assert(0 <= idx < self.entries@.len() && self.entries@[idx].0@ == k);
        assert forall|k2: K::V| #[trigger] self.contents@.contains_key(k2) implies exists|i: int|
            0 <= i < self.entries@.len() && self.entries@[i].0@ == k2 by {
            if k2 != k {
                let j: int = choose|j: int|
                    0 <= j < old(self).entries@.len() && old(self).entries@[j].0@ == k2;
                assert(self.entries@[j].0@ == k2);
            }
        }
        assert forall|i: int|
            0 <= i < self.entries@.len() implies #[trigger] self.contents@.contains_key(
                self.entries@[i].0@,
            ) && self.contents@[self.entries@[i].0@] == self.entries@[i].1 by {
            if i != idx {
                assert(old(self).entries@[i] == self.entries@[i]);
                assert(old(self).contents@.contains_key(old(self).entries@[i].0@));
                if idx < old(self).entries@.len() {
                    assert(old(self).entries@[idx].0@ == k);
                }
                assert(self.entries@[i].0@ != k);
            }
        }
    }

    /// Removes the entry for `key`, if there is one.
    pub fn remove(&mut self, key: &K)
        requires
            old(self).inv(),
        ensures
            final(self).inv(),
            final(self)@ == old(self)@.remove(key@),
    {
        let ghost k = key@;
        match self.find(key) {
            Some(i) => {
                self.entries.remove(i);
                self.contents = Ghost(self.contents@.remove(k));
                assert forall|i2: int|
                    0 <= i2 < self.entries@.len() implies #[trigger] self.contents@.contains_key(
                        self.entries@[i2].0@,
                    ) && self.contents@[self.entries@[i2].0@] == self.entries@[i2].1 by {
                    let o: int = if i2 < i { i2 } else { i2 + 1 };
                    assert(old(self).entries@[o] == self.entries@[i2]);
                    assert(old(self).contents@.contains_key(old(self).entries@[o].0@));
                    assert(old(self).entries@[o].0@ != k);
                }
                assert forall|k2: K::V| #[trigger] self.contents@.contains_key(k2) implies exists|
                    j: int,
                | 0 <= j < self.entries@.len() && self.entries@[j].0@ == k2 by {
                    let j: int = choose|j: int|
                        0 <= j < old(self).entries@.len() && old(self).entries@[j].0@ == k2;
                    if j < i {
                        assert(self.entries@[j].0@ == k2);
                    } else {
                        assert(self.entries@[j - 1].0@ == k2);
                    }
                }
                assert forall|a: int, b: int|
                    0 <= a < b < self.entries@.len() implies self.entries@[a].0@
                    != self.entries@[b].0@ by {
                    let oa: int = if a < i { a } else { a + 1 };
                    let ob: int = if b < i { b } else { b + 1 };
                    assert(old(self).entries@[oa] == self.entries@[a]);
                    assert(old(self).entries@[ob] == self.entries@[b]);
                }
            },
            None => {
                assert(self@ =~= old(self)@.remove(k));
            },
        }
    }

    /// Removes the entry for `key` and hands back its value, if there is one.
    pub fn take(&mut self, key: &K) -> (r: Option<V>)
        requires
            old(self).inv(),
        ensures
            final(self).inv(),
            final(self)@ == old(self)@.remove(key@),
            match r {
                Some(v) => old(self)@.contains_key(key@) && v == old(self)@[key@],
                None => !old(self)@.contains_key(key@),
            },
    {
        let ghost k = key@;
        match self.find(key) {
            Some(i) => {
                let (_, value) = self.entries.remove(i);
                self.contents = Ghost(self.contents@.remove(k));
                assert forall|i2: int|
                    0 <= i2 < self.entries@.len() implies #[trigger] self.contents@.contains_key(
                        self.entries@[i2].0@,
                    ) && self.contents@[self.entries@[i2].0@] == self.entries@[i2].1 by {
                    let o: int = if i2 < i { i2 } else { i2 + 1 };
                    assert(old(self).entries@[o] == self.entries@[i2]);
                    assert(old(self).contents@.contains_key(old(self).entries@[o].0@));
                    assert(old(self).entries@[o].0@ != k);
                }
                assert forall|k2: K::V| #[trigger] self.contents@.contains_key(k2) implies exists|
                    j: int,
                | 0 <= j < self.entries@.len() && self.entries@[j].0@ == k2 by {
                    let j: int = choose|j: int|
                        0 <= j < old(self).entries@.len() && old(self).entries@[j].0@ == k2;
                    if j < i {
                        assert(self.entries@[j].0@ == k2);
                    } else {
                        assert(self.entries@[j - 1].0@ == k2);
                    }
                }
                assert forall|a: int, b: int|
                    0 <= a < b < self.entries@.len() implies self.entries@[a].0@
                    != self.entries@[b].0@ by {
                    let oa: int = if a < i { a } else { a + 1 };
                    let ob: int = if b < i { b } else { b + 1 };
                    assert(old(self).entries@[oa] == self.entries@[a]);
                    assert(old(self).entries@[ob] == self.entries@[b]);
                }
                assert(old(self).contents@.contains_key(old(self).entries@[i as int].0@));
                Some(value)
            },
            None => {
                assert(self@ =~= old(self)@.remove(k));
                None
            },
        }
    }
}

} // verus!
