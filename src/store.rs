//! A map from text keys to values, held as a vector of entries with distinct keys.
use vstd::prelude::*;

verus! {

pub struct Slot<V> {
    pub key: String,
    pub value: V,
}

/// A map from text keys to values.
pub struct KeyedStore<V> {
    slots: Vec<Slot<V>>,
    contents: Ghost<Map<Seq<char>, V>>,
}

impl<V> KeyedStore<V> {
    /// What the store maps each key to.
    pub closed spec fn view(&self) -> Map<Seq<char>, V> {
        self.contents@
    }

    /// The keys are distinct and the entries are exactly the map.
    pub closed spec fn wf(&self) -> bool {
        &&& forall|i: int|
            0 <= i < self.slots@.len() ==> #[trigger] self.contents@.contains_key(
                self.slots@[i].key@,
            ) && self.contents@[self.slots@[i].key@] == self.slots@[i].value
        &&& forall|k: Seq<char>|
            #[trigger] self.contents@.contains_key(k) ==> exists|i: int|
                0 <= i < self.slots@.len() && #[trigger] self.slots@[i].key@ == k
        &&& forall|i: int, j: int|
            0 <= i < self.slots@.len() && 0 <= j < self.slots@.len() && i != j
                ==> #[trigger] self.slots@[i].key@ != #[trigger] self.slots@[j].key@
    }

    /// The number of keys.
    pub closed spec fn size(&self) -> nat {
        self.slots@.len()
    }

    pub proof fn lemma_size(&self)
        requires
            self.wf(),
        ensures
            self@.dom().finite(),
            self@.dom().len() == self.size(),
    {
        let keys = self.slots@.map_values(|s: Slot<V>| s.key@);
        assert(keys.no_duplicates()) by {
            assert forall|i: int, j: int|
                0 <= i < keys.len() && 0 <= j < keys.len() && i != j implies keys[i]
                != keys[j] by {
                assert(self.slots@[i].key@ != self.slots@[j].key@);
            }
        }
        assert(keys.to_set() =~= self@.dom()) by {
            assert forall|k: Seq<char>| keys.to_set().contains(k) <==> self@.dom().contains(k) by {
                if self@.dom().contains(k) {
                    let i = choose|i: int| 0 <= i < self.slots@.len() && self.slots@[i].key@ == k;
                    assert(keys[i] == k);
                }
                if keys.to_set().contains(k) {
                    let i = choose|i: int| 0 <= i < keys.len() && keys[i] == k;
                    assert(self.contents@.contains_key(self.slots@[i].key@));
                }
            }
        }
        keys.unique_seq_to_set();
    }

    /// An empty store.
    pub fn new() -> (r: Self)
        ensures
            r.wf(),
            r@ == Map::<Seq<char>, V>::empty(),
            r.size() == 0,
    {
        KeyedStore { slots: Vec::new(), contents: Ghost(Map::empty()) }
    }

    /// The number of keys.
    pub fn len(&self) -> (r: usize)
        requires
            self.wf(),
        ensures
            r == self@.dom().len(),
            r == self.size(),
    {
        proof {
            self.lemma_size();
        }
        self.slots.len()
    }

    /// The index of the entry for `key`, if there is one.
    fn find(&self, key: &str) -> (r: Option<usize>)
        requires
            self.wf(),
        ensures
            match r {
                Some(i) => i < self.slots@.len() && self.slots@[i as int].key@ == key@,
                None => !self@.contains_key(key@),
            },
    {
        let k = String::from_str(key);
        let mut i: usize = 0;
        while i < self.slots.len()
            invariant
                self.wf(),
                k@ == key@,
                i <= self.slots@.len(),
                forall|j: int| 0 <= j < i ==> self.slots@[j].key@ != key@,
            decreases self.slots.len() - i,
        {
            if self.slots[i].key == k {
                return Some(i);
            }
            i = i + 1;
        }
        None
    }

    /// The value of `key`, if it has one.
    pub fn get(&self, key: &str) -> (r: Option<&V>)
        requires
            self.wf(),
        ensures
            match r {
                Some(v) => self@.contains_key(key@) && *v == self@[key@],
                None => !self@.contains_key(key@),
            },
    {
        match self.find(key) {
            Some(i) => {
                assert(self.contents@.contains_key(self.slots@[i as int].key@));
                Some(&self.slots[i].value)
            },
            None => None,
        }
    }

    /// Maps `key` to `value`, replacing what it held.
    pub fn insert(&mut self, key: String, value: V)
        requires
            old(self).wf(),
        ensures
            final(self).wf(),
            final(self)@ == old(self)@.insert(key@, value),
            final(self).size() == old(self).size() + if old(self)@.contains_key(key@) {
                0int
            } else {
                1int
            },
    {
        let ghost m = self.contents@.insert(key@, value);
        let ghost k0 = key@;
        let ghost idx: int;
        match self.find(key.as_str()) {
            Some(i) => {
                self.slots.set(i, Slot { key, value });
                proof {
                    idx = i as int;
                }
            },
            None => {
                self.slots.push(Slot { key, value });
                proof {
                    idx = self.slots@.len() - 1;
                }
            },
        }
        self.contents = Ghost(m);
        proof {
            assert(self.slots@[idx].key@ == k0);
            assert forall|k: Seq<char>| #[trigger] self.contents@.contains_key(k) implies exists|
                i: int,
            | 0 <= i < self.slots@.len() && #[trigger] self.slots@[i].key@ == k by {
                if k != k0 {
                    assert(old(self).contents@.contains_key(k));
                    let i = choose|i: int|
                        0 <= i < old(self).slots@.len() && #[trigger] old(self).slots@[i].key@ == k;
                    assert(i != idx);
                    assert(self.slots@[i] == old(self).slots@[i]);
                    assert(self.slots@[i].key@ == k);
                } else {
                    assert(self.slots@[idx].key@ == k);
                }
            }
            assert forall|i: int|
                0 <= i < self.slots@.len() implies #[trigger] self.contents@.contains_key(
                self.slots@[i].key@,
            ) && self.contents@[self.slots@[i].key@] == self.slots@[i].value by {
                if i != idx {
                    assert(self.slots@[i] == old(self).slots@[i]);
                    assert(old(self).contents@.contains_key(old(self).slots@[i].key@));
                }
            }
            assert forall|i: int, j: int|
                0 <= i < self.slots@.len() && 0 <= j < self.slots@.len() && i != j
                    implies #[trigger] self.slots@[i].key@ != #[trigger] self.slots@[j].key@ by {
                if i != idx && j != idx {
                    assert(self.slots@[i] == old(self).slots@[i]);
                    assert(self.slots@[j] == old(self).slots@[j]);
                } else if i == idx {
                    assert(self.slots@[j] == old(self).slots@[j]);
                } else {
                    assert(self.slots@[i] == old(self).slots@[i]);
                }
            }
        }
    }

    /// Removes every key.
    pub fn clear(&mut self)
        requires
            old(self).wf(),
        ensures
            final(self).wf(),
            final(self)@ == Map::<Seq<char>, V>::empty(),
            final(self).size() == 0,
    {
        self.slots.clear();
        self.contents = Ghost(Map::empty());
    }

    /// Takes every entry out, in some order, leaving the store empty.
    pub fn take_all(&mut self) -> (r: Vec<Slot<V>>)
        requires
            old(self).wf(),
        ensures
            final(self).wf(),
            final(self)@ == Map::<Seq<char>, V>::empty(),
            r@.len() == old(self).size(),
            forall|i: int|
                0 <= i < r@.len() ==> #[trigger] old(self)@.contains_key(r@[i].key@) && old(
                    self,
                )@[r@[i].key@] == r@[i].value,
            forall|k: Seq<char>|
                #[trigger] old(self)@.contains_key(k) ==> exists|i: int|
                    0 <= i < r@.len() && #[trigger] r@[i].key@ == k,
            forall|i: int, j: int|
                0 <= i < r@.len() && 0 <= j < r@.len() && i != j ==> #[trigger] r@[i].key@
                    != #[trigger] r@[j].key@,
    {
        let mut out: Vec<Slot<V>> = Vec::new();
        core::mem::swap(&mut self.slots, &mut out);
        self.contents = Ghost(Map::empty());
        out
    }
}

} // verus!
