//! An insertion-ordered table keyed by text, in which no key occurs twice.

use vstd::prelude::*;

verus! {

/// The views of a sequence of strings.
pub open spec fn texts(strings: Seq<String>) -> Seq<Seq<char>> {
    strings.map_values(|s: String| s@)
}

/// A table from text keys to values that keeps the order in which keys were
/// first inserted. Inserting under a key that is present replaces its value
/// and keeps its place.
pub struct KeyedList<V> {
    keys: Vec<String>,
    vals: Vec<V>,
}

impl<V> KeyedList<V> {
    /// The keys, in order of first insertion.
    pub closed spec fn ids(&self) -> Seq<Seq<char>> {
        self.keys@.map_values(|k: String| k@)
    }

    /// The values, each at the place of its key.
    pub closed spec fn items(&self) -> Seq<V> {
        self.vals@
    }

    /// Every key has one value and occurs once.
    pub open spec fn wf(&self) -> bool {
        &&& self.ids().len() == self.items().len()
        &&& self.ids().no_duplicates()
    }

    /// The table as a map, without its order.
    pub open spec fn view(&self) -> Map<Seq<char>, V> {
        Map::new(
            |k: Seq<char>| self.ids().contains(k),
            |k: Seq<char>| self.items()[self.ids().index_of(k)],
        )
    }

    /// At a place inside a well-formed table the map holds the value of that place.
    pub proof fn lemma_view_at(&self, i: int)
        requires
            self.wf(),
            0 <= i < self.ids().len(),
        ensures
            self@.contains_key(self.ids()[i]),
            self@[self.ids()[i]] == self.items()[i],
            self.ids().index_of(self.ids()[i]) == i,
    {
        let k = self.ids()[i];
        assert(self.ids().contains(k));
        let j = self.ids().index_of(k);
        assert(0 <= j < self.ids().len() && self.ids()[j] == k);
    }

    pub fn new() -> (r: Self)
        ensures
            r.wf(),
            r.ids() == Seq::<Seq<char>>::empty(),
            r.items() == Seq::<V>::empty(),
            r@ == Map::<Seq<char>, V>::empty(),
    {
        let r = KeyedList { keys: Vec::new(), vals: Vec::new() };
        assert(r.ids() =~= Seq::<Seq<char>>::empty());
        assert(r@ =~= Map::<Seq<char>, V>::empty());
        r
    }

    pub fn len(&self) -> (n: usize)
        requires
            self.wf(),
        ensures
            n == self.ids().len(),
    {
        self.keys.len()
    }

    /// The place of `key`, if it is present.
    pub fn position(&self, key: &String) -> (r: Option<usize>)
        requires
            self.wf(),
        ensures
            match r {
                Some(i) => i < self.ids().len() && self.ids()[i as int] == key@,
                None => !self.ids().contains(key@),
            },
    {
        let mut i: usize = 0;
        while i < self.keys.len()
            invariant
                i <= self.keys.len(),
                forall|j: int| 0 <= j < i ==> self.ids()[j] != key@,
            decreases self.keys.len() - i,
        {
            if self.keys[i] == *key {
                return Some(i);
            }
            i += 1;
        }
        None
    }

    pub fn key_at(&self, i: usize) -> (k: &String)
        requires
            self.wf(),
            i < self.ids().len(),
        ensures
            k@ == self.ids()[i as int],
    {
        &self.keys[i]
    }

    pub fn value_at(&self, i: usize) -> (v: &V)
        requires
            self.wf(),
            i < self.ids().len(),
        ensures
            *v == self.items()[i as int],
    {
        &self.vals[i]
    }

    pub fn get(&self, key: &String) -> (r: Option<&V>)
        requires
            self.wf(),
        ensures
            match r {
                Some(v) => self@.contains_key(key@) && self@[key@] == *v,
                None => !self@.contains_key(key@),
            },
    {
        match self.position(key) {
            Some(i) => {
                proof {
                    self.lemma_view_at(i as int);
                }
                Some(&self.vals[i])
            },
            None => None,
        }
    }

    /// Puts `value` under `key`: in the place of the old value where the key
    /// is present, at the end where it is new.
    pub fn insert(&mut self, key: String, value: V)
        requires
            old(self).wf(),
        ensures
            final(self).wf(),
            final(self)@ == old(self)@.insert(key@, value),
            old(self).ids().contains(key@) ==> final(self).ids() == old(self).ids()
                && final(self).items() == old(self).items().update(
                old(self).ids().index_of(key@),
                value,
            ),
            !old(self).ids().contains(key@) ==> final(self).ids() == old(self).ids().push(key@)
                && final(self).items() == old(self).items().push(value),
    {
        let ghost before = *self;
        match self.position(&key) {
            Some(i) => {
                proof {
                    before.lemma_view_at(i as int);
                }
                self.vals.set(i, value);
                proof {
                    assert(self.ids() == before.ids());
                    assert(self.items() == before.items().update(i as int, value));
                    assert forall|k: Seq<char>| self@.contains_key(k) implies #[trigger] self@[k]
                        == before@.insert(key@, value)[k] by {
                        let j = self.ids().index_of(k);
                        assert(0 <= j < self.ids().len() && self.ids()[j] == k);
                    }
                    assert(self@ =~= before@.insert(key@, value));
                }
            },
            None => {
                self.keys.push(key);
                self.vals.push(value);
                proof {
                    assert(self.ids() =~= before.ids().push(key@));
                    assert(self.items() == before.items().push(value));
                    assert(self.ids().no_duplicates());
                    assert forall|k: Seq<char>| self.ids().contains(k) <==> (k == key@
                        || before.ids().contains(k)) by {
                        if before.ids().contains(k) {
                            let j = before.ids().index_of(k);
                            assert(self.ids()[j] == k);
                        }
                        if k == key@ {
                            assert(self.ids()[before.ids().len() as int] == k);
                        }
                    }
                    assert forall|k: Seq<char>| self@.contains_key(k) implies #[trigger] self@[k]
                        == before@.insert(key@, value)[k] by {
                        let j = self.ids().index_of(k);
                        assert(0 <= j < self.ids().len() && self.ids()[j] == k);
                        if k != key@ {
                            let j0 = before.ids().index_of(k);
                            assert(0 <= j0 < before.ids().len() && before.ids()[j0] == k);
                            assert(self.ids()[j0] == k);
                        }
                    }
                    assert(self@ =~= before@.insert(key@, value));
                }
            },
        }
    }
}

} // verus!
