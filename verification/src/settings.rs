//! Settings blobs: maps from a key to a value held as its JSON text.

use vstd::prelude::*;
use crate::keyed::KeyedList;

verus! {

/// What a field-level merge of `update` into `base` gives: the keys of
/// `update` take its values, every other key keeps its own.
pub open spec fn merged(
    base: Map<Seq<char>, Seq<char>>,
    update: Map<Seq<char>, Seq<char>>,
) -> Map<Seq<char>, Seq<char>> {
    base.union_prefer_right(update)
}

/// A settings blob. Each value is the JSON text of one setting.
pub struct SettingsMap {
    fields: KeyedList<String>,
}

impl SettingsMap {
    pub closed spec fn wf(&self) -> bool {
        self.fields.wf()
    }

    /// The keys, in order of first insertion.
    pub closed spec fn keys(&self) -> Seq<Seq<char>> {
        self.fields.ids()
    }

    /// The values, each at the place of its key.
    pub closed spec fn values(&self) -> Seq<Seq<char>> {
        self.fields.items().map_values(|v: String| v@)
    }

    pub closed spec fn view(&self) -> Map<Seq<char>, Seq<char>> {
        self.fields@.map_values(|v: String| v@)
    }

    /// The keys are distinct, and the map holds under each the value of its place.
    pub proof fn lemma_entries(&self)
        requires
            self.wf(),
        ensures
            self.keys().len() == self.values().len(),
            self.keys().no_duplicates(),
            forall|k: Seq<char>| self@.contains_key(k) <==> self.keys().contains(k),
            forall|i: int|
                0 <= i < self.keys().len() ==> self@.contains_key(#[trigger] self.keys()[i])
                    && self@[self.keys()[i]] == self.values()[i],
    {
        assert forall|i: int| 0 <= i < self.keys().len() implies self@.contains_key(
            #[trigger] self.keys()[i],
        ) && self@[self.keys()[i]] == self.values()[i] by {
            self.fields.lemma_view_at(i);
        }
    }

    pub fn new() -> (r: Self)
        ensures
            r.wf(),
            r@ == Map::<Seq<char>, Seq<char>>::empty(),
            r.keys() == Seq::<Seq<char>>::empty(),
            r.values() == Seq::<Seq<char>>::empty(),
    {
        let r = SettingsMap { fields: KeyedList::new() };
        assert(r@ =~= Map::<Seq<char>, Seq<char>>::empty());
        assert(r.values() =~= Seq::<Seq<char>>::empty());
        r
    }

    pub fn len(&self) -> (n: usize)
        requires
            self.wf(),
        ensures
            n == self.keys().len(),
            n == self.values().len(),
    {
        self.fields.len()
    }

    pub fn key_at(&self, i: usize) -> (k: &String)
        requires
            self.wf(),
            i < self.keys().len(),
        ensures
            k@ == self.keys()[i as int],
    {
        self.fields.key_at(i)
    }

    pub fn value_at(&self, i: usize) -> (v: &String)
        requires
            self.wf(),
            i < self.keys().len(),
        ensures
            v@ == self.values()[i as int],
    {
        self.fields.value_at(i)
    }

    /// The JSON text under `key`, if the key is present.
    pub fn get(&self, key: &String) -> (r: Option<String>)
        requires
            self.wf(),
        ensures
            match r {
                Some(v) => self@.contains_key(key@) && self@[key@] == v@,
                None => !self@.contains_key(key@),
            },
    {
        match self.fields.get(key) {
            Some(v) => Some(v.clone()),
            None => None,
        }
    }

    /// Puts `value` under `key`, in place of any value that was there.
    pub fn insert(&mut self, key: String, value: String)
        requires
            old(self).wf(),
        ensures
            final(self).wf(),
            final(self)@ == old(self)@.insert(key@, value@),
            old(self).keys().contains(key@) ==> final(self).keys() == old(self).keys()
                && final(self).values() == old(self).values().update(
                old(self).keys().index_of(key@),
                value@,
            ),
            !old(self).keys().contains(key@) ==> final(self).keys() == old(self).keys().push(
                key@,
            ) && final(self).values() == old(self).values().push(value@),
    {
        let ghost before = *self;
        self.fields.insert(key, value);
        proof {
            assert(self@ =~= before@.insert(key@, value@));
            if before.keys().contains(key@) {
                assert(self.values() =~= before.values().update(
                    before.keys().index_of(key@),
                    value@,
                ));
            } else {
                assert(self.values() =~= before.values().push(value@));
            }
        }
    }

    /// A copy with the same keys, values and order.
    pub fn clone(&self) -> (r: Self)
        requires
            self.wf(),
        ensures
            r.wf(),
            r@ == self@,
            r.keys() == self.keys(),
            r.values() == self.values(),
    {
        let mut r = SettingsMap::new();
        let n = self.len();
        let mut i: usize = 0;
        proof {
            self.lemma_entries();
        }
        while i < n
            invariant
                self.wf(),
                r.wf(),
                n == self.keys().len(),
                n == self.values().len(),
                self.keys().no_duplicates(),
                i <= n,
                r.keys() == self.keys().take(i as int),
                r.values() == self.values().take(i as int),
            decreases n - i,
        {
            let k = self.key_at(i).clone();
            let v = self.value_at(i).clone();
            proof {
                if r.keys().contains(k@) {
                    let j = r.keys().index_of(k@);
                    assert(self.keys()[j] == self.keys()[i as int]);
                }
            }
            r.insert(k, v);
            proof {
                assert(self.keys().take(i as int).push(k@) =~= self.keys().take(i + 1));
                assert(self.values().take(i as int).push(v@) =~= self.values().take(i + 1));
            }
            i += 1;
        }
        proof {
            assert(self.keys().take(n as int) =~= self.keys());
            assert(self.values().take(n as int) =~= self.values());
            r.lemma_entries();
            assert forall|k: Seq<char>| r@.contains_key(k) implies r@[k] == self@[k] by {
                let j = r.keys().index_of(k);
                assert(r.keys()[j] == k);
            }
            assert(r@ =~= self@);
        }
        r
    }

    /// Merges `update` into this blob field by field: each key of `update`
    /// takes its value, every other key keeps its own.
    pub fn merge(&mut self, update: &SettingsMap)
        requires
            old(self).wf(),
            update.wf(),
        ensures
            final(self).wf(),
            final(self)@ == merged(old(self)@, update@),
    {
        let ghost before = *self;
        let n = update.len();
        let mut i: usize = 0;
        proof {
            update.lemma_entries();
            assert(self@ =~= merged(before@, update@.restrict(Set::empty())));
        }
        while i < n
            invariant
                self.wf(),
                update.wf(),
                n == update.keys().len(),
                i <= n,
                self@ == merged(before@, update@.restrict(seen(update.keys(), i as int))),
                forall|j: int|
                    0 <= j < n ==> update@.contains_key(#[trigger] update.keys()[j])
                        && update@[update.keys()[j]] == update.values()[j],
            decreases n - i,
        {
            let k = update.key_at(i).clone();
            let v = update.value_at(i).clone();
            self.insert(k, v);
            proof {
                let a = seen(update.keys(), i as int);
                let b = seen(update.keys(), i + 1);
                assert(update.keys()[i as int] == k@);
                assert(b =~= a.insert(k@));
                assert(update@[k@] == v@);
                assert(self@ =~= merged(before@, update@.restrict(b)));
            }
            i += 1;
        }
        proof {
            assert forall|k: Seq<char>| update@.contains_key(k) implies seen(
                update.keys(),
                n as int,
            ).contains(k) by {
                let j = update.keys().index_of(k);
                assert(update.keys()[j] == k);
            }
            assert(update@.restrict(seen(update.keys(), n as int)) =~= update@);
        }
    }
}

/// The keys at the first `i` places of `keys`.
spec fn seen(keys: Seq<Seq<char>>, i: int) -> Set<Seq<char>> {
    Set::new(|k: Seq<char>| exists|j: int| 0 <= j < i && j < keys.len() && #[trigger] keys[j] == k)
}

/// Merging the same update twice gives what merging it once gives.
pub proof fn lemma_merge_idempotent(
    base: Map<Seq<char>, Seq<char>>,
    update: Map<Seq<char>, Seq<char>>,
)
    ensures
        merged(merged(base, update), update) == merged(base, update),
{
    assert(merged(merged(base, update), update) =~= merged(base, update));
}

/// Two updates may be merged in either order as far as a key is concerned
/// that they do not both set, or that they set to the same value; and the
/// two orders give the same keys.
pub proof fn lemma_merge_commutes_per_key(
    base: Map<Seq<char>, Seq<char>>,
    first: Map<Seq<char>, Seq<char>>,
    second: Map<Seq<char>, Seq<char>>,
    key: Seq<char>,
)
    requires
        !(first.contains_key(key) && second.contains_key(key)) || first[key] == second[key],
    ensures
        merged(merged(base, first), second).dom() == merged(merged(base, second), first).dom(),
        merged(merged(base, first), second).contains_key(key) ==> merged(
            merged(base, first),
            second,
        )[key] == merged(merged(base, second), first)[key],
{
    assert(merged(merged(base, first), second).dom() =~= merged(merged(base, second), first).dom());
}

/// Updates that set no key in common may be merged in either order.
pub proof fn lemma_merge_commutes_disjoint(
    base: Map<Seq<char>, Seq<char>>,
    first: Map<Seq<char>, Seq<char>>,
    second: Map<Seq<char>, Seq<char>>,
)
    requires
        first.dom().disjoint(second.dom()),
    ensures
        merged(merged(base, first), second) == merged(merged(base, second), first),
{
    assert(merged(merged(base, first), second) =~= merged(merged(base, second), first));
}

} // verus!
