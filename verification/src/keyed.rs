//! An insertion-ordered association from string keys to values, in which no
//! key occurs twice.

use vstd::prelude::*;
use vstd::string::*;

verus! {

#[derive(Debug, PartialEq)]
struct Slot<V> {
    key: String,
    value: V,
}

/// Values filed under string keys, at most one per key, remembered in the
/// order in which their keys first arrived.
#[derive(Debug, PartialEq)]
pub struct KeyedList<V: DeepView> {
    slots: Vec<Slot<V>>,
}

/// In a list without repeats, an item is found where it stands.
proof fn lemma_index_of_unique(keys: Seq<Seq<char>>, i: int)
    requires
        keys.no_duplicates(),
        0 <= i < keys.len(),
    ensures
        keys.index_of(keys[i]) == i,
        keys.contains(keys[i]),
{
    let j = keys.index_of(keys[i]);
    assert(0 <= j < keys.len() && keys[j] == keys[i]);
}

impl<V: DeepView> DeepView for KeyedList<V> {
    type V = Map<Seq<char>, V::V>;

    /// The association as a map from each key to the deep view of its value.
    closed spec fn deep_view(&self) -> Map<Seq<char>, V::V> {
        Map::new(
            |k: Seq<char>| self.keys().contains(k),
            |k: Seq<char>| self.slots@[self.keys().index_of(k)].value.deep_view(),
        )
    }
}

impl<V: DeepView> KeyedList<V> {
    /// The keys in the order in which they first arrived.
    pub closed spec fn keys(&self) -> Seq<Seq<char>> {
        Seq::new(self.slots@.len(), |i: int| self.slots@[i].key@)
    }

    #[verifier::type_invariant]
    closed spec fn no_key_twice(&self) -> bool {
        self.keys().no_duplicates()
    }

    /// An association that holds nothing.
    pub fn new() -> (res: Self)
        ensures
            res.deep_view() == Map::<Seq<char>, V::V>::empty(),
            res.keys() == Seq::<Seq<char>>::empty(),
    {
        let res = KeyedList { slots: Vec::new() };
        assert(res.keys() =~= Seq::<Seq<char>>::empty());
        assert(res.deep_view() =~= Map::<Seq<char>, V::V>::empty());
        res
    }

    /// The number of keys.
    pub fn len(&self) -> (res: usize)
        ensures
            res == self.keys().len(),
            res == self.deep_view().dom().len(),
            self.keys().no_duplicates(),
            self.deep_view().dom() == self.keys().to_set(),
            self.deep_view().dom().finite(),
    {
        proof {
            use_type_invariant(self);
            self.keys().unique_seq_to_set();
            assert(self.deep_view().dom() =~= self.keys().to_set());
            vstd::seq_lib::seq_to_set_is_finite(self.keys());
        }
        self.slots.len()
    }

    /// The key at position `i` of the arrival order.
    pub fn key_at(&self, i: usize) -> (res: &String)
        requires
            i < self.keys().len(),
        ensures
            res@ == self.keys()[i as int],
            self.deep_view().contains_key(res@),
    {
        proof {
            use_type_invariant(self);
            lemma_index_of_unique(self.keys(), i as int);
        }
        &self.slots[i].key
    }

    /// The value filed under the key at position `i` of the arrival order.
    pub fn value_at(&self, i: usize) -> (res: &V)
        requires
            i < self.keys().len(),
        ensures
            self.deep_view().contains_key(self.keys()[i as int]),
            res.deep_view() == self.deep_view()[self.keys()[i as int]],
    {
        proof {
            use_type_invariant(self);
            lemma_index_of_unique(self.keys(), i as int);
        }
        &self.slots[i].value
    }

    /// The keys, in the order in which they first arrived.
    pub fn key_list(&self) -> (res: Vec<String>)
        ensures
            res.deep_view() == self.keys(),
            res.deep_view().no_duplicates(),
            forall|k: Seq<char>|
                res.deep_view().contains(k) <==> #[trigger] self.deep_view().contains_key(k),
    {
        proof {
            use_type_invariant(self);
        }
        let mut out: Vec<String> = Vec::new();
        let mut i: usize = 0;
        while i < self.slots.len()
            invariant
                i <= self.slots.len(),
                out.deep_view() == self.keys().subrange(0, i as int),
            decreases self.slots.len() - i,
        {
            let ghost before = out.deep_view();
            out.push(self.slots[i].key.clone());
            assert(out.deep_view() =~= before.push(self.keys()[i as int]));
            i += 1;
        }
        assert(self.keys().subrange(0, i as int) =~= self.keys());
        out
    }

    /// Where `key` stands in the arrival order, if it is present.
    pub fn position(&self, key: &str) -> (res: Option<usize>)
        ensures
            match res {
                Some(i) => i < self.keys().len() && self.keys()[i as int] == key@,
                None => !self.keys().contains(key@),
            },
            res is Some <==> self.deep_view().contains_key(key@),
    {
        let needle = String::from_str(key);
        let mut i: usize = 0;
        while i < self.slots.len()
            invariant
                i <= self.slots.len(),
                needle@ == key@,
                forall|k: int| 0 <= k < i ==> self.keys()[k] != key@,
            decreases self.slots.len() - i,
        {
            if self.slots[i].key == needle {
                assert(self.keys()[i as int] == key@);
                return Some(i);
            }
            i += 1;
        }
        None
    }

    /// Whether a value is filed under `key`.
    pub fn contains_key(&self, key: &str) -> (res: bool)
        ensures
            res == self.deep_view().contains_key(key@),
    {
        self.position(key).is_some()
    }

    /// The value filed under `key`, if there is one.
    pub fn get(&self, key: &str) -> (res: Option<&V>)
        ensures
            match res {
                Some(v) => self.deep_view().contains_key(key@) && v.deep_view()
                    == self.deep_view()[key@],
                None => !self.deep_view().contains_key(key@),
            },
    {
        match self.position(key) {
            Some(i) => Some(self.value_at(i)),
            None => None,
        }
    }

    /// Files `value` under `key`, in place of what was filed there before; a
    /// key that is new goes to the end of the arrival order.
    pub fn insert(&mut self, key: String, value: V)
        ensures
            final(self).deep_view() == old(self).deep_view().insert(key@, value.deep_view()),
            final(self).keys() == if old(self).keys().contains(key@) {
                old(self).keys()
            } else {
                old(self).keys().push(key@)
            },
    {
        proof {
            use_type_invariant(&*self);
        }
        let ghost before = *self;
        let ghost expected = before.deep_view().insert(key@, value.deep_view());
        let found = self.position(key.as_str());
        let mut slots: Vec<Slot<V>> = Vec::new();
        core::mem::swap(&mut self.slots, &mut slots);
        match found {
            Some(i) => {
                proof {
                    lemma_index_of_unique(before.keys(), i as int);
                }
                slots.set(i, Slot { key, value });
                assert(Seq::new(slots@.len(), |j: int| slots@[j].key@) =~= before.keys());
                self.slots = slots;
                assert(self.keys() =~= before.keys());
                assert forall|k: Seq<char>| self.deep_view().contains_key(k) implies
                    #[trigger] self.deep_view()[k] == expected[k] by {
                    let j = self.keys().index_of(k);
                    assert(self.keys()[j] == k);
                }
                assert(self.deep_view() =~= expected);
            },
            None => {
                slots.push(Slot { key, value });
                let ghost after = Seq::new(slots@.len(), |j: int| slots@[j].key@);
                let ghost n = before.keys().len() as int;
                assert(after =~= before.keys().push(key@));
                assert forall|a: int, b: int|
                    0 <= a < after.len() && 0 <= b < after.len() && a != b implies after[a]
                    != after[b] by {
                    if a < n && b < n {
                        assert(before.keys()[a] != before.keys()[b]);
                    } else if a < n {
                        assert(before.keys()[a] == after[a]);
                    } else {
                        assert(before.keys()[b] == after[b]);
                    }
                }
                self.slots = slots;
                assert(self.keys() =~= before.keys().push(key@));
                assert forall|k: Seq<char>| self.keys().contains(k) <==> (before.keys().contains(k)
                    || k == key@) by {
                    if self.keys().contains(k) {
                        let j = self.keys().index_of(k);
                        if j < n {
                            assert(before.keys()[j] == k);
                        }
                    }
                    if before.keys().contains(k) {
                        let j = before.keys().index_of(k);
                        assert(self.keys()[j] == k);
                    }
                    if k == key@ {
                        assert(self.keys()[n] == k);
                    }
                }
                assert forall|k: Seq<char>| self.deep_view().contains_key(k) implies
                    #[trigger] self.deep_view()[k] == expected[k] by {
                    let j = self.keys().index_of(k);
                    assert(self.keys()[j] == k);
                    if j < n {
                        assert(before.keys()[j] == k);
                        lemma_index_of_unique(before.keys(), j);
                    }
                }
                assert(self.deep_view() =~= expected);
            },
        }
    }
}

} // verus!
