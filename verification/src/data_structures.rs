//! The shared reference and the map with several keys for one value.
//!
//! Two readiness tokens stand for one connection: one for its ingress
//! endpoint and one for the tail of its pipeline. Both must find the same
//! context, and what is changed through one must be seen through the
//! other. `MultiMap` holds each value once and lets any number of keys be
//! bound to it.

use vstd::prelude::*;
use vstd::set_lib::lemma_len_subset;
use vstd::std_specs::hash::{obeys_key_model, spec_hash_map_len};
use std::collections::HashMap;
use std::hash::Hash;

verus! {

broadcast use vstd::std_specs::hash::group_hash_axioms;

/// The owner of one value on the heap.
pub struct Ref<V> {
    value: Box<V>,
}

impl<V> View for Ref<V> {
    type V = V;

    closed spec fn view(&self) -> V {
        *self.value
    }
}

impl<V> Ref<V> {
    /// Puts `value` on the heap.
    pub fn new(value: V) -> (shared: Self)
        ensures
            shared@ == value,
    {
        Ref { value: Box::new(value) }
    }

    /// The value.
    pub fn get(&self) -> (value: &V)
        ensures
            *value == self@,
    {
        &*self.value
    }

    /// The value, to be changed in place.
    pub fn get_mut(&mut self) -> (value: &mut V)
        ensures
            *value == old(self)@,
            final(self)@ == *final(value),
    {
        &mut *self.value
    }

    /// Takes the value off the heap.
    pub fn into_inner(self) -> (value: V)
        ensures
            value == self@,
    {
        *self.value
    }
}

/// A map in which several keys can be bound to one value.
///
/// `insert` binds a key to a value of its own; `alias` binds a key to the
/// value that another key is bound to. The value is held once: what is
/// changed through one of its keys is what every other of its keys finds.
/// A value leaves the map with the last key that is bound to it.
pub struct MultiMap<K, V> where K: Eq + PartialEq {
    /// The slot of each key.
    index: HashMap<K, usize>,
    /// The values; a vacant slot holds none.
    slots: Vec<Option<V>>,
    /// The number of keys bound to each slot.
    holders: Vec<usize>,
}

impl<K, V> MultiMap<K, V> where K: Eq + PartialEq + Hash {
    /// The keys bound to `slot`.
    closed spec fn bound_to(&self, slot: int) -> Set<K> {
        Set::new(|k: K| self.index@.contains_key(k) && self.index@[k] == slot)
    }

    /// The invariant of the map, but for the slot `pending`, which holds a
    /// value that no key is bound to yet.
    closed spec fn consistent(&self, pending: Option<int>) -> bool {
        &&& obeys_key_model::<K>()
        &&& self.holders@.len() == self.slots@.len()
        &&& forall|k: K| #[trigger] self.index@.contains_key(k) ==> self.index@[k] < self.slots@.len()
        &&& forall|s: int|
            0 <= s < self.slots@.len() ==> #[trigger] self.holders@[s] == self.bound_to(s).len()
        &&& forall|s: int|
            0 <= s < self.slots@.len() ==> ((#[trigger] self.slots@[s]) is Some <==> (
            self.holders@[s] > 0 || pending == Some(s)))
    }

    /// The invariant of the map: every key is bound to a slot that holds a
    /// value, and each slot knows how many keys are bound to it.
    pub closed spec fn wf(&self) -> bool {
        self.consistent(None)
    }

    /// The value that each key finds.
    pub closed spec fn view(&self) -> Map<K, V> {
        Map::new(
            |k: K| self.index@.contains_key(k),
            |k: K| self.slots@[self.index@[k] as int]->0,
        )
    }

    /// Whether `a` and `b` are keys bound to one value.
    pub closed spec fn shares(&self, a: K, b: K) -> bool {
        self.index@.contains_key(a) && self.index@.contains_key(b) && self.index@[a]
            == self.index@[b]
    }

    /// Sharing is an equivalence on the keys of the map, and keys that
    /// share find the same value.
    pub proof fn sharing_is_sound(&self, a: K, b: K, c: K)
        ensures
            self.shares(a, a) <==> self@.contains_key(a),
            self.shares(a, b) ==> self.shares(b, a),
            self.shares(a, b) && self.shares(b, c) ==> self.shares(a, c),
            self.shares(a, b) ==> self@.contains_key(a) && self@.contains_key(b) && self@[a]
                == self@[b],
    {
    }

    proof fn bound_to_is_finite(&self, slot: int)
        ensures
            self.bound_to(slot).finite(),
            self.bound_to(slot).len() <= self.index@.dom().len(),
    {
        assert(self.bound_to(slot).subset_of(self.index@.dom()));
        lemma_len_subset(self.bound_to(slot), self.index@.dom());
    }

    /// A map without keys.
    pub fn new() -> (map: Self)
        ensures
            obeys_key_model::<K>() ==> map.wf(),
            map@ == Map::<K, V>::empty(),
    {
        let map = MultiMap { index: HashMap::new(), slots: Vec::new(), holders: Vec::new() };
        assert(map@ =~= Map::<K, V>::empty());
        map
    }

    /// The number of keys.
    pub fn len(&self) -> (n: usize)
        requires
            self.wf(),
        ensures
            n == self@.dom().len(),
    {
        assert(self@.dom() =~= self.index@.dom());
        self.index.len()
    }

    /// Whether `key` is bound to a value.
    pub fn contains_key(&self, key: &K) -> (found: bool)
        requires
            self.wf(),
        ensures
            found == self@.contains_key(*key),
    {
        self.index.contains_key(key)
    }

    /// The value that `key` is bound to.
    pub fn get(&self, key: &K) -> (found: Option<&V>)
        requires
            self.wf(),
        ensures
            match found {
                Some(v) => self@.contains_key(*key) && *v == self@[*key],
                None => !self@.contains_key(*key),
            },
    {
        match self.index.get(key) {
            Some(slot) => {
                let s = *slot;
                match &self.slots[s] {
                    Some(v) => Some(v),
                    None => {
                        proof {
                            self.bound_to_is_finite(s as int);
                            assert(self.bound_to(s as int).contains(*key));
                        }
                        None
                    },
                }
            },
            None => None,
        }
    }

    /// The value that `key` is bound to, to be changed in place. What is
    /// written through the reference is what every key that shares the
    /// value finds afterwards; the other keys find what they found before.
    pub fn get_mut(&mut self, key: &K) -> (found: Option<&mut V>)
        requires
            old(self).wf(),
        ensures
            final(self).wf(),
            forall|a: K, b: K| final(self).shares(a, b) == old(self).shares(a, b),
            match found {
                Some(v) => {
                    &&& old(self)@.contains_key(*key)
                    &&& *v == old(self)@[*key]
                    &&& final(self)@ == Map::new(
                        |k: K| old(self)@.contains_key(k),
                        |k: K|
                            if old(self).shares(k, *key) {
                                *final(v)
                            } else {
                                old(self)@[k]
                            },
                    )
                },
                None => !old(self)@.contains_key(*key) && final(self)@ == old(self)@,
            },
    {
        match self.index.get(key) {
            Some(slot) => {
                let s = *slot;
                proof {
                    self.bound_to_is_finite(s as int);
                    assert(self.bound_to(s as int).contains(*key));
                }
                match &mut self.slots[s] {
                    Some(v) => Some(v),
                    None => None,
                }
            },
            None => None,
        }
    }

    /// Puts `value` into a vacant slot, with no key bound to it yet.
    fn place(&mut self, value: V) -> (slot: usize)
        requires
            old(self).wf(),
        ensures
            final(self).consistent(Some(slot as int)),
            final(self).index == old(self).index,
            slot < final(self).slots@.len(),
            final(self).slots@[slot as int] == Some(value),
            final(self).bound_to(slot as int) =~= Set::<K>::empty(),
            forall|s: int|
                0 <= s < old(self).slots@.len() && s != slot ==> final(self).slots@[s] == old(
                    self,
                ).slots@[s],
    {
        let n = self.slots.len();
        let mut i: usize = 0;
        while i < n
            invariant
                n == self.slots@.len(),
                0 <= i <= n,
                *self == *old(self),
                self.wf(),
                forall|s: int| 0 <= s < i ==> self.slots@[s] is Some,
            decreases n - i,
        {
            if self.slots[i].is_none() {
                proof {
                    self.bound_to_is_finite(i as int);
                    self.bound_to(i as int).lemma_len0_is_empty();
                }
                self.slots.set(i, Some(value));
                proof {
                    assert forall|s: int| 0 <= s < self.slots@.len() implies #[trigger] self.holders@[s]
                        == self.bound_to(s).len() by {
                        assert(self.bound_to(s) =~= old(self).bound_to(s));
                    }
                }
                return i;
            }
            i = i + 1;
        }
        self.slots.push(Some(value));
        self.holders.push(0);
        proof {
            assert(self.bound_to(n as int) =~= Set::<K>::empty());
            assert forall|s: int| 0 <= s < self.slots@.len() implies #[trigger] self.holders@[s]
                == self.bound_to(s).len() by {
                if s < n {
                    assert(self.bound_to(s) =~= old(self).bound_to(s));
                }
            }
        }
        n
    }

    /// Binds `key`, which is bound to nothing, to the value in `slot`.
    fn bind(&mut self, key: K, slot: usize)
        requires
            old(self).consistent(Some(slot as int)),
            slot < old(self).slots@.len(),
            !old(self).index@.contains_key(key),
        ensures
            final(self).wf(),
            final(self).index@ == old(self).index@.insert(key, slot),
            final(self).slots == old(self).slots,
    {
        let ghost k = key;
        self.index.insert(key, slot);
        proof {
            let before = old(self).bound_to(slot as int);
            let after = self.bound_to(slot as int);
            old(self).bound_to_is_finite(slot as int);
            self.bound_to_is_finite(slot as int);
            assert(after =~= before.insert(k));
            assert(self.index@.dom().len() == spec_hash_map_len(&self.index));
        }
        let count = self.holders[slot];
        self.holders.set(slot, count + 1);
        proof {
            assert forall|s: int| 0 <= s < self.slots@.len() implies #[trigger] self.holders@[s]
                == self.bound_to(s).len() by {
                if s != slot {
                    assert(self.bound_to(s) =~= old(self).bound_to(s));
                }
            }
        }
    }

    /// Binds `key` to `value`, which is held for this key alone. What `key`
    /// was bound to before is let go of.
    pub fn insert(&mut self, key: K, value: V)
        requires
            old(self).wf(),
        ensures
            final(self).wf(),
            final(self)@ == old(self)@.insert(key, value),
            forall|a: K, b: K|
                final(self).shares(a, b) == (if a == key || b == key {
                    a == b
                } else {
                    old(self).shares(a, b)
                }),
    {
        let ghost k = key;
        let _ = self.unbind(&key);
        let ghost unbound = *self;
        let slot = self.place(value);
        let ghost placed = *self;
        self.bind(key, slot);
        proof {
            assert forall|j: K| #[trigger] unbound.index@.contains_key(j) implies unbound.index@[j]
                != slot by {
                if unbound.index@[j] == slot {
                    assert(placed.bound_to(slot as int).contains(j));
                }
            }
            assert forall|j: K| old(self)@.insert(k, value).contains_key(j) implies #[trigger] self@.contains_key(j)
                && self@[j] == old(self)@.insert(k, value)[j] by {
                if j != k {
                    assert(unbound.index@.contains_key(j));
                    assert(self.index@[j] == old(self).index@[j]);
                }
            }
            assert(self@ =~= old(self)@.insert(k, value));
        }
    }

    /// Binds `key` to the value that `of` is bound to, so that both share
    /// it. What `key` was bound to before is let go of. Returns whether
    /// `of` is bound to a value; if it is not, nothing changes.
    pub fn alias(&mut self, key: K, of: &K) -> (found: bool)
        requires
            old(self).wf(),
        ensures
            final(self).wf(),
            found == old(self)@.contains_key(*of),
            found ==> final(self)@ == old(self)@.insert(key, old(self)@[*of]),
            found ==> forall|a: K, b: K|
                final(self).shares(a, b) == old(self).shares(
                    if a == key {
                        *of
                    } else {
                        a
                    },
                    if b == key {
                        *of
                    } else {
                        b
                    },
                ),
            !found ==> final(self)@ == old(self)@,
            !found ==> forall|a: K, b: K| final(self).shares(a, b) == old(self).shares(a, b),
    {
        let ghost k = key;
        let slot = match self.index.get(of) {
            Some(slot) => *slot,
            None => {
                return false;
            },
        };
        let bound = match self.index.get(&key) {
            Some(other) => *other == slot,
            None => false,
        };
        if bound {
            proof {
                assert(self@ =~= old(self)@.insert(k, old(self)@[*of]));
            }
            return true;
        }
        proof {
            self.bound_to_is_finite(slot as int);
            assert(self.bound_to(slot as int).contains(*of));
            assert(*of != k);
        }
        let _ = self.unbind(&key);
        let ghost unbound = *self;
        proof {
            assert(unbound.index@.contains_key(*of));
            assert(unbound.slots@[slot as int] == old(self).slots@[slot as int]);
            assert(unbound.slots@[slot as int] is Some);
        }
        self.bind(key, slot);
        proof {
            assert forall|j: K| old(self)@.insert(k, old(self)@[*of]).contains_key(j) implies #[trigger] self@.contains_key(j)
                && self@[j] == old(self)@.insert(k, old(self)@[*of])[j] by {
                if j != k {
                    assert(unbound.index@.contains_key(j));
                    assert(self.index@[j] == old(self).index@[j]);
                }
            }
            assert(self@ =~= old(self)@.insert(k, old(self)@[*of]));
        }
        true
    }

    /// Unbinds `key`. Returns the value that it was bound to if no other
    /// key shares it: the value then leaves the map. The other keys find
    /// what they found before.
    pub fn remove(&mut self, key: &K) -> (freed: Option<V>)
        requires
            old(self).wf(),
        ensures
            final(self).wf(),
            final(self)@ == old(self)@.remove(*key),
            forall|a: K, b: K|
                final(self).shares(a, b) == (a != *key && b != *key && old(self).shares(a, b)),
            match freed {
                Some(value) => {
                    &&& old(self)@.contains_key(*key)
                    &&& value == old(self)@[*key]
                    &&& forall|other: K| other != *key ==> !old(self).shares(other, *key)
                },
                None => !old(self)@.contains_key(*key) || exists|other: K|
                    other != *key && old(self).shares(other, *key),
            },
    {
        self.unbind(key)
    }

    /// Unbinds `key`, as `remove` does, and says what becomes of the slots.
    fn unbind(&mut self, key: &K) -> (freed: Option<V>)
        requires
            old(self).wf(),
        ensures
            final(self).wf(),
            final(self)@ == old(self)@.remove(*key),
            forall|a: K, b: K|
                final(self).shares(a, b) == (a != *key && b != *key && old(self).shares(a, b)),
            final(self).index@ == old(self).index@.remove(*key),
            final(self).slots@.len() == old(self).slots@.len(),
            forall|j: K| #[trigger]
                final(self).index@.contains_key(j) ==> final(self).slots@[old(self).index@[j] as int]
                    == old(self).slots@[old(self).index@[j] as int],
            match freed {
                Some(value) => {
                    &&& old(self)@.contains_key(*key)
                    &&& value == old(self)@[*key]
                    &&& forall|other: K| other != *key ==> !old(self).shares(other, *key)
                },
                None => !old(self)@.contains_key(*key) || exists|other: K|
                    other != *key && old(self).shares(other, *key),
            },
    {
        let slot = match self.index.remove(key) {
            Some(slot) => slot,
            None => {
                proof {
                    assert(self.index@ =~= old(self).index@);
                    assert(self.index@ =~= old(self).index@.remove(*key));
                    assert forall|s: int| 0 <= s < self.slots@.len() implies #[trigger] self.holders@[s]
                        == self.bound_to(s).len() by {
                        assert(self.bound_to(s) =~= old(self).bound_to(s));
                    }
                    assert(self@ =~= old(self)@.remove(*key));
                }
                return None;
            },
        };
        proof {
            old(self).bound_to_is_finite(slot as int);
            assert(old(self).bound_to(slot as int).contains(*key));
            assert(self.bound_to(slot as int) =~= old(self).bound_to(slot as int).remove(*key));
        }
        let count = self.holders[slot] - 1;
        self.holders.set(slot, count);
        let mut freed: Option<V> = None;
        if count == 0 {
            core::mem::swap(&mut freed, &mut self.slots[slot]);
            proof {
                self.bound_to_is_finite(slot as int);
                self.bound_to(slot as int).lemma_len0_is_empty();
                assert forall|other: K| other != *key implies !old(self).shares(other, *key) by {
                    if old(self).shares(other, *key) {
                        assert(self.bound_to(slot as int).contains(other));
                    }
                }
            }
        } else {
            proof {
                self.bound_to_is_finite(slot as int);
                let other = self.bound_to(slot as int).choose();
                assert(self.bound_to(slot as int).contains(other));
                assert(other != *key && old(self).shares(other, *key));
            }
        }
        proof {
            assert forall|s: int| 0 <= s < self.slots@.len() implies #[trigger] self.holders@[s]
                == self.bound_to(s).len() by {
                if s != slot {
                    assert(self.bound_to(s) =~= old(self).bound_to(s));
                }
            }
            assert forall|j: K| #[trigger] self.index@.contains_key(j) implies self.slots@[old(
                self,
            ).index@[j] as int] == old(self).slots@[old(self).index@[j] as int] by {
                if self.index@[j] == slot {
                    assert(self.bound_to(slot as int).contains(j));
                }
            }
            assert(self@ =~= old(self)@.remove(*key));
        }
        freed
    }
}

} // verus!
