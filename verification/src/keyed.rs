//! A store of values under 64-bit keys (entity bits, resource ordinals).
//!
//! Lookup goes through the host engine's hash map, which maps a key to the
//! slot that holds its value; the values themselves sit in a vector, in the
//! order in which their keys first came.
use vstd::prelude::*;

verus! {

/// A `bevy::utils::HashMap` from key to slot. The verifier does not look
/// into it: what it holds is known through [`key_index_slots`] alone, and
/// only as far as the functions below say.
#[verifier::external_body]
#[derive(Debug)]
pub struct KeyIndex {
    slots: bevy::utils::HashMap<u64, usize>,
}

/// What a [`KeyIndex`] holds: the slot of each key that was put into it.
pub uninterp spec fn key_index_slots(index: KeyIndex) -> Map<u64, usize>;

/// The index without any key.
pub open spec fn no_slots() -> Map<u64, usize> {
    Map::empty()
}

/// `bevy::utils::HashMap::default`: a map that holds nothing. Taken on
/// trust.
#[verifier::external_body]
fn key_index_new() -> (index: KeyIndex)
    ensures
        key_index_slots(index) == no_slots(),
{
    KeyIndex { slots: bevy::utils::HashMap::default() }
}

/// `HashMap::insert`: afterwards `key` leads to `slot` and every other key to
/// what it led to before; the slot that `key` had, if any, is returned. Taken
/// on trust.
#[verifier::external_body]
fn key_index_insert(index: &mut KeyIndex, key: u64, slot: usize) -> (previous: Option<usize>)
    ensures
        key_index_slots(*final(index)) == key_index_slots(*old(index)).insert(key, slot),
        previous == key_index_slots(*old(index)).get(key),
{
    index.slots.insert(key, slot)
}

/// `HashMap::get`: the slot of `key`, or `None` for a key that is not held.
/// Taken on trust.
#[verifier::external_body]
fn key_index_get(index: &KeyIndex, key: u64) -> (slot: Option<usize>)
    ensures
        slot == key_index_slots(*index).get(key),
{
    index.slots.get(&key).copied()
}

/// Values under 64-bit keys, one value per key.
#[derive(Debug)]
pub struct KeyedStore<V> {
    index: KeyIndex,
    keys: Vec<u64>,
    values: Vec<V>,
}

impl<V> KeyedStore<V> {
    /// The index and the two vectors agree: slot `i` holds the value of key
    /// `keys[i]`, and the index leads each key to its slot and to no other.
    pub closed spec fn wf(&self) -> bool {
        let slots = key_index_slots(self.index);
        &&& self.keys.len() == self.values.len()
        &&& forall|k: u64| #[trigger]
            slots.contains_key(k) ==> slots[k] < self.keys.len() && self.keys[slots[k] as int] == k
        &&& forall|i: int|
            0 <= i < self.keys.len() ==> slots.contains_key(#[trigger] self.keys[i])
                && slots[self.keys[i]] == i
    }

    /// The store as a map from key to value.
    pub closed spec fn view(&self) -> Map<u64, V> {
        let slots = key_index_slots(self.index);
        Map::new(|k: u64| slots.contains_key(k), |k: u64| self.values[slots[k] as int])
    }

    /// The keys in the order in which they first came.
    pub closed spec fn keys(&self) -> Seq<u64> {
        self.keys@
    }

    /// The values, each at the position of its key in [`Self::keys`].
    pub closed spec fn values(&self) -> Seq<V> {
        self.values@
    }

    /// How the map and the two sequences hang together.
    pub proof fn lemma_view(&self)
        requires
            self.wf(),
        ensures
            self.keys().len() == self.values().len(),
            self.keys().no_duplicates(),
            forall|i: int|
                0 <= i < self.keys().len() ==> self@.contains_key(#[trigger] self.keys()[i])
                    && self@[self.keys()[i]] == self.values()[i],
            forall|k: u64| #[trigger] self@.contains_key(k) ==> self.keys().contains(k),
    {
        let slots = key_index_slots(self.index);
        assert forall|k: u64| #[trigger] self@.contains_key(k) implies self.keys().contains(k) by {
            assert(self.keys()[slots[k] as int] == k);
        }
    }

    /// Two stores with the same keys and values in the same slots are the
    /// same map.
    pub proof fn lemma_same_slots(&self, other: &Self)
        requires
            self.wf(),
            other.wf(),
            self.keys() == other.keys(),
            self.values() == other.values(),
        ensures
            self@ == other@,
    {
        self.lemma_view();
        other.lemma_view();
        assert forall|k: u64| self@.contains_key(k) == other@.contains_key(k) by {
            if self@.contains_key(k) {
                let i = choose|i: int| 0 <= i < self.keys().len() && self.keys()[i] == k;
                assert(other@.contains_key(other.keys()[i]));
            }
            if other@.contains_key(k) {
                let i = choose|i: int| 0 <= i < other.keys().len() && other.keys()[i] == k;
                assert(self@.contains_key(self.keys()[i]));
            }
        }
        assert forall|k: u64| self@.contains_key(k) implies self@[k] == other@[k] by {
            let i = choose|i: int| 0 <= i < self.keys().len() && self.keys()[i] == k;
            assert(self@[self.keys()[i]] == self.values()[i]);
            assert(other@[other.keys()[i]] == other.values()[i]);
        }
        assert(self@ =~= other@);
    }

    /// The empty store.
    pub fn new() -> (store: Self)
        ensures
            store.wf(),
            store@ == Map::<u64, V>::empty(),
            store.keys() == Seq::<u64>::empty(),
            store.values() == Seq::<V>::empty(),
    {
        let store = KeyedStore { index: key_index_new(), keys: Vec::new(), values: Vec::new() };
        assert(store@ =~= Map::<u64, V>::empty());
        store
    }

    /// The number of keys.
    pub fn len(&self) -> (n: usize)
        requires
            self.wf(),
        ensures
            n == self.keys().len(),
    {
        self.keys.len()
    }

    /// The slot of `key`, if the store holds it.
    pub fn slot_of(&self, key: u64) -> (slot: Option<usize>)
        requires
            self.wf(),
        ensures
            slot is Some <==> self@.contains_key(key),
            slot matches Some(i) ==> i < self.keys().len() && self.keys()[i as int] == key,
    {
        key_index_get(&self.index, key)
    }

    /// Whether the store holds `key`.
    pub fn contains_key(&self, key: u64) -> (held: bool)
        requires
            self.wf(),
        ensures
            held == self@.contains_key(key),
    {
        self.slot_of(key).is_some()
    }

    /// The value of `key`.
    pub fn get(&self, key: u64) -> (value: Option<&V>)
        requires
            self.wf(),
        ensures
            value is Some <==> self@.contains_key(key),
            value matches Some(v) ==> *v == self@[key],
    {
        match key_index_get(&self.index, key) {
            Some(i) => Some(&self.values[i]),
            None => None,
        }
    }

    /// The key in slot `i`.
    pub fn key_at(&self, i: usize) -> (key: u64)
        requires
            self.wf(),
            i < self.keys().len(),
        ensures
            key == self.keys()[i as int],
    {
        self.keys[i]
    }

    /// The value in slot `i`.
    pub fn value_at(&self, i: usize) -> (value: &V)
        requires
            self.wf(),
            i < self.keys().len(),
        ensures
            *value == self.values()[i as int],
    {
        &self.values[i]
    }

    /// The value in slot `i`, to be changed in place.
    pub fn value_mut_at(&mut self, i: usize) -> (value: &mut V)
        requires
            old(self).wf(),
            i < old(self).keys().len(),
        ensures
            *value == old(self).values()[i as int],
            final(self).wf(),
            final(self).keys() == old(self).keys(),
            final(self).values() == old(self).values().update(i as int, *final(value)),
            final(self)@ == old(self)@.insert(old(self).keys()[i as int], *final(value)),
    {
        proof {
            assert forall|after: Self|
                after.index == self.index && after.keys == self.keys && after.values@
                    == self.values@.update(i as int, after.values@[i as int]) implies #[trigger]
                after.wf() && after@ == self@.insert(
                self.keys()[i as int],
                after.values@[i as int],
            ) by {
                assert(after@ =~= self@.insert(self.keys()[i as int], after.values@[i as int]));
            }
        }
        &mut self.values[i]
    }

    /// Puts `value` into slot `i`, in place of the value that was there.
    pub fn set_value_at(&mut self, i: usize, value: V)
        requires
            old(self).wf(),
            i < old(self).keys().len(),
        ensures
            final(self).wf(),
            final(self).keys() == old(self).keys(),
            final(self).values() == old(self).values().update(i as int, value),
            final(self)@ == old(self)@.insert(old(self).keys()[i as int], value),
    {
        self.values.set(i, value);
        assert(self@ =~= old(self)@.insert(old(self).keys()[i as int], value));
    }

    /// Puts `value` under `key`. A key that is already held keeps its slot and
    /// loses its former value; a new key gets the next slot.
    pub fn insert(&mut self, key: u64, value: V)
        requires
            old(self).wf(),
        ensures
            final(self).wf(),
            final(self)@ == old(self)@.insert(key, value),
            old(self)@.contains_key(key) ==> final(self).keys() == old(self).keys(),
            !old(self)@.contains_key(key) ==> final(self).keys() == old(self).keys().push(key),
            !old(self)@.contains_key(key) ==> final(self).values() == old(self).values().push(
                value,
            ),
            forall|i: int|
                0 <= i < final(self).values().len() ==> (#[trigger] final(self).values()[i])
                    == value || (i < old(self).values().len() && final(self).values()[i] == old(self).values()[i]),
    {
        match key_index_get(&self.index, key) {
            Some(i) => {
                self.values.set(i, value);
            },
            None => {
                let n = self.keys.len();
                self.keys.push(key);
                self.values.push(value);
                key_index_insert(&mut self.index, key, n);
            },
        }
        assert(self@ =~= old(self)@.insert(key, value));
    }
}

} // verus!
