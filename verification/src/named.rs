//! A store of values under names.
//!
//! Lookup goes through the host engine's hash map, which maps a name to the
//! slot that holds its value; names and values sit in two vectors, in the
//! order in which the names first came. A slot whose value was taken out
//! stays behind, empty.
use vstd::prelude::*;

verus! {

/// A `bevy::utils::HashMap` from name to slot. The verifier does not look
/// into it: what it holds is known through [`name_index_slots`] alone, and
/// only as far as the functions below say.
#[verifier::external_body]
#[derive(Debug)]
pub struct NameIndex {
    slots: bevy::utils::HashMap<String, usize>,
}

/// What a [`NameIndex`] holds: the slot of each name that was put into it and
/// not taken out since.
pub uninterp spec fn name_index_slots(index: NameIndex) -> Map<Seq<char>, usize>;

/// The index without any name.
pub open spec fn no_names() -> Map<Seq<char>, usize> {
    Map::empty()
}

/// `bevy::utils::HashMap::default`: a map that holds nothing. Taken on
/// trust.
#[verifier::external_body]
fn name_index_new() -> (index: NameIndex)
    ensures
        name_index_slots(index) == no_names(),
{
    NameIndex { slots: bevy::utils::HashMap::default() }
}

/// `HashMap::insert`: afterwards `name` leads to `slot` and every other name
/// to what it led to before; the slot that `name` had, if any, is returned.
/// Taken on trust.
#[verifier::external_body]
fn name_index_insert(index: &mut NameIndex, name: String, slot: usize) -> (previous: Option<usize>)
    ensures
        name_index_slots(*final(index)) == name_index_slots(*old(index)).insert(name@, slot),
        previous == name_index_slots(*old(index)).get(name@),
{
    index.slots.insert(name, slot)
}

/// `HashMap::get`: the slot of `name`, or `None` for a name that is not held.
/// Taken on trust.
#[verifier::external_body]
fn name_index_get(index: &NameIndex, name: &String) -> (slot: Option<usize>)
    ensures
        slot == name_index_slots(*index).get(name@),
{
    index.slots.get(name).copied()
}

/// `HashMap::remove`: afterwards `name` is not held, and every other name
/// leads to what it led to before; the slot that `name` had, if any, is
/// returned. Taken on trust.
#[verifier::external_body]
fn name_index_remove(index: &mut NameIndex, name: &String) -> (previous: Option<usize>)
    ensures
        name_index_slots(*final(index)) == name_index_slots(*old(index)).remove(name@),
        previous == name_index_slots(*old(index)).get(name@),
{
    index.slots.remove(name)
}

/// Values under names, one value per name.
#[derive(Debug)]
pub struct NamedStore<V> {
    index: NameIndex,
    names: Vec<String>,
    values: Vec<Option<V>>,
}

impl<V> NamedStore<V> {
    /// The index and the two vectors agree: the index leads each name to the
    /// slot that holds the name and its value, and the slots that it leads to
    /// are the ones that hold a value.
    pub closed spec fn wf(&self) -> bool {
        let slots = name_index_slots(self.index);
        &&& self.names.len() == self.values.len()
        &&& forall|name: Seq<char>| #[trigger]
            slots.contains_key(name) ==> slots[name] < self.names.len()
                && self.names[slots[name] as int]@ == name && self.values[slots[name] as int] is Some
        &&& forall|i: int|
            0 <= i < self.names.len() && (#[trigger] self.values[i]) is Some ==> slots.contains_key(
                self.names[i]@,
            ) && slots[self.names[i]@] == i
    }

    /// The store as a map from name to value.
    pub closed spec fn view(&self) -> Map<Seq<char>, V> {
        let slots = name_index_slots(self.index);
        Map::new(
            |name: Seq<char>| slots.contains_key(name),
            |name: Seq<char>| self.values[slots[name] as int]->0,
        )
    }

    /// The names of the slots, in the order in which they came.
    pub closed spec fn names(&self) -> Seq<String> {
        self.names@
    }

    /// The values of the slots; an emptied slot has none.
    pub closed spec fn values(&self) -> Seq<Option<V>> {
        self.values@
    }

    /// How the map and the slots hang together: the slots that hold a value
    /// are the entries of the map, each once.
    pub proof fn lemma_view(&self)
        requires
            self.wf(),
        ensures
            self.names().len() == self.values().len(),
            forall|i: int|
                0 <= i < self.names().len() && (#[trigger] self.values()[i]) is Some
                    ==> self@.contains_key(self.names()[i]@) && self@[self.names()[i]@]
                    == self.values()[i]->0,
            forall|i: int, j: int|
                0 <= i < j < self.names().len() && (#[trigger] self.values()[i]) is Some && (
                #[trigger] self.values()[j]) is Some ==> self.names()[i]@ != self.names()[j]@,
            forall|name: Seq<char>| #[trigger]
                self@.contains_key(name) ==> exists|i: int|
                    0 <= i < self.names().len() && self.names()[i]@ == name && (
                    #[trigger] self.values()[i]) is Some,
    {
        let slots = name_index_slots(self.index);
        assert forall|name: Seq<char>| #[trigger] self@.contains_key(name) implies exists|i: int|
            0 <= i < self.names().len() && self.names()[i]@ == name && (
            #[trigger] self.values()[i]) is Some by {
            let i = slots[name] as int;
            assert(self.values()[i] is Some);
        }
    }

    /// The empty store.
    pub fn new() -> (store: Self)
        ensures
            store.wf(),
            store@ == Map::<Seq<char>, V>::empty(),
            store.names() == Seq::<String>::empty(),
    {
        let store = NamedStore { index: name_index_new(), names: Vec::new(), values: Vec::new() };
        assert(store@ =~= Map::<Seq<char>, V>::empty());
        store
    }

    /// The number of slots.
    pub fn len(&self) -> (n: usize)
        requires
            self.wf(),
        ensures
            n == self.names().len(),
    {
        self.names.len()
    }

    /// Whether the store holds `name`.
    pub fn contains_key(&self, name: &String) -> (held: bool)
        requires
            self.wf(),
        ensures
            held == self@.contains_key(name@),
    {
        name_index_get(&self.index, name).is_some()
    }

    /// The name of slot `i`.
    pub fn name_at(&self, i: usize) -> (name: &String)
        requires
            self.wf(),
            i < self.names().len(),
        ensures
            *name == self.names()[i as int],
    {
        &self.names[i]
    }

    /// The value in slot `i`.
    pub fn value_at(&self, i: usize) -> (value: &Option<V>)
        requires
            self.wf(),
            i < self.names().len(),
        ensures
            *value == self.values()[i as int],
    {
        &self.values[i]
    }

    /// Puts `value` under `name`, in place of the value that `name` had.
    pub fn insert(&mut self, name: String, value: V)
        requires
            old(self).wf(),
        ensures
            final(self).wf(),
            final(self)@ == old(self)@.insert(name@, value),
            old(self)@.contains_key(name@) ==> final(self).names() == old(self).names(),
            !old(self)@.contains_key(name@) ==> final(self).names() == old(self).names().push(name),
    {
        match name_index_get(&self.index, &name) {
            Some(i) => {
                self.values.set(i, Some(value));
            },
            None => {
                let n = self.names.len();
                self.names.push(name.clone());
                self.values.push(Some(value));
                name_index_insert(&mut self.index, name, n);
            },
        }
        assert(self@ =~= old(self)@.insert(name@, value));
    }

    /// Takes the value of `name` out of the store.
    pub fn remove(&mut self, name: &String) -> (value: Option<V>)
        requires
            old(self).wf(),
        ensures
            final(self).wf(),
            final(self)@ == old(self)@.remove(name@),
            final(self).names() == old(self).names(),
            value == (if old(self)@.contains_key(name@) {
                Some(old(self)@[name@])
            } else {
                None
            }),
    {
        match name_index_remove(&mut self.index, name) {
            Some(i) => {
                let mut value: Option<V> = None;
                std::mem::swap(&mut self.values[i], &mut value);
                assert(self@ =~= old(self)@.remove(name@));
                value
            },
            None => {
                assert(self@ =~= old(self)@.remove(name@));
                None
            },
        }
    }
}

} // verus!
