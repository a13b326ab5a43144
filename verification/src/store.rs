//! The type-indexed store: a heterogeneous container with one slot per key
//! identity, accessed through the capability trait [`DbKey`].
//!
//! Every slot holds a value of one erased type `V` (chosen by the user of the
//! store, typically an enum over every value type the program stores).  A key
//! type ties a stable identity (`spec_id`) to the value type kept under it and
//! to an injection of that value type into `V`.  The injection and its partial
//! inverse are the store's typing discipline: reading a slot under the key
//! that wrote it always recovers the written value, which each key type
//! proves once, in [`DbKey::lemma_wrap_round_trip`].

use vstd::prelude::*;
use std::collections::HashMap;

verus! {

broadcast use vstd::std_specs::hash::group_hash_axioms;

/// A capability trait: implementing it lets a type act as a storage key.
///
/// `V` is the erased type every slot of the store holds.  Two distinct key
/// types used with one store must return distinct identities from `key_id`;
/// keys with equal identities address the same slot.
pub trait DbKey<V>: Sized {
    /// The type of the value stored under this key.
    type Value;

    /// The key identity: which slot of the store this key addresses.
    spec fn spec_id() -> u64;

    /// Returns the key identity.
    fn key_id() -> (r: u64)
        ensures
            r == Self::spec_id(),
    ;

    /// How a value of this key is embedded into the erased slot type.
    spec fn wrap_spec(value: Self::Value) -> V;

    /// Embeds a value into the erased slot type.
    fn wrap(value: Self::Value) -> (r: V)
        ensures
            r == Self::wrap_spec(value),
    ;

    /// The partial inverse of `wrap_spec`: what a slot's content means under
    /// this key, or `None` when the content was not written under it.
    spec fn unwrap_spec(erased: V) -> Option<Self::Value>;

    /// Reads a value of this key back out of an erased slot content.
    fn try_unwrap(erased: &V) -> (r: Option<&Self::Value>)
        ensures
            match r {
                Some(v) => Self::unwrap_spec(*erased) == Some(*v),
                None => Self::unwrap_spec(*erased) is None,
            },
    ;

    /// As `try_unwrap`, but consumes the erased value.
    fn unwrap_owned(erased: V) -> (r: Option<Self::Value>)
        ensures
            r == Self::unwrap_spec(erased),
    ;

    /// The typing discipline of the store: a value wrapped under this key is
    /// always recovered, unchanged, when unwrapped under the same key.
    proof fn lemma_wrap_round_trip(value: Self::Value)
        ensures
            Self::unwrap_spec(Self::wrap_spec(value)) == Some(value),
    ;
}

/// The store interface: an associative container with one slot per key
/// identity, modelled as a map from key identity to erased slot content.
pub trait DataBase: Sized {
    /// The erased type every slot holds.
    type Erased;

    /// The contents of the store: key identity to erased slot content.
    spec fn model(&self) -> Map<u64, Self::Erased>;

    /// Returns a reference to the value stored under `K`'s identity, or
    /// `None` if that slot is empty or was not written under `K`.
    fn get<K: DbKey<Self::Erased>>(&self) -> (r: Option<&K::Value>)
        ensures
            match r {
                Some(v) => self.model().contains_key(K::spec_id())
                    && K::unwrap_spec(self.model()[K::spec_id()]) == Some(*v),
                None => !self.model().contains_key(K::spec_id())
                    || K::unwrap_spec(self.model()[K::spec_id()]) is None,
            },
    ;

    /// As `get`, but returns an independent copy of the stored value.
    fn get_cloned<K: DbKey<Self::Erased>>(&self) -> (r: Option<K::Value>) where K::Value: Copy
        ensures
            match r {
                Some(v) => self.model().contains_key(K::spec_id())
                    && K::unwrap_spec(self.model()[K::spec_id()]) == Some(v),
                None => !self.model().contains_key(K::spec_id())
                    || K::unwrap_spec(self.model()[K::spec_id()]) is None,
            },
    {
        match self.get::<K>() {
            Some(v) => Some(*v),
            None => None,
        }
    }

    /// Stores `value` under `K`'s identity, returning what that slot held
    /// before (read back under `K`), which is then gone.
    fn put<K: DbKey<Self::Erased>>(&mut self, value: K::Value) -> (r: Option<K::Value>)
        ensures
            final(self).model() == old(self).model().insert(K::spec_id(), K::wrap_spec(value)),
            match r {
                Some(prev) => old(self).model().contains_key(K::spec_id())
                    && K::unwrap_spec(old(self).model()[K::spec_id()]) == Some(prev),
                None => !old(self).model().contains_key(K::spec_id())
                    || K::unwrap_spec(old(self).model()[K::spec_id()]) is None,
            },
    ;
}

/// An in-memory store: a hash map from key identity to erased slot content.
pub struct InMemoryDb<V> {
    data: HashMap<u64, V>,
}

impl<V> InMemoryDb<V> {
    /// Creates an empty store.
    pub fn new() -> (r: Self)
        ensures
            r.model() == Map::<u64, V>::empty(),
    {
        InMemoryDb { data: HashMap::new() }
    }
}

impl<V> DataBase for InMemoryDb<V> {
    type Erased = V;

    closed spec fn model(&self) -> Map<u64, V> {
        self.data@
    }

    fn get<K: DbKey<V>>(&self) -> (r: Option<&K::Value>) {
        let id = K::key_id();
        match self.data.get(&id) {
            Some(v) => K::try_unwrap(v),
            None => None,
        }
    }

    fn put<K: DbKey<V>>(&mut self, value: K::Value) -> (r: Option<K::Value>) {
        let id = K::key_id();
        match self.data.insert(id, K::wrap(value)) {
            Some(prev) => K::unwrap_owned(prev),
            None => None,
        }
    }
}

/// The key identity reserved for the trivial "no value" key, `()`.
pub const UNIT_KEY_ID: u64 = 0;

/// The trivial "no value" key: it addresses the reserved identity
/// [`UNIT_KEY_ID`] and stores the erased slot type itself, unchanged.
impl<V> DbKey<V> for () {
    type Value = V;

    open spec fn spec_id() -> u64 {
        UNIT_KEY_ID
    }

    fn key_id() -> u64 {
        UNIT_KEY_ID
    }

    open spec fn wrap_spec(value: V) -> V {
        value
    }

    fn wrap(value: V) -> V {
        value
    }

    open spec fn unwrap_spec(erased: V) -> Option<V> {
        Some(erased)
    }

    fn try_unwrap(erased: &V) -> Option<&V> {
        Some(erased)
    }

    fn unwrap_owned(erased: V) -> Option<V> {
        Some(erased)
    }

    proof fn lemma_wrap_round_trip(value: V) {
    }
}

/// Storing a value and reading the same slot back under the same key always
/// yields that value: the slot a `put` leaves behind is recovered, unchanged,
/// by a `get` under the key that wrote it.
pub proof fn lemma_put_then_get<V, K: DbKey<V>>(m: Map<u64, V>, value: K::Value)
    ensures
        m.insert(K::spec_id(), K::wrap_spec(value)).contains_key(K::spec_id()),
        K::unwrap_spec(m.insert(K::spec_id(), K::wrap_spec(value))[K::spec_id()])
            == Some(value),
{
    K::lemma_wrap_round_trip(value);
}

/// Operations under different key identities never interact, even when the
/// underlying value types are identical: a write under one key identity
/// leaves the slot of every other key identity as it was.
pub proof fn lemma_distinct_keys_independent<V, K: DbKey<V>, K2: DbKey<V>>(
    m: Map<u64, V>,
    value: K::Value,
)
    requires
        K::spec_id() != K2::spec_id(),
    ensures
        ({
            let m2 = m.insert(K::spec_id(), K::wrap_spec(value));
            &&& m2.contains_key(K2::spec_id()) == m.contains_key(K2::spec_id())
            &&& m.contains_key(K2::spec_id()) ==> m2[K2::spec_id()] == m[K2::spec_id()]
        }),
{
}

} // verus!
