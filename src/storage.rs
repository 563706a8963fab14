use std::collections::HashMap;
use std::hash::Hash;
use vstd::prelude::*;
use vstd::std_specs::hash::obeys_key_model;

use crate::error::Error;

verus! {

/// A minimal associative store: look a key up, or write a value under it.
///
/// The ledger keeps its accounts in one store and its deposits and
/// withdrawals in another; an implementation may keep them in memory or
/// on disk, as long as it behaves as the map that `view` describes.
pub trait KVStore {
    type Key;
    type Value;

    /// What the store holds.
    spec fn view(&self) -> Map<Self::Key, Self::Value>;

    /// What the store needs of itself for `get` and `set` to behave as the
    /// map describes.
    spec fn well_formed(&self) -> bool;

    /// A store whose writes never fail.
    spec fn infallible(&self) -> bool;

    fn get(&self, key: Self::Key) -> (r: Result<&Self::Value, Error>)
        requires
            self.well_formed(),
        ensures
            match r {
                Ok(v) => self.view().contains_key(key) && *v == self.view()[key],
                Err(e) => !self.view().contains_key(key) && e == Error::NotFound,
            },
    ;

    fn set(&mut self, key: Self::Key, value: Self::Value) -> (r: Result<(), Error>)
        requires
            old(self).well_formed(),
        ensures
            final(self).well_formed(),
            final(self).infallible() == old(self).infallible(),
            old(self).infallible() ==> r is Ok,
            r is Ok ==> final(self).view() == old(self).view().insert(key, value),
            r is Err ==> final(self).view() == old(self).view(),
    ;
}

/// A store kept in a hash map in memory.
#[derive(Debug, Clone)]
pub struct InMemoryKVStore<K, T> {
    store: HashMap<K, T>,
}

/// Relies on `HashMap::into_iter`: the consuming iterator visits every
/// key-value pair of the map exactly once, in an arbitrary order.
#[verifier::external_body]
fn hash_map_entries<K, T>(m: HashMap<K, T>) -> (r: Vec<(K, T)>)
    ensures
        r@.len() == m@.dom().len(),
        forall|i: int|
            0 <= i < r@.len() ==> #[trigger] m@.contains_key(r@[i].0) && m@[r@[i].0] == r@[i].1,
        forall|i: int, j: int|
            0 <= i < j < r@.len() ==> #[trigger] r@[i].0 != #[trigger] r@[j].0,
{
    m.into_iter().collect()
}

impl<K: Eq + Hash, T> InMemoryKVStore<K, T> {
    /// An empty store.
    pub fn new() -> (r: Result<Self, Error>)
        ensures
            r matches Ok(s) && s.view() == Map::<K, T>::empty() && s.infallible(),
    {
        Ok(InMemoryKVStore { store: HashMap::new() })
    }

    /// Empties the store into a list of its entries, each key once, in no
    /// particular order.
    pub fn into_entries(self) -> (r: Vec<(K, T)>)
        ensures
            r@.len() == self.view().dom().len(),
            forall|i: int|
                0 <= i < r@.len() ==> #[trigger] self.view().contains_key(r@[i].0)
                    && self.view()[r@[i].0] == r@[i].1,
            forall|i: int, j: int|
                0 <= i < j < r@.len() ==> #[trigger] r@[i].0 != #[trigger] r@[j].0,
    {
        hash_map_entries(self.store)
    }
}

impl<K: Eq + Hash, T> KVStore for InMemoryKVStore<K, T> {
    type Key = K;
    type Value = T;

    closed spec fn view(&self) -> Map<K, T> {
        self.store@
    }

    open spec fn well_formed(&self) -> bool {
        obeys_key_model::<K>()
    }

    open spec fn infallible(&self) -> bool {
        true
    }

    fn get(&self, key: K) -> (r: Result<&T, Error>) {
        match self.store.get(&key) {
            Some(v) => Ok(v),
            None => Err(Error::NotFound),
        }
    }

    fn set(&mut self, key: K, value: T) -> (r: Result<(), Error>) {
        self.store.insert(key, value);
        Ok(())
    }
}

} // verus!
