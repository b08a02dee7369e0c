//! Interfaces of stores served asynchronously.

use vstd::prelude::*;

verus! {

/// A key/value store that an asynchronous handler can serve.
pub trait Storage<K, V> {
    fn insert(&mut self, key: K, value: V) -> Option<V>;

    fn get(&self, key: &K) -> Option<&V>;

    fn remove(&mut self, key: &K) -> Option<V>;
}

/// The handler of network events (it holds nothing of its own).
pub struct NetworkEventHandler {}

} // verus!
