//! Values kept by a node, the `Database` interface and the database kinds.

use vstd::prelude::*;
use crate::database_memory::InMemoryDatabase;

verus! {

/// What a node knows about a key: the object itself, or the peer
/// (by its textual peer id) that the object was last handed to.
pub enum Value {
    Direct(Vec<u8>),
    Pointer(String),
}

/// The mathematical form of a `Value`.
pub enum ValueView {
    Direct(Seq<u8>),
    Pointer(Seq<char>),
}

impl View for Value {
    type V = ValueView;

    open spec fn view(&self) -> ValueView {
        match self {
            Value::Direct(v) => ValueView::Direct(v@),
            Value::Pointer(p) => ValueView::Pointer(p@),
        }
    }
}

impl Clone for Value {
    fn clone(&self) -> (r: Self)
        ensures
            r@ == self@,
    {
        match self {
            Value::Direct(v) => {
                let c = v.clone();
                assert(c@ =~= v@);
                Value::Direct(c)
            },
            Value::Pointer(p) => Value::Pointer(p.clone()),
        }
    }
}

/// The view of an optional value.
pub open spec fn opt_view(o: Option<Value>) -> Option<ValueView> {
    match o {
        Some(v) => Some(v@),
        None => None,
    }
}

/// What a map from keys to values holds at `key`.
pub open spec fn lookup(m: Map<Seq<u8>, ValueView>, key: Seq<u8>) -> Option<ValueView> {
    if m.contains_key(key) {
        Some(m[key])
    } else {
        None
    }
}

/// A store of values by key.
pub trait Database {
    spec fn contents(&self) -> Map<Seq<u8>, ValueView>;

    fn get(&self, key: &[u8]) -> (r: Option<Value>)
        ensures
            opt_view(r) == lookup(self.contents(), key@),
    ;

    fn insert(&mut self, key: Vec<u8>, value: Value)
        ensures
            final(self).contents() == old(self).contents().insert(key@, value@),
    ;

    fn delete(&mut self, key: &[u8]) -> (r: Option<Value>)
        ensures
            opt_view(r) == lookup(old(self).contents(), key@),
            final(self).contents() == old(self).contents().remove(key@),
    ;

    fn update(&mut self, key: Vec<u8>, value: Value) -> (r: Option<Value>)
        ensures
            opt_view(r) == lookup(old(self).contents(), key@),
            final(self).contents() == old(self).contents().insert(key@, value@),
    ;
}

/// The kinds of database a node can run on.
pub enum DatabaseType {
    InMemory(InMemoryDatabase),
}

impl DatabaseType {
    /// Creates an empty database; only the in-memory kind exists.
    pub fn create(in_memory: bool) -> (r: DatabaseType)
        requires
            in_memory,
        ensures
            r.contents() == Map::<Seq<u8>, ValueView>::empty(),
    {
        DatabaseType::InMemory(InMemoryDatabase::new())
    }
}

impl Database for DatabaseType {
    open spec fn contents(&self) -> Map<Seq<u8>, ValueView> {
        match self {
            DatabaseType::InMemory(db) => db@,
        }
    }

    fn get(&self, key: &[u8]) -> (r: Option<Value>) {
        match self {
            DatabaseType::InMemory(db) => db.get(key),
        }
    }

    fn insert(&mut self, key: Vec<u8>, value: Value) {
        match self {
            DatabaseType::InMemory(db) => db.insert(key, value),
        }
    }

    fn delete(&mut self, key: &[u8]) -> (r: Option<Value>) {
        match self {
            DatabaseType::InMemory(db) => db.delete(key),
        }
    }

    fn update(&mut self, key: Vec<u8>, value: Value) -> (r: Option<Value>) {
        match self {
            DatabaseType::InMemory(db) => db.update(key, value),
        }
    }
}

} // verus!

verus! {

/// A read after a write of a key gives back the value written.
pub proof fn law_get_after_insert(m: Map<Seq<u8>, ValueView>, key: Seq<u8>, value: ValueView)
    ensures
        lookup(m.insert(key, value), key) == Some(value),
{
}

/// A write of one key leaves the value of every other key as it was.
pub proof fn law_insert_keeps_other_keys(m: Map<Seq<u8>, ValueView>, key: Seq<u8>, other: Seq<u8>, value: ValueView)
    requires
        key != other,
    ensures
        lookup(m.insert(key, value), other) == lookup(m, other),
{
}

/// After a key is deleted, a read of it finds nothing.
pub proof fn law_get_after_delete(m: Map<Seq<u8>, ValueView>, key: Seq<u8>)
    ensures
        lookup(m.remove(key), key) is None,
{
}

/// Deleting a key that is not there changes nothing.
pub proof fn law_delete_absent_key(m: Map<Seq<u8>, ValueView>, key: Seq<u8>)
    requires
        !m.contains_key(key),
    ensures
        m.remove(key) == m,
{
    assert(m.remove(key) =~= m);
}

} // verus!
