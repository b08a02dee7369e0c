//! An in-memory database: a list of (key, value) entries in which no key
//! occurs twice. A lookup compares keys byte by byte; a write replaces the
//! entry for its key or appends one; a deletion removes the entry.

use vstd::prelude::*;
use crate::db::{Database, Value, ValueView, lookup, opt_view};

verus! {

/// The map that a list of entries stands for: a later entry for a key
/// overrides an earlier one.
pub open spec fn entries_map(s: Seq<(Vec<u8>, Value)>) -> Map<Seq<u8>, ValueView>
    decreases s.len(),
{
    if s.len() == 0 {
        Map::empty()
    } else {
        entries_map(s.drop_last()).insert(s.last().0@, s.last().1@)
    }
}

/// No key occurs twice in the list.
pub open spec fn keys_distinct(s: Seq<(Vec<u8>, Value)>) -> bool {
    forall|i: int, j: int| 0 <= i < j < s.len() ==> #[trigger] s[i].0@ != #[trigger] s[j].0@
}

/// A key is in the map exactly when some entry carries it.
proof fn lemma_entries_map_contains(s: Seq<(Vec<u8>, Value)>, k: Seq<u8>)
    ensures
        entries_map(s).contains_key(k) <==> exists|i: int| 0 <= i < s.len() && #[trigger] s[i].0@ == k,
    decreases s.len(),
{
    if s.len() > 0 {
        let t = s.drop_last();
        lemma_entries_map_contains(t, k);
        if entries_map(s).contains_key(k) {
            if s.last().0@ == k {
                assert(s[s.len() - 1].0@ == k);
            } else {
                let i = choose|i: int| 0 <= i < t.len() && #[trigger] t[i].0@ == k;
                assert(s[i].0@ == k);
            }
        }
        if exists|i: int| 0 <= i < s.len() && #[trigger] s[i].0@ == k {
            let i = choose|i: int| 0 <= i < s.len() && #[trigger] s[i].0@ == k;
            if i < s.len() - 1 {
                assert(t[i].0@ == k);
            }
        }
    }
}

/// With distinct keys, each entry gives the value of its key.
proof fn lemma_entries_map_index(s: Seq<(Vec<u8>, Value)>, i: int)
    requires
        keys_distinct(s),
        0 <= i < s.len(),
    ensures
        entries_map(s).contains_key(s[i].0@),
        entries_map(s)[s[i].0@] == s[i].1@,
    decreases s.len(),
{
    if i < s.len() - 1 {
        let t = s.drop_last();
        assert(keys_distinct(t));
        assert(t[i] == s[i]);
        lemma_entries_map_index(t, i);
        assert(s[i].0@ != s[s.len() - 1].0@);
    }
}

/// Removing the entry at `i` removes its key from the map.
proof fn lemma_entries_map_remove(s: Seq<(Vec<u8>, Value)>, i: int)
    requires
        keys_distinct(s),
        0 <= i < s.len(),
    ensures
        keys_distinct(s.remove(i)),
        entries_map(s.remove(i)) =~= entries_map(s).remove(s[i].0@),
{
    let r = s.remove(i);
    let k0 = s[i].0@;
    assert forall|a: int, b: int| 0 <= a < b < r.len() implies #[trigger] r[a].0@ != #[trigger] r[b].0@ by {
        let a2 = if a < i { a } else { a + 1 };
        let b2 = if b < i { b } else { b + 1 };
        assert(r[a] == s[a2]);
        assert(r[b] == s[b2]);
        assert(s[a2].0@ != s[b2].0@);
    }
    assert forall|k: Seq<u8>| #[trigger] entries_map(r).contains_key(k) <==> entries_map(s).remove(k0).contains_key(k) by {
        lemma_entries_map_contains(r, k);
        lemma_entries_map_contains(s, k);
        if entries_map(r).contains_key(k) {
            let j = choose|j: int| 0 <= j < r.len() && #[trigger] r[j].0@ == k;
            let j2 = if j < i { j } else { j + 1 };
            assert(r[j] == s[j2]);
            assert(s[j2].0@ == k);
            assert(k != k0);
        }
        if entries_map(s).remove(k0).contains_key(k) {
            let j = choose|j: int| 0 <= j < s.len() && #[trigger] s[j].0@ == k;
            assert(j != i);
            let j2 = if j < i { j } else { j - 1 };
            assert(r[j2] == s[j]);
            assert(r[j2].0@ == k);
        }
    }
    assert forall|k: Seq<u8>| #[trigger] entries_map(r).contains_key(k) implies entries_map(r)[k] == entries_map(s).remove(k0)[k] by {
        lemma_entries_map_contains(r, k);
        let j = choose|j: int| 0 <= j < r.len() && #[trigger] r[j].0@ == k;
        let j2 = if j < i { j } else { j + 1 };
        assert(r[j] == s[j2]);
        lemma_entries_map_index(r, j);
        lemma_entries_map_index(s, j2);
    }
}

/// Compares two byte strings.
fn bytes_equal(a: &[u8], b: &[u8]) -> (r: bool)
    ensures
        r == (a@ == b@),
{
    if a.len() != b.len() {
        return false;
    }
    let mut i: usize = 0;
    while i < a.len()
        invariant
            a@.len() == b@.len(),
            i <= a@.len(),
            forall|j: int| 0 <= j < i ==> a@[j] == b@[j],
        decreases a@.len() - i,
    {
        if a[i] != b[i] {
            return false;
        }
        i += 1;
    }
    assert(a@ =~= b@);
    true
}

/// A database held in memory.
pub struct InMemoryDatabase {
    entries: Vec<(Vec<u8>, Value)>,
}

impl View for InMemoryDatabase {
    type V = Map<Seq<u8>, ValueView>;

    closed spec fn view(&self) -> Map<Seq<u8>, ValueView> {
        entries_map(self.entries@)
    }
}

impl InMemoryDatabase {
    #[verifier::type_invariant]
    spec fn keys_are_distinct(self) -> bool {
        keys_distinct(self.entries@)
    }

    /// An empty database.
    pub fn new() -> (r: InMemoryDatabase)
        ensures
            r@ == Map::<Seq<u8>, ValueView>::empty(),
    {
        InMemoryDatabase { entries: Vec::new() }
    }

    /// The position of the entry for `key`, if there is one.
    fn find(&self, key: &[u8]) -> (r: Option<usize>)
        ensures
            match r {
                Some(i) => i < self.entries@.len() && self.entries@[i as int].0@ == key@,
                None => forall|i: int| 0 <= i < self.entries@.len() ==> #[trigger] self.entries@[i].0@ != key@,
            },
    {
        let mut i: usize = 0;
        while i < self.entries.len()
            invariant
                i <= self.entries@.len(),
                forall|j: int| 0 <= j < i ==> #[trigger] self.entries@[j].0@ != key@,
            decreases self.entries@.len() - i,
        {
            if bytes_equal(self.entries[i].0.as_slice(), key) {
                return Some(i);
            }
            i += 1;
        }
        None
    }

    /// Removes the entry for `key` from `entries` and gives its value back.
    fn take_entry(entries: &mut Vec<(Vec<u8>, Value)>, i: usize) -> (r: Value)
        requires
            keys_distinct(old(entries)@),
            i < old(entries)@.len(),
        ensures
            r@ == old(entries)@[i as int].1@,
            keys_distinct(final(entries)@),
            entries_map(final(entries)@) == entries_map(old(entries)@).remove(old(entries)@[i as int].0@),
    {
        proof {
            lemma_entries_map_remove(entries@, i as int);
        }
        let (_, v) = entries.remove(i);
        v
    }

    /// Sets `key` to `value`, returning the value it had before.
    fn put(&mut self, key: Vec<u8>, value: Value) -> (r: Option<Value>)
        ensures
            opt_view(r) == lookup(old(self)@, key@),
            final(self)@ == old(self)@.insert(key@, value@),
    {
        proof {
            use_type_invariant(&*self);
        }
        let found = self.find(key.as_slice());
        let mut entries: Vec<(Vec<u8>, Value)> = Vec::new();
        std::mem::swap(&mut entries, &mut self.entries);
        let ghost before = entries@;
        let previous = match found {
            Some(i) => {
                proof {
                    lemma_entries_map_index(before, i as int);
                }
                Some(Self::take_entry(&mut entries, i))
            },
            None => {
                proof {
                    lemma_entries_map_contains(before, key@);
                }
                None
            },
        };
        let ghost middle = entries@;
        proof {
            lemma_entries_map_contains(middle, key@);
        }
        entries.push((key, value));
        proof {
            assert(entries@.drop_last() == middle);
            assert forall|a: int, b: int| 0 <= a < b < entries@.len() implies #[trigger] entries@[a].0@ != #[trigger] entries@[b].0@ by {
                if b == entries@.len() - 1 {
                    assert(entries@[a] == middle[a]);
                }
            }
        }
        self.entries = entries;
        assert(self@ =~= old(self)@.insert(key@, value@));
        previous
    }
}

impl Database for InMemoryDatabase {
    open spec fn contents(&self) -> Map<Seq<u8>, ValueView> {
        self@
    }

    fn get(&self, key: &[u8]) -> (r: Option<Value>) {
        proof {
            use_type_invariant(self);
        }
        match self.find(key) {
            Some(i) => {
                proof {
                    lemma_entries_map_index(self.entries@, i as int);
                }
                Some(self.entries[i].1.clone())
            },
            None => {
                proof {
                    lemma_entries_map_contains(self.entries@, key@);
                }
                None
            },
        }
    }

    fn insert(&mut self, key: Vec<u8>, value: Value) {
        let _ = self.put(key, value);
    }

    fn delete(&mut self, key: &[u8]) -> (r: Option<Value>) {
        proof {
            use_type_invariant(&*self);
        }
        match self.find(key) {
            Some(i) => {
                let mut entries: Vec<(Vec<u8>, Value)> = Vec::new();
                std::mem::swap(&mut entries, &mut self.entries);
                proof {
                    lemma_entries_map_index(entries@, i as int);
                }
                let v = Self::take_entry(&mut entries, i);
                self.entries = entries;
                Some(v)
            },
            None => {
                proof {
                    lemma_entries_map_contains(self.entries@, key@);
                }
                assert(self@ =~= old(self)@.remove(key@));
                None
            },
        }
    }

    fn update(&mut self, key: Vec<u8>, value: Value) -> (r: Option<Value>) {
        self.put(key, value)
    }
}

} // verus!
