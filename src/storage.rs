//! The persistence that the caller supplies, and two simple ones.

use vstd::prelude::*;
use vstd::string::StringExecFns;

verus! {

/// Failure of the persistence.
#[derive(Clone, Debug, PartialEq)]
pub enum StorageError {
    ReadError { name: String },
    Error { name: String },
}

/// Stores and retrieves byte blobs by key; supplied by the caller.
pub trait Storage {
    fn store(&mut self, key: &str, value: Vec<u8>) -> Result<(), StorageError>;

    fn retrieve(&self, key: &str) -> Result<Option<Vec<u8>>, StorageError>;
}

/// A storage that keeps nothing.
pub struct DummyStorage {}

impl Storage for DummyStorage {
    fn store(&mut self, key: &str, value: Vec<u8>) -> (r: Result<(), StorageError>) {
        Ok(())
    }

    fn retrieve(&self, key: &str) -> (r: Result<Option<Vec<u8>>, StorageError>) {
        Ok(None)
    }
}

/// No two entries share a key.
pub open spec fn unique_keys(entries: Seq<(String, Vec<u8>)>) -> bool {
    forall|i: int, j: int|
        0 <= i < j < entries.len() ==> #[trigger] entries[i].0@ != #[trigger] entries[j].0@
}

/// What the entries hold, by key.
pub open spec fn contents_of(entries: Seq<(String, Vec<u8>)>) -> Map<Seq<char>, Seq<u8>> {
    Map::new(
        |k: Seq<char>| exists|i: int| 0 <= i < entries.len() && entries[i].0@ == k,
        |k: Seq<char>|
            {
                let i = choose|i: int| 0 <= i < entries.len() && entries[i].0@ == k;
                entries[i].1@
            },
    )
}

proof fn contents_after_update(
    before: Seq<(String, Vec<u8>)>,
    after: Seq<(String, Vec<u8>)>,
    key: Seq<char>,
    value: Seq<u8>,
    i: int,
)
    requires
        unique_keys(before),
        0 <= i < before.len(),
        before[i].0@ == key,
        after.len() == before.len(),
        after[i].0@ == key,
        after[i].1@ == value,
        forall|j: int| 0 <= j < before.len() && j != i ==> after[j] == before[j],
    ensures
        unique_keys(after),
        contents_of(after) == contents_of(before).insert(key, value),
{
    assert forall|a: int, b: int| 0 <= a < b < after.len() implies #[trigger] after[a].0@
        != #[trigger] after[b].0@ by {
        assert(before[a].0@ != before[b].0@);
    }
    let m = contents_of(before).insert(key, value);
    assert forall|k: Seq<char>| #[trigger] contents_of(after).contains_key(k) == m.contains_key(k) by {
        if contents_of(after).contains_key(k) {
            let j = choose|j: int| 0 <= j < after.len() && after[j].0@ == k;
            assert(before[j].0@ == k);
        }
        if contents_of(before).contains_key(k) {
            let j = choose|j: int| 0 <= j < before.len() && before[j].0@ == k;
            assert(after[j].0@ == k);
        }
        if k == key {
            assert(after[i].0@ == k);
        }
    }
    assert forall|k: Seq<char>| #[trigger] contents_of(after).contains_key(k) implies contents_of(
        after,
    )[k] == m[k] by {
        let j = choose|j: int| 0 <= j < after.len() && after[j].0@ == k;
        if k != key {
            let j0 = choose|j0: int| 0 <= j0 < before.len() && before[j0].0@ == k;
            assert(before[j].0@ == k);
            assert(j == j0);
        }
    }
    assert(contents_of(after) =~= m);
}

proof fn contents_after_push(
    before: Seq<(String, Vec<u8>)>,
    after: Seq<(String, Vec<u8>)>,
    key: Seq<char>,
    value: Seq<u8>,
)
    requires
        unique_keys(before),
        forall|j: int| 0 <= j < before.len() ==> before[j].0@ != key,
        after.len() == before.len() + 1,
        after[before.len() as int].0@ == key,
        after[before.len() as int].1@ == value,
        forall|j: int| 0 <= j < before.len() ==> after[j] == before[j],
    ensures
        unique_keys(after),
        contents_of(after) == contents_of(before).insert(key, value),
{
    let n = before.len() as int;
    assert forall|a: int, b: int| 0 <= a < b < after.len() implies #[trigger] after[a].0@
        != #[trigger] after[b].0@ by {
        if b < n {
            assert(before[a].0@ != before[b].0@);
        } else {
            assert(before[a].0@ != key);
        }
    }
    let m = contents_of(before).insert(key, value);
    assert forall|k: Seq<char>| #[trigger] contents_of(after).contains_key(k) == m.contains_key(k) by {
        if contents_of(after).contains_key(k) && k != key {
            let j = choose|j: int| 0 <= j < after.len() && after[j].0@ == k;
            assert(before[j].0@ == k);
        }
        if contents_of(before).contains_key(k) {
            let j = choose|j: int| 0 <= j < before.len() && before[j].0@ == k;
            assert(after[j].0@ == k);
        }
        if k == key {
            assert(after[n].0@ == k);
        }
    }
    assert forall|k: Seq<char>| #[trigger] contents_of(after).contains_key(k) implies contents_of(
        after,
    )[k] == m[k] by {
        let j = choose|j: int| 0 <= j < after.len() && after[j].0@ == k;
        if k != key {
            let j0 = choose|j0: int| 0 <= j0 < before.len() && before[j0].0@ == k;
            assert(before[j].0@ == k);
            assert(j == j0);
        } else {
            assert(j == n);
        }
    }
    assert(contents_of(after) =~= m);
}

/// A storage that keeps its blobs in memory.
pub struct MemoryStorage {
    entries: Vec<(String, Vec<u8>)>,
}

impl MemoryStorage {
    #[verifier::type_invariant]
    spec fn wf(self) -> bool {
        unique_keys(self.entries@)
    }

    /// What the storage holds, by key.
    pub closed spec fn contents(self) -> Map<Seq<char>, Seq<u8>> {
        contents_of(self.entries@)
    }

    pub fn new() -> (r: MemoryStorage)
        ensures
            r.contents() == Map::<Seq<char>, Seq<u8>>::empty(),
    {
        let r = MemoryStorage { entries: Vec::new() };
        assert(r.contents() =~= Map::<Seq<char>, Seq<u8>>::empty());
        r
    }

    fn position(&self, key: &str) -> (r: Option<usize>)
        ensures
            match r {
                Some(i) => i < self.entries.len() && self.entries[i as int].0@ == key@,
                None => forall|i: int| 0 <= i < self.entries.len() ==> self.entries[i].0@ != key@,
            },
    {
        let wanted = String::from_str(key);
        let mut i: usize = 0;
        while i < self.entries.len()
            invariant
                i <= self.entries.len(),
                wanted@ == key@,
                forall|j: int| 0 <= j < i ==> self.entries[j].0@ != key@,
            decreases self.entries.len() - i,
        {
            if self.entries[i].0 == wanted {
                return Some(i);
            }
            i = i + 1;
        }
        None
    }

    /// Stores `value` under `key`, replacing what was there.
    pub fn put(&mut self, key: &str, value: Vec<u8>)
        ensures
            final(self).contents() == old(self).contents().insert(key@, value@),
    {
        proof {
            use_type_invariant(&*self);
        }
        let ghost before = self.entries@;
        let pos = self.position(key);
        let mut entries: Vec<(String, Vec<u8>)> = Vec::new();
        std::mem::swap(&mut self.entries, &mut entries);
        let ghost v = value@;
        match pos {
            Some(i) => {
                entries.set(i, (String::from_str(key), value));
                proof {
                    contents_after_update(before, entries@, key@, v, i as int);
                }
            },
            None => {
                entries.push((String::from_str(key), value));
                proof {
                    contents_after_push(before, entries@, key@, v);
                }
            },
        }
        std::mem::swap(&mut self.entries, &mut entries);
    }

    /// The blob stored under `key`.
    pub fn lookup(&self, key: &str) -> (r: Option<Vec<u8>>)
        ensures
            match r {
                Some(b) => self.contents().contains_key(key@) && b@ == self.contents()[key@],
                None => !self.contents().contains_key(key@),
            },
    {
        proof {
            use_type_invariant(self);
        }
        match self.position(key) {
            Some(i) => {
                let b = self.entries[i].1.clone();
                proof {
                    let j = choose|j: int|
                        0 <= j < self.entries.len() && self.entries[j].0@ == key@;
                    assert(self.entries[i as int].0@ == key@);
                }
                Some(b)
            },
            None => None,
        }
    }
}

impl Storage for MemoryStorage {
    fn store(&mut self, key: &str, value: Vec<u8>) -> (r: Result<(), StorageError>) {
        self.put(key, value);
        Ok(())
    }

    fn retrieve(&self, key: &str) -> (r: Result<Option<Vec<u8>>, StorageError>) {
        Ok(self.lookup(key))
    }
}

} // verus!
