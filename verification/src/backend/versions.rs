//! A table from application identifier to version.
//!
//! The table keeps its identifiers in the order in which they were first
//! put, and no identifier twice.

use crate::text::{equals, to_chars};
use vstd::prelude::*;

verus! {

/// Application identifiers with a version each, as plain values: a list of
/// pairs in which no identifier stands twice.
pub type Versions = Seq<(Seq<char>, Seq<char>)>;

/// The index of the first pair of `entries` with the identifier `key`, or
/// `entries.len()` when there is none.
pub open spec fn key_index(entries: Versions, key: Seq<char>) -> int
    decreases entries.len(),
{
    if entries.len() == 0 || entries[0].0 == key {
        0
    } else {
        1 + key_index(entries.skip(1), key)
    }
}

/// The version that `entries` holds for `key`.
pub open spec fn lookup(entries: Versions, key: Seq<char>) -> Option<Seq<char>> {
    let i = key_index(entries, key);
    if 0 <= i < entries.len() {
        Some(entries[i].1)
    } else {
        None
    }
}

/// `entries` with `value` as the version of `key`: in place of the version
/// that `key` had, or at the end where it had none.
pub open spec fn put(entries: Versions, key: Seq<char>, value: Seq<char>) -> Versions {
    let i = key_index(entries, key);
    if 0 <= i < entries.len() {
        entries.update(i, (key, value))
    } else {
        entries.push((key, value))
    }
}

/// `entries` with each pair of `more` put into it, first to last.
pub open spec fn put_all(entries: Versions, more: Versions) -> Versions
    decreases more.len(),
{
    if more.len() == 0 {
        entries
    } else {
        put(put_all(entries, more.drop_last()), more.last().0, more.last().1)
    }
}

/// Whether no identifier stands twice in `entries`.
pub open spec fn distinct_keys(entries: Versions) -> bool {
    forall|i: int, j: int|
        0 <= i < j < entries.len() ==> (#[trigger] entries[i]).0 != (#[trigger] entries[j]).0
}

/// Where `key_index` points: within `entries` or at their end, at `key`
/// if within, and past every other identifier.
pub proof fn lemma_key_index_bounds(entries: Versions, key: Seq<char>)
    ensures
        0 <= key_index(entries, key) <= entries.len(),
        key_index(entries, key) < entries.len() ==> entries[key_index(entries, key)].0 == key,
        forall|j: int| 0 <= j < key_index(entries, key) ==> (#[trigger] entries[j]).0 != key,
    decreases entries.len(),
{
    if entries.len() == 0 || entries[0].0 == key {
    } else {
        lemma_key_index_bounds(entries.skip(1), key);
        assert forall|j: int| 0 <= j < key_index(entries, key) implies (#[trigger] entries[j]).0
            != key by {
            if j > 0 {
                assert(entries.skip(1)[j - 1] == entries[j]);
            }
        }
    }
}

/// The first entry with the identifier `key` is where `key_index` says.
pub proof fn lemma_key_index_is(entries: Versions, key: Seq<char>, k: int)
    requires
        0 <= k <= entries.len(),
        forall|j: int| 0 <= j < k ==> (#[trigger] entries[j]).0 != key,
        k < entries.len() ==> entries[k].0 == key,
    ensures
        key_index(entries, key) == k,
{
    lemma_key_index_bounds(entries, key);
    let p = key_index(entries, key);
    if p < k {
        assert(entries[p].0 == key);
    } else if p > k {
        assert(entries[k].0 == key);
    }
}

/// Putting a version makes it the version of its identifier and leaves
/// every other identifier's version as it was; identifiers that were
/// distinct stay so.
pub proof fn lemma_put(entries: Versions, key: Seq<char>, value: Seq<char>, other: Seq<char>)
    ensures
        distinct_keys(entries) ==> distinct_keys(put(entries, key, value)),
        lookup(put(entries, key, value), key) == Some(value),
        other != key ==> lookup(put(entries, key, value), other) == lookup(entries, other),
{
    lemma_key_index_bounds(entries, key);
    lemma_key_index_bounds(entries, other);
    let i = key_index(entries, key);
    let o = key_index(entries, other);
    let after = put(entries, key, value);
    assert forall|j: int| 0 <= j < i implies (#[trigger] after[j]).0 != key by {
        assert(entries[j].0 != key);
    }
    lemma_key_index_is(after, key, i);
    if other != key {
        if o < entries.len() {
            assert forall|j: int| 0 <= j < o implies (#[trigger] after[j]).0 != other by {
                assert(entries[j].0 != other);
            }
            lemma_key_index_is(after, other, o);
        } else {
            assert forall|j: int| 0 <= j < after.len() implies (#[trigger] after[j]).0
                != other by {
                if j < entries.len() {
                    assert(entries[j].0 != other);
                }
            }
            lemma_key_index_is(after, other, after.len() as int);
        }
    }
    if distinct_keys(entries) {
        assert forall|a: int, b: int| 0 <= a < b < after.len() implies (#[trigger] after[a]).0 != (
        #[trigger] after[b]).0 by {
            if a < entries.len() {
                assert(entries[a].0 == entries[a].0);
            }
            if b < entries.len() {
                assert(entries[b].0 == entries[b].0);
            }
        }
    }
}

/// A table from application identifier to version.
#[derive(Debug, Clone)]
pub struct VersionTable {
    entries: Vec<(String, String)>,
}

impl View for VersionTable {
    type V = Versions;

    closed spec fn view(&self) -> Versions {
        self.entries@.map_values(|e: (String, String)| (e.0@, e.1@))
    }
}

impl VersionTable {
    /// Whether no identifier stands twice in the table.
    pub open spec fn wf(&self) -> bool {
        distinct_keys(self@)
    }

    /// A table without entries.
    pub fn new() -> (table: VersionTable)
        ensures
            table@ == Versions::empty(),
            table.wf(),
    {
        let table = VersionTable { entries: Vec::new() };
        proof {
            assert(table@ =~= Versions::empty());
        }
        table
    }

    /// The number of identifiers in the table.
    pub fn len(&self) -> (n: usize)
        ensures
            n == self@.len(),
    {
        self.entries.len()
    }

    /// Whether the table holds no identifier.
    pub fn is_empty(&self) -> (b: bool)
        ensures
            b == (self@.len() == 0),
    {
        self.entries.len() == 0
    }

    /// The entries of the table, identifier and version, in the order in
    /// which the identifiers were first put.
    pub fn pairs(&self) -> (r: Vec<(String, String)>)
        ensures
            r.len() == self@.len(),
            forall|i: int|
                0 <= i < r.len() ==> (#[trigger] r[i]).0@ == self@[i].0 && r[i].1@ == self@[i].1,
    {
        let mut r: Vec<(String, String)> = Vec::new();
        let mut i: usize = 0;
        while i < self.entries.len()
            invariant
                i <= self.entries.len(),
                r.len() == i,
                forall|j: int|
                    0 <= j < i ==> (#[trigger] r[j]).0@ == self@[j].0 && r[j].1@ == self@[j].1,
            decreases self.entries.len() - i,
        {
            r.push((self.entries[i].0.clone(), self.entries[i].1.clone()));
            i += 1;
        }
        r
    }

    fn index_of(&self, key: &str) -> (i: usize)
        ensures
            i == key_index(self@, key@),
            i <= self@.len(),
    {
        let wanted: Vec<char> = to_chars(key);
        let mut i: usize = 0;
        while i < self.entries.len()
            invariant
                i <= self.entries.len(),
                wanted@ == key@,
                forall|j: int| 0 <= j < i ==> (#[trigger] self@[j]).0 != key@,
            decreases self.entries.len() - i,
        {
            if equals(&wanted, self.entries[i].0.as_str()) {
                proof {
                    lemma_key_index_is(self@, key@, i as int);
                }
                return i;
            }
            i += 1;
        }
        proof {
            lemma_key_index_is(self@, key@, i as int);
        }
        i
    }

    /// The version of `key`, if the table holds one.
    pub fn get(&self, key: &str) -> (value: Option<String>)
        ensures
            match value {
                Some(v) => lookup(self@, key@) == Some(v@),
                None => lookup(self@, key@) is None,
            },
    {
        let i: usize = self.index_of(key);
        if i < self.entries.len() {
            Some(self.entries[i].1.clone())
        } else {
            None
        }
    }

    /// Makes `value` the version of `key`.
    pub fn insert(&mut self, key: &str, value: &str)
        ensures
            final(self)@ == put(old(self)@, key@, value@),
            old(self).wf() ==> final(self).wf(),
    {
        let i: usize = self.index_of(key);
        let entry: (String, String) = (key.to_owned(), value.to_owned());
        proof {
            lemma_put(self@, key@, value@, key@);
        }
        if i < self.entries.len() {
            proof {
                assert(self.entries@.update(i as int, entry).map_values(
                    |e: (String, String)| (e.0@, e.1@),
                ) =~= self@.update(i as int, (key@, value@)));
            }
            self.entries.set(i, entry);
        } else {
            proof {
                assert(self.entries@.push(entry).map_values(|e: (String, String)| (e.0@, e.1@))
                    =~= self@.push((key@, value@)));
            }
            self.entries.push(entry);
        }
    }

    /// Puts every entry of `more` into the table, first to last.
    pub fn extend(&mut self, more: &VersionTable)
        ensures
            final(self)@ == put_all(old(self)@, more@),
            old(self).wf() ==> final(self).wf(),
    {
        let mut i: usize = 0;
        proof {
            assert(more@.take(0) =~= Versions::empty());
        }
        while i < more.entries.len()
            invariant
                i <= more.entries.len(),
                old(self).wf() ==> self.wf(),
                self@ == put_all(old(self)@, more@.take(i as int)),
            decreases more.entries.len() - i,
        {
            proof {
                assert(more@.take(i + 1).drop_last() =~= more@.take(i as int));
                assert(more@.take(i + 1).last() == more@[i as int]);
            }
            self.insert(more.entries[i].0.as_str(), more.entries[i].1.as_str());
            i += 1;
        }
        proof {
            assert(more@.take(i as int) =~= more@);
        }
    }
}

} // verus!
