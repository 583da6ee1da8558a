//! The backing store of the mutable context: an association list from text
//! identifiers to entries, keyed by the identifier's character sequence.
//!
//! The list keeps at most one entry per identifier, and its mathematical
//! model is the finite map from identifier character sequences to entries.

use vstd::pervasive::VecAdditionalExecFns;
use vstd::prelude::*;

verus! {

/// The map modelled by a sequence of key-entry pairs: later pairs take
/// precedence over earlier ones.
pub open spec fn entries_model<T>(s: Seq<(String, T)>) -> Map<Seq<char>, T>
    decreases s.len(),
{
    if s.len() == 0 {
        Map::empty()
    } else {
        entries_model(s.drop_last()).insert(s.last().0@, s.last().1)
    }
}

/// No two pairs of the sequence share a key.
pub open spec fn distinct_key_views<T>(s: Seq<(String, T)>) -> bool {
    forall|i: int, j: int| 0 <= i < j < s.len() ==> s[i].0@ != s[j].0@
}

/// The model contains exactly the keys that occur in the sequence.
pub proof fn lemma_entries_model_contains<T>(s: Seq<(String, T)>, k: Seq<char>)
    ensures
        entries_model(s).contains_key(k) <==> exists|i: int| 0 <= i < s.len() && s[i].0@ == k,
    decreases s.len(),
{
    if s.len() > 0 {
        let prefix = s.drop_last();
        lemma_entries_model_contains(prefix, k);
        if s.last().0@ == k {
            assert(s[s.len() - 1].0@ == k);
        } else {
            if exists|i: int| 0 <= i < s.len() && s[i].0@ == k {
                let i = choose|i: int| 0 <= i < s.len() && s[i].0@ == k;
                assert(i < s.len() - 1);
                assert(prefix[i].0@ == k);
            }
            if exists|i: int| 0 <= i < prefix.len() && prefix[i].0@ == k {
                let i = choose|i: int| 0 <= i < prefix.len() && prefix[i].0@ == k;
                assert(s[i].0@ == k);
            }
        }
    }
}

/// With distinct keys, each pair of the sequence is in the model.
pub proof fn lemma_entries_model_index<T>(s: Seq<(String, T)>, i: int)
    requires
        distinct_key_views(s),
        0 <= i < s.len(),
    ensures
        entries_model(s).contains_key(s[i].0@),
        entries_model(s)[s[i].0@] == s[i].1,
    decreases s.len(),
{
    let prefix = s.drop_last();
    if i == s.len() - 1 {
    } else {
        assert(distinct_key_views(prefix));
        lemma_entries_model_index(prefix, i);
        assert(s.last().0@ != s[i].0@);
    }
}

/// Replacing the pair at a position with one that has the same key updates
/// the model at that key alone.
pub proof fn lemma_entries_model_update<T>(s: Seq<(String, T)>, i: int, p: (String, T))
    requires
        distinct_key_views(s),
        0 <= i < s.len(),
        p.0@ == s[i].0@,
    ensures
        distinct_key_views(s.update(i, p)),
        entries_model(s.update(i, p)) == entries_model(s).insert(p.0@, p.1),
    decreases s.len(),
{
    let s2 = s.update(i, p);
    assert forall|a: int, b: int| 0 <= a < b < s2.len() implies s2[a].0@ != s2[b].0@ by {
        assert(s[a].0@ != s[b].0@);
    }
    let prefix = s.drop_last();
    if i == s.len() - 1 {
        assert(s2.drop_last() =~= prefix);
        assert(entries_model(s2) =~= entries_model(s).insert(p.0@, p.1));
    } else {
        assert(distinct_key_views(prefix));
        lemma_entries_model_update(prefix, i, p);
        assert(s2.drop_last() =~= prefix.update(i, p));
        assert(s2.last() == s.last());
        assert(s.last().0@ != p.0@);
        assert(entries_model(s2) =~= entries_model(s).insert(p.0@, p.1));
    }
}

/// Appending a pair with a fresh key inserts it into the model.
pub proof fn lemma_entries_model_push<T>(s: Seq<(String, T)>, p: (String, T))
    requires
        distinct_key_views(s),
        forall|j: int| 0 <= j < s.len() ==> s[j].0@ != p.0@,
    ensures
        distinct_key_views(s.push(p)),
        entries_model(s.push(p)) == entries_model(s).insert(p.0@, p.1),
{
    let s2 = s.push(p);
    assert forall|a: int, b: int| 0 <= a < b < s2.len() implies s2[a].0@ != s2[b].0@ by {
        if b < s.len() {
            assert(s[a].0@ != s[b].0@);
        }
    }
    assert(s2.drop_last() =~= s);
    assert(s2.last() == p);
}

/// An association list from identifiers to entries, with at most one entry
/// per identifier.
pub struct Table<T> {
    /// The key-entry pairs, with pairwise distinct keys.
    pub entries: Vec<(String, T)>,
}

impl<T> Table<T> {
    /// The sequence of key-entry pairs, in insertion order.
    pub open spec fn entry_seq(&self) -> Seq<(String, T)> {
        self.entries@
    }

    /// The map from identifier character sequences to entries.
    pub open spec fn model(&self) -> Map<Seq<char>, T> {
        entries_model(self.entries@)
    }

    /// The table's invariant: no two entries share a key.
    pub open spec fn wf(&self) -> bool {
        distinct_key_views(self.entries@)
    }

    /// Creates an empty table.
    pub fn new() -> (table: Self)
        ensures
            table.wf(),
            table.model() == Map::<Seq<char>, T>::empty(),
            table.entry_seq() == Seq::<(String, T)>::empty(),
    {
        Table { entries: Vec::new() }
    }

    /// Returns the number of entries.
    pub fn len(&self) -> (n: usize)
        ensures
            n == self.entry_seq().len(),
    {
        self.entries.len()
    }

    /// Returns the pair at the given position.
    pub fn entry_at(&self, index: usize) -> (entry: &(String, T))
        requires
            index < self.entry_seq().len(),
        ensures
            *entry == self.entry_seq()[index as int],
    {
        &self.entries[index]
    }

    /// Returns the position of the entry with the given key, if any.
    fn position(&self, key: &String) -> (r: Option<usize>)
        ensures
            match r {
                Some(i) => i < self.entry_seq().len() && self.entry_seq()[i as int].0@ == key@,
                None => forall|j: int|
                    0 <= j < self.entry_seq().len() ==> self.entry_seq()[j].0@ != key@,
            },
    {
        let n = self.entries.len();
        let mut i: usize = 0;
        while i < n
            invariant
                i <= n,
                n == self.entries@.len(),
                forall|j: int| 0 <= j < i ==> self.entries@[j].0@ != key@,
            decreases n - i,
        {
            let entry = &self.entries[i];
            if entry.0 == *key {
                return Some(i);
            }
            i += 1;
        }
        None
    }

    /// Looks up the entry bound to the given key.
    pub fn get<'a>(&'a self, key: &String) -> (r: Option<&'a T>)
        requires
            self.wf(),
        ensures
            r matches Some(entry) ==> self.model().contains_key(key@) && *entry == self.model().index(key@),
            r is None ==> !self.model().contains_key(key@),
    {
        match self.position(key) {
            Some(i) => {
                proof {
                    lemma_entries_model_index(self.entries@, i as int);
                }
                let pair = &self.entries[i];
                Some(&pair.1)
            },
            None => {
                proof {
                    lemma_entries_model_contains(self.entries@, key@);
                    if self.model().contains_key(key@) {
                        let i = choose|i: int|
                            0 <= i < self.entries@.len() && self.entries@[i].0@ == key@;
                        assert(self.entry_seq()[i].0@ != key@);
                    }
                }
                None
            },
        }
    }

    /// Binds the key to the entry, replacing any previous binding.
    pub fn insert(&mut self, key: String, entry: T)
        requires
            old(self).wf(),
        ensures
            final(self).wf(),
            final(self).model() == old(self).model().insert(key@, entry),
    {
        let found = self.position(&key);
        match found {
            Some(i) => {
                proof {
                    lemma_entries_model_update(self.entries@, i as int, (key, entry));
                }
                self.entries.set(i, (key, entry));
            },
            None => {
                proof {
                    assert(forall|j: int|
                        0 <= j < self.entry_seq().len() ==> self.entry_seq()[j].0@ != key@);
                    lemma_entries_model_push(self.entries@, (key, entry));
                }
                self.entries.push((key, entry));
            },
        }
    }

    /// Removes every entry.
    pub fn clear(&mut self)
        ensures
            final(self).wf(),
            final(self).model() == Map::<Seq<char>, T>::empty(),
    {
        self.entries.clear();
    }
}

} // verus!
