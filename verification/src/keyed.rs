//! Values under text keys, each key once.

use crate::text::same;
use vstd::prelude::*;

verus! {

/// Values under text keys.
pub struct KeyedList<V> {
    entries: Vec<(String, V)>,
}

impl<V> View for KeyedList<V> {
    type V = Map<Seq<char>, V>;

    closed spec fn view(&self) -> Map<Seq<char>, V> {
        Map::new(
            |key: Seq<char>| self.keys().contains(key),
            |key: Seq<char>| self.entries@[self.keys().index_of(key)].1,
        )
    }
}

impl<V> KeyedList<V> {
    /// The keys, in some order.
    pub closed spec fn keys(self) -> Seq<Seq<char>> {
        self.entries@.map_values(|entry: (String, V)| entry.0@)
    }

    /// Whether each key stands in the list once.
    pub closed spec fn wf(self) -> bool {
        self.keys().no_duplicates()
    }

    /// The keys of the list are those that hold a value.
    pub proof fn lemma_keys(self)
        requires
            self.wf(),
        ensures
            self.keys().no_duplicates(),
            forall|key: Seq<char>| #[trigger] self@.dom().contains(key) <==> self.keys().contains(key),
    {
    }

    proof fn lemma_entry(self, i: int)
        requires
            self.wf(),
            0 <= i < self.entries@.len(),
        ensures
            self.keys()[i] == self.entries@[i].0@,
            self@.dom().contains(self.entries@[i].0@),
            self@[self.entries@[i].0@] == self.entries@[i].1,
    {
        let key = self.entries@[i].0@;
        assert(self.keys()[i] == key);
        let at = self.keys().index_of(key);
        assert(self.keys().contains(key));
        assert(0 <= at < self.keys().len() && self.keys()[at] == key);
        assert(at == i);
    }

    /// A list without values.
    pub fn new() -> (r: KeyedList<V>)
        ensures
            r.wf(),
            r@ == Map::<Seq<char>, V>::empty(),
    {
        let r = KeyedList { entries: Vec::new() };
        assert(r@ =~= Map::<Seq<char>, V>::empty());
        r
    }

    /// Number of values.
    pub fn len(&self) -> (r: usize)
        ensures
            r == self.keys().len(),
    {
        self.entries.len()
    }

    /// The key at a position.
    pub fn key_at(&self, i: usize) -> (r: &str)
        requires
            i < self.keys().len(),
        ensures
            r@ == self.keys()[i as int],
    {
        self.entries[i].0.as_str()
    }

    /// The value at a position.
    pub fn value_at(&self, i: usize) -> (r: &V)
        requires
            self.wf(),
            i < self.keys().len(),
        ensures
            self@.dom().contains(self.keys()[i as int]),
            *r == self@[self.keys()[i as int]],
    {
        proof {
            self.lemma_entry(i as int);
        }
        &self.entries[i].1
    }

    /// Position of a key, or the number of values where it holds none.
    fn position(&self, key: &str) -> (r: usize)
        ensures
            r <= self.entries@.len(),
            r < self.entries@.len() ==> self.keys()[r as int] == key@,
            r == self.entries@.len() ==> !self.keys().contains(key@),
    {
        let mut i: usize = 0;
        while i < self.entries.len()
            invariant
                i <= self.entries@.len(),
                forall|k: int| 0 <= k < i ==> #[trigger] self.keys()[k] != key@,
            decreases self.entries@.len() - i,
        {
            if same(self.entries[i].0.as_str(), key) {
                return i;
            }
            i += 1;
        }
        i
    }

    /// Takes out the value under a key.
    pub fn remove(&mut self, key: &str) -> (r: Option<V>)
        requires
            old(self).wf(),
        ensures
            final(self).wf(),
            final(self)@ == old(self)@.remove(key@),
            match r {
                Some(value) => old(self)@.dom().contains(key@) && old(self)@[key@] == value,
                None => !old(self)@.dom().contains(key@),
            },
    {
        let at = self.position(key);
        let ghost before = *self;
        if at == self.entries.len() {
            assert(before@.remove(key@) =~= before@);
            return None;
        }
        proof {
            before.lemma_entry(at as int);
        }
        let entry = self.entries.remove(at);
        proof {
            let after = *self;
            assert(after.keys() =~= before.keys().remove(at as int));
            assert forall|i: int, j: int|
                0 <= i < after.keys().len() && 0 <= j < after.keys().len() && i
                    != j implies after.keys()[i] != after.keys()[j] by {
                let a = if i < at {
                    i
                } else {
                    i + 1
                };
                let b = if j < at {
                    j
                } else {
                    j + 1
                };
                assert(after.keys()[i] == before.keys()[a] && after.keys()[j] == before.keys()[b]);
            }
            assert(after.wf());
            assert forall|k: Seq<char>| after@.dom().contains(k) == before@.remove(key@).dom().contains(
                k,
            ) by {
                if after.keys().contains(k) {
                    let i = choose|i: int| 0 <= i < after.keys().len() && after.keys()[i] == k;
                    let a = if i < at {
                        i
                    } else {
                        i + 1
                    };
                    assert(before.keys()[a] == k);
                    assert(before.keys()[a] != before.keys()[at as int]);
                }
                if before.keys().contains(k) && k != key@ {
                    let i = choose|i: int| 0 <= i < before.keys().len() && before.keys()[i] == k;
                    let b = if i < at {
                        i
                    } else {
                        i - 1
                    };
                    assert(after.keys()[b] == k);
                }
            }
            assert forall|k: Seq<char>| #[trigger] after@.dom().contains(k) implies after@[k]
                == before@[k] by {
                let i = choose|i: int| 0 <= i < after.keys().len() && after.keys()[i] == k;
                let a = if i < at {
                    i
                } else {
                    i + 1
                };
                assert(after.entries@[i] == before.entries@[a]);
                after.lemma_entry(i);
                before.lemma_entry(a);
            }
            assert(after@ =~= before@.remove(key@));
        }
        Some(entry.1)
    }

    /// Puts a value under a key, in place of the one that is there.
    pub fn insert(&mut self, key: String, value: V)
        requires
            old(self).wf(),
        ensures
            final(self).wf(),
            final(self)@ == old(self)@.insert(key@, value),
    {
        let ghost first = *self;
        let removed = self.remove(key.as_str());
        let ghost before = *self;
        let ghost name = key@;
        proof {
            assert(!before@.dom().contains(name));
            assert(!before.keys().contains(name));
        }
        self.entries.push((key, value));
        proof {
            let after = *self;
            assert(after.keys() =~= before.keys().push(name));
            assert(after.wf());
            assert forall|k: Seq<char>| after@.dom().contains(k) == first@.insert(
                name,
                value,
            ).dom().contains(k) by {
                if after.keys().contains(k) && k != name {
                    let i = choose|i: int| 0 <= i < after.keys().len() && after.keys()[i] == k;
                    assert(before.keys()[i] == k);
                    assert(before@.dom().contains(k));
                }
                if before.keys().contains(k) {
                    let i = choose|i: int| 0 <= i < before.keys().len() && before.keys()[i] == k;
                    assert(after.keys()[i] == k);
                }
                if k == name {
                    assert(after.keys()[after.keys().len() - 1] == k);
                } else if first@.dom().contains(k) {
                    assert(before@.dom().contains(k));
                }
            }
            assert forall|k: Seq<char>| #[trigger] after@.dom().contains(k) implies after@[k]
                == first@.insert(name, value)[k] by {
                let i = choose|i: int| 0 <= i < after.keys().len() && after.keys()[i] == k;
                after.lemma_entry(i);
                if i < before.keys().len() {
                    assert(after.entries@[i] == before.entries@[i]);
                    before.lemma_entry(i);
                }
            }
            assert(after@ =~= first@.insert(name, value));
        }
    }
}

} // verus!
