//! A small map from names to values that keeps the last value written under
//! each name.

use vstd::prelude::*;

verus! {

/// Some entry of `entries` stands under `key`.
pub open spec fn has_key<T>(entries: Seq<(String, T)>, key: Seq<char>) -> bool {
    exists|i: int| 0 <= i < entries.len() && (#[trigger] entries[i]).0@ == key
}

/// The place of an entry under `key`, where there is one.
pub open spec fn place_of<T>(entries: Seq<(String, T)>, key: Seq<char>) -> int {
    choose|i: int| 0 <= i < entries.len() && (#[trigger] entries[i]).0@ == key
}

/// No two entries stand under the same name.
pub open spec fn distinct_keys<T>(entries: Seq<(String, T)>) -> bool {
    forall|i: int, j: int|
        0 <= i < j < entries.len() ==> (#[trigger] entries[i]).0@ != (#[trigger] entries[j]).0@
}

/// The map that a list of entries with distinct names stands for.
pub open spec fn map_of<T>(entries: Seq<(String, T)>) -> Map<Seq<char>, T> {
    Map::new(
        |key: Seq<char>| has_key(entries, key),
        |key: Seq<char>| entries[place_of(entries, key)].1,
    )
}

/// A map from names to values. Writing under a name that is taken replaces
/// the value; nothing is ever removed.
#[derive(Debug)]
pub struct NameTable<T> {
    entries: Vec<(String, T)>,
}

impl<T> View for NameTable<T> {
    type V = Map<Seq<char>, T>;

    open spec fn view(&self) -> Map<Seq<char>, T> {
        map_of(self.listing())
    }
}

impl<T> NameTable<T> {
    #[verifier::type_invariant]
    spec fn well_formed(&self) -> bool {
        distinct_keys(self.entries@)
    }

    /// The entries of the table, in the order in which their names were
    /// first written.
    pub closed spec fn listing(&self) -> Seq<(String, T)> {
        self.entries@
    }

    /// The empty table.
    pub fn new() -> (out: Self)
        ensures
            out@ == Map::<Seq<char>, T>::empty(),
            out.listing() == Seq::<(String, T)>::empty(),
    {
        let out = NameTable { entries: Vec::new() };
        assert(out@ =~= Map::<Seq<char>, T>::empty());
        out
    }

    /// The entries of the table, each name once, in the order in which the
    /// names were first written.
    pub fn entries(&self) -> (out: &Vec<(String, T)>)
        ensures
            out@ == self.listing(),
            distinct_keys(out@),
    {
        proof {
            use_type_invariant(self);
        }
        &self.entries
    }

    /// Whether the table holds no name.
    pub fn is_empty(&self) -> (empty: bool)
        ensures
            empty == (self@ == Map::<Seq<char>, T>::empty()),
    {
        let empty = self.entries.len() == 0;
        proof {
            if empty {
                assert(self@ =~= Map::<Seq<char>, T>::empty());
            } else {
                assert(has_key(self.entries@, self.entries@[0].0@));
                assert(self@.contains_key(self.entries@[0].0@));
            }
        }
        empty
    }

    /// The place of the entry under `key`, if there is one.
    fn locate(&self, key: &String) -> (at: Option<usize>)
        ensures
            match at {
                Some(i) => i < self.entries@.len() && self.entries@[i as int].0@ == key@,
                None => !has_key(self.entries@, key@),
            },
    {
        let mut i: usize = 0;
        while i < self.entries.len()
            invariant
                i <= self.entries@.len(),
                forall|j: int| 0 <= j < i ==> (#[trigger] self.entries@[j]).0@ != key@,
            decreases self.entries@.len() - i,
        {
            if self.entries[i].0 == *key {
                return Some(i);
            }
            i += 1;
        }
        None
    }

    /// The value last written under `key`, if any was.
    pub fn get(&self, key: &String) -> (found: Option<&T>)
        ensures
            match found {
                Some(value) => self@.contains_key(key@) && *value == self@[key@],
                None => !self@.contains_key(key@),
            },
    {
        proof {
            use_type_invariant(self);
        }
        match self.locate(key) {
            Some(i) => {
                proof {
                    let p = place_of(self.entries@, key@);
                    assert(self.entries@[i as int].0@ == key@);
                    assert(has_key(self.entries@, key@));
                    assert(p == i);
                }
                Some(&self.entries[i].1)
            },
            None => None,
        }
    }

    /// Whether some value was written under `key`.
    pub fn contains(&self, key: &String) -> (found: bool)
        ensures
            found == self@.contains_key(key@),
    {
        self.locate(key).is_some()
    }

    /// Writes `value` under `key`: in the place of the entry that stood
    /// under it, or else behind the last entry.
    pub fn insert(&mut self, key: String, value: T)
        ensures
            final(self)@ == old(self)@.insert(key@, value),
            final(self).listing() == if has_key(old(self).listing(), key@) {
                old(self).listing().update(place_of(old(self).listing(), key@), (key, value))
            } else {
                old(self).listing().push((key, value))
            },
    {
        proof {
            use_type_invariant(&*self);
        }
        let ghost before = self.entries@;
        let at = self.locate(&key);
        let mut taken = NameTable { entries: Vec::new() };
        core::mem::swap(self, &mut taken);
        let mut entries = taken.entries;
        match at {
            Some(i) => {
                let ghost k = key@;
                entries.set(i, (key, value));
                proof {
                    let after = entries@;
                    assert(after == before.update(i as int, after[i as int]));
                    assert forall|a: int, b: int| 0 <= a < b < after.len() implies (
                    #[trigger] after[a]).0@ != (#[trigger] after[b]).0@ by {
                        assert(before[a].0@ != before[b].0@);
                    }
                    assert forall|q: Seq<char>| has_key(after, q) <==> has_key(before, q) by {
                        if has_key(after, q) {
                            let j = place_of(after, q);
                            assert(before[j].0@ == q);
                        }
                        if has_key(before, q) {
                            let j = place_of(before, q);
                            assert(after[j].0@ == q);
                        }
                    }
                    assert forall|q: Seq<char>| has_key(after, q) implies map_of(after)[q]
                        == map_of(before).insert(k, value)[q] by {
                        let j = place_of(after, q);
                        let j0 = place_of(before, q);
                        assert(before[j].0@ == q);
                        assert(before[j0].0@ == q);
                        assert(j == j0);
                    }
                    assert(has_key(before, k));
                    assert(place_of(before, k) == i);
                    assert(after =~= before.update(i as int, (key, value)));
                    assert(map_of(after) =~= map_of(before).insert(k, value));
                }
            },
            None => {
                let ghost k = key@;
                entries.push((key, value));
                proof {
                    let after = entries@;
                    assert(after == before.push(after[before.len() as int]));
                    assert forall|a: int, b: int| 0 <= a < b < after.len() implies (
                    #[trigger] after[a]).0@ != (#[trigger] after[b]).0@ by {
                        if b < before.len() {
                            assert(before[a].0@ != before[b].0@);
                        } else {
                            assert(before[a].0@ != k);
                        }
                    }
                    assert forall|q: Seq<char>| has_key(after, q) <==> (q == k || has_key(
                        before,
                        q,
                    )) by {
                        if has_key(after, q) {
                            let j = place_of(after, q);
                            if j < before.len() {
                                assert(before[j].0@ == q);
                            }
                        }
                        if has_key(before, q) {
                            let j = place_of(before, q);
                            assert(after[j].0@ == q);
                        }
                        if q == k {
                            assert(after[before.len() as int].0@ == q);
                        }
                    }
                    assert forall|q: Seq<char>| has_key(after, q) implies map_of(after)[q]
                        == map_of(before).insert(k, value)[q] by {
                        let j = place_of(after, q);
                        if q != k {
                            let j0 = place_of(before, q);
                            assert(after[j0].0@ == q);
                            assert(j == j0);
                        } else {
                            assert(after[before.len() as int].0@ == q);
                            assert(j == before.len());
                        }
                    }
                    assert(after =~= before.push((key, value)));
                    assert(map_of(after) =~= map_of(before).insert(k, value));
                }
            },
        }
        *self = NameTable { entries };
    }
}

} // verus!
