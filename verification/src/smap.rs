//! Small association maps with string keys, in insertion order.
//!
//! The schemas carry open-ended key/value annotations.  They are held as
//! ordered entry vectors with unique keys, so contracts can speak both of
//! lookups and of the serialised order.

use vstd::prelude::*;
use vstd::pervasive::VecAdditionalExecFns;
use crate::strutil::str_eq;

verus! {

/// A string-to-string map in insertion order with unique keys.
#[derive(Debug, Clone)]
pub struct StringMap {
    entries: Vec<(String, String)>,
}

impl StringMap {
    /// The entries as a sequence of key/value views, in insertion order.
    pub closed spec fn entries_spec(self) -> Seq<(Seq<char>, Seq<char>)> {
        self.entries@.map_values(|p: (String, String)| (p.0@, p.1@))
    }

    /// Whether some entry holds the key.
    pub open spec fn has_key(self, k: Seq<char>) -> bool {
        exists|i: int| 0 <= i < self.entries_spec().len() && #[trigger] self.entries_spec()[i].0
            == k
    }

    /// Keys are pairwise distinct.
    pub open spec fn wf(self) -> bool {
        forall|i: int, j: int|
            0 <= i < j < self.entries_spec().len() ==> (#[trigger] self.entries_spec()[i]).0 != (
            #[trigger] self.entries_spec()[j]).0
    }

    /// The empty map.
    pub fn new() -> (r: StringMap)
        ensures
            r.entries_spec() == Seq::<(Seq<char>, Seq<char>)>::empty(),
            r.wf(),
    {
        let entries: Vec<(String, String)> = Vec::new();
        let r = StringMap { entries };
        proof {
            assert(r.entries_spec() =~= Seq::<(Seq<char>, Seq<char>)>::empty());
        }
        r
    }

    /// How many entries the map holds.
    pub fn len(&self) -> (r: usize)
        ensures
            r == self.entries_spec().len(),
    {
        self.entries.len()
    }

    /// Is the map empty?
    pub fn is_empty(&self) -> (r: bool)
        ensures
            r == (self.entries_spec().len() == 0),
    {
        self.entries.len() == 0
    }

    /// The entry at an index, for walking the map in insertion order.
    pub fn entry_at(&self, i: usize) -> (r: (&String, &String))
        requires
            i < self.entries_spec().len(),
        ensures
            r.0@ == self.entries_spec()[i as int].0,
            r.1@ == self.entries_spec()[i as int].1,
    {
        let entry = &self.entries[i];
        (&entry.0, &entry.1)
    }

    /// Look a key up; the value of the matching entry, if one exists.
    pub fn get(&self, k: &str) -> (r: Option<&String>)
        requires
            self.wf(),
        ensures
            r matches Some(v) ==> self.has_key(k@) && exists|i: int|
                0 <= i < self.entries_spec().len() && #[trigger] self.entries_spec()[i] == (
                k@,
                v@,
                ),
            r is None ==> !self.has_key(k@),
    {
        let n = self.entries.len();
        let mut i: usize = 0;
        while i < n
            invariant
                n == self.entries_spec().len(),
                0 <= i <= n,
                forall|j: int| 0 <= j < i ==> #[trigger] self.entries_spec()[j].0 != k@,
            decreases n - i,
        {
            if str_eq(self.entries[i].0.as_str(), k) {
                proof {
                    assert(self.entries_spec()[i as int].0 == k@);
                    assert(self.entries_spec()[i as int] == (
                        self.entries_spec()[i as int].0,
                        self.entries_spec()[i as int].1,
                    ));
                }
                return Some(&self.entries[i].1);
            }
            i += 1;
        }
        None
    }

    /// A copy with the same entries (the derived `Clone` carries no
    /// specification, this does).
    pub fn duplicate(&self) -> (r: StringMap)
        ensures
            r.entries_spec() == self.entries_spec(),
    {
        let n = self.entries.len();
        let mut entries: Vec<(String, String)> = Vec::new();
        let mut i: usize = 0;
        while i < n
            invariant
                n == self.entries_spec().len(),
                0 <= i <= n,
                entries@.len() == i,
                forall|j: int|
                    0 <= j < i ==> (#[trigger] entries@[j]).0@ == self.entries_spec()[j].0
                        && entries@[j].1@ == self.entries_spec()[j].1,
            decreases n - i,
        {
            let k = self.entries[i].0.clone();
            let v = self.entries[i].1.clone();
            entries.push((k, v));
            i += 1;
        }
        let r = StringMap { entries };
        proof {
            assert(r.entries_spec() =~~= self.entries_spec());
        }
        r
    }

    /// Insert a binding.  An existing entry for the key is replaced in
    /// place; otherwise the binding goes to the end.
    pub fn insert(&mut self, k: String, v: String)
        requires
            old(self).wf(),
        ensures
            final(self).wf(),
            final(self).has_key(k@),
            old(self).has_key(k@)
                ==> final(self).entries_spec().len() == old(self).entries_spec().len(),
            !old(self).has_key(k@) ==> final(self).entries_spec() == old(self).entries_spec()
                + seq![(k@, v@)],
            forall|i: int|
                0 <= i < old(self).entries_spec().len() && #[trigger] old(self).entries_spec()[i].0
                    != k@ ==> final(self).entries_spec()[i] == old(self).entries_spec()[i],
            forall|i: int|
                0 <= i < final(self).entries_spec().len()
                    && #[trigger] final(self).entries_spec()[i].0 == k@
                    ==> final(self).entries_spec()[i].1 == v@,
    {
        let n = self.entries.len();
        let mut i: usize = 0;
        while i < n
            invariant
                self == old(self),
                old(self).wf(),
                n == self.entries_spec().len(),
                0 <= i <= n,
                forall|j: int| 0 <= j < i ==> #[trigger] self.entries_spec()[j].0 != k@,
            decreases n - i,
        {
            if str_eq(self.entries[i].0.as_str(), k.as_str()) {
                self.entries.set(i, (k, v));
                proof {
                    assert(self.entries_spec() =~= old(self).entries_spec().update(
                        i as int,
                        (k@, v@),
                    ));
                    assert(self.entries_spec()[i as int].0 == k@);
                    assert(old(self).entries_spec()[i as int].0 == k@);
                    assert(old(self).has_key(k@));
                    assert(forall|a: int|
                        0 <= a < self.entries_spec().len()
                            ==> #[trigger] self.entries_spec()[a].0 == old(
                            self,
                        ).entries_spec()[a].0);
                    assert forall|a: int, b: int|
                        0 <= a < b < self.entries_spec().len() implies self.entries_spec()[a].0
                        != self.entries_spec()[b].0 by {
                        assert(self.entries_spec()[a].0 == old(self).entries_spec()[a].0);
                        assert(self.entries_spec()[b].0 == old(self).entries_spec()[b].0);
                        assert(old(self).entries_spec()[a].0 != old(self).entries_spec()[b].0);
                    }
                    assert(self.wf());
                    assert forall|a: int|
                        0 <= a < self.entries_spec().len() && #[trigger] self.entries_spec()[a].0
                            == k@ implies self.entries_spec()[a].1 == v@ by {
                        if a != i {
                            assert(old(self).entries_spec()[a].0 == k@);
                            assert(old(self).entries_spec()[i as int].0 == k@);
                        }
                    }
                }
                return ;
            }
            i += 1;
        }
        self.entries.push((k, v));
        proof {
            assert(self.entries_spec() =~= old(self).entries_spec() + seq![(k@, v@)]);
            assert(self.entries_spec()[old(self).entries_spec().len() as int].0 == k@);
        }
    }
}

/// A map from string keys to lists of strings, in insertion order.
#[derive(Debug, Clone)]
pub struct ParamsMap {
    entries: Vec<(String, Vec<String>)>,
}

impl ParamsMap {
    /// The entries as key view / value views pairs, in insertion order.
    pub closed spec fn entries_spec(self) -> Seq<(Seq<char>, Seq<Seq<char>>)> {
        self.entries@.map_values(
            |p: (String, Vec<String>)| (p.0@, p.1@.map_values(|v: String| v@)),
        )
    }

    /// The empty map.
    pub fn new() -> (r: ParamsMap)
        ensures
            r.entries_spec() == Seq::<(Seq<char>, Seq<Seq<char>>)>::empty(),
    {
        let entries: Vec<(String, Vec<String>)> = Vec::new();
        let r = ParamsMap { entries };
        proof {
            assert(r.entries_spec() =~= Seq::<(Seq<char>, Seq<Seq<char>>)>::empty());
        }
        r
    }

    /// Is the map empty?
    pub fn is_empty(&self) -> (r: bool)
        ensures
            r == (self.entries_spec().len() == 0),
    {
        self.entries.len() == 0
    }

    /// Append a binding at the end.
    pub fn push(&mut self, k: String, vs: Vec<String>)
        ensures
            final(self).entries_spec() == old(self).entries_spec() + seq![
                (k@, vs@.map_values(|v: String| v@)),
            ],
    {
        self.entries.push((k, vs));
        proof {
            assert(self.entries_spec() =~= old(self).entries_spec() + seq![
                (k@, vs@.map_values(|v: String| v@)),
            ]);
        }
    }
}

impl Default for StringMap {
    /// The empty map.
    fn default() -> (r: StringMap)
        ensures
            r.entries_spec() == Seq::<(Seq<char>, Seq<char>)>::empty(),
            r.wf(),
    {
        StringMap::new()
    }
}

impl Default for ParamsMap {
    /// The empty map.
    fn default() -> (r: ParamsMap)
        ensures
            r.entries_spec() == Seq::<(Seq<char>, Seq<Seq<char>>)>::empty(),
    {
        ParamsMap::new()
    }
}

} // verus!
