//! Named extension flags: a small map from flag names to on/off states,
//! kept as a list of entries whose names never repeat.
use vstd::prelude::*;
use crate::text::{owned, str_eq};

verus! {

/// No two entries share a name.
pub open spec fn names_distinct(s: Seq<(String, bool)>) -> bool {
    forall|i: int, j: int| 0 <= i < j < s.len() ==> #[trigger] s[i].0@ != #[trigger] s[j].0@
}

/// The map that a list of entries stands for: later entries win.
pub open spec fn entries_map(s: Seq<(String, bool)>) -> Map<Seq<char>, bool>
    decreases s.len(),
{
    if s.len() == 0 {
        Map::empty()
    } else {
        entries_map(s.drop_last()).insert(s.last().0@, s.last().1)
    }
}

/// A name held by no entry is not in the map.
pub proof fn lemma_entries_lack(s: Seq<(String, bool)>, k: Seq<char>)
    requires
        forall|i: int| 0 <= i < s.len() ==> #[trigger] s[i].0@ != k,
    ensures
        !entries_map(s).contains_key(k),
    decreases s.len(),
{
    if s.len() > 0 {
        assert forall|i: int| 0 <= i < s.drop_last().len() implies #[trigger] s.drop_last()[i].0@
            != k by {
            assert(s.drop_last()[i] == s[i]);
        }
        lemma_entries_lack(s.drop_last(), k);
        assert(s[s.len() - 1].0@ != k);
    }
}

/// With distinct names, entry `i` gives the map's value for its name.
pub proof fn lemma_entries_has(s: Seq<(String, bool)>, i: int)
    requires
        names_distinct(s),
        0 <= i < s.len(),
    ensures
        entries_map(s).contains_key(s[i].0@),
        entries_map(s)[s[i].0@] == s[i].1,
    decreases s.len(),
{
    if i < s.len() - 1 {
        let d = s.drop_last();
        assert(names_distinct(d)) by {
            assert forall|a: int, b: int| 0 <= a < b < d.len() implies #[trigger] d[a].0@
                != #[trigger] d[b].0@ by {
                assert(d[a] == s[a] && d[b] == s[b]);
            }
        }
        assert(d[i] == s[i]);
        lemma_entries_has(d, i);
        assert(s[i].0@ != s[s.len() - 1].0@);
    }
}

/// Dropping the last entry keeps names distinct.
pub proof fn lemma_distinct_drop_last(s: Seq<(String, bool)>)
    requires
        names_distinct(s),
        s.len() > 0,
    ensures
        names_distinct(s.drop_last()),
{
    let d = s.drop_last();
    assert forall|a: int, b: int| 0 <= a < b < d.len() implies #[trigger] d[a].0@
        != #[trigger] d[b].0@ by {
        assert(d[a] == s[a] && d[b] == s[b]);
    }
}

/// Changing the state of entry `i` changes the map at its name only.
pub proof fn lemma_entries_update(s: Seq<(String, bool)>, i: int, v: bool)
    requires
        names_distinct(s),
        0 <= i < s.len(),
    ensures
        entries_map(s.update(i, (s[i].0, v))) == entries_map(s).insert(s[i].0@, v),
    decreases s.len(),
{
    let t = s.update(i, (s[i].0, v));
    let k = s[i].0@;
    if i == s.len() - 1 {
        assert(t.drop_last() =~= s.drop_last());
        assert(entries_map(t) =~= entries_map(s).insert(k, v));
    } else {
        lemma_distinct_drop_last(s);
        assert(t.drop_last() =~= s.drop_last().update(i, (s[i].0, v)));
        assert(s.drop_last()[i] == s[i]);
        lemma_entries_update(s.drop_last(), i, v);
        assert(s[s.len() - 1].0@ != k);
        assert(entries_map(t) =~= entries_map(s).insert(k, v));
    }
}

/// Removing entry `i` removes its name from the map.
pub proof fn lemma_entries_remove(s: Seq<(String, bool)>, i: int)
    requires
        names_distinct(s),
        0 <= i < s.len(),
    ensures
        entries_map(s.remove(i)) == entries_map(s).remove(s[i].0@),
    decreases s.len(),
{
    let k = s[i].0@;
    lemma_distinct_drop_last(s);
    if i == s.len() - 1 {
        assert(s.remove(i) =~= s.drop_last());
        assert forall|j: int| 0 <= j < s.drop_last().len() implies #[trigger] s.drop_last()[j].0@
            != k by {
            assert(s.drop_last()[j] == s[j]);
        }
        lemma_entries_lack(s.drop_last(), k);
        assert(entries_map(s.remove(i)) =~= entries_map(s).remove(k));
    } else {
        let t = s.remove(i);
        assert(t.drop_last() =~= s.drop_last().remove(i));
        assert(t.last() == s.last());
        assert(s.drop_last()[i] == s[i]);
        lemma_entries_remove(s.drop_last(), i);
        assert(s[s.len() - 1].0@ != k);
        assert(entries_map(t) =~= entries_map(s).remove(k));
    }
}

/// Extension flags by name.
#[derive(Debug)]
pub struct CustomFlags {
    entries: Vec<(String, bool)>,
}

impl View for CustomFlags {
    type V = Map<Seq<char>, bool>;

    closed spec fn view(&self) -> Map<Seq<char>, bool> {
        entries_map(self.entries@)
    }
}

impl CustomFlags {
    #[verifier::type_invariant]
    spec fn inv(self) -> bool {
        names_distinct(self.entries@)
    }

    /// No flags.
    pub fn new() -> (r: CustomFlags)
        ensures
            r@ == Map::<Seq<char>, bool>::empty(),
    {
        CustomFlags { entries: Vec::new() }
    }

    /// The index of the entry named `name`, if any.
    fn position(&self, name: &str) -> (r: Option<usize>)
        ensures
            match r {
                Some(i) => i < self.entries@.len() && self.entries@[i as int].0@ == name@,
                None => forall|j: int|
                    0 <= j < self.entries@.len() ==> #[trigger] self.entries@[j].0@ != name@,
            },
    {
        let mut i: usize = 0;
        while i < self.entries.len()
            invariant
                i <= self.entries@.len(),
                forall|j: int| 0 <= j < i ==> #[trigger] self.entries@[j].0@ != name@,
            decreases self.entries.len() - i,
        {
            if str_eq(self.entries[i].0.as_str(), name) {
                return Some(i);
            }
            i = i + 1;
        }
        None
    }

    /// The state of the flag `name`, if it is set.
    pub fn get(&self, name: &str) -> (r: Option<bool>)
        ensures
            r == (if self@.contains_key(name@) {
                Some(self@[name@])
            } else {
                None::<bool>
            }),
    {
        proof {
            use_type_invariant(self);
        }
        match self.position(name) {
            Some(i) => {
                proof {
                    lemma_entries_has(self.entries@, i as int);
                }
                Some(self.entries[i].1)
            },
            None => {
                proof {
                    lemma_entries_lack(self.entries@, name@);
                }
                None
            },
        }
    }

    /// Sets the flag `name` to `enabled`, adding it when it is new.
    pub fn insert(&mut self, name: &str, enabled: bool)
        ensures
            final(self)@ == old(self)@.insert(name@, enabled),
    {
        proof {
            use_type_invariant(&*self);
        }
        let pos = self.position(name);
        let mut entries: Vec<(String, bool)> = Vec::new();
        std::mem::swap(&mut entries, &mut self.entries);
        let ghost s = entries@;
        match pos {
            Some(i) => {
                let key = owned(entries[i].0.as_str());
                entries.set(i, (key, enabled));
                proof {
                    let u = s.update(i as int, (s[i as int].0, enabled));
                    lemma_entries_update(s, i as int, enabled);
                    assert forall|j: int| 0 <= j < entries@.len() implies (#[trigger] entries@[j]).0@
                        == u[j].0@ && entries@[j].1 == u[j].1 by {
                        if j != i {
                            assert(entries@[j] == s[j]);
                        }
                    }
                    lemma_same_keys_same_map(entries@, u);
                    assert forall|a: int, b: int| 0 <= a < b < entries@.len() implies #[trigger] entries@[a].0@
                        != #[trigger] entries@[b].0@ by {
                        assert(entries@[a].0@ == u[a].0@ && entries@[b].0@ == u[b].0@);
                        assert(u[a].0@ == s[a].0@ && u[b].0@ == s[b].0@);
                    }
                }
            },
            None => {
                entries.push((owned(name), enabled));
                proof {
                    assert(entries@.drop_last() =~= s);
                    assert forall|a: int, b: int| 0 <= a < b < entries@.len() implies #[trigger] entries@[a].0@
                        != #[trigger] entries@[b].0@ by {
                        if b == s.len() {
                            assert(entries@[a] == s[a]);
                        } else {
                            assert(entries@[a] == s[a] && entries@[b] == s[b]);
                        }
                    }
                }
            },
        }
        self.entries = entries;
    }

    /// Removes the flag `name`; true when it was set.
    pub fn remove(&mut self, name: &str) -> (was_present: bool)
        ensures
            was_present == old(self)@.contains_key(name@),
            final(self)@ == old(self)@.remove(name@),
    {
        proof {
            use_type_invariant(&*self);
        }
        match self.position(name) {
            Some(i) => {
                proof {
                    lemma_entries_has(self.entries@, i as int);
                }
                let mut entries: Vec<(String, bool)> = Vec::new();
                std::mem::swap(&mut entries, &mut self.entries);
                let ghost s = entries@;
                entries.remove(i);
                proof {
                    lemma_entries_remove(s, i as int);
                    assert forall|a: int, b: int| 0 <= a < b < entries@.len() implies #[trigger] entries@[a].0@
                        != #[trigger] entries@[b].0@ by {
                        let a2 = if a < i { a } else { a + 1 };
                        let b2 = if b < i { b } else { b + 1 };
                        assert(entries@[a] == s[a2] && entries@[b] == s[b2]);
                    }
                }
                self.entries = entries;
                true
            },
            None => {
                proof {
                    lemma_entries_lack(self.entries@, name@);
                    assert(self@.remove(name@) =~= self@);
                }
                false
            },
        }
    }

    /// The flags as a list of name and state, each name once.
    pub fn to_list(&self) -> (r: Vec<(String, bool)>)
        ensures
            names_distinct(r@),
            entries_map(r@) == self@,
    {
        proof {
            use_type_invariant(self);
        }
        let copy = self.duplicate();
        proof {
            use_type_invariant(&copy);
        }
        copy.entries
    }

    /// A copy with the same flags.
    pub fn duplicate(&self) -> (r: CustomFlags)
        ensures
            r@ == self@,
    {
        proof {
            use_type_invariant(self);
        }
        let mut entries: Vec<(String, bool)> = Vec::new();
        let mut i: usize = 0;
        while i < self.entries.len()
            invariant
                i <= self.entries@.len(),
                entries@.len() == i,
                forall|j: int| 0 <= j < i ==> (#[trigger] entries@[j]).0@ == self.entries@[j].0@
                    && entries@[j].1 == self.entries@[j].1,
            decreases self.entries.len() - i,
        {
            let e = (owned(self.entries[i].0.as_str()), self.entries[i].1);
            entries.push(e);
            i = i + 1;
        }
        proof {
            lemma_same_keys_same_map(entries@, self.entries@);
            assert forall|a: int, b: int| 0 <= a < b < entries@.len() implies #[trigger] entries@[a].0@
                != #[trigger] entries@[b].0@ by {
                assert(entries@[a].0@ == self.entries@[a].0@);
                assert(entries@[b].0@ == self.entries@[b].0@);
            }
        }
        CustomFlags { entries }
    }
}

impl Clone for CustomFlags {
    fn clone(&self) -> (r: CustomFlags)
        ensures
            r@ == self@,
    {
        self.duplicate()
    }
}

/// Lists with the same names and states, entry by entry, stand for the
/// same map.
pub proof fn lemma_same_keys_same_map(s: Seq<(String, bool)>, t: Seq<(String, bool)>)
    requires
        s.len() == t.len(),
        forall|j: int| 0 <= j < s.len() ==> (#[trigger] s[j]).0@ == t[j].0@ && s[j].1 == t[j].1,
    ensures
        entries_map(s) == entries_map(t),
    decreases s.len(),
{
    if s.len() > 0 {
        assert forall|j: int| 0 <= j < s.drop_last().len() implies (#[trigger] s.drop_last()[j]).0@
            == t.drop_last()[j].0@ && s.drop_last()[j].1 == t.drop_last()[j].1 by {
            assert(s.drop_last()[j] == s[j]);
            assert(t.drop_last()[j] == t[j]);
        }
        lemma_same_keys_same_map(s.drop_last(), t.drop_last());
        assert(s[s.len() - 1].0@ == t[t.len() - 1].0@);
    }
}

} // verus!
