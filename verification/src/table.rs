//! A small table keyed by name, kept as a vector in which no name occurs twice.
//! Its view is the map from each name to the view of the value stored under it.

use vstd::prelude::*;

verus! {

/// The map that a sequence of named entries stands for. Where a name occurs
/// more than once the last entry counts; in a `Table` no name does.
pub open spec fn entries_map<V: View>(entries: Seq<(String, V)>) -> Map<Seq<char>, V::V>
    decreases entries.len(),
{
    if entries.len() == 0 {
        Map::empty()
    } else {
        entries_map(entries.drop_last()).insert(entries.last().0@, entries.last().1@)
    }
}

/// No two entries carry the same name.
pub open spec fn distinct_names<V>(entries: Seq<(String, V)>) -> bool {
    forall|i: int, j: int|
        0 <= i < entries.len() && 0 <= j < entries.len() && i != j ==> entries[i].0@
            != entries[j].0@
}

/// A name that no entry carries is not a key of the map.
pub proof fn lemma_entries_map_absent<V: View>(entries: Seq<(String, V)>, name: Seq<char>)
    requires
        forall|i: int| 0 <= i < entries.len() ==> entries[i].0@ != name,
    ensures
        !entries_map(entries).contains_key(name),
    decreases entries.len(),
{
    if entries.len() > 0 {
        lemma_entries_map_absent(entries.drop_last(), name);
    }
}

/// The keys of the map are the names of the entries.
pub proof fn lemma_entries_map_keys<V: View>(entries: Seq<(String, V)>, name: Seq<char>)
    ensures
        entries_map(entries).contains_key(name) <==> exists|i: int|
            0 <= i < entries.len() && entries[i].0@ == name,
    decreases entries.len(),
{
    if entries.len() > 0 {
        let front = entries.drop_last();
        lemma_entries_map_keys(front, name);
        if entries.last().0@ == name {
            assert(entries[entries.len() - 1].0@ == name);
        } else if entries_map(front).contains_key(name) {
            let i = choose|i: int| 0 <= i < front.len() && front[i].0@ == name;
            assert(entries[i].0@ == name);
        } else {
            assert forall|i: int| 0 <= i < entries.len() implies entries[i].0@ != name by {
                if i < front.len() {
                    assert(front[i].0@ == entries[i].0@);
                }
            }
        }
    }
}

/// Where no name occurs twice, the map sends the name of each entry to the
/// view of that entry's value.
pub proof fn lemma_entries_map_present<V: View>(entries: Seq<(String, V)>, at: int)
    requires
        distinct_names(entries),
        0 <= at < entries.len(),
    ensures
        entries_map(entries).contains_key(entries[at].0@),
        entries_map(entries)[entries[at].0@] == entries[at].1@,
    decreases entries.len(),
{
    let front = entries.drop_last();
    if at < entries.len() - 1 {
        assert(distinct_names(front)) by {
            assert forall|i: int, j: int|
                0 <= i < front.len() && 0 <= j < front.len() && i != j implies front[i].0@
                != front[j].0@ by {
                assert(front[i] == entries[i] && front[j] == entries[j]);
            }
        }
        lemma_entries_map_present(front, at);
        assert(front[at] == entries[at]);
        assert(entries[entries.len() - 1].0@ != entries[at].0@);
    }
}

/// Where no name occurs twice, taking an entry out removes its name from the
/// map and leaves the rest of the map as it was.
pub proof fn lemma_entries_map_remove<V: View>(entries: Seq<(String, V)>, at: int)
    requires
        distinct_names(entries),
        0 <= at < entries.len(),
    ensures
        entries_map(entries.remove(at)) == entries_map(entries).remove(entries[at].0@),
        distinct_names(entries.remove(at)),
    decreases entries.len(),
{
    let rest = entries.remove(at);
    let name = entries[at].0@;
    assert(distinct_names(rest)) by {
        assert forall|i: int, j: int|
            0 <= i < rest.len() && 0 <= j < rest.len() && i != j implies rest[i].0@
            != rest[j].0@ by {
            let ii = if i < at { i } else { i + 1 };
            let jj = if j < at { j } else { j + 1 };
            assert(rest[i] == entries[ii] && rest[j] == entries[jj]);
        }
    }
    let front = entries.drop_last();
    if at == entries.len() - 1 {
        assert(rest =~= front);
        assert forall|i: int| 0 <= i < front.len() implies front[i].0@ != name by {
            assert(front[i] == entries[i]);
        }
        lemma_entries_map_absent(front, name);
        assert(entries_map(rest) =~= entries_map(entries).remove(name));
    } else {
        assert(distinct_names(front)) by {
            assert forall|i: int, j: int|
                0 <= i < front.len() && 0 <= j < front.len() && i != j implies front[i].0@
                != front[j].0@ by {
                assert(front[i] == entries[i] && front[j] == entries[j]);
            }
        }
        lemma_entries_map_remove(front, at);
        assert(front[at] == entries[at]);
        assert(rest.drop_last() =~= front.remove(at));
        assert(rest.last() == entries.last());
        assert(entries[entries.len() - 1].0@ != name);
        assert(entries_map(rest) =~= entries_map(entries).remove(name));
    }
}

/// A table from names to values.
pub struct Table<V> {
    entries: Vec<(String, V)>,
}

impl<V: View> View for Table<V> {
    type V = Map<Seq<char>, V::V>;

    closed spec fn view(&self) -> Map<Seq<char>, V::V> {
        entries_map(self.entries@)
    }
}

impl<V> Table<V> {
    #[verifier::type_invariant]
    spec fn no_name_twice(self) -> bool {
        distinct_names(self.entries@)
    }
}

impl<V: View> Table<V> {
    /// An empty table.
    pub fn new() -> (r: Table<V>)
        ensures
            r@ == Map::<Seq<char>, V::V>::empty(),
    {
        Table { entries: Vec::new() }
    }

    /// The position of the entry named `name`, if there is one.
    fn position(&self, name: &String) -> (r: Option<usize>)
        ensures
            match r {
                Some(at) => at < self.entries@.len() && self.entries@[at as int].0@ == name@,
                None => forall|i: int| 0 <= i < self.entries@.len() ==> self.entries@[i].0@ != name@,
            },
    {
        let mut at: usize = 0;
        while at < self.entries.len()
            invariant
                at <= self.entries@.len(),
                forall|i: int| 0 <= i < at ==> self.entries@[i].0@ != name@,
            decreases self.entries@.len() - at,
        {
            if self.entries[at].0 == *name {
                return Some(at);
            }
            at += 1;
        }
        None
    }

    /// The value stored under `name`, if any.
    pub fn get(&self, name: &str) -> (r: Option<&V>)
        ensures
            match r {
                Some(value) => self@.contains_key(name@) && self@[name@] == value@,
                None => !self@.contains_key(name@),
            },
    {
        let key = name.to_owned();
        proof {
            use_type_invariant(self);
        }
        match self.position(&key) {
            Some(at) => {
                proof {
                    lemma_entries_map_present(self.entries@, at as int);
                }
                Some(&self.entries[at].1)
            },
            None => {
                proof {
                    lemma_entries_map_absent(self.entries@, name@);
                }
                None
            },
        }
    }

    /// Stores `value` under `name`, in place of what was stored under it before.
    pub fn insert(&mut self, name: String, value: V)
        ensures
            final(self)@ == old(self)@.insert(name@, value@),
    {
        proof {
            use_type_invariant(&*self);
        }
        let found = self.position(&name);
        let mut entries: Vec<(String, V)> = Vec::new();
        core::mem::swap(&mut self.entries, &mut entries);
        let ghost before = entries@;
        match found {
            Some(at) => {
                proof {
                    lemma_entries_map_remove(before, at as int);
                }
                entries.remove(at);
            },
            None => {},
        }
        let ghost rest = entries@;
        proof {
            assert(entries_map(rest) == entries_map(before).remove(name@)) by {
                if found is None {
                    lemma_entries_map_absent(before, name@);
                    assert(entries_map(before).remove(name@) =~= entries_map(before));
                }
            }
            assert(forall|i: int| 0 <= i < rest.len() ==> rest[i].0@ != name@) by {
                lemma_entries_map_keys(rest, name@);
            }
        }
        entries.push((name, value));
        proof {
            let after = entries@;
            assert(after.drop_last() =~= rest);
            assert(entries_map(after) =~= entries_map(before).insert(name@, value@));
            assert(distinct_names(after)) by {
                assert forall|i: int, j: int|
                    0 <= i < after.len() && 0 <= j < after.len() && i != j implies after[i].0@
                    != after[j].0@ by {
                    if i < rest.len() {
                        assert(after[i] == rest[i]);
                    }
                    if j < rest.len() {
                        assert(after[j] == rest[j]);
                    }
                }
            }
        }
        self.entries = entries;
    }

    /// Takes out what is stored under `name`. Returns whether there was such an entry.
    pub fn remove(&mut self, name: &str) -> (r: bool)
        ensures
            r == old(self)@.contains_key(name@),
            final(self)@ == old(self)@.remove(name@),
    {
        let key = name.to_owned();
        proof {
            use_type_invariant(&*self);
        }
        match self.position(&key) {
            Some(at) => {
                let mut entries: Vec<(String, V)> = Vec::new();
                core::mem::swap(&mut self.entries, &mut entries);
                proof {
                    lemma_entries_map_remove(entries@, at as int);
                    lemma_entries_map_present(entries@, at as int);
                }
                entries.remove(at);
                self.entries = entries;
                true
            },
            None => {
                proof {
                    lemma_entries_map_absent(self.entries@, name@);
                    assert(self@.remove(name@) =~= self@);
                }
                false
            },
        }
    }

    /// The names under which something is stored: every key of the table, each once.
    pub fn names(&self) -> (r: Vec<String>)
        ensures
            forall|i: int, j: int| 0 <= i < j < r@.len() ==> r@[i]@ != r@[j]@,
            forall|name: Seq<char>|
                self@.contains_key(name) <==> exists|i: int| 0 <= i < r@.len() && r@[i]@ == name,
    {
        let mut r: Vec<String> = Vec::new();
        let mut at: usize = 0;
        while at < self.entries.len()
            invariant
                at <= self.entries@.len(),
                r@.len() == at,
                forall|i: int| 0 <= i < at ==> r@[i]@ == self.entries@[i].0@,
            decreases self.entries@.len() - at,
        {
            r.push(self.entries[at].0.clone());
            at += 1;
        }
        proof {
            use_type_invariant(self);
            assert forall|name: Seq<char>|
                self@.contains_key(name) <==> exists|i: int|
                    0 <= i < r@.len() && r@[i]@ == name by {
                lemma_entries_map_keys(self.entries@, name);
                if self@.contains_key(name) {
                    let i = choose|i: int|
                        0 <= i < self.entries@.len() && self.entries@[i].0@ == name;
                    assert(r@[i]@ == name);
                }
                if exists|i: int| 0 <= i < r@.len() && r@[i]@ == name {
                    let i = choose|i: int| 0 <= i < r@.len() && r@[i]@ == name;
                    assert(self.entries@[i].0@ == name);
                }
            }
        }
        r
    }
}

} // verus!
