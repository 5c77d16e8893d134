use vstd::prelude::*;

verus! {

/// A store of values, each filed under a unique name.
///
/// Its model is a finite map from names (sequences of characters) to values.
/// Entries are kept in the order in which their names were first added, so
/// that walking the store is deterministic.
pub struct Registry<V> {
    entries: Vec<(String, V)>,
    contents: Ghost<Map<Seq<char>, V>>,
}

impl<V> Registry<V> {
    /// The name of the `i`-th entry.
    pub closed spec fn name_at(&self, i: int) -> Seq<char> {
        self.entries@[i].0@
    }

    /// The names of the entries, in order.
    pub closed spec fn names(&self) -> Seq<Seq<char>> {
        Seq::new(self.entries@.len(), |i: int| self.entries@[i].0@)
    }

    /// The values of the entries, in the same order as `names`.
    pub closed spec fn values(&self) -> Seq<V> {
        Seq::new(self.entries@.len(), |i: int| self.entries@[i].1)
    }

    /// The map from names to values.
    pub closed spec fn view(&self) -> Map<Seq<char>, V> {
        self.contents@
    }

    /// Names are unique, the map holds exactly the entries.
    pub closed spec fn wf(&self) -> bool {
        &&& forall|i: int, j: int|
            0 <= i < self.entries@.len() && 0 <= j < self.entries@.len() && i != j
                ==> #[trigger] self.name_at(i) != #[trigger] self.name_at(j)
        &&& forall|i: int|
            0 <= i < self.entries@.len() ==> {
                &&& self.contents@.contains_key(#[trigger] self.name_at(i))
                &&& self.contents@[self.name_at(i)] == self.entries@[i].1
            }
        &&& forall|k: Seq<char>|
            #[trigger] self.contents@.contains_key(k) ==> exists|i: int|
                0 <= i < self.entries@.len() && #[trigger] self.name_at(i) == k
    }

    /// The names and values line up with the map: the `i`-th value is filed
    /// under the `i`-th name, names are unique, and every name in the map is
    /// one of them.
    pub proof fn lemma_entries_match_view(&self)
        requires
            self.wf(),
        ensures
            self.names().len() == self.values().len(),
            forall|i: int| 0 <= i < self.names().len() ==> {
                &&& #[trigger] self.view().contains_key(self.names()[i])
                &&& self.view()[self.names()[i]] == self.values()[i]
            },
            forall|k: Seq<char>| #[trigger] self.view().contains_key(k) <==> self.names().contains(k),
            self.names().no_duplicates(),
    {
        assert forall|i: int| 0 <= i < self.names().len() implies {
            &&& #[trigger] self.view().contains_key(self.names()[i])
            &&& self.view()[self.names()[i]] == self.values()[i]
        } by {
            assert(self.names()[i] == self.name_at(i));
        }
        assert forall|k: Seq<char>| #[trigger] self.view().contains_key(k) implies self.names().contains(k) by {
            let i = choose|i: int| 0 <= i < self.entries@.len() && #[trigger] self.name_at(i) == k;
            assert(self.names()[i] == k);
        }
        assert forall|k: Seq<char>| self.names().contains(k) implies #[trigger] self.view().contains_key(k) by {
            let i = choose|i: int| 0 <= i < self.names().len() && self.names()[i] == k;
            assert(self.name_at(i) == k);
        }
        assert forall|i: int, j: int|
            0 <= i < self.names().len() && 0 <= j < self.names().len() && i != j
            implies self.names()[i] != self.names()[j] by {
            assert(self.name_at(i) != self.name_at(j));
        }
    }

    /// An empty store.
    pub fn new() -> (r: Self)
        ensures
            r.wf(),
            r.view() == Map::<Seq<char>, V>::empty(),
            r.names().len() == 0,
    {
        Registry { entries: Vec::new(), contents: Ghost(Map::empty()) }
    }

    /// Looks for the entry filed under `name`.
    fn find(&self, name: &String) -> (r: Option<usize>)
        requires
            self.wf(),
        ensures
            match r {
                Some(i) => i < self.entries@.len() && self.name_at(i as int) == name@,
                None => !self.view().contains_key(name@) && forall|i: int|
                    0 <= i < self.entries@.len() ==> #[trigger] self.name_at(i) != name@,
            },
    {
        let mut i: usize = 0;
        while i < self.entries.len()
            invariant
                self.wf(),
                i <= self.entries@.len(),
                forall|j: int| 0 <= j < i ==> #[trigger] self.name_at(j) != name@,
            decreases self.entries@.len() - i,
        {
            if self.entries[i].0 == *name {
                return Some(i);
            }
            i = i + 1;
        }
        None
    }

    /// Files `value` under `name`. A value already filed under that name is
    /// replaced, and keeps its place in the order; a new name goes last.
    pub fn insert(&mut self, name: &str, value: V)
        requires
            old(self).wf(),
        ensures
            final(self).wf(),
            final(self).view() == old(self).view().insert(name@, value),
            old(self).view().contains_key(name@) ==> final(self).names() == old(self).names(),
            !old(self).view().contains_key(name@) ==> final(self).names() == old(self).names().push(name@),
            old(self).view().contains_key(name@) ==> final(self).values() == old(self).values().update(
                old(self).names().index_of(name@),
                value,
            ),
            old(self).view().contains_key(name@) ==> 0 <= old(self).names().index_of(name@) < old(self).names().len(),
            !old(self).view().contains_key(name@) ==> final(self).values() == old(self).values().push(value),
    {
        let key = String::from_str(name);
        let ghost old_contents = self.contents@;
        let ghost old_entries = self.entries@;
        match self.find(&key) {
            Some(i) => {
                self.entries.set(i, (key, value));
                self.contents = Ghost(old_contents.insert(name@, value));
                assert forall|j: int| 0 <= j < self.entries@.len() implies #[trigger] self.name_at(j)
                    == old_entries[j].0@ by {}
                assert forall|j: int| 0 <= j < self.entries@.len() implies {
                    &&& self.contents@.contains_key(#[trigger] self.name_at(j))
                    &&& self.contents@[self.name_at(j)] == self.entries@[j].1
                } by {
                    if j != i {
                        assert(old(self).name_at(j) != old(self).name_at(i as int));
                    }
                }
                assert forall|j: int, l: int|
                    0 <= j < self.entries@.len() && 0 <= l < self.entries@.len() && j != l
                    implies #[trigger] self.name_at(j) != #[trigger] self.name_at(l) by {
                    assert(old(self).name_at(j) != old(self).name_at(l));
                }
                assert forall|k: Seq<char>| #[trigger] self.contents@.contains_key(k) implies exists|j: int|
                    0 <= j < self.entries@.len() && #[trigger] self.name_at(j) == k by {
                    if k == name@ {
                        assert(self.name_at(i as int) == k);
                    } else {
                        assert(old_contents.contains_key(k));
                        let j = choose|j: int| 0 <= j < old_entries.len() && old_entries[j].0@ == k;
                        assert(self.name_at(j) == k);
                    }
                }
                assert(self.names() =~= old(self).names());
                assert(self.values() =~= old(self).values().update(i as int, value));
                assert(old(self).names()[i as int] == name@);
                proof {
                    let k = old(self).names().index_of(name@);
                    assert(0 <= k < old(self).names().len() && old(self).names()[k] == name@);
                    if k != i as int {
                        assert(old(self).name_at(k) != old(self).name_at(i as int));
                    }
                }
            },
            None => {
                self.entries.push((key, value));
                self.contents = Ghost(old_contents.insert(name@, value));
                assert forall|j: int| 0 <= j < old_entries.len() implies #[trigger] self.name_at(j)
                    == old_entries[j].0@ by {}
                assert forall|j: int| 0 <= j < self.entries@.len() implies {
                    &&& self.contents@.contains_key(#[trigger] self.name_at(j))
                    &&& self.contents@[self.name_at(j)] == self.entries@[j].1
                } by {
                    if j < old_entries.len() {
                        assert(old(self).name_at(j) != name@);
                    }
                }
                assert forall|j: int, l: int|
                    0 <= j < self.entries@.len() && 0 <= l < self.entries@.len() && j != l
                    implies #[trigger] self.name_at(j) != #[trigger] self.name_at(l) by {
                    if j < old_entries.len() && l < old_entries.len() {
                        assert(old(self).name_at(j) != old(self).name_at(l));
                    } else if j < old_entries.len() {
                        assert(old(self).name_at(j) != name@);
                    } else {
                        assert(old(self).name_at(l) != name@);
                    }
                }
                assert forall|k: Seq<char>| #[trigger] self.contents@.contains_key(k) implies exists|j: int|
                    0 <= j < self.entries@.len() && #[trigger] self.name_at(j) == k by {
                    if k == name@ {
                        assert(self.name_at(old_entries.len() as int) == k);
                    } else {
                        assert(old_contents.contains_key(k));
                        let j = choose|j: int| 0 <= j < old_entries.len() && old_entries[j].0@ == k;
                        assert(self.name_at(j) == k);
                    }
                }
                assert(self.names() =~= old(self).names().push(name@));
                assert(self.values() =~= old(self).values().push(value));
            },
        }
    }

    /// The value filed under `name`, if there is one.
    pub fn get(&self, name: &str) -> (r: Option<&V>)
        requires
            self.wf(),
        ensures
            r == (if self.view().contains_key(name@) {
                Some(&self.view()[name@])
            } else {
                None
            }),
    {
        let key = String::from_str(name);
        match self.find(&key) {
            Some(i) => Some(&self.entries[i].1),
            None => None,
        }
    }

    /// The number of entries.
    pub fn len(&self) -> (r: usize)
        ensures
            r == self.values().len(),
            r == self.names().len(),
    {
        self.entries.len()
    }

    /// The `i`-th value, in the order of `values`.
    pub fn value_at(&self, i: usize) -> (r: &V)
        requires
            i < self.values().len(),
        ensures
            *r == self.values()[i as int],
    {
        &self.entries[i].1
    }
}

} // verus!
