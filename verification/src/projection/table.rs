//! A table of values keyed by read model and item key.

use crate::projection::ProjectionView;
use vstd::prelude::*;

verus! {

/// One entry of a table.
pub struct Entry<V> {
    pub view: ProjectionView,
    pub key: String,
    pub value: V,
}

impl<V> Entry<V> {
    /// The key under which the entry is found.
    pub open spec fn name(self) -> (ProjectionView, Seq<char>) {
        (self.view, self.key@)
    }
}

/// The map that a list of entries stands for.
pub open spec fn entries_map<V>(entries: Seq<Entry<V>>) -> Map<(ProjectionView, Seq<char>), V>
    decreases entries.len(),
{
    if entries.len() == 0 {
        Map::empty()
    } else {
        entries_map(entries.drop_last()).insert(entries.last().name(), entries.last().value)
    }
}

/// No two entries have the same key.
pub open spec fn distinct_names<V>(entries: Seq<Entry<V>>) -> bool {
    forall|i: int, j: int|
        0 <= i < j < entries.len() ==> #[trigger] entries[i].name() != #[trigger] entries[j].name()
}

proof fn lemma_entries_map<V>(entries: Seq<Entry<V>>)
    requires
        distinct_names(entries),
    ensures
        entries_map(entries).dom().finite(),
        entries_map(entries).dom().len() == entries.len(),
        forall|i: int|
            0 <= i < entries.len() ==> entries_map(entries).contains_pair(
                #[trigger] entries[i].name(),
                entries[i].value,
            ),
        forall|name: (ProjectionView, Seq<char>)| #[trigger]
            entries_map(entries).contains_key(name) ==> exists|i: int|
                0 <= i < entries.len() && #[trigger] entries[i].name() == name,
    decreases entries.len(),
{
    if entries.len() > 0 {
        let shorter = entries.drop_last();
        assert forall|i: int, j: int| 0 <= i < j < shorter.len() implies #[trigger] shorter[i].name()
            != #[trigger] shorter[j].name() by {
            assert(shorter[i] == entries[i] && shorter[j] == entries[j]);
        }
        lemma_entries_map(shorter);
        let last = entries.last().name();
        assert(!entries_map(shorter).contains_key(last)) by {
            if entries_map(shorter).contains_key(last) {
                let i = choose|i: int| 0 <= i < shorter.len() && #[trigger] shorter[i].name() == last;
                assert(shorter[i] == entries[i]);
                assert(entries[i].name() != entries[entries.len() - 1].name());
            }
        }
        assert(entries_map(entries).dom() =~= entries_map(shorter).dom().insert(last));
        assert forall|i: int| 0 <= i < entries.len() implies entries_map(entries).contains_pair(
            #[trigger] entries[i].name(),
            entries[i].value,
        ) by {
            if i < entries.len() - 1 {
                assert(shorter[i] == entries[i]);
                assert(entries_map(shorter).contains_pair(shorter[i].name(), shorter[i].value));
                assert(entries[i].name() != entries[entries.len() - 1].name());
            }
        }
        assert forall|name: (ProjectionView, Seq<char>)| #[trigger]
            entries_map(entries).contains_key(name) implies exists|i: int|
            0 <= i < entries.len() && #[trigger] entries[i].name() == name by {
            if name == last {
                assert(entries[entries.len() - 1].name() == name);
            } else {
                assert(entries_map(shorter).contains_key(name));
                let i = choose|i: int| 0 <= i < shorter.len() && #[trigger] shorter[i].name() == name;
                assert(shorter[i] == entries[i]);
            }
        }
    }
}

/// Two lists with the same pairs stand for the same map.
proof fn lemma_same_pairs<V>(
    entries: Seq<Entry<V>>,
    map: Map<(ProjectionView, Seq<char>), V>,
)
    requires
        distinct_names(entries),
        forall|i: int|
            0 <= i < entries.len() ==> map.contains_pair(
                #[trigger] entries[i].name(),
                entries[i].value,
            ),
        forall|name: (ProjectionView, Seq<char>)| #[trigger]
            map.contains_key(name) ==> exists|i: int|
                0 <= i < entries.len() && #[trigger] entries[i].name() == name,
    ensures
        entries_map(entries) == map,
{
    lemma_entries_map(entries);
    let own = entries_map(entries);
    assert forall|name: (ProjectionView, Seq<char>)| own.contains_key(name) implies
        map.contains_key(name) && own[name] == map[name] by {
        let i = choose|i: int| 0 <= i < entries.len() && #[trigger] entries[i].name() == name;
        assert(own.contains_pair(entries[i].name(), entries[i].value));
        assert(map.contains_pair(entries[i].name(), entries[i].value));
    }
    assert forall|name: (ProjectionView, Seq<char>)| map.contains_key(name) implies
        own.contains_key(name) by {
        let i = choose|i: int| 0 <= i < entries.len() && #[trigger] entries[i].name() == name;
        assert(own.contains_pair(entries[i].name(), entries[i].value));
    }
    assert(own =~= map);
}

/// How many entries belong to a read model.
pub open spec fn tally<V>(entries: Seq<Entry<V>>, view: ProjectionView) -> nat
    decreases entries.len(),
{
    if entries.len() == 0 {
        0
    } else {
        tally(entries.drop_last(), view) + if entries.last().view == view {
            1nat
        } else {
            0
        }
    }
}

/// The keys of a map that belong to a read model.
pub open spec fn keys_of<V>(
    map: Map<(ProjectionView, Seq<char>), V>,
    view: ProjectionView,
) -> Set<(ProjectionView, Seq<char>)> {
    map.dom().filter(|name: (ProjectionView, Seq<char>)| name.0 == view)
}

proof fn lemma_tally<V>(entries: Seq<Entry<V>>, view: ProjectionView)
    requires
        distinct_names(entries),
    ensures
        tally(entries, view) == keys_of(entries_map(entries), view).len(),
        keys_of(entries_map(entries), view).finite(),
        tally(entries, view) <= entries.len(),
    decreases entries.len(),
{
    lemma_entries_map(entries);
    if entries.len() == 0 {
        assert(keys_of(entries_map(entries), view) =~= Set::empty());
    } else {
        let shorter = entries.drop_last();
        assert forall|i: int, j: int| 0 <= i < j < shorter.len() implies #[trigger] shorter[i].name()
            != #[trigger] shorter[j].name() by {
            assert(shorter[i] == entries[i] && shorter[j] == entries[j]);
        }
        lemma_tally(shorter, view);
        lemma_entries_map(shorter);
        let last = entries.last().name();
        let before = keys_of(entries_map(shorter), view);
        let after = keys_of(entries_map(entries), view);
        assert(!entries_map(shorter).contains_key(last)) by {
            if entries_map(shorter).contains_key(last) {
                let i = choose|i: int| 0 <= i < shorter.len() && #[trigger] shorter[i].name() == last;
                assert(shorter[i] == entries[i]);
                assert(entries[i].name() != entries[entries.len() - 1].name());
            }
        }
        if entries.last().view == view {
            assert(after =~= before.insert(last));
        } else {
            assert(after =~= before);
        }
    }
}

/// A table of values keyed by read model and item key; every key occurs once.
pub struct Table<V> {
    entries: Vec<Entry<V>>,
}

impl<V> View for Table<V> {
    type V = Map<(ProjectionView, Seq<char>), V>;

    closed spec fn view(&self) -> Map<(ProjectionView, Seq<char>), V> {
        entries_map(self.entries@)
    }
}

impl<V: Copy> Table<V> {
    /// Every key occurs once.
    pub closed spec fn wf(&self) -> bool {
        distinct_names(self.entries@)
    }

    /// An empty table.
    pub fn new() -> (table: Table<V>)
        ensures
            table.wf(),
            table@ == Map::<(ProjectionView, Seq<char>), V>::empty(),
    {
        let table: Table<V> = Table { entries: Vec::new() };
        assert(table@ =~= Map::<(ProjectionView, Seq<char>), V>::empty());
        table
    }

    fn position(&self, view: ProjectionView, key: &str) -> (found: Option<usize>)
        requires
            self.wf(),
        ensures
            found matches Some(index) ==> index < self.entries.len() && self.entries[index as int].name()
                == (view, key@),
            found is None ==> !self@.contains_key((view, key@)),
    {
        let mut index: usize = 0;
        while index < self.entries.len()
            invariant
                index <= self.entries.len(),
                forall|i: int| 0 <= i < index ==> #[trigger] self.entries[i].name() != (view, key@),
            decreases self.entries.len() - index,
        {
            if self.entries[index].view == view && crate::text::same_text(
                self.entries[index].key.as_str(),
                key,
            ) {
                return Some(index);
            }
            index = index + 1;
        }
        proof {
            lemma_entries_map(self.entries@);
        }
        None
    }

    /// The value under a key.
    pub fn get(&self, view: ProjectionView, key: &str) -> (value: Option<V>)
        requires
            self.wf(),
        ensures
            value == (if self@.contains_key((view, key@)) {
                Some(self@[(view, key@)])
            } else {
                None
            }),
    {
        match self.position(view, key) {
            Some(index) => {
                proof {
                    lemma_entries_map(self.entries@);
                    assert(entries_map(self.entries@).contains_pair(
                        self.entries@[index as int].name(),
                        self.entries@[index as int].value,
                    ));
                }
                Some(self.entries[index].value)
            },
            None => None,
        }
    }

    /// Puts a value under a key, in place of any earlier one.
    pub fn insert(&mut self, view: ProjectionView, key: &str, value: V)
        requires
            old(self).wf(),
        ensures
            final(self).wf(),
            final(self)@ == old(self)@.insert((view, key@), value),
    {
        let ghost before = self.entries@;
        let ghost name = (view, key@);
        proof {
            lemma_entries_map(before);
        }
        match self.position(view, key) {
            Some(index) => {
                let key: String = self.entries[index].key.clone();
                self.entries.set(index, Entry { view, key, value });
                proof {
                    let after = self.entries@;
                    assert(forall|i: int|
                        0 <= i < after.len() ==> #[trigger] after[i].name() == before[i].name());
                    assert(distinct_names(after)) by {
                        assert forall|i: int, j: int| 0 <= i < j < after.len() implies #[trigger] after[i].name()
                            != #[trigger] after[j].name() by {
                            assert(before[i].name() != before[j].name());
                        }
                    }
                    let map = entries_map(before).insert(name, value);
                    assert forall|i: int| 0 <= i < after.len() implies map.contains_pair(
                        #[trigger] after[i].name(),
                        after[i].value,
                    ) by {
                        assert(entries_map(before).contains_pair(before[i].name(), before[i].value));
                        if i != index {
                            assert(before[i].name() != before[index as int].name());
                        }
                    }
                    assert forall|other: (ProjectionView, Seq<char>)| #[trigger]
                        map.contains_key(other) implies exists|i: int|
                        0 <= i < after.len() && #[trigger] after[i].name() == other by {
                        if other == name {
                            assert(after[index as int].name() == other);
                        } else {
                            assert(entries_map(before).contains_key(other));
                            let i = choose|i: int|
                                0 <= i < before.len() && #[trigger] before[i].name() == other;
                            assert(after[i].name() == other);
                        }
                    }
                    lemma_same_pairs(after, map);
                }
            },
            None => {
                self.entries.push(Entry { view, key: key.to_owned(), value });
                proof {
                    let after = self.entries@;
                    assert(after.drop_last() =~= before);
                    assert forall|i: int, j: int| 0 <= i < j < after.len() implies #[trigger] after[i].name()
                        != #[trigger] after[j].name() by {
                        if j == after.len() - 1 {
                            assert(after[i] == before[i]);
                            assert(entries_map(before).contains_pair(
                                before[i].name(),
                                before[i].value,
                            ));
                        } else {
                            assert(after[i] == before[i] && after[j] == before[j]);
                        }
                    }
                }
            },
        }
    }

    /// Takes the value under a key out, if there is one.
    pub fn remove(&mut self, view: ProjectionView, key: &str)
        requires
            old(self).wf(),
        ensures
            final(self).wf(),
            final(self)@ == old(self)@.remove((view, key@)),
    {
        let ghost before = self.entries@;
        let ghost name = (view, key@);
        proof {
            lemma_entries_map(before);
        }
        match self.position(view, key) {
            Some(index) => {
                self.entries.remove(index);
                proof {
                    let after = self.entries@;
                    assert(forall|i: int|
                        0 <= i < after.len() ==> after[i] == (if i < index {
                            before[i]
                        } else {
                            before[i + 1]
                        }));
                    assert forall|i: int, j: int| 0 <= i < j < after.len() implies #[trigger] after[i].name()
                        != #[trigger] after[j].name() by {
                        let a = if i < index {
                            i
                        } else {
                            i + 1
                        };
                        let b = if j < index {
                            j
                        } else {
                            j + 1
                        };
                        assert(before[a].name() != before[b].name());
                    }
                    let map = entries_map(before).remove(name);
                    assert forall|i: int| 0 <= i < after.len() implies map.contains_pair(
                        #[trigger] after[i].name(),
                        after[i].value,
                    ) by {
                        let a = if i < index {
                            i
                        } else {
                            i + 1
                        };
                        assert(entries_map(before).contains_pair(before[a].name(), before[a].value));
                        if a < index {
                            assert(before[a].name() != before[index as int].name());
                        } else {
                            assert(before[index as int].name() != before[a].name());
                        }
                    }
                    assert forall|other: (ProjectionView, Seq<char>)| #[trigger]
                        map.contains_key(other) implies exists|i: int|
                        0 <= i < after.len() && #[trigger] after[i].name() == other by {
                        assert(entries_map(before).contains_key(other));
                        let a = choose|a: int|
                            0 <= a < before.len() && #[trigger] before[a].name() == other;
                        assert(a != index);
                        let i = if a < index {
                            a
                        } else {
                            a - 1
                        };
                        assert(after[i].name() == other);
                    }
                    lemma_same_pairs(after, map);
                }
            },
            None => {
                assert(old(self)@.remove(name) =~= old(self)@);
            },
        }
    }

    /// How many items a read model has.
    pub fn count(&self, view: ProjectionView) -> (count: usize)
        requires
            self.wf(),
        ensures
            count == keys_of(self@, view).len(),
    {
        let mut count: usize = 0;
        let mut index: usize = 0;
        while index < self.entries.len()
            invariant
                index <= self.entries.len(),
                count <= index,
                count == tally(self.entries@.take(index as int), view),
            decreases self.entries.len() - index,
        {
            proof {
                let next = self.entries@.take(index + 1);
                assert(next.drop_last() =~= self.entries@.take(index as int));
                assert(next.last() == self.entries@[index as int]);
            }
            if self.entries[index].view == view {
                count = count + 1;
            }
            index = index + 1;
        }
        proof {
            assert(self.entries@.take(index as int) =~= self.entries@);
            lemma_tally(self.entries@, view);
        }
        count
    }

    /// The entries in the order in which they are listed.
    pub closed spec fn listed(&self) -> Seq<Entry<V>> {
        self.entries@
    }

    /// The number of entries.
    pub fn len(&self) -> (length: usize)
        ensures
            length == self.listed().len(),
    {
        self.entries.len()
    }

    /// The entry at a position of the listing.
    pub fn entry(&self, index: usize) -> (entry: &Entry<V>)
        requires
            index < self.listed().len(),
        ensures
            *entry == self.listed()[index as int],
    {
        &self.entries[index]
    }

    /// The listing holds every pair of the table once, and nothing else.
    pub proof fn listing_is_the_table(&self)
        requires
            self.wf(),
        ensures
            distinct_names(self.listed()),
            self@ == entries_map(self.listed()),
            self@.dom().len() == self.listed().len(),
    {
        lemma_entries_map(self.entries@);
    }
}

} // verus!
