//! Declarations by name and number of parameters.

use crate::text::text_eq;
use vstd::prelude::*;

verus! {

/// One entry of a `Table`.
#[derive(Debug, PartialEq)]
pub struct Entry<M> {
    pub name: String,
    pub number: usize,
    pub value: M,
}

/// Values by a name and a number, in the order in which they were put in.
#[derive(Debug, PartialEq)]
pub struct Table<M> {
    entries: Vec<Entry<M>>,
}

/// What entries hold; a later one replaces an earlier one.
pub open spec fn entries_map<M: View>(entries: Seq<Entry<M>>) -> Map<(Seq<char>, nat), M::V>
    decreases entries.len(),
{
    if entries.len() == 0 {
        Map::empty()
    } else {
        let last = entries.last();
        entries_map(entries.drop_last()).insert((last.name@, last.number as nat), last.value@)
    }
}

/// The names and numbers of entries.
pub open spec fn entries_keys<M>(entries: Seq<Entry<M>>) -> Seq<(Seq<char>, nat)> {
    entries.map_values(|entry: Entry<M>| (entry.name@, entry.number as nat))
}

/// No two entries have the same name and number.
pub open spec fn entries_differ<M>(entries: Seq<Entry<M>>) -> bool {
    forall|i: int, j: int|
        #![trigger entries[i], entries[j]]
        0 <= i < j < entries.len() ==> entries[i].name@ != entries[j].name@ || entries[i].number
            != entries[j].number
}

proof fn entry_in_map<M: View>(entries: Seq<Entry<M>>, i: int)
    requires
        entries_differ(entries),
        0 <= i < entries.len(),
    ensures
        entries_map(entries).contains_key((entries[i].name@, entries[i].number as nat)),
        entries_map(entries)[(entries[i].name@, entries[i].number as nat)] == entries[i].value@,
    decreases entries.len(),
{
    let last = entries.len() - 1;
    if i < last {
        let front = entries.drop_last();
        assert(forall|j: int| #![trigger front[j]] 0 <= j < front.len() ==> front[j] == entries[j]);
        entry_in_map(front, i);
        assert(entries[i].name@ != entries[last].name@ || entries[i].number
            != entries[last].number);
    }
}

proof fn key_not_in_map<M: View>(entries: Seq<Entry<M>>, name: Seq<char>, number: nat)
    requires
        forall|i: int|
            #![trigger entries[i]]
            0 <= i < entries.len() ==> entries[i].name@ != name || entries[i].number != number,
    ensures
        !entries_map(entries).contains_key((name, number)),
    decreases entries.len(),
{
    if entries.len() > 0 {
        let front = entries.drop_last();
        assert forall|i: int|
            #![trigger front[i]]
            0 <= i < front.len() implies front[i].name@ != name || front[i].number != number by {
            assert(front[i] == entries[i]);
        }
        key_not_in_map(front, name, number);
        assert(entries.last() == entries[entries.len() - 1]);
    }
}

proof fn name_in_map<M: View>(entries: Seq<Entry<M>>, name: Seq<char>, number: nat)
    requires
        entries_map(entries).contains_key((name, number)),
    ensures
        exists|i: int|
            #![trigger entries[i]]
            0 <= i < entries.len() && entries[i].name@ == name && entries[i].number == number,
    decreases entries.len(),
{
    if entries.len() > 0 {
        let last = entries[entries.len() - 1];
        if !(last.name@ == name && last.number == number) {
            let front = entries.drop_last();
            name_in_map(front, name, number);
            let i = choose|i: int|
                #![trigger front[i]]
                0 <= i < front.len() && front[i].name@ == name && front[i].number == number;
            assert(entries[i] == front[i]);
        }
    }
}

proof fn keys_are_in_map<M: View>(entries: Seq<Entry<M>>)
    ensures
        entries_keys(entries).to_set() == entries_map(entries).dom(),
    decreases entries.len(),
{
    let keys = entries_keys(entries);
    if entries.len() == 0 {
        assert(keys.to_set() =~= Set::empty());
        assert(entries_map(entries).dom() =~= Set::empty());
    } else {
        let front = entries.drop_last();
        let last = keys[keys.len() - 1];
        keys_are_in_map(front);
        assert(keys =~= entries_keys(front).push(last));
        assert forall|key: (Seq<char>, nat)|
            keys.to_set().contains(key) == entries_keys(front).to_set().insert(last).contains(
                key,
            ) by {
            if entries_keys(front).contains(key) {
                let i = choose|i: int|
                    0 <= i < entries_keys(front).len() && entries_keys(front)[i] == key;
                assert(keys[i] == key);
            }
            if keys.contains(key) {
                let i = choose|i: int| 0 <= i < keys.len() && keys[i] == key;
                if i < front.len() {
                    assert(entries_keys(front)[i] == key);
                }
            }
            assert(keys[keys.len() - 1] == last);
        }
        assert(keys.to_set() =~= entries_map(entries).dom());
    }
}

/// Some entry has the name.
pub open spec fn has_name<V>(table: Map<(Seq<char>, nat), V>, name: Seq<char>) -> bool {
    exists|number: nat| #[trigger] table.contains_key((name, number))
}

impl<M> Table<M> {
    #[verifier::type_invariant]
    spec fn well_formed(self) -> bool {
        entries_differ(self.entries@)
    }
}

impl<M: View> Table<M> {
    /// The values by name and number.
    pub closed spec fn view(&self) -> Map<(Seq<char>, nat), M::V> {
        entries_map(self.entries@)
    }

    /// The names and numbers of the entries, in the order in which they were put in.
    pub closed spec fn keys(&self) -> Seq<(Seq<char>, nat)> {
        entries_keys(self.entries@)
    }

    /// The entries are those that can be looked up, and no others.
    pub proof fn every_key_is_listed(&self)
        ensures
            self.keys().to_set() == self@.dom(),
    {
        keys_are_in_map(self.entries@);
    }

    /// A table without entries.
    pub fn new() -> (table: Table<M>)
        ensures
            table@ == Map::<(Seq<char>, nat), M::V>::empty(),
            table.keys() == Seq::<(Seq<char>, nat)>::empty(),
    {
        Table { entries: Vec::new() }
    }

    /// Looks for the value with a name and a number.
    pub fn get(&self, name: &str, number: usize) -> (value: Option<&M>)
        ensures
            match value {
                Some(value) => {
                    &&& self@.contains_key((name@, number as nat))
                    &&& self@[(name@, number as nat)] == value@
                },
                None => !self@.contains_key((name@, number as nat)),
            },
    {
        proof {
            use_type_invariant(&*self);
        }
        for i in 0..self.entries.len()
            invariant
                entries_differ(self.entries@),
                forall|k: int|
                    #![trigger self.entries@[k]]
                    0 <= k < i ==> self.entries@[k].name@ != name@ || self.entries@[k].number
                        != number,
        {
            let entry = &self.entries[i];
            if entry.number == number && text_eq(entry.name.as_str(), name) {
                proof {
                    entry_in_map(self.entries@, i as int);
                }
                return Some(&entry.value);
            }
        }
        proof {
            key_not_in_map(self.entries@, name@, number as nat);
        }
        None
    }

    /// Whether some entry has the name.
    pub fn contains_name(&self, name: &str) -> (there: bool)
        ensures
            there == has_name(self@, name@),
    {
        proof {
            use_type_invariant(&*self);
        }
        for i in 0..self.entries.len()
            invariant
                entries_differ(self.entries@),
                forall|k: int|
                    #![trigger self.entries@[k]]
                    0 <= k < i ==> self.entries@[k].name@ != name@,
        {
            if text_eq(self.entries[i].name.as_str(), name) {
                proof {
                    entry_in_map(self.entries@, i as int);
                    assert(self@.contains_key((name@, self.entries@[i as int].number as nat)));
                }
                return true;
            }
        }
        proof {
            if has_name(self@, name@) {
                let number = choose|number: nat| #[trigger] self@.contains_key((name@, number));
                name_in_map(self.entries@, name@, number);
            }
        }
        false
    }

    /// Puts a value in under a name and a number that are not taken.
    pub fn insert(&mut self, name: String, number: usize, value: M)
        requires
            !old(self)@.contains_key((name@, number as nat)),
        ensures
            final(self)@ == old(self)@.insert((name@, number as nat), value@),
            final(self).keys() == old(self).keys().push((name@, number as nat)),
    {
        let mut entries: Vec<Entry<M>> = Vec::new();
        proof {
            use_type_invariant(&*self);
        }
        std::mem::swap(&mut entries, &mut self.entries);
        let ghost before = entries@;
        entries.push(Entry { name, number, value });
        proof {
            assert(entries@.drop_last() =~= before);
            assert forall|i: int, j: int|
                #![trigger entries@[i], entries@[j]]
                0 <= i < j < entries@.len() implies entries@[i].name@ != entries@[j].name@
                || entries@[i].number != entries@[j].number by {
                assert(entries@[i] == before[i]);
                if j == before.len() {
                    entry_in_map(before, i);
                } else {
                    assert(entries@[j] == before[j]);
                }
            }
        }
        assert(entries_keys(entries@) =~= entries_keys(before).push((name@, number as nat)));
        self.entries = entries;
    }

    /// How many entries there are. Each name and number is that of one entry.
    pub fn len(&self) -> (len: usize)
        ensures
            len == self.keys().len(),
            self.keys().no_duplicates(),
            self.keys().to_set() == self@.dom(),
    {
        proof {
            use_type_invariant(&*self);
            self.every_key_is_listed();
            let keys = self.keys();
            assert forall|i: int, j: int|
                0 <= i < keys.len() && 0 <= j < keys.len() && i != j implies keys[i] != keys[j] by {
                assert(self.entries@[i].name@ != self.entries@[j].name@ || self.entries@[i].number
                    != self.entries@[j].number);
            }
        }
        self.entries.len()
    }

    /// Gives the entry at an index.
    pub fn entry(&self, index: usize) -> (entry: &Entry<M>)
        requires
            index < self.keys().len(),
        ensures
            (entry.name@, entry.number as nat) == self.keys()[index as int],
            self@.contains_key((entry.name@, entry.number as nat)),
            self@[(entry.name@, entry.number as nat)] == entry.value@,
    {
        proof {
            use_type_invariant(&*self);
            entry_in_map(self.entries@, index as int);
        }
        &self.entries[index]
    }
}

} // verus!
