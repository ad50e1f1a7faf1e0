//! A map from names to values.
use vstd::prelude::*;

use crate::text::same_text;

verus! {

/// What a list of named values maps each name to, a later entry replacing an earlier one.
pub open spec fn map_of<V>(entries: Seq<(String, V)>) -> Map<Seq<char>, V>
    decreases entries.len(),
{
    if entries.len() == 0 {
        Map::empty()
    } else {
        map_of(entries.drop_last()).insert(entries.last().0@, entries.last().1)
    }
}

/// No name occurs twice in the list.
pub open spec fn names_distinct<V>(entries: Seq<(String, V)>) -> bool {
    forall|i: int, j: int|
        0 <= i < j < entries.len() ==> (#[trigger] entries[i]).0@ != (#[trigger] entries[j]).0@
}

/// A list of named values maps a name exactly if an entry bears it.
proof fn lemma_map_of_domain<V>(entries: Seq<(String, V)>, name: Seq<char>)
    ensures
        map_of(entries).contains_key(name) <==> exists|i: int|
            0 <= i < entries.len() && (#[trigger] entries[i]).0@ == name,
    decreases entries.len(),
{
    if entries.len() > 0 {
        let shorter = entries.drop_last();
        lemma_map_of_domain(shorter, name);
        if map_of(shorter).contains_key(name) {
            let i = choose|i: int| 0 <= i < shorter.len() && (#[trigger] shorter[i]).0@ == name;
            assert(entries[i].0@ == name);
        }
        if exists|i: int| 0 <= i < entries.len() && (#[trigger] entries[i]).0@ == name {
            let i = choose|i: int| 0 <= i < entries.len() && (#[trigger] entries[i]).0@ == name;
            if i < shorter.len() {
                assert(shorter[i].0@ == name);
            }
        }
    }
}

/// Where names are distinct, each entry is what its name is mapped to.
proof fn lemma_map_of_value<V>(entries: Seq<(String, V)>, i: int)
    requires
        names_distinct(entries),
        0 <= i < entries.len(),
    ensures
        map_of(entries).contains_key(entries[i].0@),
        map_of(entries)[entries[i].0@] == entries[i].1,
    decreases entries.len(),
{
    if i < entries.len() - 1 {
        let shorter = entries.drop_last();
        assert(names_distinct(shorter)) by {
            assert forall|j: int, k: int| 0 <= j < k < shorter.len() implies (
            #[trigger] shorter[j]).0@ != (#[trigger] shorter[k]).0@ by {
                assert(entries[j].0@ != entries[k].0@);
            }
        }
        lemma_map_of_value(shorter, i);
        assert(entries[i].0@ != entries[entries.len() - 1].0@);
    }
}

/// Taking an entry out of a list of distinct names takes its name out of the map.
proof fn lemma_map_of_remove<V>(entries: Seq<(String, V)>, i: int)
    requires
        names_distinct(entries),
        0 <= i < entries.len(),
    ensures
        names_distinct(entries.remove(i)),
        map_of(entries.remove(i)) == map_of(entries).remove(entries[i].0@),
{
    let rest = entries.remove(i);
    let name = entries[i].0@;
    assert forall|j: int, k: int| 0 <= j < k < rest.len() implies (#[trigger] rest[j]).0@ != (
    #[trigger] rest[k]).0@ by {
        let j0 = if j < i { j } else { j + 1 };
        let k0 = if k < i { k } else { k + 1 };
        assert(entries[j0].0@ != entries[k0].0@);
    }
    let before = map_of(entries).remove(name);
    let after = map_of(rest);
    assert forall|key: Seq<char>| #[trigger]
        before.contains_key(key) <==> after.contains_key(key) by {
        lemma_map_of_domain(entries, key);
        lemma_map_of_domain(rest, key);
        if before.contains_key(key) {
            let j = choose|j: int| 0 <= j < entries.len() && (#[trigger] entries[j]).0@ == key;
            let j1 = if j < i { j } else { j - 1 };
            assert(rest[j1].0@ == key);
        }
        if after.contains_key(key) {
            let j = choose|j: int| 0 <= j < rest.len() && (#[trigger] rest[j]).0@ == key;
            let j0 = if j < i { j } else { j + 1 };
            assert(entries[j0].0@ == key);
            assert(entries[i].0@ != entries[j0].0@);
        }
    }
    assert forall|key: Seq<char>| #[trigger] before.contains_key(key) implies before[key]
        == after[key] by {
        lemma_map_of_domain(entries, key);
        let j = choose|j: int| 0 <= j < entries.len() && (#[trigger] entries[j]).0@ == key;
        lemma_map_of_value(entries, j);
        let j1 = if j < i { j } else { j - 1 };
        assert(rest[j1] == entries[j]);
        lemma_map_of_value(rest, j1);
    }
    assert(before =~= after);
}

/// A map from names to values, in which no name occurs twice.
pub struct NameMap<V> {
    entries: Vec<(String, V)>,
}

impl<V> View for NameMap<V> {
    type V = Map<Seq<char>, V>;

    closed spec fn view(&self) -> Map<Seq<char>, V> {
        map_of(self.entries@)
    }
}

impl<V> NameMap<V> {
    #[verifier::type_invariant]
    spec fn wf(self) -> bool {
        names_distinct(self.entries@)
    }

    /// A map without entries.
    pub fn new() -> (map: NameMap<V>)
        ensures
            map@ == Map::<Seq<char>, V>::empty(),
    {
        NameMap { entries: Vec::new() }
    }

    /// The entries, each name once.
    pub fn entries(&self) -> (entries: &Vec<(String, V)>)
        ensures
            map_of(entries@) == self@,
            names_distinct(entries@),
    {
        proof {
            use_type_invariant(self);
        }
        &self.entries
    }

    /// Where the entry of a name stands.
    fn position(entries: &Vec<(String, V)>, name: &str) -> (position: Option<usize>)
        requires
            names_distinct(entries@),
        ensures
            match position {
                Some(i) => i < entries.len() && entries[i as int].0@ == name@ && map_of(
                    entries@,
                ).contains_key(name@) && map_of(entries@)[name@] == entries[i as int].1,
                None => !map_of(entries@).contains_key(name@),
            },
    {
        let mut i: usize = 0;
        while i < entries.len()
            invariant
                names_distinct(entries@),
                i <= entries.len(),
                forall|j: int| 0 <= j < i ==> (#[trigger] entries@[j]).0@ != name@,
            decreases entries.len() - i,
        {
            if same_text(entries[i].0.as_str(), name) {
                proof {
                    lemma_map_of_value(entries@, i as int);
                }
                return Some(i);
            }
            i = i + 1;
        }
        proof {
            lemma_map_of_domain(entries@, name@);
        }
        None
    }

    /// The value of a name.
    pub fn get(&self, name: &str) -> (value: Option<&V>)
        ensures
            match value {
                Some(v) => self@.contains_key(name@) && *v == self@[name@],
                None => !self@.contains_key(name@),
            },
    {
        proof {
            use_type_invariant(self);
        }
        match Self::position(&self.entries, name) {
            Some(i) => Some(&self.entries[i].1),
            None => None,
        }
    }

    /// Takes a name out of the map and gives its value.
    pub fn remove(&mut self, name: &str) -> (value: Option<V>)
        ensures
            final(self)@ == old(self)@.remove(name@),
            match value {
                Some(v) => old(self)@.contains_key(name@) && v == old(self)@[name@],
                None => !old(self)@.contains_key(name@),
            },
    {
        proof {
            use_type_invariant(&*self);
        }
        let mut entries: Vec<(String, V)> = Vec::new();
        core::mem::swap(&mut entries, &mut self.entries);
        let removed = match Self::position(&entries, name) {
            Some(i) => {
                proof {
                    lemma_map_of_remove(entries@, i as int);
                }
                let entry = entries.remove(i);
                Some(entry.1)
            },
            None => {
                assert(map_of(entries@).remove(name@) =~= map_of(entries@));
                None
            },
        };
        self.entries = entries;
        removed
    }

    /// Gives a name a value and hands back the value that it had.
    pub fn insert(&mut self, name: String, value: V) -> (previous: Option<V>)
        ensures
            final(self)@ == old(self)@.insert(name@, value),
            match previous {
                Some(v) => old(self)@.contains_key(name@) && v == old(self)@[name@],
                None => !old(self)@.contains_key(name@),
            },
    {
        let previous = self.remove(name.as_str());
        proof {
            use_type_invariant(&*self);
        }
        let mut entries: Vec<(String, V)> = Vec::new();
        core::mem::swap(&mut entries, &mut self.entries);
        let ghost shorter = entries@;
        entries.push((name, value));
        proof {
            lemma_map_of_domain(shorter, name@);
            assert(entries@.drop_last() =~= shorter);
            assert forall|i: int, j: int| 0 <= i < j < entries@.len() implies (
            #[trigger] entries@[i]).0@ != (#[trigger] entries@[j]).0@ by {
                assert(shorter[i].0@ == entries@[i].0@);
                if j < shorter.len() {
                    assert(shorter[j].0@ == entries@[j].0@);
                }
            }
            assert(map_of(entries@) =~= old(self)@.insert(name@, value));
        }
        self.entries = entries;
        previous
    }
}

/// What a name is mapped to is the value of the last entry that bears it; a name that no entry
/// bears is mapped to nothing.
pub proof fn law_the_last_entry_of_a_name_counts<V>(entries: Seq<(String, V)>, name: Seq<char>)
    ensures
        map_of(entries).contains_key(name) <==> exists|i: int|
            0 <= i < entries.len() && (#[trigger] entries[i]).0@ == name,
        forall|i: int|
            0 <= i < entries.len() && (#[trigger] entries[i]).0@ == name && (forall|j: int|
                i < j < entries.len() ==> (#[trigger] entries[j]).0@ != name) ==> map_of(
                entries,
            )[name] == entries[i].1,
    decreases entries.len(),
{
    lemma_map_of_domain(entries, name);
    if entries.len() > 0 {
        let shorter = entries.drop_last();
        law_the_last_entry_of_a_name_counts(shorter, name);
        assert forall|i: int|
            0 <= i < entries.len() && (#[trigger] entries[i]).0@ == name && (forall|j: int|
                i < j < entries.len() ==> (#[trigger] entries[j]).0@ != name) implies map_of(
            entries,
        )[name] == entries[i].1 by {
            if i < shorter.len() {
                assert(shorter[i] == entries[i]);
                assert(entries[entries.len() - 1].0@ != name);
                assert forall|j: int| i < j < shorter.len() implies (#[trigger] shorter[j]).0@
                    != name by {
                    assert(entries[j].0@ != name);
                }
            }
        }
    }
}

/// A name has the value that it was last given until it is taken out, and what is done to one
/// name leaves every other as it was.
pub proof fn law_a_name_keeps_its_value<V>(
    given: &mut NameMap<V>,
    name: String,
    text: &str,
    value: V,
    previous: Option<V>,
    found: Option<&V>,
    taken: &mut NameMap<V>,
    removed: Option<V>,
    other: Seq<char>,
)
    requires
        text@ == name@,
        call_ensures(NameMap::<V>::insert, (given, name, value), previous),
        call_ensures(NameMap::<V>::get, (&*final(given), text), found),
        *final(given) == *old(taken),
        call_ensures(NameMap::<V>::remove, (taken, text), removed),
    ensures
        previous is Some <==> old(given)@.contains_key(name@),
        found matches Some(held) && *held == value,
        removed == Some(value),
        !final(taken)@.contains_key(name@),
        other != name@ ==> {
            &&& final(taken)@.contains_key(other) <==> old(given)@.contains_key(other)
            &&& old(given)@.contains_key(other) ==> final(taken)@[other] == old(given)@[other]
        },
{
}

} // verus!
