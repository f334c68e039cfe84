//! A map keyed by graph-node names.

use crate::names::same_name;
use vstd::prelude::*;
use vstd::string::*;

verus! {

/// A map from graph-node names to values. Every name occurs at most once.
pub struct NameMap<V> {
    entries: Vec<(String, V)>,
}

/// The entries of a map seen as pairs of mathematical values.
pub open spec fn entry_views<V: View>(entries: Seq<(String, V)>) -> Seq<(Seq<char>, V::V)> {
    Seq::new(entries.len(), |i: int| (entries[i].0@, entries[i].1@))
}

/// Whether no name occurs twice.
pub open spec fn distinct_names<W>(pairs: Seq<(Seq<char>, W)>) -> bool {
    forall|i: int, j: int| 0 <= i < j < pairs.len() ==> pairs[i].0 != pairs[j].0
}

/// The map that a list of pairs stands for; a later pair replaces an earlier one.
pub open spec fn pairs_map<W>(pairs: Seq<(Seq<char>, W)>) -> Map<Seq<char>, W>
    decreases pairs.len(),
{
    if pairs.len() == 0 {
        Map::empty()
    } else {
        pairs_map(pairs.drop_last()).insert(pairs.last().0, pairs.last().1)
    }
}

proof fn lemma_pairs_map_domain<W>(pairs: Seq<(Seq<char>, W)>, name: Seq<char>)
    ensures
        pairs_map(pairs).contains_key(name) <==> exists|i: int|
            0 <= i < pairs.len() && #[trigger] pairs[i].0 == name,
    decreases pairs.len(),
{
    if pairs.len() > 0 {
        let shorter = pairs.drop_last();
        lemma_pairs_map_domain(shorter, name);
        let last = pairs.len() - 1;
        if pairs_map(pairs).contains_key(name) {
            if pairs[last].0 == name {
            } else {
                let i = choose|i: int| 0 <= i < shorter.len() && #[trigger] shorter[i].0 == name;
                assert(pairs[i].0 == name);
            }
        } else {
            assert forall|i: int| 0 <= i < pairs.len() implies #[trigger] pairs[i].0 != name by {
                if i < last {
                    assert(shorter[i].0 == pairs[i].0);
                }
            }
        }
    }
}

proof fn lemma_pairs_map_value<W>(pairs: Seq<(Seq<char>, W)>, i: int)
    requires
        distinct_names(pairs),
        0 <= i < pairs.len(),
    ensures
        pairs_map(pairs).contains_key(pairs[i].0),
        pairs_map(pairs)[pairs[i].0] == pairs[i].1,
    decreases pairs.len(),
{
    let shorter = pairs.drop_last();
    if i < pairs.len() - 1 {
        assert(distinct_names(shorter)) by {
            assert forall|a: int, b: int| 0 <= a < b < shorter.len() implies shorter[a].0
                != shorter[b].0 by {
                assert(pairs[a].0 != pairs[b].0);
            }
        }
        lemma_pairs_map_value(shorter, i);
        assert(shorter[i] == pairs[i]);
        assert(pairs[i].0 != pairs[pairs.len() - 1].0);
    }
}

proof fn lemma_pairs_map_len<W>(pairs: Seq<(Seq<char>, W)>)
    requires
        distinct_names(pairs),
    ensures
        pairs_map(pairs).dom().finite(),
        pairs_map(pairs).dom().len() == pairs.len(),
    decreases pairs.len(),
{
    if pairs.len() > 0 {
        let shorter = pairs.drop_last();
        assert(distinct_names(shorter)) by {
            assert forall|a: int, b: int| 0 <= a < b < shorter.len() implies shorter[a].0
                != shorter[b].0 by {
                assert(pairs[a].0 != pairs[b].0);
            }
        }
        lemma_pairs_map_len(shorter);
        let name = pairs.last().0;
        lemma_pairs_map_domain(shorter, name);
        assert(!pairs_map(shorter).contains_key(name)) by {
            assert forall|i: int| 0 <= i < shorter.len() implies #[trigger] shorter[i].0 != name by {
                assert(pairs[i].0 != pairs[pairs.len() - 1].0);
            }
        }
        assert(pairs_map(pairs).dom() =~= pairs_map(shorter).dom().insert(name));
    }
}

impl<V: View> View for NameMap<V> {
    type V = Map<Seq<char>, V::V>;

    closed spec fn view(&self) -> Map<Seq<char>, V::V> {
        pairs_map(entry_views(self.entries@))
    }
}

impl<V: View> NameMap<V> {
    /// The entries in storage order.
    pub closed spec fn pairs(self) -> Seq<(Seq<char>, V::V)> {
        entry_views(self.entries@)
    }

    /// Whether no name occurs twice.
    pub closed spec fn wf(self) -> bool {
        distinct_names(entry_views(self.entries@))
    }

    /// The map holds exactly its entries, each name once.
    pub proof fn lemma_pairs(self)
        requires
            self.wf(),
        ensures
            distinct_names(self.pairs()),
            self@.dom().finite(),
            self@.dom().len() == self.pairs().len(),
            forall|i: int|
                0 <= i < self.pairs().len() ==> self@.contains_key(#[trigger] self.pairs()[i].0)
                    && self@[self.pairs()[i].0] == self.pairs()[i].1,
            forall|name: Seq<char>|
                #[trigger] self@.contains_key(name) ==> exists|i: int|
                    0 <= i < self.pairs().len() && #[trigger] self.pairs()[i].0 == name,
    {
        let pairs = self.pairs();
        lemma_pairs_map_len(pairs);
        assert forall|i: int| 0 <= i < pairs.len() implies self@.contains_key(#[trigger] pairs[i].0)
            && self@[pairs[i].0] == pairs[i].1 by {
            lemma_pairs_map_value(pairs, i);
        }
        assert forall|name: Seq<char>| #[trigger] self@.contains_key(name) implies exists|i: int|
            0 <= i < pairs.len() && #[trigger] pairs[i].0 == name by {
            lemma_pairs_map_domain(pairs, name);
        }
    }

    /// An empty map.
    pub fn new() -> (map: Self)
        ensures
            map.wf(),
            map@ == Map::<Seq<char>, V::V>::empty(),
    {
        NameMap { entries: Vec::new() }
    }

    /// Removes every entry.
    pub fn clear(&mut self)
        ensures
            final(self).wf(),
            final(self)@ == Map::<Seq<char>, V::V>::empty(),
    {
        self.entries.clear();
    }

    /// The number of names.
    pub fn len(&self) -> (count: usize)
        requires
            self.wf(),
        ensures
            count == self@.dom().len(),
            count == self.pairs().len(),
            self@.dom().finite(),
    {
        proof {
            self.lemma_pairs();
        }
        self.entries.len()
    }

    /// The entry at one storage position.
    pub fn entry(&self, i: usize) -> (pair: (&str, &V))
        requires
            i < self.pairs().len(),
        ensures
            pair.0@ == self.pairs()[i as int].0,
            pair.1@ == self.pairs()[i as int].1,
    {
        (self.entries[i].0.as_str(), &self.entries[i].1)
    }

    fn position(&self, name: &str) -> (position: Option<usize>)
        ensures
            match position {
                Some(i) => i < self.entries@.len() && self.entries@[i as int].0@ == name@,
                None => forall|i: int|
                    0 <= i < self.entries@.len() ==> (#[trigger] self.entries@[i]).0@ != name@,
            },
    {
        let mut i: usize = 0;
        while i < self.entries.len()
            invariant
                i <= self.entries.len(),
                forall|j: int| 0 <= j < i ==> (#[trigger] self.entries@[j]).0@ != name@,
            decreases self.entries.len() - i,
        {
            if same_name(self.entries[i].0.as_str(), name) {
                return Some(i);
            }
            i = i + 1;
        }
        None
    }

    /// Looks a name up.
    pub fn get(&self, name: &str) -> (value: Option<&V>)
        requires
            self.wf(),
        ensures
            match value {
                Some(value) => self@.contains_key(name@) && value@ == self@[name@],
                None => !self@.contains_key(name@),
            },
    {
        proof {
            self.lemma_pairs();
        }
        match self.position(name) {
            Some(i) => {
                assert(self.pairs()[i as int].0 == name@);
                Some(&self.entries[i].1)
            },
            None => {
                assert forall|i: int| 0 <= i < self.pairs().len() implies #[trigger] self.pairs()[i].0
                    != name@ by {
                    assert(self.entries@[i].0@ != name@);
                }
                None
            },
        }
    }

    /// Sets the value of a name.
    pub fn insert(&mut self, name: String, value: V)
        requires
            old(self).wf(),
        ensures
            final(self).wf(),
            final(self)@ == old(self)@.insert(name@, value@),
    {
        let ghost before = *self;
        let ghost pairs = before.pairs();
        proof {
            before.lemma_pairs();
        }
        match self.position(name.as_str()) {
            Some(i) => {
                self.entries.set(i, (name, value));
                proof {
                    let after = self.pairs();
                    assert(after =~= pairs.update(i as int, (name@, value@)));
                    assert forall|a: int, b: int| 0 <= a < b < after.len() implies after[a].0
                        != after[b].0 by {
                        assert(pairs[a].0 != pairs[b].0);
                    }
                    self.lemma_pairs();
                    assert forall|n: Seq<char>| #[trigger]
                        self@.contains_key(n) == before@.insert(name@, value@).contains_key(n) && (
                    self@.contains_key(n) ==> self@[n] == before@.insert(name@, value@)[n]) by {
                        if self@.contains_key(n) {
                            let j = choose|j: int| 0 <= j < after.len() && #[trigger] after[j].0 == n;
                            assert(after[j].0 == n);
                            assert(pairs[j].0 == n);
                        }
                        if before@.contains_key(n) {
                            let j = choose|j: int| 0 <= j < pairs.len() && #[trigger] pairs[j].0 == n;
                            assert(after[j].0 == n);
                        }
                        assert(after[i as int].0 == name@);
                    }
                    assert(self@ =~= before@.insert(name@, value@));
                }
            },
            None => {
                self.entries.push((name, value));
                proof {
                    let after = self.pairs();
                    assert(after =~= pairs.push((name@, value@)));
                    assert forall|a: int, b: int| 0 <= a < b < after.len() implies after[a].0
                        != after[b].0 by {
                        if b < pairs.len() {
                            assert(pairs[a].0 != pairs[b].0);
                        } else {
                            assert(before.entries@[a].0@ != name@);
                        }
                    }
                    assert(after.drop_last() =~= pairs);
                    assert(self@ =~= before@.insert(name@, value@));
                }
            },
        }
    }
}

} // verus!
