//! String properties, as a snapshot's summary holds them.

use vstd::prelude::*;

verus! {

/// A map from strings to strings.
///
/// The pairs stand in the order in which their keys came in, each key once.
#[derive(Debug)]
pub struct Properties {
    entries: Vec<(String, String)>,
}

/// No two pairs have the same key.
spec fn distinct_keys(entries: Seq<(String, String)>) -> bool {
    forall|i: int, j: int|
        0 <= i < j < entries.len() ==> (#[trigger] entries[i]).0@ != (#[trigger] entries[j]).0@
}

/// The given key stands at the given place.
spec fn stands_at(entries: Seq<(String, String)>, key: Seq<char>, i: int) -> bool {
    0 <= i < entries.len() && entries[i].0@ == key
}

/// The map that the pairs stand for.
spec fn pairs_map(entries: Seq<(String, String)>) -> Map<Seq<char>, Seq<char>> {
    Map::new(
        |key: Seq<char>| exists|i: int| stands_at(entries, key, i),
        |key: Seq<char>| entries[choose|i: int| stands_at(entries, key, i)].1@,
    )
}

/// Each pair maps its key to its value.
proof fn lemma_pair_is_mapped(entries: Seq<(String, String)>, i: int)
    requires
        distinct_keys(entries),
        0 <= i < entries.len(),
    ensures
        pairs_map(entries).contains_key(entries[i].0@),
        pairs_map(entries)[entries[i].0@] == entries[i].1@,
{
    let key = entries[i].0@;
    assert(stands_at(entries, key, i));
    let j = choose|j: int| stands_at(entries, key, j);
    assert(stands_at(entries, key, j));
    assert(i == j);
}

/// A pair with a new key, put last, is inserted into the map.
proof fn lemma_push_inserts(entries: Seq<(String, String)>, pair: (String, String))
    requires
        distinct_keys(entries.push(pair)),
    ensures
        pairs_map(entries.push(pair)) == pairs_map(entries).insert(pair.0@, pair.1@),
{
    let longer = entries.push(pair);
    let n = entries.len() as int;
    assert(distinct_keys(entries)) by {
        assert forall|i: int, j: int| 0 <= i < j < n implies (#[trigger] entries[i]).0@ != (
        #[trigger] entries[j]).0@ by {
            assert(longer[i].0@ != longer[j].0@);
        }
    }
    let before = pairs_map(entries).insert(pair.0@, pair.1@);
    let after = pairs_map(longer);
    lemma_pair_is_mapped(longer, n);
    assert forall|key: Seq<char>| after.contains_key(key) <==> before.contains_key(key) by {
        if after.contains_key(key) {
            let i = choose|i: int| stands_at(longer, key, i);
            assert(i == n || stands_at(entries, key, i));
        }
        if pairs_map(entries).contains_key(key) {
            let i = choose|i: int| stands_at(entries, key, i);
            assert(stands_at(longer, key, i));
        }
    }
    assert forall|key: Seq<char>| after.contains_key(key) implies after[key] == before[key] by {
        if key != pair.0@ {
            let i = choose|i: int| stands_at(longer, key, i);
            assert(stands_at(entries, key, i));
            lemma_pair_is_mapped(longer, i);
            lemma_pair_is_mapped(entries, i);
        }
    }
    assert(after =~= before);
}

/// A pair whose key stays while its value changes replaces the value in the map.
proof fn lemma_update_inserts(entries: Seq<(String, String)>, i: int, pair: (String, String))
    requires
        distinct_keys(entries),
        stands_at(entries, pair.0@, i),
    ensures
        distinct_keys(entries.update(i, pair)),
        pairs_map(entries.update(i, pair)) == pairs_map(entries).insert(pair.0@, pair.1@),
{
    let changed = entries.update(i, pair);
    assert forall|j: int, k: int| 0 <= j < k < changed.len() implies (#[trigger] changed[j]).0@ != (
    #[trigger] changed[k]).0@ by {
        assert(entries[j].0@ != entries[k].0@);
    }
    let before = pairs_map(entries).insert(pair.0@, pair.1@);
    let after = pairs_map(changed);
    lemma_pair_is_mapped(changed, i);
    assert forall|key: Seq<char>| after.contains_key(key) <==> before.contains_key(key) by {
        if after.contains_key(key) {
            let j = choose|j: int| stands_at(changed, key, j);
            assert(stands_at(entries, key, j));
        }
        if pairs_map(entries).contains_key(key) {
            let j = choose|j: int| stands_at(entries, key, j);
            assert(stands_at(changed, key, j));
        }
    }
    assert forall|key: Seq<char>| after.contains_key(key) implies after[key] == before[key] by {
        if key != pair.0@ {
            let j = choose|j: int| stands_at(changed, key, j);
            assert(j != i);
            lemma_pair_is_mapped(changed, j);
            lemma_pair_is_mapped(entries, j);
        }
    }
    assert(after =~= before);
}

impl View for Properties {
    type V = Map<Seq<char>, Seq<char>>;

    closed spec fn view(&self) -> Map<Seq<char>, Seq<char>> {
        pairs_map(self.entries@)
    }
}

impl Properties {
    #[verifier::type_invariant]
    spec fn well_formed(self) -> bool {
        distinct_keys(self.entries@)
    }

    /// No properties.
    pub fn new() -> (properties: Self)
        ensures
            properties@ == Map::<Seq<char>, Seq<char>>::empty(),
    {
        let properties = Properties { entries: Vec::new() };
        assert(properties@ =~= Map::<Seq<char>, Seq<char>>::empty());
        properties
    }

    /// The place at which a key stands, if it stands anywhere.
    fn find(&self, key: &String) -> (found: Option<usize>)
        ensures
            match found {
                Some(i) => stands_at(self.entries@, key@, i as int),
                None => forall|i: int| !stands_at(self.entries@, key@, i),
            },
    {
        for i in 0..self.entries.len()
            invariant
                forall|j: int| 0 <= j < i ==> !stands_at(self.entries@, key@, j),
        {
            if self.entries[i].0 == *key {
                return Some(i);
            }
        }
        None
    }

    /// The value of a property, if it is set.
    pub fn get(&self, key: &str) -> (value: Option<&String>)
        ensures
            match value {
                Some(value) => self@.contains_key(key@) && self@[key@] == value@,
                None => !self@.contains_key(key@),
            },
    {
        proof {
            use_type_invariant(self);
        }
        match self.find(&key.to_owned()) {
            Some(i) => {
                proof {
                    lemma_pair_is_mapped(self.entries@, i as int);
                }
                Some(&self.entries[i].1)
            },
            None => None,
        }
    }

    /// Sets a property, in place of its earlier value if it had one.
    pub fn insert(&mut self, key: String, value: String)
        ensures
            final(self)@ == old(self)@.insert(key@, value@),
    {
        proof {
            use_type_invariant(&*self);
        }
        let found = self.find(&key);
        let mut entries: Vec<(String, String)> = Vec::new();
        std::mem::swap(&mut entries, &mut self.entries);
        let ghost before = entries@;
        let ghost pair = (key, value);
        match found {
            Some(i) => {
                proof {
                    lemma_update_inserts(before, i as int, pair);
                }
                entries.set(i, (key, value));
            },
            None => {
                entries.push((key, value));
                proof {
                    assert forall|i: int, j: int| 0 <= i < j < entries@.len() implies (
                    #[trigger] entries@[i]).0@ != (#[trigger] entries@[j]).0@ by {
                        assert(!stands_at(before, key@, i));
                    }
                    lemma_push_inserts(before, pair);
                }
            },
        }
        self.entries = entries;
    }

    /// Sets every property of `other`, in place of the earlier values.
    pub fn extend(&mut self, other: &Properties)
        ensures
            final(self)@ == old(self)@.union_prefer_right(other@),
    {
        proof {
            use_type_invariant(other);
            assert(pairs_map(other.entries@.take(0)) =~= Map::<Seq<char>, Seq<char>>::empty());
        }
        assert(self@ =~= old(self)@.union_prefer_right(pairs_map(other.entries@.take(0))));
        for i in 0..other.entries.len()
            invariant
                distinct_keys(other.entries@),
                self@ == old(self)@.union_prefer_right(pairs_map(other.entries@.take(i as int))),
        {
            let ghost done = pairs_map(other.entries@.take(i as int));
            proof {
                let longer = other.entries@.take(i + 1);
                assert(longer =~= other.entries@.take(i as int).push(other.entries@[i as int]));
                assert forall|j: int, k: int| 0 <= j < k < longer.len() implies (
                #[trigger] longer[j]).0@ != (#[trigger] longer[k]).0@ by {
                    assert(other.entries@[j].0@ != other.entries@[k].0@);
                }
                lemma_push_inserts(other.entries@.take(i as int), other.entries@[i as int]);
            }
            self.insert(other.entries[i].0.clone(), other.entries[i].1.clone());
            assert(self@ =~= old(self)@.union_prefer_right(
                pairs_map(other.entries@.take(i + 1)),
            ));
        }
        assert(other.entries@.take(other.entries@.len() as int) =~= other.entries@);
    }
}

impl Clone for Properties {
    fn clone(&self) -> (copy: Self)
        ensures
            copy@ == self@,
    {
        let mut copy = Properties::new();
        copy.extend(self);
        assert(copy@ =~= self@);
        copy
    }
}

} // verus!
