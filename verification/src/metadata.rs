//! A map from keys to values, both texts, for the free-form declarations of
//! a chart. A key occurs once; a later value for it replaces the earlier.
use vstd::prelude::*;
use crate::text::text_eq;

verus! {

/// The declarations of a chart by their keys.
#[derive(Debug)]
pub struct MetadataMap {
    entries: Vec<(String, String)>,
}

spec fn key_at(entries: Seq<(String, String)>, key: Seq<char>, i: int) -> bool {
    0 <= i < entries.len() && entries[i].0@ == key
}

spec fn distinct_keys(entries: Seq<(String, String)>) -> bool {
    forall|i: int, j: int| 0 <= i < j < entries.len() ==> entries[i].0@ != entries[j].0@
}

spec fn map_of(entries: Seq<(String, String)>) -> Map<Seq<char>, Seq<char>> {
    Map::new(
        |key: Seq<char>| exists|i: int| key_at(entries, key, i),
        |key: Seq<char>| entries[choose|i: int| key_at(entries, key, i)].1@,
    )
}

proof fn lemma_entry(entries: Seq<(String, String)>, key: Seq<char>, i: int)
    requires
        distinct_keys(entries),
        key_at(entries, key, i),
    ensures
        map_of(entries).contains_key(key),
        map_of(entries)[key] == entries[i].1@,
{
    let j = choose|j: int| key_at(entries, key, j);
    assert(key_at(entries, key, j));
    if i < j {
        assert(entries[i].0@ != entries[j].0@);
    }
    if j < i {
        assert(entries[j].0@ != entries[i].0@);
    }
}

proof fn lemma_size(entries: Seq<(String, String)>)
    requires
        distinct_keys(entries),
    ensures
        map_of(entries).dom().finite(),
        map_of(entries).dom().len() == entries.len(),
    decreases entries.len(),
{
    if entries.len() == 0 {
        assert(map_of(entries).dom() =~= Set::<Seq<char>>::empty());
    } else {
        let prev = entries.drop_last();
        let key = entries.last().0@;
        assert(distinct_keys(prev)) by {
            assert forall|i: int, j: int| 0 <= i < j < prev.len() implies prev[i].0@ != prev[j].0@ by {
                assert(entries[i].0@ != entries[j].0@);
            }
        }
        lemma_size(prev);
        assert(!map_of(prev).dom().contains(key)) by {
            if map_of(prev).dom().contains(key) {
                let i = choose|i: int| key_at(prev, key, i);
                assert(entries[i].0@ != entries[entries.len() - 1].0@);
            }
        }
        assert(map_of(entries).dom() =~= map_of(prev).dom().insert(key)) by {
            assert forall|k: Seq<char>| map_of(entries).dom().contains(k) implies map_of(
                prev,
            ).dom().insert(key).contains(k) by {
                let i = choose|i: int| key_at(entries, k, i);
                if i < prev.len() {
                    assert(key_at(prev, k, i));
                }
            }
            assert forall|k: Seq<char>| map_of(prev).dom().insert(key).contains(k) implies map_of(
                entries,
            ).dom().contains(k) by {
                if k == key {
                    assert(key_at(entries, k, entries.len() - 1));
                } else {
                    let i = choose|i: int| key_at(prev, k, i);
                    assert(key_at(entries, k, i));
                }
            }
        }
    }
}

impl View for MetadataMap {
    type V = Map<Seq<char>, Seq<char>>;

    closed spec fn view(&self) -> Map<Seq<char>, Seq<char>> {
        map_of(self.entries@)
    }
}

impl MetadataMap {
    #[verifier::type_invariant]
    spec fn well_formed(self) -> bool {
        distinct_keys(self.entries@)
    }

    /// The map without entries.
    pub fn new() -> (r: MetadataMap)
        ensures
            r@ == Map::<Seq<char>, Seq<char>>::empty(),
    {
        let r = MetadataMap { entries: Vec::new() };
        assert(r@ =~= Map::<Seq<char>, Seq<char>>::empty());
        r
    }

    fn find(&self, key: &str) -> (r: Option<usize>)
        ensures
            match r {
                Some(i) => key_at(self.entries@, key@, i as int),
                None => forall|i: int| !key_at(self.entries@, key@, i),
            },
    {
        let mut i: usize = 0;
        while i < self.entries.len()
            invariant
                i <= self.entries.len(),
                forall|j: int| 0 <= j < i ==> !key_at(self.entries@, key@, j),
            decreases self.entries.len() - i,
        {
            if text_eq(self.entries[i].0.as_str(), key) {
                return Some(i);
            }
            i += 1;
        }
        None
    }

    /// Sets the value of a key, in place of the value it had if it had one.
    pub fn insert(&mut self, key: String, value: String)
        ensures
            final(self)@ == old(self)@.insert(key@, value@),
    {
        proof {
            use_type_invariant(&*self);
        }
        let ghost before = self.entries@;
        let found = self.find(key.as_str());
        let mut entries: Vec<(String, String)> = Vec::new();
        core::mem::swap(&mut self.entries, &mut entries);
        match found {
            Some(i) => {
                entries.set(i, (key, value));
            },
            None => {
                entries.push((key, value));
            },
        }
        proof {
            let after = entries@;
            let at: int = match found {
                Some(i) => i as int,
                None => before.len() as int,
            };
            assert(distinct_keys(after)) by {
                assert forall|i: int, j: int| 0 <= i < j < after.len() implies after[i].0@
                    != after[j].0@ by {
                    if i != at && j != at {
                        assert(before[i].0@ != before[j].0@);
                    } else if found is None {
                        assert(!key_at(before, key@, i));
                    } else if i == at {
                        assert(before[at].0@ != before[j].0@);
                    } else {
                        assert(before[i].0@ != before[at].0@);
                    }
                }
            }
            assert forall|k: Seq<char>| #[trigger]
                map_of(after).contains_key(k) <==> map_of(before).insert(
                    key@,
                    value@,
                ).contains_key(k) by {
                if k == key@ {
                    assert(key_at(after, k, at));
                } else {
                    if map_of(after).contains_key(k) {
                        let i = choose|i: int| key_at(after, k, i);
                        assert(key_at(before, k, i));
                    }
                    if map_of(before).contains_key(k) {
                        let i = choose|i: int| key_at(before, k, i);
                        assert(key_at(after, k, i));
                    }
                }
            }
            assert forall|k: Seq<char>| #[trigger]
                map_of(after).contains_key(k) implies map_of(after)[k] == map_of(before).insert(
                key@,
                value@,
            )[k] by {
                if k == key@ {
                    lemma_entry(after, k, at);
                } else {
                    let i = choose|i: int| key_at(after, k, i);
                    assert(key_at(before, k, i));
                    lemma_entry(after, k, i);
                    lemma_entry(before, k, i);
                }
            }
            assert(map_of(after) =~= map_of(before).insert(key@, value@));
        }
        self.entries = entries;
    }

    /// The value of a key, if the map has the key.
    pub fn get(&self, key: &str) -> (r: Option<&String>)
        ensures
            match r {
                Some(value) => self@.contains_key(key@) && self@[key@] == value@,
                None => !self@.contains_key(key@),
            },
    {
        proof {
            use_type_invariant(self);
        }
        match self.find(key) {
            Some(i) => {
                proof {
                    lemma_entry(self.entries@, key@, i as int);
                }
                Some(&self.entries[i].1)
            },
            None => None,
        }
    }

    /// The number of keys.
    pub fn len(&self) -> (r: usize)
        ensures
            self@.dom().finite(),
            r == self@.len(),
    {
        proof {
            use_type_invariant(self);
            lemma_size(self.entries@);
        }
        self.entries.len()
    }

    /// Whether the map has no key.
    pub fn is_empty(&self) -> (r: bool)
        ensures
            r == (self@ == Map::<Seq<char>, Seq<char>>::empty()),
    {
        proof {
            use_type_invariant(self);
            if self.entries.len() > 0 {
                assert(key_at(self.entries@, self.entries@[0].0@, 0));
                assert(map_of(self.entries@).contains_key(self.entries@[0].0@));
            } else {
                assert(map_of(self.entries@) =~= Map::<Seq<char>, Seq<char>>::empty());
            }
        }
        self.entries.len() == 0
    }

    /// The keys, each once.
    pub fn keys(&self) -> (r: Vec<String>)
        ensures
            r.len() == self@.len(),
            forall|i: int| 0 <= i < r.len() ==> self@.contains_key(#[trigger] r[i]@),
            forall|i: int, j: int| 0 <= i < j < r.len() ==> r[i]@ != r[j]@,
    {
        proof {
            use_type_invariant(self);
            lemma_size(self.entries@);
        }
        let mut r: Vec<String> = Vec::new();
        let mut i: usize = 0;
        while i < self.entries.len()
            invariant
                i <= self.entries.len(),
                r.len() == i,
                forall|j: int| 0 <= j < i ==> (#[trigger] r[j]@) == self.entries@[j].0@,
            decreases self.entries.len() - i,
        {
            r.push(self.entries[i].0.clone());
            i += 1;
        }
        proof {
            assert forall|i: int| 0 <= i < r.len() implies self@.contains_key(#[trigger] r[i]@) by {
                assert(key_at(self.entries@, r[i]@, i));
            }
        }
        r
    }

    /// Whether the map has the key.
    pub fn contains_key(&self, key: &str) -> (r: bool)
        ensures
            r == self@.contains_key(key@),
    {
        self.get(key).is_some()
    }
}

} // verus!
