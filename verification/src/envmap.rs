//! The environment that is handed to the callee: variable names and their values.
use vstd::prelude::*;

verus! {

/// Whether `k` is the name of one of `entries`, found at index `i`.
pub open spec fn names_at(entries: Seq<(String, String)>, k: Seq<char>, i: int) -> bool {
    0 <= i < entries.len() && entries[i].0@ == k
}

/// Whether no two of `entries` have the same name.
pub open spec fn names_differ(entries: Seq<(String, String)>) -> bool {
    forall|i: int, j: int|
        0 <= i < j < entries.len() ==> #[trigger] entries[i].0@ != #[trigger] entries[j].0@
}

/// Whether one of the first `n` of `pairs` bears the name `k`.
pub open spec fn named_among(pairs: Seq<(String, String)>, n: int, k: Seq<char>) -> bool {
    exists|i: int| 0 <= i < n && i < pairs.len() && (#[trigger] pairs[i]).0@ == k
}

/// Whether the pair at `i` is the last of the first `n` of `pairs` that bears its name.
pub open spec fn last_of_name(pairs: Seq<(String, String)>, n: int, i: int) -> bool {
    &&& 0 <= i < n
    &&& i < pairs.len()
    &&& forall|j: int| i < j < n && j < pairs.len() ==> (#[trigger] pairs[j]).0@ != pairs[i].0@
}

/// The names of `pairs` in the order in which each first occurs.
pub open spec fn first_names(pairs: Seq<(String, String)>) -> Seq<Seq<char>>
    decreases pairs.len(),
{
    if pairs.len() == 0 {
        Seq::empty()
    } else {
        let before = first_names(pairs.drop_last());
        if before.contains(pairs.last().0@) {
            before
        } else {
            before.push(pairs.last().0@)
        }
    }
}

/// An owned mapping of variable names to values. Each name occurs once. The variables are
/// kept in the order in which their names first came, so that they can be told one by one
/// by their index.
#[derive(Debug)]
pub struct EnvMap {
    entries: Vec<(String, String)>,
}

impl View for EnvMap {
    type V = Map<Seq<char>, Seq<char>>;

    /// The value of each name.
    closed spec fn view(&self) -> Map<Seq<char>, Seq<char>> {
        Map::new(
            |k: Seq<char>| exists|i: int| names_at(self.entries@, k, i),
            |k: Seq<char>| self.entries@[choose|i: int| names_at(self.entries@, k, i)].1@,
        )
    }
}

impl EnvMap {
    /// No name occurs twice. Every map that this module makes is well formed, and every
    /// operation keeps it so.
    pub closed spec fn wf(&self) -> bool {
        names_differ(self.entries@)
    }

    /// The names in the order of their indices.
    pub closed spec fn spec_keys(&self) -> Seq<Seq<char>> {
        Seq::new(self.entries@.len(), |i: int| self.entries@[i].0@)
    }

    proof fn lemma_entry(&self, i: int)
        requires
            self.wf(),
            0 <= i < self.entries@.len(),
        ensures
            self@.contains_key(self.entries@[i].0@),
            self@[self.entries@[i].0@] == self.entries@[i].1@,
    {
        assert(names_at(self.entries@, self.entries@[i].0@, i));
    }

    /// The names are those that have a value, each told once.
    pub proof fn lemma_keys(&self)
        requires
            self.wf(),
        ensures
            self.spec_keys().no_duplicates(),
            forall|k: Seq<char>| self.spec_keys().contains(k) <==> self@.contains_key(k),
    {
        let keys = self.spec_keys();
        assert forall|k: Seq<char>| keys.contains(k) <==> self@.contains_key(k) by {
            if keys.contains(k) {
                let i = choose|i: int| 0 <= i < keys.len() && keys[i] == k;
                assert(names_at(self.entries@, k, i));
            }
            if self@.contains_key(k) {
                let i = choose|i: int| names_at(self.entries@, k, i);
                assert(keys[i] == k);
            }
        }
    }

    /// A map without variables.
    pub fn new() -> (map: EnvMap)
        ensures
            map.wf(),
            map@ == Map::<Seq<char>, Seq<char>>::empty(),
            map.spec_keys() == Seq::<Seq<char>>::empty(),
    {
        EnvMap { entries: Vec::new() }
    }

    /// The map of a list of variables: a name is in the map exactly when some pair bears
    /// it, its value is that of the last pair that bears it, and the names keep the order
    /// in which each first occurs.
    pub fn from_pairs(pairs: Vec<(String, String)>) -> (map: EnvMap)
        ensures
            map.wf(),
            forall|k: Seq<char>| map@.contains_key(k) <==> named_among(pairs@, pairs@.len() as int, k),
            forall|i: int| #[trigger]
                last_of_name(pairs@, pairs@.len() as int, i) ==> map@[pairs@[i].0@]
                    == pairs@[i].1@,
            map.spec_keys() == first_names(pairs@),
    {
        let mut map = EnvMap::new();
        let mut n: usize = 0;
        while n < pairs.len()
            invariant
                n <= pairs@.len(),
                map.wf(),
                forall|k: Seq<char>| map@.contains_key(k) <==> named_among(pairs@, n as int, k),
                forall|i: int| #[trigger]
                    last_of_name(pairs@, n as int, i) ==> map@[pairs@[i].0@] == pairs@[i].1@,
                map.spec_keys() == first_names(pairs@.take(n as int)),
            decreases pairs@.len() - n,
        {
            let ghost before = map;
            let key = pairs[n].0.clone();
            let value = pairs[n].1.clone();
            proof {
                before.lemma_keys();
                assert(pairs@.take(n + 1).drop_last() =~= pairs@.take(n as int));
            }
            map.insert(key, value);
            proof {
                assert forall|i: int| #[trigger] last_of_name(pairs@, n + 1, i) implies map@[pairs@[i].0@]
                    == pairs@[i].1@ by {
                    if i < n {
                        assert(last_of_name(pairs@, n as int, i));
                    }
                }
            }
            n += 1;
        }
        proof {
            assert(pairs@.take(n as int) =~= pairs@);
        }
        map
    }

    /// How many variables the map holds.
    pub fn len(&self) -> (n: usize)
        ensures
            n == self.spec_keys().len(),
    {
        self.entries.len()
    }

    fn find(&self, key: &String) -> (found: Option<usize>)
        requires
            self.wf(),
        ensures
            found is Some == self@.contains_key(key@),
            found is Some ==> names_at(self.entries@, key@, found->0 as int),
    {
        let mut i: usize = 0;
        while i < self.entries.len()
            invariant
                i <= self.entries@.len(),
                forall|j: int| 0 <= j < i ==> self.entries@[j].0@ != key@,
            decreases self.entries@.len() - i,
        {
            if self.entries[i].0 == *key {
                assert(names_at(self.entries@, key@, i as int));
                return Some(i);
            }
            i += 1;
        }
        None
    }

    /// Gives `key` the value `value`. A name that the map holds keeps its index; a new name
    /// gets the next one. Returns the value that the name had before.
    pub fn insert(&mut self, key: String, value: String) -> (before: Option<String>)
        requires
            old(self).wf(),
        ensures
            final(self).wf(),
            final(self)@ == old(self)@.insert(key@, value@),
            before is Some == old(self)@.contains_key(key@),
            before is Some ==> before->0@ == old(self)@[key@],
            final(self).spec_keys() == (if old(self)@.contains_key(key@) {
                old(self).spec_keys()
            } else {
                old(self).spec_keys().push(key@)
            }),
    {
        match self.find(&key) {
            Some(i) => {
                proof {
                    old(self).lemma_entry(i as int);
                }
                let mut entry = (key, value);
                std::mem::swap(&mut self.entries[i], &mut entry);
                proof {
                    assert forall|k: Seq<char>| #[trigger]
                        self@.contains_key(k) == old(self)@.insert(key@, value@).contains_key(
                            k,
                        ) by {
                        if self@.contains_key(k) {
                            let c = choose|c: int| names_at(self.entries@, k, c);
                            assert(names_at(old(self).entries@, k, c));
                        }
                        if old(self)@.contains_key(k) {
                            let c = choose|c: int| names_at(old(self).entries@, k, c);
                            assert(names_at(self.entries@, k, c));
                        }
                    }
                }
                Some(entry.1)
            },
            None => {
                self.entries.push((key, value));
                proof {
                    let n = old(self).entries@.len() as int;
                    assert(names_differ(self.entries@)) by {
                        assert forall|a: int, b: int| 0 <= a < b < self.entries@.len() implies (
                        #[trigger] self.entries@[a].0@) != (#[trigger] self.entries@[b].0@) by {
                            if b == n && old(self).entries@[a].0@ == key@ {
                                assert(names_at(old(self).entries@, key@, a));
                            }
                        }
                    }
                    assert(names_at(self.entries@, key@, n));
                    assert forall|k: Seq<char>| #[trigger]
                        self@.contains_key(k) == old(self)@.insert(key@, value@).contains_key(
                            k,
                        ) by {
                        if self@.contains_key(k) && k != key@ {
                            let c = choose|c: int| names_at(self.entries@, k, c);
                            assert(names_at(old(self).entries@, k, c));
                        }
                        if old(self)@.contains_key(k) {
                            let c = choose|c: int| names_at(old(self).entries@, k, c);
                            assert(names_at(self.entries@, k, c));
                        }
                    }
                }
                None
            },
        }
    }

    /// The value of `key`, in a string of the caller's own, or `None` where the map has no
    /// such name.
    pub fn get(&self, key: &str) -> (value: Option<String>)
        requires
            self.wf(),
        ensures
            value is Some == self@.contains_key(key@),
            value is Some ==> value->0@ == self@[key@],
    {
        let owned = key.to_owned();
        match self.find(&owned) {
            Some(i) => {
                proof {
                    self.lemma_entry(i as int);
                }
                Some(self.entries[i].1.clone())
            },
            None => None,
        }
    }

    /// The name at `index`, in a string of the caller's own, or `None` where the map has
    /// no such index: the map reports its end and never its length.
    pub fn key_at(&self, index: usize) -> (key: Option<String>)
        ensures
            key is Some == (index < self.spec_keys().len()),
            key is Some ==> key->0@ == self.spec_keys()[index as int],
    {
        if index < self.entries.len() {
            Some(self.entries[index].0.clone())
        } else {
            None
        }
    }
}

} // verus!
