//! A map from strings to values, kept as a vector of entries with distinct keys.
//!
//! The services key nearly all of their state by strings (appservice ids,
//! session ids, user ids). `StrMap` gives those tables a mathematical model,
//! a `Map<Seq<char>, V>`, and proves each operation against it.
use vstd::prelude::*;
use vstd::string::*;

verus! {

/// A finite map from strings to `V`.
#[derive(Debug)]
pub struct StrMap<V> {
    entries: Vec<(String, V)>,
}

/// Index of the entry with key `k`, where there is one.
pub open spec fn key_at<V>(s: Seq<(String, V)>, i: int, k: Seq<char>) -> bool {
    0 <= i < s.len() && s[i].0@ == k
}

/// No two entries share a key.
pub open spec fn keys_distinct<V>(s: Seq<(String, V)>) -> bool {
    forall|i: int, j: int| 0 <= i < s.len() && 0 <= j < s.len() && i != j ==> s[i].0@ != s[j].0@
}

/// The map that a sequence of entries with distinct keys stands for.
pub open spec fn map_of<V>(s: Seq<(String, V)>) -> Map<Seq<char>, V> {
    Map::new(
        |k: Seq<char>| exists|i: int| key_at(s, i, k),
        |k: Seq<char>| s[choose|i: int| key_at(s, i, k)].1,
    )
}

/// Entries of a map with distinct keys: looking up an entry's key gives its value.
proof fn lemma_map_of_index<V>(s: Seq<(String, V)>, i: int)
    requires
        keys_distinct(s),
        0 <= i < s.len(),
    ensures
        map_of(s).contains_key(s[i].0@),
        map_of(s)[s[i].0@] == s[i].1,
{
    assert(key_at(s, i, s[i].0@));
    let j = choose|j: int| key_at(s, j, s[i].0@);
    assert(j == i);
}

/// The domain of `map_of(s)` is finite and has as many keys as `s` has entries.
proof fn lemma_map_of_len<V>(s: Seq<(String, V)>)
    requires
        keys_distinct(s),
    ensures
        map_of(s).dom().finite(),
        map_of(s).dom().len() == s.len(),
    decreases s.len(),
{
    if s.len() == 0 {
        assert(map_of(s).dom() =~= Set::<Seq<char>>::empty());
    } else {
        let t = s.drop_last();
        let k = s.last().0@;
        lemma_map_of_len(t);
        assert(map_of(s).dom() =~= map_of(t).dom().insert(k)) by {
            assert forall|x: Seq<char>| map_of(s).dom().contains(x) implies map_of(t).dom().insert(
                k,
            ).contains(x) by {
                let i = choose|i: int| key_at(s, i, x);
                if i < s.len() - 1 {
                    assert(key_at(t, i, x));
                }
            }
            assert forall|x: Seq<char>| map_of(t).dom().insert(k).contains(x) implies map_of(
                s,
            ).dom().contains(x) by {
                if x == k {
                    assert(key_at(s, s.len() - 1, x));
                } else {
                    let i = choose|i: int| key_at(t, i, x);
                    assert(key_at(s, i, x));
                }
            }
        }
        assert(!map_of(t).dom().contains(k)) by {
            if map_of(t).dom().contains(k) {
                let i = choose|i: int| key_at(t, i, k);
                assert(s[i].0@ == s[s.len() - 1].0@);
            }
        }
    }
}

impl<V> View for StrMap<V> {
    type V = Map<Seq<char>, V>;

    closed spec fn view(&self) -> Map<Seq<char>, V> {
        map_of(self.entries@)
    }
}

impl<V> StrMap<V> {
    /// The entries, in the order the map keeps them.
    pub closed spec fn entries_seq(&self) -> Seq<(String, V)> {
        self.entries@
    }

    /// Well-formedness: keys are distinct.
    pub open spec fn wf(&self) -> bool {
        keys_distinct(self.entries_seq())
    }

    /// The number of keys.
    pub open spec fn spec_len(&self) -> nat {
        self.entries_seq().len()
    }

    /// The view is `map_of` the entries.
    pub proof fn lemma_view(&self)
        ensures
            self@ == map_of(self.entries_seq()),
    {
    }

    /// A well-formed map has a finite domain with `spec_len` keys.
    pub proof fn lemma_len(&self)
        requires
            self.wf(),
        ensures
            self@.dom().finite(),
            self@.dom().len() == self.spec_len(),
    {
        lemma_map_of_len(self.entries@);
    }

    /// An empty map.
    pub fn new() -> (m: Self)
        ensures
            m.wf(),
            m@ == Map::<Seq<char>, V>::empty(),
            m.spec_len() == 0,
    {
        let m = StrMap { entries: Vec::new() };
        assert(m@ =~= Map::<Seq<char>, V>::empty());
        m
    }

    /// The number of keys.
    pub fn len(&self) -> (n: usize)
        requires
            self.wf(),
        ensures
            n == self.spec_len(),
            n == self@.dom().len(),
    {
        proof {
            lemma_map_of_len(self.entries@);
        }
        self.entries.len()
    }

    /// Position of key `k`, if present.
    fn find(&self, k: &str) -> (r: Option<usize>)
        requires
            self.wf(),
        ensures
            match r {
                Some(i) => i < self.entries@.len() && self.entries@[i as int].0@ == k@,
                None => !self@.contains_key(k@),
            },
    {
        let n = self.entries.len();
        let key = String::from_str(k);
        let mut i: usize = 0;
        while i < n
            invariant
                n == self.entries@.len(),
                key@ == k@,
                i <= n,
                forall|j: int| 0 <= j < i ==> self.entries@[j].0@ != k@,
            decreases n - i,
        {
            if self.entries[i].0 == key {
                return Some(i);
            }
            i = i + 1;
        }
        assert(!self@.contains_key(k@)) by {
            if self@.contains_key(k@) {
                let j = choose|j: int| key_at(self.entries@, j, k@);
                assert(self.entries@[j].0@ != k@);
            }
        }
        None
    }

    /// Position of key `k` among the entries, if present.
    pub fn index_of(&self, k: &str) -> (r: Option<usize>)
        requires
            self.wf(),
        ensures
            match r {
                Some(i) => i < self.spec_len() && self.entries_seq()[i as int].0@ == k@ && self@.contains_key(k@)
                    && self@[k@] == self.entries_seq()[i as int].1,
                None => !self@.contains_key(k@),
            },
    {
        let r = self.find(k);
        match r {
            Some(i) => {
                proof {
                    lemma_map_of_index(self.entries@, i as int);
                }
            },
            None => {},
        }
        r
    }

    /// Whether key `k` is present.
    pub fn contains_key(&self, k: &str) -> (r: bool)
        requires
            self.wf(),
        ensures
            r == self@.contains_key(k@),
    {
        match self.find(k) {
            Some(i) => {
                proof {
                    lemma_map_of_index(self.entries@, i as int);
                }
                true
            },
            None => false,
        }
    }

    /// The value stored under `k`, if any.
    pub fn get(&self, k: &str) -> (r: Option<&V>)
        requires
            self.wf(),
        ensures
            match r {
                Some(v) => self@.contains_key(k@) && *v == self@[k@],
                None => !self@.contains_key(k@),
            },
    {
        match self.find(k) {
            Some(i) => {
                proof {
                    lemma_map_of_index(self.entries@, i as int);
                }
                Some(&self.entries[i].1)
            },
            None => None,
        }
    }

    /// Sets the value under `k`, adding the key if it is new.
    pub fn insert(&mut self, k: &str, v: V)
        requires
            old(self).wf(),
        ensures
            final(self).wf(),
            final(self)@ == old(self)@.insert(k@, v),
    {
        let ghost old_map = self@;
        match self.find(k) {
            Some(i) => {
                let key = String::from_str(k);
                let ghost s0 = self.entries@;
                self.entries.set(i, (key, v));
                let ghost s1 = self.entries@;
                proof {
                    assert(keys_distinct(s1)) by {
                        assert forall|a: int, b: int|
                            0 <= a < s1.len() && 0 <= b < s1.len() && a != b implies s1[a].0@
                            != s1[b].0@ by {
                            assert(s1[a].0@ == s0[a].0@);
                            assert(s1[b].0@ == s0[b].0@);
                        }
                    }
                    assert forall|x: Seq<char>| #[trigger] map_of(s1).contains_key(x) == old_map.insert(k@, v).contains_key(x) by {
                        if map_of(s1).contains_key(x) {
                            let j = choose|j: int| key_at(s1, j, x);
                            assert(key_at(s0, j, x));
                        }
                        if old_map.contains_key(x) {
                            let j = choose|j: int| key_at(s0, j, x);
                            assert(key_at(s1, j, x));
                        }
                        if x == k@ {
                            assert(key_at(s1, i as int, x));
                        }
                    }
                    assert forall|x: Seq<char>| #[trigger] map_of(s1).contains_key(x) implies map_of(s1)[x] == old_map.insert(k@, v)[x] by {
                        let j = choose|j: int| key_at(s1, j, x);
                        lemma_map_of_index(s1, j);
                        if j != i {
                            assert(key_at(s0, j, x));
                            lemma_map_of_index(s0, j);
                        }
                    }
                    assert(map_of(s1) =~= old_map.insert(k@, v));
                }
            },
            None => {
                let key = String::from_str(k);
                let ghost s0 = self.entries@;
                self.entries.push((key, v));
                let ghost s1 = self.entries@;
                proof {
                    assert(keys_distinct(s1)) by {
                        assert forall|a: int, b: int|
                            0 <= a < s1.len() && 0 <= b < s1.len() && a != b implies s1[a].0@
                            != s1[b].0@ by {
                            if a == s0.len() as int {
                                assert(!key_at(s0, b, k@));
                            } else if b == s0.len() as int {
                                assert(!key_at(s0, a, k@));
                            } else {
                                assert(s1[a] == s0[a]);
                                assert(s1[b] == s0[b]);
                            }
                        }
                    }
                    assert forall|x: Seq<char>| #[trigger] map_of(s1).contains_key(x) == old_map.insert(k@, v).contains_key(x) by {
                        if map_of(s1).contains_key(x) {
                            let j = choose|j: int| key_at(s1, j, x);
                            if j < s0.len() {
                                assert(key_at(s0, j, x));
                            }
                        }
                        if old_map.contains_key(x) {
                            let j = choose|j: int| key_at(s0, j, x);
                            assert(key_at(s1, j, x));
                        }
                        if x == k@ {
                            assert(key_at(s1, s0.len() as int, x));
                        }
                    }
                    assert forall|x: Seq<char>| #[trigger] map_of(s1).contains_key(x) implies map_of(s1)[x] == old_map.insert(k@, v)[x] by {
                        let j = choose|j: int| key_at(s1, j, x);
                        lemma_map_of_index(s1, j);
                        if j < s0.len() {
                            assert(key_at(s0, j, x));
                            lemma_map_of_index(s0, j);
                        }
                    }
                    assert(map_of(s1) =~= old_map.insert(k@, v));
                }
            },
        }
    }

    /// Removes the entry under `k`, returning its value if it was present.
    pub fn remove(&mut self, k: &str) -> (r: Option<V>)
        requires
            old(self).wf(),
        ensures
            final(self).wf(),
            final(self)@ == old(self)@.remove(k@),
            match r {
                Some(v) => old(self)@.contains_key(k@) && v == old(self)@[k@],
                None => !old(self)@.contains_key(k@),
            },
    {
        let ghost old_map = self@;
        match self.find(k) {
            Some(i) => {
                let ghost s0 = self.entries@;
                proof {
                    lemma_map_of_index(s0, i as int);
                }
                let (_key, v) = self.entries.remove(i);
                let ghost s1 = self.entries@;
                proof {
                    assert(s1 == s0.remove(i as int));
                    assert(keys_distinct(s1)) by {
                        assert forall|a: int, b: int|
                            0 <= a < s1.len() && 0 <= b < s1.len() && a != b implies s1[a].0@
                            != s1[b].0@ by {
                            let a0 = if a < i { a } else { a + 1 };
                            let b0 = if b < i { b } else { b + 1 };
                            assert(s1[a] == s0[a0]);
                            assert(s1[b] == s0[b0]);
                        }
                    }
                    assert forall|x: Seq<char>| #[trigger] map_of(s1).contains_key(x) == old_map.remove(k@).contains_key(x) by {
                        if map_of(s1).contains_key(x) {
                            let j = choose|j: int| key_at(s1, j, x);
                            let j0 = if j < i { j } else { j + 1 };
                            assert(s1[j] == s0[j0]);
                            assert(key_at(s0, j0, x));
                            assert(j0 != i);
                        }
                        if old_map.remove(k@).contains_key(x) {
                            let j = choose|j: int| key_at(s0, j, x);
                            assert(j != i);
                            let j1 = if j < i { j } else { j - 1 };
                            assert(s1[j1] == s0[j]);
                            assert(key_at(s1, j1, x));
                        }
                    }
                    assert forall|x: Seq<char>| #[trigger] map_of(s1).contains_key(x) implies map_of(s1)[x] == old_map.remove(k@)[x] by {
                        let j = choose|j: int| key_at(s1, j, x);
                        lemma_map_of_index(s1, j);
                        let j0 = if j < i { j } else { j + 1 };
                        assert(s1[j] == s0[j0]);
                        lemma_map_of_index(s0, j0);
                    }
                    assert(map_of(s1) =~= old_map.remove(k@));
                }
                Some(v)
            },
            None => {
                assert(self@ =~= old_map.remove(k@));
                None
            },
        }
    }

    /// Removes every entry.
    pub fn clear(&mut self)
        ensures
            final(self).wf(),
            final(self)@ == Map::<Seq<char>, V>::empty(),
            final(self).spec_len() == 0,
    {
        self.entries.clear();
        assert(self@ =~= Map::<Seq<char>, V>::empty());
    }

    /// The key of the `i`-th entry, for iterating over the map.
    pub fn key_at_index(&self, i: usize) -> (r: &String)
        requires
            i < self.spec_len(),
        ensures
            *r == self.entries_seq()[i as int].0,
    {
        &self.entries[i].0
    }

    /// The value of the `i`-th entry, for iterating over the map.
    pub fn value_at_index(&self, i: usize) -> (r: &V)
        requires
            i < self.spec_len(),
        ensures
            *r == self.entries_seq()[i as int].1,
    {
        &self.entries[i].1
    }

    /// Keeps exactly the entries whose value satisfies `pred`; `keep[i]` must
    /// be `pred` of the `i`-th entry's value. Returns how many entries it removed.
    pub fn retain_marked(&mut self, keep: &Vec<bool>, Ghost(pred): Ghost<spec_fn(V) -> bool>) -> (removed: usize)
        requires
            old(self).wf(),
            keep@.len() == old(self).spec_len(),
            forall|i: int| 0 <= i < keep@.len() ==> keep@[i] == pred(#[trigger] old(self).entries_seq()[i].1),
        ensures
            final(self).wf(),
            forall|k: Seq<char>| #[trigger] final(self)@.contains_key(k) == (old(self)@.contains_key(k) && pred(old(self)@[k])),
            forall|k: Seq<char>| #[trigger] final(self)@.contains_key(k) ==> final(self)@[k] == old(self)@[k],
            removed as nat + final(self).spec_len() == old(self).spec_len(),
    {
        let ghost s0 = self.entries@;
        let ghost old_map = self@;
        let mut src: Vec<(String, V)> = Vec::new();
        std::mem::swap(&mut src, &mut self.entries);
        let mut kept: Vec<(String, V)> = Vec::new();
        let ghost mut origin: Seq<int> = Seq::empty();
        let n = src.len();
        let mut removed: usize = 0;
        while src.len() > 0
            invariant
                keys_distinct(s0),
                n == s0.len(),
                keep@.len() == n,
                forall|i: int| 0 <= i < n ==> keep@[i] == pred(#[trigger] s0[i].1),
                src@.len() <= n,
                forall|j: int| 0 <= j < src@.len() ==> src@[j] == s0[j],
                origin.len() == kept@.len(),
                forall|t: int| 0 <= t < origin.len() ==> src@.len() <= #[trigger] origin[t] < n && keep@[origin[t]] && kept@[t] == s0[origin[t]],
                forall|t1: int, t2: int| 0 <= t1 < t2 < origin.len() ==> origin[t1] > origin[t2],
                forall|j: int| src@.len() <= j < n && keep@[j] ==> exists|t: int| 0 <= t < origin.len() && #[trigger] origin[t] == j,
                removed + kept@.len() + src@.len() == n,
            decreases src@.len(),
        {
            let ghost j = (src@.len() - 1) as int;
            let e = src.pop().unwrap();
            if keep[src.len()] {
                kept.push(e);
                proof {
                    let old_origin = origin;
                    origin = origin.push(j);
                    assert forall|jj: int| src@.len() <= jj < n && keep@[jj] implies exists|t: int| 0 <= t < origin.len() && #[trigger] origin[t] == jj by {
                        if jj == j {
                            assert(origin[origin.len() - 1] == jj);
                        } else {
                            let t = choose|t: int| 0 <= t < old_origin.len() && #[trigger] old_origin[t] == jj;
                            assert(origin[t] == jj);
                        }
                    }
                }
            } else {
                removed = removed + 1;
                proof {
                    assert forall|jj: int| src@.len() <= jj < n && keep@[jj] implies exists|t: int| 0 <= t < origin.len() && #[trigger] origin[t] == jj by {
                        assert(jj != j);
                    }
                }
            }
        }
        self.entries = kept;
        proof {
            let s1 = self.entries@;
            assert(keys_distinct(s1)) by {
                assert forall|a: int, b: int| 0 <= a < s1.len() && 0 <= b < s1.len() && a != b implies s1[a].0@ != s1[b].0@ by {
                    assert(origin[a] != origin[b]) by {
                        if a < b {
                            assert(origin[a] > origin[b]);
                        } else {
                            assert(origin[b] > origin[a]);
                        }
                    }
                    assert(s1[a] == s0[origin[a]]);
                    assert(s1[b] == s0[origin[b]]);
                }
            }
            assert forall|k: Seq<char>| #[trigger] map_of(s1).contains_key(k) == (old_map.contains_key(k) && pred(old_map[k])) by {
                if map_of(s1).contains_key(k) {
                    let t = choose|t: int| key_at(s1, t, k);
                    let j = origin[t];
                    assert(key_at(s0, j, k));
                    lemma_map_of_index(s0, j);
                }
                if old_map.contains_key(k) && pred(old_map[k]) {
                    let j = choose|j: int| key_at(s0, j, k);
                    lemma_map_of_index(s0, j);
                    assert(keep@[j]);
                    let t = choose|t: int| 0 <= t < origin.len() && #[trigger] origin[t] == j;
                    assert(key_at(s1, t, k));
                }
            }
            assert forall|k: Seq<char>| #[trigger] map_of(s1).contains_key(k) implies map_of(s1)[k] == old_map[k] by {
                let t = choose|t: int| key_at(s1, t, k);
                lemma_map_of_index(s1, t);
                let j = origin[t];
                assert(key_at(s0, j, k));
                lemma_map_of_index(s0, j);
            }
        }
        removed
    }

    /// Replaces the value of the `i`-th entry, keeping its key and place.
    pub fn set_value_at_index(&mut self, i: usize, v: V)
        requires
            old(self).wf(),
            i < old(self).spec_len(),
        ensures
            final(self).wf(),
            final(self).entries_seq() == old(self).entries_seq().update(i as int, (old(self).entries_seq()[i as int].0, v)),
            final(self)@ == old(self)@.insert(old(self).entries_seq()[i as int].0@, v),
    {
        let ghost old_map = self@;
        let ghost k = self.entries@[i as int].0@;
        let key = self.entries[i].0.clone();
        let ghost s0 = self.entries@;
        self.entries.set(i, (key, v));
        let ghost s1 = self.entries@;
        proof {
            assert(keys_distinct(s1)) by {
                assert forall|a: int, b: int|
                    0 <= a < s1.len() && 0 <= b < s1.len() && a != b implies s1[a].0@ != s1[b].0@ by {
                    assert(s1[a].0@ == s0[a].0@);
                    assert(s1[b].0@ == s0[b].0@);
                }
            }
            assert forall|x: Seq<char>| #[trigger] map_of(s1).contains_key(x) == old_map.insert(k, v).contains_key(x) by {
                if map_of(s1).contains_key(x) {
                    let j = choose|j: int| key_at(s1, j, x);
                    assert(key_at(s0, j, x));
                }
                if old_map.contains_key(x) {
                    let j = choose|j: int| key_at(s0, j, x);
                    assert(key_at(s1, j, x));
                }
                if x == k {
                    assert(key_at(s1, i as int, x));
                }
            }
            assert forall|x: Seq<char>| #[trigger] map_of(s1).contains_key(x) implies map_of(s1)[x] == old_map.insert(k, v)[x] by {
                let j = choose|j: int| key_at(s1, j, x);
                lemma_map_of_index(s1, j);
                if j != i {
                    assert(key_at(s0, j, x));
                    lemma_map_of_index(s0, j);
                }
            }
            assert(map_of(s1) =~= old_map.insert(k, v));
            assert(s1 =~= s0.update(i as int, (s0[i as int].0, v)));
        }
    }

    /// The `i`-th entry belongs to the map.
    pub proof fn lemma_entry_in_map(&self, i: int)
        requires
            self.wf(),
            0 <= i < self.spec_len(),
        ensures
            self@.contains_key(self.entries_seq()[i].0@),
            self@[self.entries_seq()[i].0@] == self.entries_seq()[i].1,
    {
        lemma_map_of_index(self.entries@, i);
    }

    /// Every key of the map is the key of some entry.
    pub proof fn lemma_key_has_entry(&self, k: Seq<char>) -> (i: int)
        requires
            self.wf(),
            self@.contains_key(k),
        ensures
            0 <= i < self.spec_len(),
            self.entries_seq()[i].0@ == k,
    {
        choose|i: int| key_at(self.entries@, i, k)
    }
}

} // verus!
