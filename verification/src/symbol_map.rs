//! Maps keyed by text (symbols, currencies), holding each key once.
//!
//! Entries keep the order in which their keys were first inserted; sums and
//! scans over a map go through the entries in that order.
use vstd::prelude::*;
use vstd::string::*;
use crate::text::str_eq;

verus! {

/// The entries of a map, each key with its text.
pub type Entries<V> = Seq<(Seq<char>, V)>;

pub open spec fn distinct_keys<V>(s: Entries<V>) -> bool {
    forall|i: int, j: int| 0 <= i < j < s.len() ==> s[i].0 != s[j].0
}

pub open spec fn has_key<V>(s: Entries<V>, k: Seq<char>) -> bool {
    exists|i: int| 0 <= i < s.len() && s[i].0 == k
}

/// The position of key `k`, where it is present.
pub open spec fn key_index<V>(s: Entries<V>, k: Seq<char>) -> int {
    choose|i: int| 0 <= i < s.len() && s[i].0 == k
}

/// The value stored under `k`, if any.
pub open spec fn lookup<V>(s: Entries<V>, k: Seq<char>) -> Option<V> {
    if has_key(s, k) {
        Some(s[key_index(s, k)].1)
    } else {
        None
    }
}

/// Inserting a key: its value is replaced in place, or it is appended.
pub open spec fn insert_entry<V>(s: Entries<V>, k: Seq<char>, v: V) -> Entries<V> {
    if has_key(s, k) {
        s.update(key_index(s, k), (k, v))
    } else {
        s.push((k, v))
    }
}

/// A map from text keys to values.
#[derive(Debug)]
pub struct TextMap<V> {
    entries: Vec<(String, V)>,
}

impl<V> View for TextMap<V> {
    type V = Entries<V>;

    closed spec fn view(&self) -> Entries<V> {
        self.entries@.map_values(|e: (String, V)| (e.0@, e.1))
    }
}

impl<V> TextMap<V> {
    #[verifier::type_invariant]
    spec fn keys_distinct(self) -> bool {
        distinct_keys(self.view())
    }

    pub fn new() -> (r: TextMap<V>)
        ensures
            r.view() == Seq::<(Seq<char>, V)>::empty(),
    {
        let r = TextMap { entries: Vec::new() };
        assert(r.view() =~= Seq::<(Seq<char>, V)>::empty());
        r
    }

    pub fn len(&self) -> (r: usize)
        ensures
            r == self.view().len(),
    {
        self.entries.len()
    }

    /// The entries have distinct keys.
    pub fn keys_are_distinct(&self)
        ensures
            distinct_keys(self.view()),
    {
        proof {
            use_type_invariant(self);
        }
    }

    pub fn key_at(&self, i: usize) -> (r: &String)
        requires
            i < self.view().len(),
        ensures
            r@ == self.view()[i as int].0,
    {
        &self.entries[i].0
    }

    pub fn value_at(&self, i: usize) -> (r: &V)
        requires
            i < self.view().len(),
        ensures
            *r == self.view()[i as int].1,
    {
        &self.entries[i].1
    }

    /// The position of `key`, if present.
    pub fn find(&self, key: &str) -> (r: Option<usize>)
        ensures
            r is None <==> !has_key(self.view(), key@),
            r matches Some(i) ==> i == key_index(self.view(), key@) && i < self.view().len()
                && self.view()[i as int].0 == key@,
    {
        proof {
            use_type_invariant(self);
        }
        let n = self.entries.len();
        let mut i: usize = 0;
        while i < n
            invariant
                n == self.entries@.len(),
                n == self.view().len(),
                distinct_keys(self.view()),
                i <= n,
                forall|k: int| 0 <= k < i ==> self.view()[k].0 != key@,
            decreases n - i,
        {
            if str_eq(self.entries[i].0.as_str(), key) {
                proof {
                    assert(self.view()[i as int].0 == key@);
                    let j = key_index(self.view(), key@);
                    assert(0 <= j < self.view().len() && self.view()[j].0 == key@);
                    assert(j == i) by {
                        if j < i {
                        } else if j > i {
                            assert(distinct_keys(self.view()));
                        }
                    }
                }
                return Some(i);
            }
            i = i + 1;
        }
        None
    }

    /// `HashMap::get`: the value under `key`, if present.
    pub fn get(&self, key: &str) -> (r: Option<&V>)
        ensures
            match r {
                Some(v) => lookup(self.view(), key@) == Some(*v),
                None => lookup(self.view(), key@) is None,
            },
    {
        match self.find(key) {
            Some(i) => Some(&self.entries[i].1),
            None => None,
        }
    }

    pub fn contains_key(&self, key: &str) -> (r: bool)
        ensures
            r == has_key(self.view(), key@),
    {
        self.find(key).is_some()
    }

    /// Replaces the value of the `i`-th entry, keeping its key.
    pub fn set_value(&mut self, i: usize, value: V)
        requires
            i < old(self).view().len(),
        ensures
            final(self).view() == old(self).view().update(i as int, (old(self).view()[i as int].0, value)),
    {
        proof {
            use_type_invariant(&*self);
        }
        let ghost old_view = self.view();
        let mut entries: Vec<(String, V)> = Vec::new();
        std::mem::swap(&mut entries, &mut self.entries);
        assert(entries@.map_values(|e: (String, V)| (e.0@, e.1)) == old_view);
        let mut slot: (String, V) = entries.remove(i);
        let ghost k = slot.0@;
        slot.1 = value;
        entries.insert(i, slot);
        assert(entries@.map_values(|e: (String, V)| (e.0@, e.1)) =~= old_view.update(
            i as int,
            (k, value),
        ));
        self.entries = entries;
    }

    /// `HashMap::insert`: the value under `key` becomes `value`.
    pub fn insert(&mut self, key: String, value: V)
        ensures
            final(self).view() == insert_entry(old(self).view(), key@, value),
    {
        proof {
            use_type_invariant(&*self);
        }
        let ghost old_view = self.view();
        let found = self.find(key.as_str());
        let ghost k = key@;
        let mut entries: Vec<(String, V)> = Vec::new();
        std::mem::swap(&mut entries, &mut self.entries);
        assert(entries@.map_values(|e: (String, V)| (e.0@, e.1)) == old_view);
        match found {
            Some(i) => {
                entries.set(i, (key, value));
                assert(entries@.map_values(|e: (String, V)| (e.0@, e.1)) =~= old_view.update(
                    i as int,
                    (k, value),
                ));
            },
            None => {
                entries.push((key, value));
                assert(entries@.map_values(|e: (String, V)| (e.0@, e.1)) =~= old_view.push(
                    (k, value),
                ));
            },
        }
        self.entries = entries;
    }

    /// `HashMap::remove`: takes the entry of `key` out, if present, and
    /// gives its value back; the other entries keep their order.
    pub fn remove(&mut self, key: &str) -> (r: Option<V>)
        ensures
            final(self).view() == remove_entry(old(self).view(), key@),
            r == lookup(old(self).view(), key@),
    {
        proof {
            use_type_invariant(&*self);
        }
        let ghost old_view = self.view();
        match self.find(key) {
            None => None,
            Some(i) => {
                let mut entries: Vec<(String, V)> = Vec::new();
                std::mem::swap(&mut entries, &mut self.entries);
                assert(entries@.map_values(|e: (String, V)| (e.0@, e.1)) == old_view);
                let slot = entries.remove(i);
                assert(entries@.map_values(|e: (String, V)| (e.0@, e.1)) =~= old_view.remove(
                    i as int,
                ));
                assert forall|a: int, b: int|
                    0 <= a < b < old_view.remove(i as int).len() implies old_view.remove(
                    i as int,
                )[a].0 != old_view.remove(i as int)[b].0 by {
                    let a2 = if a < i { a } else { a + 1 };
                    let b2 = if b < i { b } else { b + 1 };
                    assert(old_view.remove(i as int)[a] == old_view[a2]);
                    assert(old_view.remove(i as int)[b] == old_view[b2]);
                }
                self.entries = entries;
                Some(slot.1)
            },
        }
    }
}

impl<V: Clone> Clone for TextMap<V> {
    /// A copy with the same keys in the same order, each value cloned.
    fn clone(&self) -> (r: Self)
        ensures
            r@.len() == self@.len(),
            forall|i: int| 0 <= i < r@.len() ==> (#[trigger] r@[i]).0 == self@[i].0 && cloned(
                self@[i].1,
                r@[i].1,
            ),
    {
        proof {
            use_type_invariant(self);
        }
        let n = self.entries.len();
        let mut entries: Vec<(String, V)> = Vec::new();
        let mut i: usize = 0;
        while i < n
            invariant
                n == self@.len(),
                distinct_keys(self@),
                i <= n,
                entries@.len() == i,
                forall|k: int|
                    0 <= k < i ==> (#[trigger] entries@[k]).0@ == self@[k].0 && cloned(
                        self@[k].1,
                        entries@[k].1,
                    ),
            decreases n - i,
        {
            let key = self.entries[i].0.clone();
            let value = self.entries[i].1.clone();
            entries.push((key, value));
            i = i + 1;
        }
        let r = TextMap { entries };
        assert forall|a: int, b: int| 0 <= a < b < r@.len() implies r@[a].0 != r@[b].0 by {
            assert(r@[a].0 == entries@[a].0@);
            assert(r@[b].0 == entries@[b].0@);
        }
        r
    }
}

/// Removing a key: its entry is taken out where present.
pub open spec fn remove_entry<V>(s: Entries<V>, k: Seq<char>) -> Entries<V> {
    if has_key(s, k) {
        s.remove(key_index(s, k))
    } else {
        s
    }
}

/// In entries with distinct keys, the entry of a key is the one that holds it.
pub proof fn lemma_key_index_unique<V>(s: Entries<V>, k: Seq<char>, i: int)
    requires
        distinct_keys(s),
        0 <= i < s.len(),
        s[i].0 == k,
    ensures
        has_key(s, k),
        key_index(s, k) == i,
        lookup(s, k) == Some(s[i].1),
{
    assert(has_key(s, k));
    let j = key_index(s, k);
    if j != i {
        if j < i {
            assert(s[j].0 != s[i].0);
        } else {
            assert(s[i].0 != s[j].0);
        }
    }
}

/// Reading a key back after writing it gives the written value; every
/// other key keeps its value; keys stay distinct.
pub proof fn lemma_insert_lookup<V>(s: Entries<V>, k: Seq<char>, v: V, other: Seq<char>)
    requires
        distinct_keys(s),
    ensures
        distinct_keys(insert_entry(s, k, v)),
        lookup(insert_entry(s, k, v), k) == Some(v),
        other != k ==> lookup(insert_entry(s, k, v), other) == lookup(s, other),
{
    let t = insert_entry(s, k, v);
    if has_key(s, k) {
        let i = key_index(s, k);
        assert(t == s.update(i, (k, v)));
        assert forall|a: int, b: int| 0 <= a < b < t.len() implies t[a].0 != t[b].0 by {
            if a != i && b != i {
                assert(t[a] == s[a] && t[b] == s[b]);
            } else if a == i {
                assert(t[b] == s[b]);
                assert(s[a].0 != s[b].0);
            } else {
                assert(t[a] == s[a]);
                assert(s[a].0 != s[b].0);
            }
        }
        lemma_key_index_unique(t, k, i);
        if other != k {
            if has_key(s, other) {
                let j = key_index(s, other);
                assert(j != i);
                assert(t[j] == s[j]);
                lemma_key_index_unique(s, other, j);
                lemma_key_index_unique(t, other, j);
            } else {
                assert(!has_key(t, other)) by {
                    if has_key(t, other) {
                        let j = key_index(t, other);
                        assert(t[j] == s[j]);
                    }
                }
            }
        }
    } else {
        assert(t == s.push((k, v)));
        let n = s.len() as int;
        assert forall|a: int, b: int| 0 <= a < b < t.len() implies t[a].0 != t[b].0 by {
            assert(t[a] == s[a]);
            if b == n {
                assert(s[a].0 != k);
            } else {
                assert(t[b] == s[b]);
            }
        }
        lemma_key_index_unique(t, k, n);
        if other != k {
            if has_key(s, other) {
                let j = key_index(s, other);
                assert(t[j] == s[j]);
                lemma_key_index_unique(s, other, j);
                lemma_key_index_unique(t, other, j);
            } else {
                assert(!has_key(t, other)) by {
                    if has_key(t, other) {
                        let j = key_index(t, other);
                        if j < n {
                            assert(t[j] == s[j]);
                        }
                    }
                }
            }
        }
    }
}

/// After a key is removed it is absent; every other key keeps its value;
/// keys stay distinct.
pub proof fn lemma_remove_lookup<V>(s: Entries<V>, k: Seq<char>, other: Seq<char>)
    requires
        distinct_keys(s),
    ensures
        distinct_keys(remove_entry(s, k)),
        lookup(remove_entry(s, k), k) is None,
        other != k ==> lookup(remove_entry(s, k), other) == lookup(s, other),
{
    let t = remove_entry(s, k);
    if has_key(s, k) {
        let i = key_index(s, k);
        assert(t == s.remove(i));
        assert forall|a: int, b: int| 0 <= a < b < t.len() implies t[a].0 != t[b].0 by {
            let a2 = if a < i { a } else { a + 1 };
            let b2 = if b < i { b } else { b + 1 };
            assert(t[a] == s[a2] && t[b] == s[b2]);
        }
        assert(!has_key(t, k)) by {
            if has_key(t, k) {
                let j = key_index(t, k);
                let j2 = if j < i { j } else { j + 1 };
                assert(t[j] == s[j2]);
                lemma_key_index_unique(s, k, j2);
            }
        }
        if other != k {
            if has_key(s, other) {
                let j = key_index(s, other);
                assert(j != i);
                let j1 = if j < i { j } else { j - 1 };
                assert(t[j1] == s[j]);
                lemma_key_index_unique(s, other, j);
                lemma_key_index_unique(t, other, j1);
            } else {
                assert(!has_key(t, other)) by {
                    if has_key(t, other) {
                        let j = key_index(t, other);
                        let j2 = if j < i { j } else { j + 1 };
                        assert(t[j] == s[j2]);
                    }
                }
            }
        }
    }
}

/// Entries keyed by a pair of texts.
pub type PairEntries<V> = Seq<(Seq<char>, Seq<char>, V)>;

pub open spec fn has_pair<V>(s: PairEntries<V>, a: Seq<char>, b: Seq<char>) -> bool {
    exists|i: int| 0 <= i < s.len() && s[i].0 == a && s[i].1 == b
}

pub open spec fn pair_index<V>(s: PairEntries<V>, a: Seq<char>, b: Seq<char>) -> int {
    choose|i: int| 0 <= i < s.len() && s[i].0 == a && s[i].1 == b
}

/// The value stored under the pair `(a, b)`, if any.
pub open spec fn lookup_pair<V>(s: PairEntries<V>, a: Seq<char>, b: Seq<char>) -> Option<V> {
    if has_pair(s, a, b) {
        Some(s[pair_index(s, a, b)].2)
    } else {
        None
    }
}

pub open spec fn distinct_pairs<V>(s: PairEntries<V>) -> bool {
    forall|i: int, j: int| 0 <= i < j < s.len() ==> !(s[i].0 == s[j].0 && s[i].1 == s[j].1)
}

pub open spec fn insert_pair<V>(s: PairEntries<V>, a: Seq<char>, b: Seq<char>, v: V) -> PairEntries<V> {
    if has_pair(s, a, b) {
        s.update(pair_index(s, a, b), (a, b, v))
    } else {
        s.push((a, b, v))
    }
}

/// A map keyed by pairs of texts, holding each pair once.
#[derive(Debug)]
pub struct PairMap<V> {
    entries: Vec<(String, String, V)>,
}

impl<V> View for PairMap<V> {
    type V = PairEntries<V>;

    closed spec fn view(&self) -> PairEntries<V> {
        self.entries@.map_values(|e: (String, String, V)| (e.0@, e.1@, e.2))
    }
}

impl<V: Clone> Clone for PairMap<V> {
    /// A copy with the same pairs in the same order, each value cloned.
    fn clone(&self) -> (r: Self)
        ensures
            r@.len() == self@.len(),
            forall|i: int| 0 <= i < r@.len() ==> (#[trigger] r@[i]).0 == self@[i].0 && r@[i].1
                == self@[i].1 && cloned(self@[i].2, r@[i].2),
    {
        proof {
            use_type_invariant(self);
        }
        let n = self.entries.len();
        let mut entries: Vec<(String, String, V)> = Vec::new();
        let mut i: usize = 0;
        while i < n
            invariant
                n == self@.len(),
                distinct_pairs(self@),
                i <= n,
                entries@.len() == i,
                forall|k: int|
                    0 <= k < i ==> (#[trigger] entries@[k]).0@ == self@[k].0 && entries@[k].1@
                        == self@[k].1 && cloned(self@[k].2, entries@[k].2),
            decreases n - i,
        {
            let a = self.entries[i].0.clone();
            let b = self.entries[i].1.clone();
            let value = self.entries[i].2.clone();
            entries.push((a, b, value));
            i = i + 1;
        }
        let r = PairMap { entries };
        assert forall|x: int, y: int| 0 <= x < y < r@.len() implies !(r@[x].0 == r@[y].0
            && r@[x].1 == r@[y].1) by {
            assert(r@[x].0 == entries@[x].0@ && r@[x].1 == entries@[x].1@);
            assert(r@[y].0 == entries@[y].0@ && r@[y].1 == entries@[y].1@);
        }
        r
    }
}

impl<V> PairMap<V> {
    #[verifier::type_invariant]
    spec fn pairs_distinct(self) -> bool {
        distinct_pairs(self.view())
    }

    pub fn new() -> (r: PairMap<V>)
        ensures
            r@ == Seq::<(Seq<char>, Seq<char>, V)>::empty(),
    {
        let r = PairMap { entries: Vec::new() };
        assert(r@ =~= Seq::<(Seq<char>, Seq<char>, V)>::empty());
        r
    }

    pub fn len(&self) -> (r: usize)
        ensures
            r == self@.len(),
    {
        self.entries.len()
    }

    fn find(&self, a: &str, b: &str) -> (r: Option<usize>)
        ensures
            r is None <==> !has_pair(self@, a@, b@),
            r matches Some(i) ==> i == pair_index(self@, a@, b@) && i < self@.len(),
    {
        proof {
            use_type_invariant(self);
        }
        let n = self.entries.len();
        let mut i: usize = 0;
        while i < n
            invariant
                n == self@.len(),
                distinct_pairs(self@),
                i <= n,
                forall|k: int| 0 <= k < i ==> !(self@[k].0 == a@ && self@[k].1 == b@),
            decreases n - i,
        {
            if str_eq(self.entries[i].0.as_str(), a) && str_eq(self.entries[i].1.as_str(), b) {
                proof {
                    let j = pair_index(self@, a@, b@);
                    assert(self@[i as int].0 == a@ && self@[i as int].1 == b@);
                    assert(j == i);
                }
                return Some(i);
            }
            i = i + 1;
        }
        None
    }

    /// The value under the pair `(a, b)`, if present.
    pub fn get(&self, a: &str, b: &str) -> (r: Option<&V>)
        ensures
            match r {
                Some(v) => lookup_pair(self@, a@, b@) == Some(*v),
                None => lookup_pair(self@, a@, b@) is None,
            },
    {
        match self.find(a, b) {
            Some(i) => Some(&self.entries[i].2),
            None => None,
        }
    }

    /// The value under the pair `(a, b)` becomes `value`.
    pub fn insert(&mut self, a: String, b: String, value: V)
        ensures
            final(self)@ == insert_pair(old(self)@, a@, b@, value),
    {
        proof {
            use_type_invariant(&*self);
        }
        let ghost old_view = self@;
        let found = self.find(a.as_str(), b.as_str());
        let ghost ka = a@;
        let ghost kb = b@;
        let mut entries: Vec<(String, String, V)> = Vec::new();
        std::mem::swap(&mut entries, &mut self.entries);
        assert(entries@.map_values(|e: (String, String, V)| (e.0@, e.1@, e.2)) == old_view);
        match found {
            Some(i) => {
                entries.set(i, (a, b, value));
                assert(entries@.map_values(|e: (String, String, V)| (e.0@, e.1@, e.2))
                    =~= old_view.update(i as int, (ka, kb, value)));
            },
            None => {
                entries.push((a, b, value));
                assert(entries@.map_values(|e: (String, String, V)| (e.0@, e.1@, e.2))
                    =~= old_view.push((ka, kb, value)));
            },
        }
        self.entries = entries;
    }
}

} // verus!
