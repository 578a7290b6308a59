//! A small keyed table: the library's model of a contract's keyed storage.
//!
//! Entries live in a vector of `(key, value)` pairs whose keys are pairwise
//! distinct (a type invariant); the table is viewed as a `Map` from keys to
//! values.
use vstd::prelude::*;

verus! {

/// Keys that a [`Table`] can compare at run time with the same meaning as
/// spec equality.
pub trait TableKey: Copy + Sized {
    fn same_key(&self, other: &Self) -> (r: bool)
        ensures
            r == (*self == *other),
    ;
}

impl TableKey for u64 {
    fn same_key(&self, other: &Self) -> (r: bool) {
        *self == *other
    }
}

impl TableKey for u32 {
    fn same_key(&self, other: &Self) -> (r: bool) {
        *self == *other
    }
}

/// The value stored under `k` in `m`, if any.
pub open spec fn lookup<K, V>(m: Map<K, V>, k: K) -> Option<V> {
    if m.dom().contains(k) {
        Some(m[k])
    } else {
        None
    }
}

/// The map built by storing the pairs of `s` in order, later pairs
/// replacing earlier ones with the same key.
pub open spec fn pairs_map<K, V>(s: Seq<(K, V)>) -> Map<K, V>
    decreases s.len(),
{
    if s.len() == 0 {
        Map::empty()
    } else {
        pairs_map(s.drop_last()).insert(s.last().0, s.last().1)
    }
}

/// No key occurs twice in `s`.
pub open spec fn keys_distinct<K, V>(s: Seq<(K, V)>) -> bool {
    forall|i: int, j: int|
        0 <= i < s.len() && 0 <= j < s.len() && i != j ==> #[trigger] s[i].0 != #[trigger] s[j].0
}

/// With distinct keys, the map of `s` holds exactly the keys of `s`, each
/// with its own value.
pub proof fn lemma_pairs_map_distinct<K, V>(s: Seq<(K, V)>)
    requires
        keys_distinct(s),
    ensures
        forall|k: K| #[trigger]
            pairs_map(s).dom().contains(k) <==> exists|i: int| 0 <= i < s.len() && s[i].0 == k,
        forall|i: int| 0 <= i < s.len() ==> #[trigger] pairs_map(s)[s[i].0] == s[i].1,
    decreases s.len(),
{
    if s.len() > 0 {
        let rest = s.drop_last();
        assert(keys_distinct(rest)) by {
            assert forall|i: int, j: int|
                0 <= i < rest.len() && 0 <= j < rest.len() && i != j implies #[trigger] rest[i].0
                != #[trigger] rest[j].0 by {
                assert(rest[i] == s[i] && rest[j] == s[j]);
            }
        }
        lemma_pairs_map_distinct(rest);
        let n = s.len() - 1;
        assert forall|k: K| #[trigger]
            pairs_map(s).dom().contains(k) <==> exists|i: int| 0 <= i < s.len() && s[i].0 == k by {
            if pairs_map(s).dom().contains(k) && k != s[n].0 {
                assert(pairs_map(rest).dom().contains(k));
                let i = choose|i: int| 0 <= i < rest.len() && rest[i].0 == k;
                assert(s[i] == rest[i]);
                assert(0 <= i < s.len() && s[i].0 == k);
            }
            if pairs_map(s).dom().contains(k) && k == s[n].0 {
                assert(0 <= n < s.len() && s[n].0 == k);
            }
            if exists|i: int| 0 <= i < s.len() && s[i].0 == k {
                let i = choose|i: int| 0 <= i < s.len() && s[i].0 == k;
                if i < n {
                    assert(rest[i] == s[i]);
                    assert(0 <= i < rest.len() && rest[i].0 == k);
                    assert(pairs_map(rest).dom().contains(k));
                }
            }
        }
        assert forall|i: int| 0 <= i < s.len() implies #[trigger] pairs_map(s)[s[i].0] == s[i].1 by {
            if i < n {
                assert(rest[i] == s[i]);
                assert(s[i].0 != s[n].0);
                assert(pairs_map(rest)[rest[i].0] == rest[i].1);
                assert(pairs_map(rest).dom().contains(rest[i].0));
            }
        }
    }
}

/// A finite map from keys to values, stored as a vector of pairs.
pub struct Table<K, V> {
    entries: Vec<(K, V)>,
}

impl<K, V> Table<K, V> {
    /// No key occurs twice among the entries.
    #[verifier::type_invariant]
    closed spec fn keys_distinct(self) -> bool {
        forall|i: int, j: int|
            0 <= i < self.entries@.len() && 0 <= j < self.entries@.len() && i != j
                ==> #[trigger] self.entries@[i].0 != #[trigger] self.entries@[j].0
    }

    closed spec fn key_at(self, k: K, i: int) -> bool {
        0 <= i < self.entries@.len() && self.entries@[i].0 == k
    }

    closed spec fn index_of(self, k: K) -> int {
        choose|i: int| self.key_at(k, i)
    }
}

impl<K, V> View for Table<K, V> {
    type V = Map<K, V>;

    closed spec fn view(&self) -> Map<K, V> {
        Map::new(
            |k: K| exists|i: int| self.key_at(k, i),
            |k: K| self.entries@[self.index_of(k)].1,
        )
    }
}

impl<K: TableKey, V: Copy> Table<K, V> {
    /// The empty table.
    pub fn new() -> (t: Self)
        ensures
            t@ == Map::<K, V>::empty(),
    {
        let t = Table { entries: Vec::new() };
        assert(t@ =~= Map::<K, V>::empty());
        t
    }

    /// Position of `k` among the entries, if present.
    fn find(&self, k: &K) -> (r: Option<usize>)
        ensures
            match r {
                Some(i) => i < self.entries@.len() && self.entries@[i as int].0 == *k,
                None => !self@.dom().contains(*k),
            },
    {
        let mut i: usize = 0;
        while i < self.entries.len()
            invariant
                i <= self.entries@.len(),
                forall|j: int| 0 <= j < i ==> self.entries@[j].0 != *k,
            decreases self.entries@.len() - i,
        {
            if self.entries[i].0.same_key(k) {
                return Some(i);
            }
            i = i + 1;
        }
        None
    }

    /// The value stored under `k`, if any.
    pub fn get(&self, k: K) -> (r: Option<V>)
        ensures
            r == lookup(self@, k),
    {
        proof {
            use_type_invariant(self);
        }
        match self.find(&k) {
            Some(i) => {
                assert(self.key_at(k, i as int));
                assert(self.index_of(k) == i as int);
                Some(self.entries[i].1)
            },
            None => None,
        }
    }

    /// Whether some value is stored under `k`.
    pub fn contains_key(&self, k: K) -> (r: bool)
        ensures
            r == self@.dom().contains(k),
    {
        proof {
            use_type_invariant(self);
        }
        match self.find(&k) {
            Some(i) => {
                assert(self.key_at(k, i as int));
                true
            },
            None => false,
        }
    }

    /// Stores `v` under `k`, replacing any earlier value.
    pub fn insert(&mut self, k: K, v: V)
        ensures
            final(self)@ == old(self)@.insert(k, v),
    {
        proof {
            use_type_invariant(&*self);
        }
        let ghost before = *self;
        let found = self.find(&k);
        let mut entries: Vec<(K, V)> = Vec::new();
        std::mem::swap(&mut entries, &mut self.entries);
        match found {
            Some(i) => {
                entries.set(i, (k, v));
            },
            None => {
                entries.push((k, v));
            },
        }
        proof {
            assert forall|a: int, b: int|
                0 <= a < entries@.len() && 0 <= b < entries@.len() && a != b implies
                #[trigger] entries@[a].0 != #[trigger] entries@[b].0 by {
                if a < before.entries@.len() && b < before.entries@.len() {
                    assert(before.entries@[a].0 != before.entries@[b].0);
                }
                if found is None {
                    if a == before.entries@.len() {
                        assert(!before.key_at(k, b));
                    }
                    if b == before.entries@.len() {
                        assert(!before.key_at(k, a));
                    }
                }
            }
        }
        self.entries = entries;
        proof {
            use_type_invariant(&*self);
            let after = *self;
            assert forall|key: K| #[trigger]
                after@.dom().contains(key) == before@.insert(k, v).dom().contains(key) by {
                if key == k {
                    match found {
                        Some(i) => {
                            assert(after.key_at(k, i as int));
                        },
                        None => {
                            assert(after.key_at(k, before.entries@.len() as int));
                        },
                    }
                } else if before@.dom().contains(key) {
                    let j = before.index_of(key);
                    assert(before.key_at(key, j));
                    assert(after.key_at(key, j));
                } else if after@.dom().contains(key) {
                    let j = after.index_of(key);
                    assert(after.key_at(key, j));
                    assert(before.key_at(key, j));
                }
            }
            assert forall|key: K| #[trigger] after@.dom().contains(key) implies after@[key]
                == before@.insert(k, v)[key] by {
                let j = after.index_of(key);
                assert(after.key_at(key, j));
                if key != k {
                    assert(before.key_at(key, j));
                    assert(before.index_of(key) == j);
                } else {
                    match found {
                        Some(i) => {
                            assert(after.key_at(k, i as int));
                        },
                        None => {
                            assert(after.key_at(k, before.entries@.len() as int));
                        },
                    }
                }
            }
            assert(after@ =~= before@.insert(k, v));
        }
    }

    /// The table holding the pairs of `entries`, later pairs replacing earlier
    /// ones with the same key.
    pub fn from_entries(entries: &Vec<(K, V)>) -> (t: Self)
        ensures
            t@ == pairs_map(entries@),
    {
        let mut t = Table::new();
        let mut i: usize = 0;
        while i < entries.len()
            invariant
                i <= entries@.len(),
                t@ == pairs_map(entries@.take(i as int)),
            decreases entries@.len() - i,
        {
            let (k, v) = entries[i];
            t.insert(k, v);
            assert(entries@.take(i + 1).drop_last() =~= entries@.take(i as int));
            i = i + 1;
        }
        assert(entries@.take(entries@.len() as int) =~= entries@);
        t
    }

    /// The stored pairs, each key once.
    pub fn to_entries(&self) -> (r: Vec<(K, V)>)
        ensures
            pairs_map(r@) == self@,
            keys_distinct(r@),
    {
        proof {
            use_type_invariant(self);
        }
        let mut r: Vec<(K, V)> = Vec::new();
        let mut i: usize = 0;
        while i < self.entries.len()
            invariant
                i <= self.entries@.len(),
                r@ == self.entries@.take(i as int),
            decreases self.entries@.len() - i,
        {
            r.push(self.entries[i]);
            assert(r@ =~= self.entries@.take(i + 1));
            i = i + 1;
        }
        assert(r@ =~= self.entries@);
        proof {
            lemma_pairs_map_distinct(r@);
            assert forall|k: K| #[trigger] pairs_map(r@).dom().contains(k) == self@.dom().contains(k) by {
                if self@.dom().contains(k) {
                    assert(self.key_at(k, self.index_of(k)));
                }
                if pairs_map(r@).dom().contains(k) {
                    let i = choose|i: int| 0 <= i < r@.len() && r@[i].0 == k;
                    assert(self.key_at(k, i));
                }
            }
            assert forall|k: K| #[trigger] pairs_map(r@).dom().contains(k) implies pairs_map(r@)[k]
                == self@[k] by {
                let j = self.index_of(k);
                assert(self.key_at(k, j));
                assert(r@[j].0 == k);
            }
            assert(pairs_map(r@) =~= self@);
        }
        r
    }

    /// Removes whatever is stored under `k`.
    pub fn remove(&mut self, k: K)
        ensures
            final(self)@ == old(self)@.remove(k),
    {
        proof {
            use_type_invariant(&*self);
        }
        let ghost before = *self;
        let found = self.find(&k);
        match found {
            Some(i) => {
                let mut entries: Vec<(K, V)> = Vec::new();
                std::mem::swap(&mut entries, &mut self.entries);
                entries.remove(i);
                self.entries = entries;
                proof {
                    let after = *self;
                    let n = before.entries@.len();
                    assert forall|key: K| #[trigger]
                        after@.dom().contains(key) == before@.remove(k).dom().contains(key) by {
                        if after@.dom().contains(key) {
                            let j = after.index_of(key);
                            assert(after.key_at(key, j));
                            if j < i {
                                assert(before.key_at(key, j));
                            } else {
                                assert(before.key_at(key, j + 1));
                            }
                        }
                        if before@.dom().contains(key) && key != k {
                            let j = before.index_of(key);
                            assert(before.key_at(key, j));
                            assert(j != i);
                            if j < i {
                                assert(after.key_at(key, j));
                            } else {
                                assert(after.key_at(key, j - 1));
                            }
                        }
                    }
                    assert forall|key: K| #[trigger] after@.dom().contains(key) implies after@[key]
                        == before@.remove(k)[key] by {
                        let j = after.index_of(key);
                        assert(after.key_at(key, j));
                        if j < i {
                            assert(before.key_at(key, j));
                            assert(before.index_of(key) == j);
                        } else {
                            assert(before.key_at(key, j + 1));
                            assert(before.index_of(key) == j + 1);
                        }
                    }
                    assert(after@ =~= before@.remove(k));
                }
            },
            None => {
                assert(self@ =~= before@.remove(k));
            },
        }
    }
}

} // verus!
