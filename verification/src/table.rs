//! A verified key-value table used as the storage of every contract.
//!
//! A table is a sequence of `(key, entry)` pairs in which the last pair that
//! carries a key decides what the key maps to; `None` marks a removed key.
//! Writes overwrite the last pair of their key in place, so the sequence holds
//! each key at most once when it is only changed through this interface.
use vstd::prelude::*;

verus! {

/// Keys that a `Table` can be indexed by: equality and copying are decided in
/// executable code exactly as spec equality decides them.
pub trait TableKey: Sized {
    fn same(&self, other: &Self) -> (b: bool)
        ensures
            b == (*self == *other),
    ;

    fn duplicate(&self) -> (r: Self)
        ensures
            r == *self,
    ;
}

impl TableKey for u64 {
    fn same(&self, other: &Self) -> (b: bool) {
        *self == *other
    }

    fn duplicate(&self) -> (r: Self) {
        *self
    }
}

impl TableKey for u32 {
    fn same(&self, other: &Self) -> (b: bool) {
        *self == *other
    }

    fn duplicate(&self) -> (r: Self) {
        *self
    }
}

impl TableKey for [u8; 32] {
    fn same(&self, other: &Self) -> (b: bool) {
        let mut i: usize = 0;
        while i < 32
            invariant
                i <= 32,
                forall|j: int| 0 <= j < i ==> self[j] == other[j],
            decreases 32 - i,
        {
            if self[i] != other[i] {
                return false;
            }
            i = i + 1;
        }
        proof {
            broadcast use vstd::array::group_array_axioms;
            assert(*self =~= *other);
        }
        true
    }

    fn duplicate(&self) -> (r: Self) {
        *self
    }
}

impl<A: TableKey, B: TableKey> TableKey for (A, B) {
    fn same(&self, other: &Self) -> (b: bool) {
        self.0.same(&other.0) && self.1.same(&other.1)
    }

    fn duplicate(&self) -> (r: Self) {
        (self.0.duplicate(), self.1.duplicate())
    }
}

/// What the pairs `s` say of key `k`: the entry of the last pair with key `k`.
pub open spec fn entry_of<K, V>(s: Seq<(K, Option<V>)>, k: K) -> Option<V>
    decreases s.len(),
{
    if s.len() == 0 {
        None
    } else if s.last().0 == k {
        s.last().1
    } else {
        entry_of(s.drop_last(), k)
    }
}

/// The value of `k` in `m`, or `d` where `m` holds no value for `k`.
pub open spec fn value_or<K, V>(m: Map<K, V>, k: K, d: V) -> V {
    if m.contains_key(k) {
        m[k]
    } else {
        d
    }
}

proof fn lemma_entry_absent<K, V>(s: Seq<(K, Option<V>)>, k: K)
    requires
        forall|j: int| 0 <= j < s.len() ==> s[j].0 != k,
    ensures
        entry_of(s, k) is None,
    decreases s.len(),
{
    if s.len() > 0 {
        lemma_entry_absent(s.drop_last(), k);
    }
}

proof fn lemma_entry_last<K, V>(s: Seq<(K, Option<V>)>, k: K, i: int)
    requires
        0 <= i < s.len(),
        s[i].0 == k,
        forall|j: int| i < j < s.len() ==> s[j].0 != k,
    ensures
        entry_of(s, k) == s[i].1,
    decreases s.len(),
{
    if i < s.len() - 1 {
        lemma_entry_last(s.drop_last(), k, i);
    }
}

proof fn lemma_entry_agree<K, V>(s1: Seq<(K, Option<V>)>, s2: Seq<(K, Option<V>)>, k: K)
    requires
        s1.len() == s2.len(),
        forall|j: int| 0 <= j < s1.len() ==> s1[j].0 == s2[j].0,
        forall|j: int| 0 <= j < s1.len() && s1[j].0 == k ==> s1[j].1 == s2[j].1,
    ensures
        entry_of(s1, k) == entry_of(s2, k),
    decreases s1.len(),
{
    if s1.len() > 0 {
        lemma_entry_agree(s1.drop_last(), s2.drop_last(), k);
    }
}

/// A finite map from keys to values, stored as pairs.
pub struct Table<K, V> {
    entries: Vec<(K, Option<V>)>,
}

impl<K, V> View for Table<K, V> {
    type V = Map<K, V>;

    closed spec fn view(&self) -> Map<K, V> {
        Map::new(
            |k: K| entry_of(self.entries@, k) is Some,
            |k: K| entry_of(self.entries@, k)->0,
        )
    }
}

impl<K: TableKey, V> Table<K, V> {
    /// An empty table.
    pub fn new() -> (t: Self)
        ensures
            t@ == Map::<K, V>::empty(),
    {
        let t = Table { entries: Vec::new() };
        assert(t@ =~= Map::<K, V>::empty());
        t
    }

    fn find_last(&self, k: &K) -> (r: Option<usize>)
        ensures
            match r {
                Some(i) => i < self.entries@.len() && self.entries@[i as int].0 == *k && forall|
                    j: int,
                | i < j < self.entries@.len() ==> self.entries@[j].0 != *k,
                None => forall|j: int| 0 <= j < self.entries@.len() ==> self.entries@[j].0 != *k,
            },
    {
        let mut i = self.entries.len();
        while i > 0
            invariant
                i <= self.entries@.len(),
                forall|j: int| i <= j < self.entries@.len() ==> self.entries@[j].0 != *k,
            decreases i,
        {
            i = i - 1;
            if self.entries[i].0.same(k) {
                return Some(i);
            }
        }
        None
    }

    /// The value stored under `k`, if any.
    pub fn get(&self, k: &K) -> (r: Option<&V>)
        ensures
            match r {
                Some(v) => self@.contains_key(*k) && *v == self@[*k],
                None => !self@.contains_key(*k),
            },
    {
        match self.find_last(k) {
            Some(i) => {
                proof {
                    lemma_entry_last(self.entries@, *k, i as int);
                }
                self.entries[i].1.as_ref()
            },
            None => {
                proof {
                    lemma_entry_absent(self.entries@, *k);
                }
                None
            },
        }
    }

    /// Whether `k` holds a value.
    pub fn has(&self, k: &K) -> (b: bool)
        ensures
            b == self@.contains_key(*k),
    {
        self.get(k).is_some()
    }

    fn put(&mut self, k: K, x: Option<V>)
        ensures
            forall|k2: K|
                #![trigger entry_of(final(self).entries@, k2)]
                entry_of(final(self).entries@, k2) == if k2 == k {
                    x
                } else {
                    entry_of(old(self).entries@, k2)
                },
    {
        match self.find_last(&k) {
            Some(i) => {
                let ghost s = self.entries@;
                let kk = k.duplicate();
                self.entries.set(i, (kk, x));
                proof {
                    assert forall|k2: K| #![trigger entry_of(self.entries@, k2)]
                        entry_of(self.entries@, k2) == if k2 == k {
                            x
                        } else {
                            entry_of(s, k2)
                        } by {
                        if k2 == k {
                            lemma_entry_last(self.entries@, k, i as int);
                        } else {
                            lemma_entry_agree(s, self.entries@, k2);
                        }
                    }
                }
            },
            None => {
                let ghost s = self.entries@;
                self.entries.push((k, x));
                proof {
                    assert(self.entries@.drop_last() =~= s);
                }
            },
        }
    }

    /// Stores `v` under `k`, replacing what `k` held.
    pub fn set(&mut self, k: K, v: V)
        ensures
            final(self)@ == old(self)@.insert(k, v),
    {
        self.put(k, Some(v));
        assert(self@ =~= old(self)@.insert(k, v));
    }

    /// Removes what `k` held.
    pub fn remove(&mut self, k: K)
        ensures
            final(self)@ == old(self)@.remove(k),
    {
        self.put(k, None);
        assert(self@ =~= old(self)@.remove(k));
    }
}

impl<K: TableKey, V: Copy> Table<K, V> {
    /// A table with the same contents.
    pub fn snapshot(&self) -> (r: Self)
        ensures
            r@ == self@,
    {
        let mut entries: Vec<(K, Option<V>)> = Vec::new();
        let mut i: usize = 0;
        while i < self.entries.len()
            invariant
                i <= self.entries@.len(),
                entries@ == self.entries@.subrange(0, i as int),
            decreases self.entries@.len() - i,
        {
            let k = self.entries[i].0.duplicate();
            let x: Option<V> = self.entries[i].1;
            entries.push((k, x));
            i = i + 1;
            assert(entries@ =~= self.entries@.subrange(0, i as int));
        }
        assert(entries@ =~= self.entries@);
        let r = Table { entries };
        assert(r@ =~= self@);
        r
    }
}

impl<K: TableKey> Table<K, i128> {
    /// The amount stored under `k`, zero where `k` holds none.
    pub fn amount(&self, k: &K) -> (r: i128)
        ensures
            r == value_or(self@, *k, 0i128),
    {
        match self.get(k) {
            Some(v) => *v,
            None => 0,
        }
    }
}

} // verus!
