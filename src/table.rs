//! A keyed table: the library's model of one namespace of contract storage.

use vstd::prelude::*;

verus! {

/// Keys that can be compared at run time exactly as their views compare.
pub trait KeyEq: View + Sized {
    fn key_eq(&self, other: &Self) -> (r: bool)
        ensures
            r == (self@ == other@),
    ;
}

impl KeyEq for u64 {
    fn key_eq(&self, other: &Self) -> (r: bool) {
        *self == *other
    }
}

impl KeyEq for u32 {
    fn key_eq(&self, other: &Self) -> (r: bool) {
        *self == *other
    }
}

impl KeyEq for String {
    fn key_eq(&self, other: &Self) -> (r: bool) {
        *self == *other
    }
}

impl<A: KeyEq, B: KeyEq> KeyEq for (A, B) {
    fn key_eq(&self, other: &Self) -> (r: bool) {
        let a = self.0.key_eq(&other.0);
        if !a {
            return false;
        }
        self.1.key_eq(&other.1)
    }
}

/// The map that a sequence of entries denotes, later entries taking precedence.
pub open spec fn entries_map<K: View, V>(s: Seq<(K, V)>) -> Map<K::V, V>
    decreases s.len(),
{
    if s.len() == 0 {
        Map::empty()
    } else {
        entries_map(s.drop_last()).insert(s.last().0@, s.last().1)
    }
}

/// No key occurs twice.
pub open spec fn keys_unique<K: View, V>(s: Seq<(K, V)>) -> bool {
    forall|i: int, j: int| 0 <= i < j < s.len() ==> s[i].0@ != s[j].0@
}

proof fn lemma_contains_iff<K: View, V>(s: Seq<(K, V)>, k: K::V)
    ensures
        entries_map(s).contains_key(k) <==> exists|i: int| 0 <= i < s.len() && s[i].0@ == k,
    decreases s.len(),
{
    if s.len() > 0 {
        lemma_contains_iff(s.drop_last(), k);
        if entries_map(s).contains_key(k) && s.last().0@ != k {
            let i = choose|i: int| 0 <= i < s.len() - 1 && s.drop_last()[i].0@ == k;
            assert(s[i].0@ == k);
        }
        if exists|i: int| 0 <= i < s.len() && s[i].0@ == k {
            let i = choose|i: int| 0 <= i < s.len() && s[i].0@ == k;
            if i < s.len() - 1 {
                assert(s.drop_last()[i].0@ == k);
            }
        }
    }
}

proof fn lemma_value_at<K: View, V>(s: Seq<(K, V)>, i: int)
    requires
        keys_unique(s),
        0 <= i < s.len(),
    ensures
        entries_map(s).contains_key(s[i].0@),
        entries_map(s)[s[i].0@] == s[i].1,
    decreases s.len(),
{
    if i < s.len() - 1 {
        let t = s.drop_last();
        assert(keys_unique(t));
        assert(t[i] == s[i]);
        lemma_value_at(t, i);
    }
}

proof fn lemma_remove_at<K: View, V>(s: Seq<(K, V)>, i: int)
    requires
        keys_unique(s),
        0 <= i < s.len(),
    ensures
        keys_unique(s.remove(i)),
        entries_map(s.remove(i)) == entries_map(s).remove(s[i].0@),
    decreases s.len(),
{
    let k = s[i].0@;
    let r = s.remove(i);
    assert forall|a: int, b: int| 0 <= a < b < r.len() implies r[a].0@ != r[b].0@ by {
        let a2 = if a < i { a } else { a + 1 };
        let b2 = if b < i { b } else { b + 1 };
        assert(r[a] == s[a2]);
        assert(r[b] == s[b2]);
    }
    let t = s.drop_last();
    assert(keys_unique(t));
    if i == s.len() - 1 {
        assert(r =~= t);
        lemma_contains_iff(t, k);
        assert(!entries_map(t).contains_key(k)) by {
            if entries_map(t).contains_key(k) {
                let j = choose|j: int| 0 <= j < t.len() && t[j].0@ == k;
                assert(s[j].0@ == k);
            }
        }
        assert(entries_map(s).remove(k) =~= entries_map(t));
    } else {
        lemma_remove_at(t, i);
        assert(r.drop_last() =~= t.remove(i));
        assert(r.last() == s.last());
        assert(s.last().0@ != k);
        assert(entries_map(r) =~= entries_map(s).remove(k));
    }
}

/// A table of values under unique keys.
pub struct Table<K: KeyEq, V> {
    entries: Vec<(K, V)>,
}

impl<K: KeyEq, V> Table<K, V> {
    #[verifier::type_invariant]
    spec fn inv(&self) -> bool {
        keys_unique(self.entries@)
    }

    pub closed spec fn view(&self) -> Map<K::V, V> {
        entries_map(self.entries@)
    }

    pub fn new() -> (t: Self)
        ensures
            t@ == Map::<K::V, V>::empty(),
    {
        Table { entries: Vec::new() }
    }

    fn position(&self, k: &K) -> (r: Option<usize>)
        ensures
            match r {
                Some(i) => i < self.entries@.len() && self.entries@[i as int].0@ == k@,
                None => !self@.contains_key(k@),
            },
    {
        proof {
            use_type_invariant(self);
        }
        let mut i: usize = 0;
        while i < self.entries.len()
            invariant
                i <= self.entries@.len(),
                forall|j: int| 0 <= j < i ==> self.entries@[j].0@ != k@,
            decreases self.entries@.len() - i,
        {
            if self.entries[i].0.key_eq(k) {
                return Some(i);
            }
            i = i + 1;
        }
        proof {
            lemma_contains_iff(self.entries@, k@);
        }
        None
    }

    /// The value under `k`, if any.
    pub fn get(&self, k: &K) -> (r: Option<&V>)
        ensures
            match r {
                Some(v) => self@.contains_key(k@) && self@[k@] == *v,
                None => !self@.contains_key(k@),
            },
    {
        proof {
            use_type_invariant(self);
        }
        match self.position(k) {
            Some(i) => {
                proof {
                    lemma_value_at(self.entries@, i as int);
                }
                Some(&self.entries[i].1)
            },
            None => None,
        }
    }

    pub fn contains_key(&self, k: &K) -> (r: bool)
        ensures
            r == self@.contains_key(k@),
    {
        proof {
            use_type_invariant(self);
        }
        match self.position(k) {
            Some(i) => {
                proof {
                    lemma_value_at(self.entries@, i as int);
                }
                true
            },
            None => false,
        }
    }

    /// Removes the entry under `k`, returning its value.
    pub fn remove(&mut self, k: &K) -> (r: Option<V>)
        ensures
            final(self)@ == old(self)@.remove(k@),
            match r {
                Some(v) => old(self)@.contains_key(k@) && old(self)@[k@] == v,
                None => !old(self)@.contains_key(k@),
            },
    {
        proof {
            use_type_invariant(&*self);
        }
        match self.position(k) {
            Some(i) => {
                proof {
                    lemma_value_at(self.entries@, i as int);
                    lemma_remove_at(self.entries@, i as int);
                }
                let mut entries: Vec<(K, V)> = Vec::new();
                std::mem::swap(&mut entries, &mut self.entries);
                let (_, v) = entries.remove(i);
                *self = Table { entries };
                Some(v)
            },
            None => {
                proof {
                    assert(self@.remove(k@) =~= self@);
                }
                None
            },
        }
    }

    /// Stores `v` under `k`, replacing any earlier value.
    pub fn insert(&mut self, k: K, v: V)
        ensures
            final(self)@ == old(self)@.insert(k@, v),
    {
        let _ = self.remove(&k);
        proof {
            use_type_invariant(&*self);
            lemma_contains_iff(self.entries@, k@);
        }
        let ghost before = self.entries@;
        let mut entries: Vec<(K, V)> = Vec::new();
        std::mem::swap(&mut entries, &mut self.entries);
        entries.push((k, v));
        proof {
            assert(entries@.drop_last() =~= before);
            assert forall|a: int, b: int| 0 <= a < b < entries@.len() implies entries@[a].0@
                != entries@[b].0@ by {
                if b == entries@.len() - 1 {
                    assert(before[a] == entries@[a]);
                } else {
                    assert(before[a] == entries@[a] && before[b] == entries@[b]);
                }
            }
        }
        *self = Table { entries };
        proof {
            assert(self@ =~= old(self)@.insert(k@, v)) by {
                assert(old(self)@.remove(k@).insert(k@, v) =~= old(self)@.insert(k@, v));
            }
        }
    }

    pub fn len(&self) -> (r: usize)
        ensures
            r == self@.len(),
    {
        proof {
            use_type_invariant(self);
            lemma_len(self.entries@);
        }
        self.entries.len()
    }
}

impl<K: KeyEq + Copy, V: Copy> Table<K, V> {
    /// An independent copy of the table.
    pub fn duplicate(&self) -> (r: Self)
        ensures
            r@ == self@,
    {
        proof {
            use_type_invariant(self);
        }
        let mut entries: Vec<(K, V)> = Vec::new();
        let mut i: usize = 0;
        while i < self.entries.len()
            invariant
                i <= self.entries@.len(),
                entries@ == self.entries@.subrange(0, i as int),
                keys_unique(self.entries@),
            decreases self.entries@.len() - i,
        {
            let e = self.entries[i];
            entries.push(e);
            i = i + 1;
            proof {
                assert(entries@ =~= self.entries@.subrange(0, i as int));
            }
        }
        proof {
            assert(entries@ =~= self.entries@);
        }
        Table { entries }
    }
}

proof fn lemma_len<K: View, V>(s: Seq<(K, V)>)
    requires
        keys_unique(s),
    ensures
        entries_map(s).dom().finite(),
        entries_map(s).len() == s.len(),
    decreases s.len(),
{
    if s.len() > 0 {
        let t = s.drop_last();
        assert(keys_unique(t));
        lemma_len(t);
        lemma_contains_iff(t, s.last().0@);
        if entries_map(t).contains_key(s.last().0@) {
            let j = choose|j: int| 0 <= j < t.len() && t[j].0@ == s.last().0@;
            assert(s[j].0@ == s.last().0@);
        }
    }
}

} // verus!
