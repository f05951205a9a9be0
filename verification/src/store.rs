//! Small verified stores used throughout the protocol: an association map
//! from identifiers to values with unique keys, and a membership set of
//! identifiers. Both are plain vectors with full functional contracts, so
//! every registry in the protocol (listings, vaults, permission lists,
//! fee accumulators) has an exact mathematical model.

use vstd::prelude::*;

verus! {

/// The first element of a sequence satisfying a predicate, scanning from
/// the front; the single point of truth for every lookup in the protocol.
pub open spec fn find_first<T>(s: Seq<T>, p: spec_fn(T) -> bool) -> Option<T>
    decreases s.len(),
{
    if s.len() == 0 {
        None
    } else if p(s[0]) {
        Some(s[0])
    } else {
        find_first(s.drop_first(), p)
    }
}

/// Skipping a prefix with no match leaves the first match unchanged.
pub proof fn lemma_find_first_skip<T>(s: Seq<T>, p: spec_fn(T) -> bool, i: int)
    requires
        0 <= i <= s.len(),
        forall|j: int| 0 <= j < i ==> !p(s[j]),
    ensures
        find_first(s, p) == find_first(s.skip(i), p),
    decreases i,
{
    if i > 0 {
        lemma_find_first_skip(s.drop_first(), p, i - 1);
        assert(s.drop_first().skip(i - 1) =~= s.skip(i));
    } else {
        assert(s.skip(0) =~= s);
    }
}

/// A sequence with no match at any index has no first match.
pub proof fn lemma_find_first_none<T>(s: Seq<T>, p: spec_fn(T) -> bool)
    requires
        forall|j: int| 0 <= j < s.len() ==> !p(s[j]),
    ensures
        find_first(s, p) is None,
{
    lemma_find_first_skip(s, p, s.len() as int);
    assert(s.skip(s.len() as int) =~= Seq::<T>::empty());
}

/// A match at index `i` below any earlier match is the first match.
pub proof fn lemma_find_first_at<T>(s: Seq<T>, p: spec_fn(T) -> bool, i: int)
    requires
        0 <= i < s.len(),
        p(s[i]),
        forall|j: int| 0 <= j < i ==> !p(s[j]),
    ensures
        find_first(s, p) == Some(s[i]),
{
    lemma_find_first_skip(s, p, i);
    assert(s.skip(i)[0] == s[i]);
}

/// Searching a concatenation searches the left part first.
pub proof fn lemma_find_first_concat<T>(a: Seq<T>, b: Seq<T>, p: spec_fn(T) -> bool)
    ensures
        find_first(a + b, p) == (match find_first(a, p) {
            Some(t) => Some(t),
            None => find_first(b, p),
        }),
    decreases a.len(),
{
    if a.len() == 0 {
        assert(a + b =~= b);
    } else {
        assert((a + b)[0] == a[0]);
        if !p(a[0]) {
            lemma_find_first_concat(a.drop_first(), b, p);
            assert((a + b).drop_first() =~= a.drop_first() + b);
        }
    }
}

/// Appending one element searches the original sequence first.
pub proof fn lemma_find_first_push<T>(s: Seq<T>, t: T, p: spec_fn(T) -> bool)
    ensures
        find_first(s.push(t), p) == (match find_first(s, p) {
            Some(u) => Some(u),
            None => if p(t) {
                Some(t)
            } else {
                None
            },
        }),
{
    assert(s.push(t) =~= s + seq![t]);
    lemma_find_first_concat(s, seq![t], p);
    assert(find_first(seq![t], p) == if p(t) {
        Some(t)
    } else {
        None::<T>
    }) by {
        assert(seq![t][0] == t);
        if p(t) {
            lemma_find_first_at(seq![t], p, 0);
        } else {
            lemma_find_first_none(seq![t], p);
        }
    }
}

/// Without a first match, no index matches at all.
pub proof fn lemma_find_first_none_converse<T>(s: Seq<T>, p: spec_fn(T) -> bool)
    requires
        find_first(s, p) is None,
    ensures
        forall|j: int| 0 <= j < s.len() ==> !p(#[trigger] s[j]),
    decreases s.len(),
{
    if s.len() > 0 {
        lemma_find_first_none_converse(s.drop_first(), p);
        assert forall|j: int| 0 <= j < s.len() implies !p(#[trigger] s[j]) by {
            if j > 0 {
                assert(s.drop_first()[j - 1] == s[j]);
            }
        }
    }
}

/// The predicate an association-map lookup scans with: the entry's key
/// equals the key looked up.
pub open spec fn entry_has_key(key: u64) -> spec_fn((u64, u64)) -> bool {
    |e: (u64, u64)| e.0 == key
}

/// A finite map from identifiers to amounts or identifiers, as a vector
/// of entries with pairwise-distinct keys.
pub struct IdMap {
    pub entries: Vec<(u64, u64)>,
}

impl IdMap {
    /// Keys are pairwise distinct, so a binding is the only one for its key.
    pub open spec fn wf(self) -> bool {
        forall|i: int, j: int|
            0 <= i < j < self.entries@.len() ==> (#[trigger] self.entries@[i]).0 != (
            #[trigger] self.entries@[j]).0
    }

    /// The value bound to `key`, if any.
    pub open spec fn get_spec(self, key: u64) -> Option<u64> {
        match find_first(self.entries@, entry_has_key(key)) {
            Some(e) => Some(e.1),
            None => None,
        }
    }

    /// Whether any value is bound to `key`.
    pub open spec fn has_key(self, key: u64) -> bool {
        self.get_spec(key) is Some
    }

    /// The empty map.
    pub fn new() -> (m: IdMap)
        ensures
            m.wf(),
            forall|k: u64| m.get_spec(k) is None,
            m.entries@.len() == 0,
    {
        let m = IdMap { entries: Vec::new() };
        proof {
            assert forall|k: u64| m.get_spec(k) is None by {
                lemma_find_first_none(m.entries@, entry_has_key(k));
            }
        }
        m
    }

    /// Builds a map from a list of bindings with pairwise-distinct keys.
    pub fn from_entries(entries: &Vec<(u64, u64)>) -> (m: IdMap)
        requires
            forall|i: int, j: int|
                0 <= i < j < entries@.len() ==> (#[trigger] entries@[i]).0 != (
                #[trigger] entries@[j]).0,
        ensures
            m.wf(),
            forall|i: int|
                0 <= i < entries@.len() ==> m.get_spec((#[trigger] entries@[i]).0) == Some(
                    entries@[i].1,
                ),
            forall|k: u64|
                #[trigger] m.has_key(k) ==> exists|i: int|
                    0 <= i < entries@.len() && (#[trigger] entries@[i]).0 == k,
    {
        let n: usize = entries.len();
        let mut m = IdMap::new();
        let mut i: usize = 0;
        while i < n
            invariant
                n == entries@.len(),
                i <= n,
                m.wf(),
                forall|i2: int, j2: int|
                    0 <= i2 < j2 < entries@.len() ==> (#[trigger] entries@[i2]).0 != (
                    #[trigger] entries@[j2]).0,
                forall|j: int|
                    0 <= j < i ==> m.get_spec((#[trigger] entries@[j]).0) == Some(entries@[j].1),
                forall|k: u64|
                    #[trigger] m.has_key(k) ==> exists|j: int|
                        0 <= j < i && (#[trigger] entries@[j]).0 == k,
            decreases n - i,
        {
            let e = entries[i];
            let ghost m0 = m;
            m.insert(e.0, e.1);
            proof {
                assert forall|k: u64| #[trigger] m.has_key(k) implies exists|j: int|
                    0 <= j < i + 1 && (#[trigger] entries@[j]).0 == k by {
                    if k == e.0 {
                        assert(entries@[i as int].0 == k);
                    } else {
                        assert(m.get_spec(k) == m0.get_spec(k));
                        assert(m0.has_key(k));
                        let j = choose|j: int| 0 <= j < i && (#[trigger] entries@[j]).0 == k;
                        assert(entries@[j].0 == k);
                    }
                }
            }
            i += 1;
        }
        m
    }

    /// The position of the binding for `key`, if any.
    fn index_of(&self, key: u64) -> (r: Option<usize>)
        ensures
            match r {
                Some(i) => i < self.entries@.len() && self.entries@[i as int].0 == key
                    && self.get_spec(key) == Some(self.entries@[i as int].1),
                None => self.get_spec(key) is None,
            },
    {
        let n: usize = self.entries.len();
        let mut i: usize = 0;
        while i < n
            invariant
                n == self.entries@.len(),
                i <= n,
                forall|j: int| 0 <= j < i ==> (#[trigger] self.entries@[j]).0 != key,
            decreases n - i,
        {
            if self.entries[i].0 == key {
                proof {
                    lemma_find_first_at(self.entries@, entry_has_key(key), i as int);
                }
                return Some(i);
            }
            i += 1;
        }
        proof {
            lemma_find_first_none(self.entries@, entry_has_key(key));
        }
        None
    }

    /// Looks up the value bound to `key`.
    pub fn get(&self, key: u64) -> (r: Option<u64>)
        ensures
            r == self.get_spec(key),
    {
        match self.index_of(key) {
            Some(i) => Some(self.entries[i].1),
            None => None,
        }
    }

    /// Removes the binding for `key`, if any; all other bindings keep
    /// their values.
    pub fn remove(&mut self, key: u64)
        requires
            old(self).wf(),
        ensures
            final(self).wf(),
            final(self).get_spec(key) is None,
            forall|k: u64| k != key ==> final(self).get_spec(k) == old(self).get_spec(k),
    {
        let ghost s = self.entries@;
        match self.index_of(key) {
            None => {
            },
            Some(i) => {
                self.entries.remove(i);
                proof {
                    let pre = s.subrange(0, i as int);
                    let rest = s.subrange(i as int, s.len() as int);
                    let suf = s.subrange(i + 1, s.len() as int);
                    assert(self.entries@ =~= pre + suf);
                    assert(s =~= pre + rest);
                    assert(rest.drop_first() =~= suf);
                    assert forall|k: u64| #![auto] true implies {
                        &&& (k != key ==> final(self).get_spec(k) == old(self).get_spec(k))
                        &&& (k == key ==> final(self).get_spec(k) is None)
                    } by {
                        let p = entry_has_key(k);
                        lemma_find_first_concat(pre, suf, p);
                        lemma_find_first_concat(pre, rest, p);
                        if k == key {
                            lemma_find_first_none(pre, p);
                            assert(forall|j: int| 0 <= j < suf.len() ==> !p(#[trigger] suf[j]));
                            lemma_find_first_none(suf, p);
                        }
                    }
                }
            },
        }
    }

    /// Binds `key` to `value`, replacing any earlier binding; all other
    /// bindings keep their values.
    pub fn insert(&mut self, key: u64, value: u64)
        requires
            old(self).wf(),
        ensures
            final(self).wf(),
            final(self).get_spec(key) == Some(value),
            forall|k: u64| k != key ==> final(self).get_spec(k) == old(self).get_spec(k),
    {
        self.remove(key);
        let ghost mid = self.entries@;
        self.entries.push((key, value));
        proof {
            lemma_find_first_none_converse(mid, entry_has_key(key));
            assert forall|k: u64| #![auto] true implies {
                &&& (k == key ==> final(self).get_spec(k) == Some(value))
                &&& (k != key ==> final(self).get_spec(k) == old(self).get_spec(k))
            } by {
                lemma_find_first_push(mid, (key, value), entry_has_key(k));
            }
        }
    }
}

/// The predicate a set-membership scan uses: the element equals the one
/// looked for.
pub open spec fn id_is(x: u64) -> spec_fn(u64) -> bool {
    |y: u64| y == x
}

/// A finite set of identifiers, as a vector; membership is the model,
/// so duplicates and order are immaterial.
pub struct IdSet {
    pub ids: Vec<u64>,
}

impl IdSet {
    /// Whether `x` is a member.
    pub open spec fn contains_spec(self, x: u64) -> bool {
        self.ids@.contains(x)
    }

    /// The empty set.
    pub fn new() -> (s: IdSet)
        ensures
            forall|x: u64| !s.contains_spec(x),
            s.ids@.len() == 0,
    {
        IdSet { ids: Vec::new() }
    }

    /// Builds a set from a list of identifiers; membership is exactly
    /// occurrence in the list.
    pub fn from_ids(ids: Vec<u64>) -> (s: IdSet)
        ensures
            forall|x: u64| s.contains_spec(x) <==> ids@.contains(x),
    {
        IdSet { ids }
    }

    /// Membership test.
    pub fn contains(&self, x: u64) -> (r: bool)
        ensures
            r == self.contains_spec(x),
    {
        let n: usize = self.ids.len();
        let mut i: usize = 0;
        while i < n
            invariant
                n == self.ids@.len(),
                i <= n,
                forall|j: int| 0 <= j < i ==> self.ids@[j] != x,
            decreases n - i,
        {
            if self.ids[i] == x {
                return true;
            }
            i += 1;
        }
        false
    }

    /// Adds `x`; membership of every other identifier is unchanged.
    pub fn insert(&mut self, x: u64)
        ensures
            final(self).contains_spec(x),
            forall|y: u64| y != x ==> final(self).contains_spec(y) == old(self).contains_spec(y),
    {
        if !self.contains(x) {
            let ghost s = self.ids@;
            self.ids.push(x);
            proof {
                assert(self.ids@[s.len() as int] == x);
                assert forall|y: u64| y != x implies final(self).contains_spec(y) == old(
                    self,
                ).contains_spec(y) by {
                    if s.contains(y) {
                        let j = choose|j: int| 0 <= j < s.len() && s[j] == y;
                        assert(self.ids@[j] == y);
                    } else if self.ids@.contains(y) {
                        let j = choose|j: int| 0 <= j < self.ids@.len() && self.ids@[j] == y;
                        assert(j < s.len() && s[j] == y);
                    }
                }
            }
        }
    }

    /// Removes every occurrence of `x`; membership of every other
    /// identifier is unchanged.
    pub fn remove(&mut self, x: u64)
        ensures
            !final(self).contains_spec(x),
            forall|y: u64| y != x ==> final(self).contains_spec(y) == old(self).contains_spec(y),
    {
        let ghost s = self.ids@;
        let n: usize = self.ids.len();
        let mut kept: Vec<u64> = Vec::new();
        let mut i: usize = 0;
        while i < n
            invariant
                n == s.len(),
                i <= n,
                self.ids@ == s,
                forall|y: u64|
                    kept@.contains(y) <==> (s.subrange(0, i as int).contains(y) && y != x),
            decreases n - i,
        {
            let ghost kept_before = kept@;
            let ghost seen_before = s.subrange(0, i as int);
            let ghost seen_after = s.subrange(0, i as int + 1);
            if self.ids[i] != x {
                kept.push(self.ids[i]);
            }
            proof {
                assert(seen_after =~= seen_before.push(s[i as int]));
                assert forall|y: u64| kept@.contains(y) implies (seen_after.contains(y) && y != x) by {
                    let j = choose|j: int| 0 <= j < kept@.len() && kept@[j] == y;
                    if j < kept_before.len() {
                        assert(kept_before.contains(y)) by {
                            assert(kept_before[j] == y);
                        }
                        assert(seen_before.contains(y) && y != x);
                        let m = choose|m: int| 0 <= m < seen_before.len() && seen_before[m] == y;
                        assert(seen_after.contains(y)) by {
                            assert(seen_after[m] == y);
                        }
                    } else {
                        assert(y == s[i as int] && y != x);
                        assert(seen_after.contains(y)) by {
                            assert(seen_after[i as int] == y);
                        }
                    }
                }
                assert forall|y: u64| seen_after.contains(y) && y != x implies kept@.contains(y) by {
                    let m = choose|m: int| 0 <= m < seen_after.len() && seen_after[m] == y;
                    if m < i {
                        assert(seen_before.contains(y)) by {
                            assert(seen_before[m] == y);
                        }
                        assert(kept_before.contains(y));
                        let j = choose|j: int| 0 <= j < kept_before.len() && kept_before[j] == y;
                        assert(kept@.contains(y)) by {
                            assert(kept@[j] == y);
                        }
                    } else {
                        assert(y == s[i as int]);
                        assert(kept@.contains(y)) by {
                            assert(kept@[kept@.len() - 1] == y);
                        }
                    }
                }
            }
            i += 1;
        }
        proof {
            assert(s.subrange(0, n as int) =~= s);
        }
        self.ids = kept;
    }
}

} // verus!
