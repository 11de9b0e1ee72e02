//! Association maps with insert-overwrite semantics, modelled as `Map`
//! views.
//!
//! The migration orchestrator keys its translation tables by numeric source
//! ids and by lowercase names.  Each table is a vector of pairs with unique
//! keys; its mathematical model is the `Map` built by inserting the pairs in
//! order.

use vstd::prelude::*;

verus! {

/// The `Map` built by inserting the pairs of `s` in order: a later pair with
/// the same key overwrites an earlier one.
pub open spec fn assoc_map<K, V>(s: Seq<(K, V)>) -> Map<K, V>
    decreases s.len(),
{
    if s.len() == 0 {
        Map::empty()
    } else {
        assoc_map(s.drop_last()).insert(s.last().0, s.last().1)
    }
}

/// Whether the keys of `s` are pairwise distinct.
pub open spec fn unique_keys<K, V>(s: Seq<(K, V)>) -> bool {
    forall|i: int, j: int| 0 <= i < j < s.len() ==> (#[trigger] s[i]).0 != (#[trigger] s[j]).0
}

/// A key is in the map exactly when some pair holds it.
pub proof fn lemma_assoc_contains<K, V>(s: Seq<(K, V)>, k: K)
    ensures
        assoc_map(s).contains_key(k) <==> exists|i: int| 0 <= i < s.len() && (#[trigger] s[i]).0
            == k,
    decreases s.len(),
{
    if s.len() > 0 {
        lemma_assoc_contains(s.drop_last(), k);
        if s.last().0 == k {
            assert(s[s.len() - 1].0 == k);
        } else if assoc_map(s).contains_key(k) {
            let i = choose|i: int| 0 <= i < s.drop_last().len() && (#[trigger] s.drop_last()[i]).0
                == k;
            assert(s[i].0 == k);
        } else {
            if exists|i: int| 0 <= i < s.len() && (#[trigger] s[i]).0 == k {
                let i = choose|i: int| 0 <= i < s.len() && (#[trigger] s[i]).0 == k;
                assert(i < s.len() - 1);
                assert(s.drop_last()[i].0 == k);
            }
        }
    }
}

/// With unique keys, the pair at index `i` is what the map holds for its
/// key.
pub proof fn lemma_assoc_index<K, V>(s: Seq<(K, V)>, i: int)
    requires
        unique_keys(s),
        0 <= i < s.len(),
    ensures
        assoc_map(s).contains_key(s[i].0),
        assoc_map(s)[s[i].0] == s[i].1,
    decreases s.len(),
{
    if i == s.len() - 1 {
    } else {
        assert(unique_keys(s.drop_last())) by {
            assert(forall|a: int, b: int|
                0 <= a < b < s.drop_last().len() ==> (#[trigger] s.drop_last()[a]).0 != (
                #[trigger] s.drop_last()[b]).0) by {
                assert(forall|a: int|
                    0 <= a < s.drop_last().len() ==> #[trigger] s.drop_last()[a] == s[a]);
            }
        }
        assert(s.drop_last()[i] == s[i]);
        lemma_assoc_index(s.drop_last(), i);
        assert(s.last().0 != s[i].0);
    }
}

/// With unique keys, overwriting the value at index `i` is `Map::insert`.
pub proof fn lemma_assoc_update<K, V>(s: Seq<(K, V)>, i: int, v: V)
    requires
        unique_keys(s),
        0 <= i < s.len(),
    ensures
        assoc_map(s.update(i, (s[i].0, v))) == assoc_map(s).insert(s[i].0, v),
        unique_keys(s.update(i, (s[i].0, v))),
    decreases s.len(),
{
    let t = s.update(i, (s[i].0, v));
    assert(unique_keys(t)) by {
        assert(forall|a: int| 0 <= a < t.len() ==> (#[trigger] t[a]).0 == s[a].0);
    }
    if i == s.len() - 1 {
        assert(t.drop_last() =~= s.drop_last());
        assert(t.last() == (s[i].0, v));
        assert(assoc_map(t) =~= assoc_map(s).insert(s[i].0, v));
    } else {
        assert(unique_keys(s.drop_last())) by {
            assert(forall|a: int|
                0 <= a < s.drop_last().len() ==> #[trigger] s.drop_last()[a] == s[a]);
        }
        assert(s.drop_last()[i] == s[i]);
        lemma_assoc_update(s.drop_last(), i, v);
        assert(t.drop_last() =~= s.drop_last().update(i, (s[i].0, v)));
        assert(t.last() == s.last());
        assert(assoc_map(t) == assoc_map(s.drop_last()).insert(s[i].0, v).insert(
            s.last().0,
            s.last().1,
        ));
        assert(s.last().0 != s[i].0);
        assert(assoc_map(s.drop_last()).insert(s[i].0, v).insert(s.last().0, s.last().1)
            =~= assoc_map(s.drop_last()).insert(s.last().0, s.last().1).insert(s[i].0, v));
    }
}

/// Appending a pair whose key is absent is `Map::insert`, and keeps keys
/// unique.
pub proof fn lemma_assoc_push<K, V>(s: Seq<(K, V)>, k: K, v: V)
    requires
        unique_keys(s),
        forall|i: int| 0 <= i < s.len() ==> (#[trigger] s[i]).0 != k,
    ensures
        assoc_map(s.push((k, v))) == assoc_map(s).insert(k, v),
        unique_keys(s.push((k, v))),
{
    assert(s.push((k, v)).drop_last() =~= s);
    assert(s.push((k, v)).last() == (k, v));
    assert(unique_keys(s.push((k, v)))) by {
        assert(forall|a: int| 0 <= a < s.len() ==> #[trigger] s.push((k, v))[a] == s[a]);
        assert(s.push((k, v))[s.len() as int] == (k, v));
    }
}

/// A map from source numeric ids to destination numeric ids.
#[derive(Debug, Clone)]
pub struct IdMap {
    entries: Vec<(i64, i64)>,
}

impl IdMap {
    /// The keys are pairwise distinct.
    pub closed spec fn wf(self) -> bool {
        unique_keys(self.entries@)
    }

    /// The map these entries denote.
    pub closed spec fn as_map(self) -> Map<i64, i64> {
        assoc_map(self.entries@)
    }

    /// The number of entries.
    pub closed spec fn spec_len(self) -> nat {
        self.entries@.len()
    }

    /// An empty map.
    pub fn new() -> (r: Self)
        ensures
            r.wf(),
            r.as_map() == Map::<i64, i64>::empty(),
            r.spec_len() == 0,
    {
        IdMap { entries: Vec::new() }
    }

    /// The number of entries.
    pub fn len(&self) -> (r: usize)
        ensures
            r == self.spec_len(),
    {
        self.entries.len()
    }

    /// The value stored under `k`, if any.
    pub fn get(&self, k: i64) -> (r: Option<i64>)
        requires
            self.wf(),
        ensures
            r == if self.as_map().contains_key(k) {
                Some(self.as_map()[k])
            } else {
                None::<i64>
            },
    {
        let n = self.entries.len();
        let mut i: usize = 0;
        while i < n
            invariant
                i <= n,
                n == self.entries@.len(),
                self.wf(),
                forall|j: int| 0 <= j < i ==> (#[trigger] self.entries@[j]).0 != k,
            decreases n - i,
        {
            if self.entries[i].0 == k {
                proof {
                    lemma_assoc_index(self.entries@, i as int);
                }
                return Some(self.entries[i].1);
            }
            i += 1;
        }
        proof {
            lemma_assoc_contains(self.entries@, k);
        }
        None
    }

    /// Whether `k` is present.
    pub fn contains_key(&self, k: i64) -> (r: bool)
        requires
            self.wf(),
        ensures
            r == self.as_map().contains_key(k),
    {
        self.get(k).is_some()
    }

    /// Stores `v` under `k`, overwriting any earlier value.
    pub fn insert(&mut self, k: i64, v: i64)
        requires
            old(self).wf(),
        ensures
            final(self).wf(),
            final(self).as_map() == old(self).as_map().insert(k, v),
    {
        let n = self.entries.len();
        let mut i: usize = 0;
        while i < n
            invariant
                i <= n,
                n == self.entries@.len(),
                self.entries@ == old(self).entries@,
                self.wf(),
                forall|j: int| 0 <= j < i ==> (#[trigger] self.entries@[j]).0 != k,
            decreases n - i,
        {
            if self.entries[i].0 == k {
                proof {
                    lemma_assoc_update(self.entries@, i as int, v);
                }
                let slot = &mut self.entries[i];
                *slot = (k, v);
                return ;
            }
            i += 1;
        }
        proof {
            lemma_assoc_push(self.entries@, k, v);
        }
        self.entries.push((k, v));
    }
}

/// The view-level pairs of name-keyed entries.
pub open spec fn name_entry_views(s: Seq<(String, i64)>) -> Seq<(Seq<char>, i64)> {
    s.map_values(|p: (String, i64)| (p.0@, p.1))
}

/// A map from names (usually lowercased) to destination numeric ids.
#[derive(Debug, Clone)]
pub struct NameMap {
    entries: Vec<(String, i64)>,
}

impl NameMap {
    /// The keys are pairwise distinct.
    pub closed spec fn wf(self) -> bool {
        unique_keys(name_entry_views(self.entries@))
    }

    /// The map these entries denote, keyed by character sequence.
    pub closed spec fn as_map(self) -> Map<Seq<char>, i64> {
        assoc_map(name_entry_views(self.entries@))
    }

    /// The number of entries.
    pub closed spec fn spec_len(self) -> nat {
        self.entries@.len()
    }

    /// An empty map.
    pub fn new() -> (r: Self)
        ensures
            r.wf(),
            r.as_map() == Map::<Seq<char>, i64>::empty(),
            r.spec_len() == 0,
    {
        let r = NameMap { entries: Vec::new() };
        assert(name_entry_views(r.entries@) =~= Seq::<(Seq<char>, i64)>::empty());
        r
    }

    /// The number of entries.
    pub fn len(&self) -> (r: usize)
        ensures
            r == self.spec_len(),
    {
        self.entries.len()
    }

    /// Whether the map holds nothing.
    pub fn is_empty(&self) -> (r: bool)
        requires
            self.wf(),
        ensures
            r <==> self.as_map() == Map::<Seq<char>, i64>::empty(),
    {
        let r = self.entries.len() == 0;
        proof {
            let vs = name_entry_views(self.entries@);
            if self.entries@.len() == 0 {
                assert(vs =~= Seq::<(Seq<char>, i64)>::empty());
            } else {
                lemma_assoc_index(vs, 0);
                assert(vs[0] == (self.entries@[0].0@, self.entries@[0].1));
                assert(self.as_map().contains_key(vs[0].0));
                assert(!Map::<Seq<char>, i64>::empty().contains_key(vs[0].0));
            }
        }
        r
    }

    /// The value stored under `k`, if any.
    pub fn get(&self, k: &String) -> (r: Option<i64>)
        requires
            self.wf(),
        ensures
            r == if self.as_map().contains_key(k@) {
                Some(self.as_map()[k@])
            } else {
                None::<i64>
            },
    {
        let ghost vs = name_entry_views(self.entries@);
        let n = self.entries.len();
        let mut i: usize = 0;
        while i < n
            invariant
                i <= n,
                n == self.entries@.len(),
                self.wf(),
                vs == name_entry_views(self.entries@),
                forall|j: int| 0 <= j < i ==> (#[trigger] vs[j]).0 != k@,
            decreases n - i,
        {
            assert(vs[i as int] == (self.entries@[i as int].0@, self.entries@[i as int].1));
            if self.entries[i].0 == *k {
                proof {
                    lemma_assoc_index(vs, i as int);
                }
                return Some(self.entries[i].1);
            }
            i += 1;
        }
        proof {
            lemma_assoc_contains(vs, k@);
        }
        None
    }

    /// Whether `k` is present.
    pub fn contains_key(&self, k: &String) -> (r: bool)
        requires
            self.wf(),
        ensures
            r == self.as_map().contains_key(k@),
    {
        self.get(k).is_some()
    }

    /// Stores `v` under `k`, overwriting any earlier value.
    pub fn insert(&mut self, k: String, v: i64)
        requires
            old(self).wf(),
        ensures
            final(self).wf(),
            final(self).as_map() == old(self).as_map().insert(k@, v),
    {
        let ghost vs = name_entry_views(self.entries@);
        let n = self.entries.len();
        let mut i: usize = 0;
        while i < n
            invariant
                i <= n,
                n == self.entries@.len(),
                self.entries@ == old(self).entries@,
                self.wf(),
                vs == name_entry_views(self.entries@),
                forall|j: int| 0 <= j < i ==> (#[trigger] vs[j]).0 != k@,
            decreases n - i,
        {
            assert(vs[i as int] == (self.entries@[i as int].0@, self.entries@[i as int].1));
            if self.entries[i].0 == k {
                proof {
                    lemma_assoc_update(vs, i as int, v);
                }
                let slot = &mut self.entries[i];
                *slot = (k, v);
                assert(name_entry_views(self.entries@) =~= vs.update(i as int, (vs[i as int].0, v)));
                return ;
            }
            i += 1;
        }
        proof {
            lemma_assoc_push(vs, k@, v);
        }
        self.entries.push((k, v));
        assert(name_entry_views(self.entries@) =~= vs.push((k@, v)));
    }
}

/// The view-level pairs of id-to-name entries.
pub open spec fn id_name_entry_views(s: Seq<(i64, String)>) -> Seq<(i64, Seq<char>)> {
    s.map_values(|p: (i64, String)| (p.0, p.1@))
}

/// A map from numeric ids to names.
#[derive(Debug, Clone)]
pub struct IdNameMap {
    entries: Vec<(i64, String)>,
}

impl IdNameMap {
    /// The keys are pairwise distinct.
    pub closed spec fn wf(self) -> bool {
        unique_keys(id_name_entry_views(self.entries@))
    }

    /// The map these entries denote.
    pub closed spec fn as_map(self) -> Map<i64, Seq<char>> {
        assoc_map(id_name_entry_views(self.entries@))
    }

    /// An empty map.
    pub fn new() -> (r: Self)
        ensures
            r.wf(),
            r.as_map() == Map::<i64, Seq<char>>::empty(),
    {
        let r = IdNameMap { entries: Vec::new() };
        assert(id_name_entry_views(r.entries@) =~= Seq::<(i64, Seq<char>)>::empty());
        r
    }

    /// The name stored under `k`, if any.
    pub fn get(&self, k: i64) -> (r: Option<&String>)
        requires
            self.wf(),
        ensures
            match r {
                Some(name) => self.as_map().contains_key(k) && name@ == self.as_map()[k],
                None => !self.as_map().contains_key(k),
            },
    {
        let ghost vs = id_name_entry_views(self.entries@);
        let n = self.entries.len();
        let mut i: usize = 0;
        while i < n
            invariant
                i <= n,
                n == self.entries@.len(),
                self.wf(),
                vs == id_name_entry_views(self.entries@),
                forall|j: int| 0 <= j < i ==> (#[trigger] vs[j]).0 != k,
            decreases n - i,
        {
            assert(vs[i as int] == (self.entries@[i as int].0, self.entries@[i as int].1@));
            if self.entries[i].0 == k {
                proof {
                    lemma_assoc_index(vs, i as int);
                }
                return Some(&self.entries[i].1);
            }
            i += 1;
        }
        proof {
            lemma_assoc_contains(vs, k);
        }
        None
    }

    /// Stores `name` under `k`, overwriting any earlier value.
    pub fn insert(&mut self, k: i64, name: String)
        requires
            old(self).wf(),
        ensures
            final(self).wf(),
            final(self).as_map() == old(self).as_map().insert(k, name@),
    {
        let ghost vs = id_name_entry_views(self.entries@);
        let n = self.entries.len();
        let mut i: usize = 0;
        while i < n
            invariant
                i <= n,
                n == self.entries@.len(),
                self.entries@ == old(self).entries@,
                self.wf(),
                vs == id_name_entry_views(self.entries@),
                forall|j: int| 0 <= j < i ==> (#[trigger] vs[j]).0 != k,
            decreases n - i,
        {
            assert(vs[i as int] == (self.entries@[i as int].0, self.entries@[i as int].1@));
            if self.entries[i].0 == k {
                proof {
                    lemma_assoc_update(vs, i as int, name@);
                }
                let slot = &mut self.entries[i];
                *slot = (k, name);
                assert(id_name_entry_views(self.entries@) =~= vs.update(
                    i as int,
                    (vs[i as int].0, name@),
                ));
                return ;
            }
            i += 1;
        }
        proof {
            lemma_assoc_push(vs, k, name@);
        }
        self.entries.push((k, name));
        assert(id_name_entry_views(self.entries@) =~= vs.push((k, name@)));
    }
}

/// The view-level pairs of pair-keyed entries.
pub open spec fn pair_entry_views(s: Seq<((String, String), i64)>) -> Seq<
    ((Seq<char>, Seq<char>), i64),
> {
    s.map_values(|p: ((String, String), i64)| ((p.0.0@, p.0.1@), p.1))
}

/// A map keyed by a pair of names: used for the (customer name, site name)
/// composite key of site matching.
#[derive(Debug, Clone)]
pub struct NamePairMap {
    entries: Vec<((String, String), i64)>,
}

impl NamePairMap {
    /// The keys are pairwise distinct.
    pub closed spec fn wf(self) -> bool {
        unique_keys(pair_entry_views(self.entries@))
    }

    /// The map these entries denote.
    pub closed spec fn as_map(self) -> Map<(Seq<char>, Seq<char>), i64> {
        assoc_map(pair_entry_views(self.entries@))
    }

    /// An empty map.
    pub fn new() -> (r: Self)
        ensures
            r.wf(),
            r.as_map() == Map::<(Seq<char>, Seq<char>), i64>::empty(),
    {
        let r = NamePairMap { entries: Vec::new() };
        assert(pair_entry_views(r.entries@) =~= Seq::<((Seq<char>, Seq<char>), i64)>::empty());
        r
    }

    /// The value stored under `(a, b)`, if any.
    pub fn get(&self, a: &String, b: &String) -> (r: Option<i64>)
        requires
            self.wf(),
        ensures
            r == if self.as_map().contains_key((a@, b@)) {
                Some(self.as_map()[(a@, b@)])
            } else {
                None::<i64>
            },
    {
        let ghost vs = pair_entry_views(self.entries@);
        let n = self.entries.len();
        let mut i: usize = 0;
        while i < n
            invariant
                i <= n,
                n == self.entries@.len(),
                self.wf(),
                vs == pair_entry_views(self.entries@),
                forall|j: int| 0 <= j < i ==> (#[trigger] vs[j]).0 != (a@, b@),
            decreases n - i,
        {
            assert(vs[i as int] == (
                (self.entries@[i as int].0.0@, self.entries@[i as int].0.1@),
                self.entries@[i as int].1,
            ));
            if self.entries[i].0.0 == *a && self.entries[i].0.1 == *b {
                proof {
                    lemma_assoc_index(vs, i as int);
                }
                return Some(self.entries[i].1);
            }
            i += 1;
        }
        proof {
            lemma_assoc_contains(vs, (a@, b@));
        }
        None
    }

    /// Stores `v` under `(a, b)`, overwriting any earlier value.
    pub fn insert(&mut self, a: String, b: String, v: i64)
        requires
            old(self).wf(),
        ensures
            final(self).wf(),
            final(self).as_map() == old(self).as_map().insert((a@, b@), v),
    {
        let ghost vs = pair_entry_views(self.entries@);
        let n = self.entries.len();
        let mut i: usize = 0;
        while i < n
            invariant
                i <= n,
                n == self.entries@.len(),
                self.entries@ == old(self).entries@,
                self.wf(),
                vs == pair_entry_views(self.entries@),
                forall|j: int| 0 <= j < i ==> (#[trigger] vs[j]).0 != (a@, b@),
            decreases n - i,
        {
            assert(vs[i as int] == (
                (self.entries@[i as int].0.0@, self.entries@[i as int].0.1@),
                self.entries@[i as int].1,
            ));
            if self.entries[i].0.0 == a && self.entries[i].0.1 == b {
                proof {
                    lemma_assoc_update(vs, i as int, v);
                }
                let slot = &mut self.entries[i];
                *slot = ((a, b), v);
                assert(pair_entry_views(self.entries@) =~= vs.update(
                    i as int,
                    (vs[i as int].0, v),
                ));
                return ;
            }
            i += 1;
        }
        proof {
            lemma_assoc_push(vs, (a@, b@), v);
        }
        self.entries.push(((a, b), v));
        assert(pair_entry_views(self.entries@) =~= vs.push(((a@, b@), v)));
    }
}

} // verus!
