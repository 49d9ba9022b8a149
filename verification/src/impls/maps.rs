//! Map and set impls: `HashMap`, `BTreeMap`, `HashSet` and `BTreeSet` are
//! monoids under union, with the empty collection as identity. The maps
//! keep the right-hand value on a colliding key (right-biased union), which
//! keeps the operation associative.
use crate::keys::ModeledKey;
use crate::op::Additive;
use crate::tower::{Carrier, Magma, Monoid, Semigroup};
use std::collections::{BTreeMap, BTreeSet, HashMap, HashSet};
use vstd::prelude::*;
use vstd::std_specs::iter::IteratorSpec;

verus! {

/// The elements among the first `n` items of an iteration.
pub open spec fn seen<K>(items: Seq<&K>, n: int) -> Set<K> {
    Set::new(|k: K| exists|j: int| 0 <= j < n && *items[j] == k)
}

proof fn lemma_seen_step<K>(items: Seq<&K>, n: int)
    requires
        0 <= n < items.len(),
    ensures
        seen(items, n + 1) == seen(items, n).insert(*items[n]),
{
    assert forall|k: K| #[trigger] seen(items, n + 1).contains(k) implies seen(items, n).insert(
        *items[n],
    ).contains(k) by {
        let j = choose|j: int| 0 <= j < n + 1 && *items[j] == k;
        if j < n {
            assert(seen(items, n).contains(k));
        }
    }
    assert forall|k: K| #[trigger] seen(items, n).insert(*items[n]).contains(k) implies seen(
        items,
        n + 1,
    ).contains(k) by {
        if k != *items[n] {
            let j = choose|j: int| 0 <= j < n && *items[j] == k;
            assert(0 <= j < n + 1 && *items[j] == k);
        }
    }
    assert(seen(items, n + 1) =~= seen(items, n).insert(*items[n]));
}

proof fn lemma_seen_all<K>(items: Seq<&K>)
    ensures
        seen(items, items.len() as int) == items.unref().to_set(),
{
    assert forall|k: K| #[trigger] seen(items, items.len() as int).contains(k) implies items.unref().to_set().contains(k) by {
        let j = choose|j: int| 0 <= j < items.len() && *items[j] == k;
        assert(items.unref()[j] == k);
    }
    assert forall|k: K| #[trigger] items.unref().to_set().contains(k) implies seen(items, items.len() as int).contains(k) by {
        let j = choose|j: int| 0 <= j < items.unref().len() && items.unref()[j] == k;
        assert(*items[j] == k);
    }
    assert(seen(items, items.len() as int) =~= items.unref().to_set());
}

/// The keys among the first `n` entries of an iteration over a map.
pub open spec fn seen_keys<K, V>(entries: Seq<(&K, &V)>, n: int) -> Set<K> {
    Set::new(|k: K| exists|j: int| 0 <= j < n && *entries[j].0 == k)
}

proof fn lemma_seen_keys_step<K, V>(entries: Seq<(&K, &V)>, n: int)
    requires
        0 <= n < entries.len(),
    ensures
        seen_keys(entries, n + 1) == seen_keys(entries, n).insert(*entries[n].0),
{
    assert forall|k: K| #[trigger] seen_keys(entries, n + 1).contains(k) implies seen_keys(
        entries,
        n,
    ).insert(*entries[n].0).contains(k) by {
        let j = choose|j: int| 0 <= j < n + 1 && *entries[j].0 == k;
        if j < n {
            assert(seen_keys(entries, n).contains(k));
        }
    }
    assert forall|k: K| #[trigger] seen_keys(entries, n).insert(*entries[n].0).contains(k) implies seen_keys(
        entries,
        n + 1,
    ).contains(k) by {
        if k != *entries[n].0 {
            let j = choose|j: int| 0 <= j < n && *entries[j].0 == k;
            assert(0 <= j < n + 1 && *entries[j].0 == k);
        }
    }
    assert(seen_keys(entries, n + 1) =~= seen_keys(entries, n).insert(*entries[n].0));
}

/// Once every entry has been visited, the visited keys are the whole
/// domain of the map the entries came from.
proof fn lemma_seen_keys_all<K, V>(entries: Seq<(&K, &V)>, m: Map<K, V>)
    requires
        forall|i: int| 0 <= i < entries.len() ==> #[trigger] m.contains_key(*entries[i].0),
        forall|k: K| #[trigger] m.contains_key(k) ==> entries.contains((&k, &m[k])),
    ensures
        seen_keys(entries, entries.len() as int) == m.dom(),
{
    assert forall|k: K| #[trigger] m.dom().contains(k) implies seen_keys(
        entries,
        entries.len() as int,
    ).contains(k) by {
        assert(m.contains_key(k));
        let j = choose|j: int| 0 <= j < entries.len() && entries[j] == (&k, &m[k]);
        assert(*entries[j].0 == k);
    }
    assert forall|k: K| #[trigger] seen_keys(entries, entries.len() as int).contains(k) implies m.dom().contains(k) by {
        let j = choose|j: int| 0 <= j < entries.len() && *entries[j].0 == k;
        assert(m.contains_key(*entries[j].0));
    }
    assert(seen_keys(entries, entries.len() as int) =~= m.dom());
}

impl<K: ModeledKey> Carrier for HashSet<K> {
    type Model = Set<K>;

    open spec fn model(self) -> Set<K> {
        self@
    }

    open spec fn contains(m: Set<K>) -> bool {
        m.finite()
    }

    proof fn lemma_model_contained(x: &Self) {
        assert(vstd::std_specs::hash::spec_hash_keys_iter(x).remaining().unref().to_set() == x@);
    }
}

impl<K: ModeledKey> Magma<Additive> for HashSet<K> {
    open spec fn spec_combine(a: Set<K>, b: Set<K>) -> Set<K> {
        a.union(b)
    }

    proof fn lemma_closed(a: Set<K>, b: Set<K>) {
    }

    fn combine(&self, rhs: &Self) -> (r: Self) {
        proof {
            K::lemma_key_laws();
        }
        let ghost left = vstd::std_specs::hash::spec_hash_keys_iter(self).remaining();
        let ghost right = vstd::std_specs::hash::spec_hash_keys_iter(rhs).remaining();
        let ghost mut n: int = 0;
        let mut s: HashSet<K> = HashSet::new();
        for x in it: self.iter()
            invariant
                vstd::std_specs::hash::obeys_key_model::<K>(),
                it.seq() == left,
                n == it.index(),
                s@ == seen(left, n),
        {
            proof {
                lemma_seen_step(left, n);
                n = n + 1;
            }
            s.insert(*x);
        }
        proof {
            lemma_seen_all(left);
            n = 0;
        }
        assert(s@ == self@);
        for x in it: rhs.iter()
            invariant
                vstd::std_specs::hash::obeys_key_model::<K>(),
                it.seq() == right,
                n == it.index(),
                s@ == self@.union(seen(right, n)),
        {
            proof {
                lemma_seen_step(right, n);
                n = n + 1;
            }
            s.insert(*x);
        }
        proof {
            lemma_seen_all(right);
        }
        assert(s@ =~= self@.union(rhs@));
        s
    }
}

impl<K: ModeledKey> Semigroup<Additive> for HashSet<K> {
    proof fn lemma_associative(a: Set<K>, b: Set<K>, c: Set<K>) {
        assert(a.union(b).union(c) =~= a.union(b.union(c)));
    }
}

impl<K: ModeledKey> Monoid<Additive> for HashSet<K> {
    open spec fn spec_identity() -> Set<K> {
        Set::empty()
    }

    proof fn lemma_identity(a: Set<K>) {
        assert(Set::<K>::empty().union(a) =~= a);
        assert(a.union(Set::<K>::empty()) =~= a);
    }

    fn identity() -> (r: Self) {
        HashSet::new()
    }
}

impl<K: ModeledKey, V: Copy> Carrier for HashMap<K, V> {
    type Model = Map<K, V>;

    open spec fn model(self) -> Map<K, V> {
        self@
    }

    open spec fn contains(m: Map<K, V>) -> bool {
        m.dom().finite()
    }

    proof fn lemma_model_contained(x: &Self) {
    }
}

impl<K: ModeledKey, V: Copy> Magma<Additive> for HashMap<K, V> {
    open spec fn spec_combine(a: Map<K, V>, b: Map<K, V>) -> Map<K, V> {
        a.union_prefer_right(b)
    }

    proof fn lemma_closed(a: Map<K, V>, b: Map<K, V>) {
        assert(a.union_prefer_right(b).dom() =~= a.dom().union(b.dom()));
    }

    fn combine(&self, rhs: &Self) -> (r: Self) {
        proof {
            K::lemma_key_laws();
        }
        let ghost left = vstd::std_specs::hash::spec_hash_map_iter(self).remaining();
        let ghost right = vstd::std_specs::hash::spec_hash_map_iter(rhs).remaining();
        let ghost mut n: int = 0;
        let mut m: HashMap<K, V> = HashMap::new();
        for entry in it: self.iter()
            invariant
                vstd::std_specs::hash::obeys_key_model::<K>(),
                it.seq() == left,
                n == it.index(),
                m@ == self@.restrict(seen_keys(left, n)),
        {
            proof {
                lemma_seen_keys_step(left, n);
                n = n + 1;
            }
            m.insert(*entry.0, *entry.1);
            assert(m@ =~= self@.restrict(seen_keys(left, n)));
        }
        proof {
            lemma_seen_keys_all(left, self@);
            n = 0;
        }
        assert(m@ =~= self@);
        for entry in it: rhs.iter()
            invariant
                vstd::std_specs::hash::obeys_key_model::<K>(),
                it.seq() == right,
                n == it.index(),
                m@ == self@.union_prefer_right(rhs@.restrict(seen_keys(right, n))),
        {
            proof {
                lemma_seen_keys_step(right, n);
                n = n + 1;
            }
            m.insert(*entry.0, *entry.1);
            assert(m@ =~= self@.union_prefer_right(rhs@.restrict(seen_keys(right, n))));
        }
        proof {
            lemma_seen_keys_all(right, rhs@);
        }
        assert(m@ =~= self@.union_prefer_right(rhs@));
        m
    }
}

impl<K: ModeledKey, V: Copy> Semigroup<Additive> for HashMap<K, V> {
    proof fn lemma_associative(a: Map<K, V>, b: Map<K, V>, c: Map<K, V>) {
        assert(a.union_prefer_right(b).union_prefer_right(c) =~= a.union_prefer_right(
            b.union_prefer_right(c),
        ));
    }
}

impl<K: ModeledKey, V: Copy> Monoid<Additive> for HashMap<K, V> {
    open spec fn spec_identity() -> Map<K, V> {
        Map::empty()
    }

    proof fn lemma_identity(a: Map<K, V>) {
        assert(Map::<K, V>::empty().union_prefer_right(a) =~= a);
        assert(a.union_prefer_right(Map::<K, V>::empty()) =~= a);
    }

    fn identity() -> (r: Self) {
        HashMap::new()
    }
}


impl<K: ModeledKey> Carrier for BTreeSet<K> {
    type Model = Set<K>;

    open spec fn model(self) -> Set<K> {
        self@
    }

    open spec fn contains(m: Set<K>) -> bool {
        m.finite()
    }

    proof fn lemma_model_contained(x: &Self) {
        assert(vstd::std_specs::btree::spec_btree_keys_iter(x).remaining().unref().to_set() == x@);
    }
}

impl<K: ModeledKey> Magma<Additive> for BTreeSet<K> {
    open spec fn spec_combine(a: Set<K>, b: Set<K>) -> Set<K> {
        a.union(b)
    }

    proof fn lemma_closed(a: Set<K>, b: Set<K>) {
    }

    fn combine(&self, rhs: &Self) -> (r: Self) {
        proof {
            K::lemma_key_laws();
        }
        let ghost left = vstd::std_specs::btree::spec_btree_keys_iter(self).remaining();
        let ghost right = vstd::std_specs::btree::spec_btree_keys_iter(rhs).remaining();
        let ghost mut n: int = 0;
        let mut s: BTreeSet<K> = BTreeSet::new();
        for x in it: self.iter()
            invariant
                vstd::laws_cmp::obeys_cmp::<K>(),
                it.seq() == left,
                n == it.index(),
                s@ == seen(left, n),
        {
            proof {
                lemma_seen_step(left, n);
                n = n + 1;
            }
            s.insert(*x);
        }
        proof {
            lemma_seen_all(left);
            n = 0;
        }
        assert(s@ == self@);
        for x in it: rhs.iter()
            invariant
                vstd::laws_cmp::obeys_cmp::<K>(),
                it.seq() == right,
                n == it.index(),
                s@ == self@.union(seen(right, n)),
        {
            proof {
                lemma_seen_step(right, n);
                n = n + 1;
            }
            s.insert(*x);
        }
        proof {
            lemma_seen_all(right);
        }
        assert(s@ =~= self@.union(rhs@));
        s
    }
}

impl<K: ModeledKey> Semigroup<Additive> for BTreeSet<K> {
    proof fn lemma_associative(a: Set<K>, b: Set<K>, c: Set<K>) {
        assert(a.union(b).union(c) =~= a.union(b.union(c)));
    }
}

impl<K: ModeledKey> Monoid<Additive> for BTreeSet<K> {
    open spec fn spec_identity() -> Set<K> {
        Set::empty()
    }

    proof fn lemma_identity(a: Set<K>) {
        assert(Set::<K>::empty().union(a) =~= a);
        assert(a.union(Set::<K>::empty()) =~= a);
    }

    fn identity() -> (r: Self) {
        BTreeSet::new()
    }
}

impl<K: ModeledKey, V: Copy> Carrier for BTreeMap<K, V> {
    type Model = Map<K, V>;

    open spec fn model(self) -> Map<K, V> {
        self@
    }

    open spec fn contains(m: Map<K, V>) -> bool {
        m.dom().finite()
    }

    proof fn lemma_model_contained(x: &Self) {
    }
}

impl<K: ModeledKey, V: Copy> Magma<Additive> for BTreeMap<K, V> {
    open spec fn spec_combine(a: Map<K, V>, b: Map<K, V>) -> Map<K, V> {
        a.union_prefer_right(b)
    }

    proof fn lemma_closed(a: Map<K, V>, b: Map<K, V>) {
        assert(a.union_prefer_right(b).dom() =~= a.dom().union(b.dom()));
    }

    fn combine(&self, rhs: &Self) -> (r: Self) {
        proof {
            K::lemma_key_laws();
        }
        let ghost left = vstd::std_specs::btree::spec_btree_map_iter(self).remaining();
        let ghost right = vstd::std_specs::btree::spec_btree_map_iter(rhs).remaining();
        let ghost mut n: int = 0;
        let mut m: BTreeMap<K, V> = BTreeMap::new();
        for entry in it: self.iter()
            invariant
                vstd::laws_cmp::obeys_cmp::<K>(),
                it.seq() == left,
                n == it.index(),
                m@ == self@.restrict(seen_keys(left, n)),
        {
            proof {
                lemma_seen_keys_step(left, n);
                n = n + 1;
            }
            m.insert(*entry.0, *entry.1);
            assert(m@ =~= self@.restrict(seen_keys(left, n)));
        }
        proof {
            lemma_seen_keys_all(left, self@);
            n = 0;
        }
        assert(m@ =~= self@);
        for entry in it: rhs.iter()
            invariant
                vstd::laws_cmp::obeys_cmp::<K>(),
                it.seq() == right,
                n == it.index(),
                m@ == self@.union_prefer_right(rhs@.restrict(seen_keys(right, n))),
        {
            proof {
                lemma_seen_keys_step(right, n);
                n = n + 1;
            }
            m.insert(*entry.0, *entry.1);
            assert(m@ =~= self@.union_prefer_right(rhs@.restrict(seen_keys(right, n))));
        }
        proof {
            lemma_seen_keys_all(right, rhs@);
        }
        assert(m@ =~= self@.union_prefer_right(rhs@));
        m
    }
}

impl<K: ModeledKey, V: Copy> Semigroup<Additive> for BTreeMap<K, V> {
    proof fn lemma_associative(a: Map<K, V>, b: Map<K, V>, c: Map<K, V>) {
        assert(a.union_prefer_right(b).union_prefer_right(c) =~= a.union_prefer_right(
            b.union_prefer_right(c),
        ));
    }
}

impl<K: ModeledKey, V: Copy> Monoid<Additive> for BTreeMap<K, V> {
    open spec fn spec_identity() -> Map<K, V> {
        Map::empty()
    }

    proof fn lemma_identity(a: Map<K, V>) {
        assert(Map::<K, V>::empty().union_prefer_right(a) =~= a);
        assert(a.union_prefer_right(Map::<K, V>::empty()) =~= a);
    }

    fn identity() -> (r: Self) {
        BTreeMap::new()
    }
}

} // verus!
