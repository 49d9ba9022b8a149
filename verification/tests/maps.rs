use alga2::op::Additive;
use alga2::tower::{Magma, Monoid};
use std::collections::{BTreeMap, BTreeSet, HashMap, HashSet};

fn add<T: Magma<Additive>>(a: T, b: T) -> T {
    <T as Magma<Additive>>::combine(&a, &b)
}

#[test]
fn hashmap_right_biased_union() {
    let m1 = HashMap::from([(1u8, 10u8), (2, 20)]);
    let m2 = HashMap::from([(2, 200), (3, 30)]);
    let joined = add(m1, m2);
    assert_eq!(joined.len(), 3);
    assert_eq!(joined.get(&1), Some(&10));
    // Collision resolves to the right-hand value (keeps associativity).
    assert_eq!(joined.get(&2), Some(&200));
    assert_eq!(joined.get(&3), Some(&30));
    assert_eq!(<HashMap<u8, u8> as Monoid<Additive>>::identity(), HashMap::new());
}

#[test]
fn hashset_union() {
    let s1 = HashSet::from([1u8, 2]);
    let s2 = HashSet::from([2, 3]);
    assert_eq!(add(s1, s2), HashSet::from([1, 2, 3]));
    assert_eq!(<HashSet<u8> as Monoid<Additive>>::identity(), HashSet::new());
}

#[test]
fn btree_collections_union() {
    let m1 = BTreeMap::from([(1u8, 10u8), (2, 20)]);
    let m2 = BTreeMap::from([(2, 200), (3, 30)]);
    let joined = add(m1, m2);
    assert_eq!(joined.get(&2), Some(&200));
    assert_eq!(joined.len(), 3);
    let s1 = BTreeSet::from([1u8, 2]);
    let s2 = BTreeSet::from([2, 3]);
    assert_eq!(add(s1, s2), BTreeSet::from([1, 2, 3]));
    assert_eq!(<BTreeSet<u8> as Monoid<Additive>>::identity(), BTreeSet::new());
}

#[test]
fn map_union_is_associative_and_left_values_lose() {
    let a = BTreeMap::from([(1i64, 'a'), (2, 'a')]);
    let b = BTreeMap::from([(2i64, 'b'), (3, 'b')]);
    let c = BTreeMap::from([(3i64, 'c'), (4, 'c')]);
    let left = add(add(a.clone(), b.clone()), c.clone());
    let right = add(a.clone(), add(b.clone(), c.clone()));
    assert_eq!(left, right);
    assert_eq!(left, BTreeMap::from([(1, 'a'), (2, 'b'), (3, 'c'), (4, 'c')]));
    let e = <BTreeMap<i64, char> as Monoid<Additive>>::identity();
    assert_eq!(add(e.clone(), a.clone()), a);
    assert_eq!(add(a.clone(), e), a);
}
