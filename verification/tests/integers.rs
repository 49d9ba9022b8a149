use alga2::op::{Additive, Multiplicative};
use alga2::tower::{
    BoundedLattice, ComplementedLattice, EuclideanDomain, FiniteField, FreeModule, Group,
    JoinSemilattice, Lattice, LieAlgebra, Magma, MeetSemilattice, Monoid, Power, SubsetOf,
    SupersetOf,
};

#[test]
fn integer_operations_wrap() {
    assert_eq!(<u8 as Magma<Additive>>::combine(&3, &4), 7);
    assert_eq!(<u8 as Magma<Multiplicative>>::combine(&3, &4), 12);
    assert_eq!(<u8 as Monoid<Additive>>::identity(), 0);
    assert_eq!(<u8 as Monoid<Multiplicative>>::identity(), 1);
    assert_eq!(<i32 as Group<Additive>>::inverse(&5), -5);
    assert_eq!(<u8 as Magma<Additive>>::combine(&200, &100), 44);
    assert_eq!(<u8 as Group<Additive>>::inverse(&1), 255);
    assert_eq!(<i8 as Magma<Multiplicative>>::combine(&64, &2), -128);
    assert_eq!(<i64 as Group<Additive>>::inverse(&i64::MIN), i64::MIN);
}

#[test]
fn square_and_multiply_powers() {
    assert_eq!(<u64 as Power<Multiplicative>>::pow(&3, 13), 1594323);
    assert_eq!(<u64 as Power<Multiplicative>>::pow(&7, 0), 1);
    assert_eq!(<u8 as Power<Multiplicative>>::pow(&2, 9), 0);
    // Under Additive, the power is repeated addition.
    assert_eq!(<u32 as Power<Additive>>::pow(&7, 6), 42);
    assert_eq!(<bool as Power<Multiplicative>>::pow(&true, 5), true);
}

#[test]
fn euclidean_division_and_gcd() {
    assert_eq!(<u32 as EuclideanDomain<Additive, Multiplicative>>::quot_rem(&17, &5), (3, 2));
    // Signed division is euclidean: the remainder is never negative.
    assert_eq!(<i32 as EuclideanDomain<Additive, Multiplicative>>::quot_rem(&-7, &2), (-4, 1));
    assert_eq!(<i32 as EuclideanDomain<Additive, Multiplicative>>::quot_rem(&7, &-2), (-3, 1));
    assert_eq!(<i32 as EuclideanDomain<Additive, Multiplicative>>::quot(&-7, &-2), 4);
    assert_eq!(<i32 as EuclideanDomain<Additive, Multiplicative>>::rem(&-7, &-2), 1);
    assert_eq!(<i8 as EuclideanDomain<Additive, Multiplicative>>::quot_rem(&i8::MIN, &-1), (i8::MIN, 0));
    assert_eq!(<u64 as EuclideanDomain<Additive, Multiplicative>>::gcd(&84, &36), 12);
    assert_eq!(<u64 as EuclideanDomain<Additive, Multiplicative>>::gcd(&0, &9), 9);
    assert_eq!(<i64 as EuclideanDomain<Additive, Multiplicative>>::euclidean_norm(&-9), 9);
    // The euclidean steps: (-12, 18) → (18, 6) → (6, 0).
    assert_eq!(<i32 as EuclideanDomain<Additive, Multiplicative>>::gcd(&-12, &18), 6);
    assert_eq!(<i32 as EuclideanDomain<Additive, Multiplicative>>::gcd(&12, &18), 6);
    assert_eq!(<i32 as EuclideanDomain<Additive, Multiplicative>>::gcd(&18, &0), 18);
}

#[test]
fn integer_lattices_are_min_and_max() {
    assert_eq!(<u8 as MeetSemilattice>::meet(&3, &9), 3);
    assert_eq!(<i16 as JoinSemilattice>::join(&-3, &9), 9);
    assert_eq!(<u8 as Lattice>::meet_join(&7, &2), (2, 7));
    assert_eq!(<u8 as BoundedLattice>::top(), 255);
    assert_eq!(<i8 as BoundedLattice>::bottom(), -128);
}

#[test]
fn booleans_are_the_field_with_two_elements() {
    assert_eq!(<bool as Magma<Additive>>::combine(&true, &true), false);
    assert_eq!(<bool as Magma<Multiplicative>>::combine(&true, &false), false);
    assert_eq!(<bool as FiniteField<Additive, Multiplicative>>::characteristic(), 2);
    assert_eq!(<bool as FiniteField<Additive, Multiplicative>>::order(), 2);
    assert_eq!(<bool as ComplementedLattice>::complement(&true), false);
    assert_eq!(<bool as FreeModule<Additive, Multiplicative>>::rank(), 1);
}

#[test]
fn commutator_bracket() {
    // The bracket of a commutative ring is zero.
    assert_eq!(<i32 as LieAlgebra<Additive>>::bracket(&3, &5), 0);
}

#[test]
fn lossless_integer_embeddings_round_trip() {
    assert_eq!(<u8 as SubsetOf<u16>>::to_superset(&200), 200u16);
    assert_eq!(<u8 as SubsetOf<u16>>::from_superset(&200), Some(200u8));
    assert_eq!(<u8 as SubsetOf<u16>>::from_superset(&300), None);
    assert_eq!(<i8 as SubsetOf<i16>>::from_superset(&-129), None);
    assert_eq!(<i8 as SubsetOf<i16>>::from_superset(&-128), Some(-128i8));
    assert_eq!(<u32 as SubsetOf<i64>>::from_superset(&-1), None);
    assert!(<u16 as SubsetOf<u32>>::is_in_subset(&65535));
    assert_eq!(<u64 as SupersetOf<u32>>::to_subset(&7), Some(7u32));
    assert_eq!(<i128 as SupersetOf<u64>>::from_subset(&u64::MAX), u64::MAX as i128);
    assert!(!<u16 as SupersetOf<u8>>::is_in_subset(&256));
}

#[test]
fn integer_partial_min_is_the_meet() {
    assert_eq!(<i32 as Lattice>::partial_min(&-4, &7), Some(&-4));
    assert_eq!(<i32 as MeetSemilattice>::meet(&-4, &7), -4);
    assert_eq!(<u16 as Lattice>::partial_max(&4, &7), Some(&7));
    assert_eq!(<u16 as JoinSemilattice>::join(&4, &7), 7);
}

#[test]
fn gcd_leaves_no_remainder() {
    let g = <i32 as EuclideanDomain<Additive, Multiplicative>>::gcd(&12, &18);
    assert_eq!(g, 6);
    assert_eq!(<i32 as EuclideanDomain<Additive, Multiplicative>>::rem(&12, &g), 0);
    assert_eq!(<i32 as EuclideanDomain<Additive, Multiplicative>>::rem(&18, &g), 0);
    let g = <u64 as EuclideanDomain<Additive, Multiplicative>>::gcd(&84, &36);
    assert_eq!(<u64 as EuclideanDomain<Additive, Multiplicative>>::rem(&84, &g), 0);
    assert_eq!(<u64 as EuclideanDomain<Additive, Multiplicative>>::rem(&36, &g), 0);
}
