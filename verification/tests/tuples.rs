use alga2::op::{Additive, Multiplicative};
use alga2::tower::{Group, Lattice, Magma, MeetSemilattice, Module, Monoid};

type A16 = (u8, u8, u8, u8, u8, u8, u8, u8, u8, u8, u8, u8, u8, u8, u8, u8);

#[test]
fn arity_16_componentwise_add() {
    let a: A16 = (1, 2, 3, 4, 5, 6, 7, 8, 9, 10, 11, 12, 13, 14, 15, 16);
    let b: A16 = (16, 15, 14, 13, 12, 11, 10, 9, 8, 7, 6, 5, 4, 3, 2, 1);
    // A16 is both Magma<Additive> and Magma<Multiplicative>: qualify.
    let s = <A16 as Magma<Additive>>::combine(&a, &b);
    // std stops tuple PartialEq at arity 12; compare components.
    assert_eq!(s.0, 17);
    assert_eq!(s.7, 17);
    assert_eq!(s.15, 17);
}

#[test]
fn mixed_tuples_are_componentwise() {
    let a = (250u8, -3i16);
    let b = (10u8, 5i16);
    assert_eq!(<(u8, i16) as Magma<Additive>>::combine(&a, &b), (4, 2));
    assert_eq!(<(u8, i16) as Magma<Multiplicative>>::combine(&a, &b), (196, -15));
    assert_eq!(<(u8, i16) as Group<Additive>>::inverse(&a), (6, 3));
    assert_eq!(<(u8, i16) as Monoid<Multiplicative>>::identity(), (1, 1));
    assert_eq!(<(u8, u8) as Module<Additive, Multiplicative>>::scale(&3, (2, 100)), (6, 44));
}

#[test]
fn tuple_partial_min_follows_the_lexicographic_order() {
    // The meet is component-wise, but `partial_min` follows `PartialOrd`,
    // which is lexicographic on tuples.
    let a = (1u8, 2u8);
    let b = (2u8, 1u8);
    assert_eq!(<(u8, u8) as MeetSemilattice>::meet(&a, &b), (1, 1));
    assert_eq!(<(u8, u8) as Lattice>::partial_min(&a, &b), Some(&a));
}

#[test]
fn tuple_meet_is_below_both_componentwise() {
    let a = (1u8, 2u8);
    let b = (2u8, 1u8);
    let m = <(u8, u8) as MeetSemilattice>::meet(&a, &b);
    assert_eq!(<(u8, u8) as MeetSemilattice>::meet(&m, &a), m);
    assert_eq!(<(u8, u8) as MeetSemilattice>::meet(&m, &b), m);
    // A common lower bound is below the meet.
    let c = (0u8, 1u8);
    assert_eq!(<(u8, u8) as MeetSemilattice>::meet(&c, &m), c);
}
