use alga2::op::{Additive, Multiplicative};
use alga2::modn::ModN;
use alga2::tower::{DivisionRing, Group, Magma, Monoid};
use std::rc::Rc;
use std::sync::Arc;

fn add<T: Magma<Additive>>(a: T, b: T) -> T {
    <T as Magma<Additive>>::combine(&a, &b)
}

#[test]
fn vec_is_free_monoid() {
    assert_eq!(add(vec![1u8, 2], vec![3]), vec![1, 2, 3]);
    assert_eq!(<Vec<u8> as Monoid<Additive>>::identity(), Vec::<u8>::new());
    assert_eq!(add(Vec::<u8>::new(), vec![3]), vec![3]);
}

#[test]
fn string_is_free_monoid() {
    assert_eq!(add(String::from("ab"), String::from("cd")), "abcd");
    assert_eq!(<String as Monoid<Additive>>::identity(), String::new());
}

#[test]
fn free_monoid_is_the_same_under_both_markers() {
    let v = <Vec<u8> as Magma<Multiplicative>>::combine(&vec![1, 2], &vec![3]);
    assert_eq!(v, vec![1, 2, 3]);
    assert_eq!(<String as Monoid<Multiplicative>>::identity(), String::new());
    // Concatenation is associative, not commutative.
    let ab = add(String::from("a"), String::from("b"));
    let ba = add(String::from("b"), String::from("a"));
    assert_ne!(ab, ba);
}

#[test]
fn smart_pointers_delegate_integer_ladders() {
    assert_eq!(add(Box::new(3u8), Box::new(4)), Box::new(7));
    assert_eq!(<Box<u8> as Monoid<Additive>>::identity(), Box::new(0));
    assert_eq!(<Box<i32> as Group<Additive>>::inverse(&Box::new(5)), Box::new(-5));
    assert_eq!(add(Rc::new(3u8), Rc::new(4)), Rc::new(7));
    assert_eq!(add(Arc::new(3u8), Arc::new(4)), Arc::new(7));
    assert_eq!(<Rc<u8> as Monoid<Additive>>::identity(), Rc::new(0));
    assert_eq!(<Rc<i32> as Group<Additive>>::inverse(&Rc::new(5)), Rc::new(-5));
    assert_eq!(<Arc<u8> as Monoid<Multiplicative>>::identity(), Arc::new(1));
}

#[test]
fn smart_pointers_delegate_the_field_inverse() {
    // 2·4 == 1 modulo 7.
    let inv = <Box<ModN<7>> as DivisionRing<Additive, Multiplicative>>::inv(&Box::new(ModN::new(2)));
    assert_eq!(inv, Box::new(ModN::new(4)));
    let inv = <Arc<ModN<7>> as DivisionRing<Additive, Multiplicative>>::inv(&Arc::new(ModN::new(2)));
    assert_eq!(inv, Arc::new(ModN::new(4)));
}
