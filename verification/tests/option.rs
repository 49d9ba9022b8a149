use alga2::op::{Additive, Multiplicative};
use alga2::tower::{Magma, Monoid};

fn add<T: Magma<Additive>>(a: T, b: T) -> T {
    <T as Magma<Additive>>::combine(&a, &b)
}

fn mul<T: Magma<Multiplicative>>(a: T, b: T) -> T {
    <T as Magma<Multiplicative>>::combine(&a, &b)
}

#[test]
fn option_multiplicative_monoid() {
    // The multiplicative identity is `Some(1)`; `None` still absorbs.
    let one = <Option<u8> as Monoid<Multiplicative>>::identity();
    assert_eq!(one, Some(1));
    assert_eq!(mul(Some(3u8), Some(4)), Some(12));
    assert_eq!(mul(Some(3), None), None);
    assert_eq!(mul(None, Some(4)), None);
}

#[test]
fn option_additive_side_lifts_and_absorbs() {
    assert_eq!(add(Some(3u8), Some(4)), Some(7));
    assert_eq!(add(Some(3), None), None);
    assert_eq!(add(None, Some(4u8)), None);
    assert_eq!(add(add(Some(3u8), Some(4)), Some(5)), add(Some(3), add(Some(4), Some(5))));
}
