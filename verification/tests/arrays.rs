use alga2::op::{Additive, Multiplicative};
use alga2::modn::ModN;
use alga2::tower::{FreeModule, Group, Magma, Module, Monoid};

#[test]
fn arrays_are_componentwise() {
    let a = [1u8, 2, 3];
    let b = [4u8, 5, 6];
    let s = <[u8; 3] as Magma<Additive>>::combine(&a, &b);
    assert_eq!(s, [5, 7, 9]);
    let m = <[u8; 3] as Magma<Multiplicative>>::combine(&a, &b);
    assert_eq!(m, [4, 10, 18]);
    let zero = <[u8; 3] as Monoid<Additive>>::identity();
    assert_eq!(zero, [0, 0, 0]);
    // Arrays have no std arity ceiling: 20 elements work.
    let a20 = [1u8; 20];
    let b20 = [2u8; 20];
    let s20 = <[u8; 20] as Magma<Additive>>::combine(&a20, &b20);
    assert_eq!(s20, [3u8; 20]);
}

#[test]
fn arrays_wrap_and_invert_componentwise() {
    let a = [250u8, 7];
    let b = [10u8, 9];
    assert_eq!(<[u8; 2] as Magma<Additive>>::combine(&a, &b), [4, 16]);
    let n = <[i32; 3] as Group<Additive>>::inverse(&[1, -2, i32::MIN]);
    assert_eq!(n, [-1, 2, i32::MIN]);
    assert_eq!(<[i32; 2] as Monoid<Multiplicative>>::identity(), [1, 1]);
    let v = <[i64; 2] as Module<Additive, Multiplicative>>::scale(&3, [2, -5]);
    assert_eq!(v, [6, -15]);
}

#[test]
fn arrays_of_scalars_are_free_modules() {
    assert_eq!(<[i32; 4] as FreeModule<Additive, Multiplicative>>::rank(), 4);
    assert_eq!(<[i32; 4] as FreeModule<Additive, Multiplicative>>::basis_element(2), [0, 0, 1, 0]);
    // Past the rank, the "basis element" is the zero vector.
    assert_eq!(<[u8; 2] as FreeModule<Additive, Multiplicative>>::basis_element(5), [0, 0]);
    let v = [3i64, -4, 5];
    assert_eq!(<[i64; 3] as FreeModule<Additive, Multiplicative>>::coordinate(&v, 1), -4);
    let e = <[ModN<5>; 2] as FreeModule<Additive, Multiplicative>>::basis_element(1);
    assert_eq!(e, [ModN::new(0), ModN::new(1)]);
    assert_eq!(<[bool; 3] as FreeModule<Additive, Multiplicative>>::basis_element(0), [true, false, false]);
}
