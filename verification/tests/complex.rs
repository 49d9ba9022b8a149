use alga2::complex::Complex;
use alga2::op::{Additive, Multiplicative};
use alga2::modn::ModN;
use alga2::tower::{DivisionRing, Magma, Monoid};

fn add<T: Magma<Additive>>(a: T, b: T) -> T {
    <T as Magma<Additive>>::combine(&a, &b)
}

fn mul<T: Magma<Multiplicative>>(a: T, b: T) -> T {
    <T as Magma<Multiplicative>>::combine(&a, &b)
}

#[test]
fn complex_add() {
    let z = add(Complex::new(1i32, 2), Complex::new(3, 4));
    assert_eq!(z.re(), &4);
    assert_eq!(z.im(), &6);
}

#[test]
fn complex_mul() {
    // (1+2i)(3+4i) = (3−8) + (4+6)i = −5 + 10i
    let z = mul(Complex::new(1i32, 2), Complex::new(3, 4));
    assert_eq!(z.re(), &-5);
    assert_eq!(z.im(), &10);
    // 1+0i is the multiplicative identity.
    let one = <Complex<i32> as Monoid<Multiplicative>>::identity();
    assert_eq!(mul(Complex::new(3, 4), one).re(), &3);
    assert_eq!(mul(Complex::new(3, 4), one).im(), &4);
}

#[test]
fn complex_numbers_over_z3_form_a_field_of_nine() {
    type C3 = Complex<ModN<3>>;
    let one = <C3 as Monoid<Multiplicative>>::identity();
    // Every nonzero element of GF(9) = Z/3Z[i] is invertible.
    for re in 0..3usize {
        for im in 0..3usize {
            if re == 0 && im == 0 {
                continue;
            }
            let z = Complex::new(ModN::<3>::new(re), ModN::new(im));
            let w = <C3 as DivisionRing<Additive, Multiplicative>>::inv(&z);
            assert_eq!(mul(z, w), one);
        }
    }
}

#[test]
fn complex_multiplication_commutes_and_associates() {
    let a = Complex::new(2i64, -3);
    let b = Complex::new(-1i64, 4);
    let c = Complex::new(5i64, 7);
    assert_eq!(mul(a, b), mul(b, a));
    assert_eq!(mul(mul(a, b), c), mul(a, mul(b, c)));
    // i² = −1
    let i = Complex::new(0i64, 1);
    assert_eq!(mul(i, i), Complex::new(-1, 0));
    assert_eq!(<Complex<i64> as Monoid<Additive>>::identity(), Complex::new(0, 0));
}
