use alga2::modn::ModN;
use alga2::op::{Additive, Multiplicative};
use alga2::quaternion::Quaternion;
use alga2::tower::{DivisionRing, Group, Magma, Module, Monoid};

fn q(w: i64, x: i64, y: i64, z: i64) -> Quaternion<i64> {
    Quaternion::new(w, x, y, z)
}

fn mul<T: Magma<Multiplicative>>(a: &T, b: &T) -> T {
    <T as Magma<Multiplicative>>::combine(a, b)
}

#[test]
fn hamilton_product_on_integer_units() {
    let i = q(0, 1, 0, 0);
    let j = q(0, 0, 1, 0);
    let k = q(0, 0, 0, 1);
    // i·j = k, j·i = −k: the product does not commute.
    assert_eq!(mul(&i, &j), k);
    assert_eq!(mul(&j, &i), q(0, 0, 0, -1));
    assert_eq!(mul(&j, &k), i);
    assert_eq!(mul(&k, &i), j);
    // i² = j² = k² = ijk = −1
    let minus_one = q(-1, 0, 0, 0);
    assert_eq!(mul(&i, &i), minus_one);
    assert_eq!(mul(&mul(&i, &j), &k), minus_one);
}

#[test]
fn hamilton_product_general_values() {
    let a = q(1, 2, 3, 4);
    let b = q(5, 6, 7, 8);
    // (1+2i+3j+4k)(5+6i+7j+8k) = −60 + 12i + 30j + 24k
    assert_eq!(mul(&a, &b), q(-60, 12, 30, 24));
    // and the other way round: −60 + 20i + 14j + 32k
    assert_eq!(mul(&b, &a), q(-60, 20, 14, 32));
    let c = q(-2, 0, 1, 3);
    assert_eq!(mul(&mul(&a, &b), &c), mul(&a, &mul(&b, &c)));
    let one = <Quaternion<i64> as Monoid<Multiplicative>>::identity();
    assert_eq!(mul(&a, &one), a);
    assert_eq!(mul(&one, &a), a);
}

#[test]
fn quaternion_additive_group_and_module() {
    let a = q(1, -2, 3, -4);
    let s = <Quaternion<i64> as Magma<Additive>>::combine(&a, &q(1, 1, 1, 1));
    assert_eq!(s, q(2, -1, 4, -3));
    assert_eq!(<Quaternion<i64> as Group<Additive>>::inverse(&a), q(-1, 2, -3, 4));
    assert_eq!(*a.w(), 1);
    assert_eq!(*a.z(), -4);
    let v = <Quaternion<ModN<7>> as Module<Additive, Multiplicative>>::scale(
        &ModN::new(3),
        Quaternion::new(ModN::new(1), ModN::new(2), ModN::new(3), ModN::new(4)),
    );
    assert_eq!(v, Quaternion::new(ModN::new(3), ModN::new(6), ModN::new(2), ModN::new(5)));
}

#[test]
fn quaternion_inverse_over_a_finite_field() {
    // Over Z/7Z: q = 1 + i has ‖q‖² = 2, so q⁻¹ = (1 − i)·2⁻¹ = 4 − 4i = 4 + 3i.
    let one = ModN::<7>::new(1);
    let zero = ModN::<7>::new(0);
    let a = Quaternion::new(one, one, zero, zero);
    let inv = <Quaternion<ModN<7>> as DivisionRing<Additive, Multiplicative>>::inv(&a);
    assert_eq!(inv, Quaternion::new(ModN::new(4), ModN::new(3), zero, zero));
    let e = <Quaternion<ModN<7>> as Monoid<Multiplicative>>::identity();
    assert_eq!(mul(&a, &inv), e);
    assert_eq!(mul(&inv, &a), e);
}

#[test]
fn quaternion_norm_is_multiplicative() {
    let n = |q: &Quaternion<i32>| q.w() * q.w() + q.x() * q.x() + q.y() * q.y() + q.z() * q.z();
    let p = Quaternion::new(1i32, 2, 3, 4);
    let q = Quaternion::new(5i32, 6, 7, 8);
    let pq = <Quaternion<i32> as Magma<Multiplicative>>::combine(&p, &q);
    assert_eq!(pq, Quaternion::new(-60, 12, 30, 24));
    assert_eq!(n(&p), 30);
    assert_eq!(n(&q), 174);
    assert_eq!(n(&pq), 5220);
    assert_eq!(n(&pq), n(&p) * n(&q));
}
