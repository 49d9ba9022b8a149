use alga2::modn::ModN;
use alga2::op::{Additive, Multiplicative};
use alga2::tower::{
    DivisionRing, EuclideanDomain, FiniteField, Group, Magma, Monoid, PrincipalIdealDomain,
};

fn add<const P: usize>(a: ModN<P>, b: ModN<P>) -> ModN<P> {
    <ModN<P> as Magma<Additive>>::combine(&a, &b)
}

fn mul<const P: usize>(a: ModN<P>, b: ModN<P>) -> ModN<P> {
    <ModN<P> as Magma<Multiplicative>>::combine(&a, &b)
}

#[test]
fn residues_arithmetic() {
    // Z/7Z: 3 + 5 = 1, 3 · 5 = 1, −3 = 4.
    assert_eq!(add(ModN::<7>::new(3), ModN::new(5)), ModN::new(1));
    assert_eq!(mul(ModN::<7>::new(3), ModN::new(5)), ModN::new(1));
    let inv = <ModN<7> as Group<Additive>>::inverse(&ModN::new(3));
    assert_eq!(inv, ModN::new(4));
    // 5⁻¹ = 3 (mod 7): 5 · 3 = 15 ≡ 1.
    let five_inv = <ModN<7> as DivisionRing<Additive, Multiplicative>>::inv(&ModN::new(5));
    assert_eq!(five_inv, ModN::new(3));
    assert_eq!(mul(ModN::<7>::new(5), five_inv), ModN::new(1));
}

#[test]
fn modn_is_a_finite_field() {
    // characteristic = order = P for the prime modulus.
    assert_eq!(<ModN<7> as FiniteField<Additive, Multiplicative>>::characteristic(), 7);
    assert_eq!(<ModN<7> as FiniteField<Additive, Multiplicative>>::order(), 7);
    // Field inverse: 2⁻¹ = 4 (mod 7).
    let inv = <ModN<7> as DivisionRing<Additive, Multiplicative>>::inv(&ModN::new(2));
    assert_eq!(inv, ModN::new(4));
}

#[test]
fn modn_is_a_principal_ideal_domain() {
    // Z/pZ is a field, hence an integral domain / UFD / PID.
    fn assert_pid<const P: usize>()
    where
        ModN<P>: PrincipalIdealDomain<Additive, Multiplicative>,
    {
    }
    assert_pid::<7>();
    // Euclidean division on a field: a = (a·b⁻¹)·b + 0.
    let a = ModN::<7>::new(5);
    let b = ModN::new(3);
    let (q, r) = <ModN<7> as EuclideanDomain<Additive, Multiplicative>>::quot_rem(&a, &b);
    assert_eq!(mul(q, b), a);
    assert_eq!(r, ModN::new(0));
}

#[test]
fn residues_reduce_and_large_moduli_stay_exact() {
    assert_eq!(ModN::<7>::new(15).value(), 1);
    // A modulus near the top of usize: the product is reduced exactly.
    const BIG: usize = usize::MAX - 4;
    let x = ModN::<BIG>::new(BIG - 1);
    assert_eq!(mul(x, x).value(), 1);
    assert_eq!(add(x, ModN::new(2)).value(), 1);
}

#[test]
fn inverses_of_every_unit_mod_thirteen() {
    for v in 1..13usize {
        let a = ModN::<13>::new(v);
        let i = <ModN<13> as DivisionRing<Additive, Multiplicative>>::inv(&a);
        assert_eq!(mul(a, i), <ModN<13> as Monoid<Multiplicative>>::identity());
    }
}

#[test]
fn gcd_in_a_field_is_a_unit_or_zero() {
    let a = ModN::<5>::new(3);
    let z = ModN::<5>::new(0);
    let g = <ModN<5> as EuclideanDomain<Additive, Multiplicative>>::gcd(&a, &z);
    assert_eq!(g, a);
}

#[test]
fn gcd_follows_the_euclidean_steps_in_z7() {
    let a = ModN::<7>::new(5);
    let b = ModN::<7>::new(3);
    let z = ModN::<7>::new(0);
    let gcd = |x: &ModN<7>, y: &ModN<7>| <ModN<7> as EuclideanDomain<Additive, Multiplicative>>::gcd(x, y);
    // 5 = q·3 + 0 in a field, so the algorithm stops at 3.
    assert_eq!(gcd(&a, &b), b);
    assert_eq!(gcd(&a, &z), a);
    assert_eq!(gcd(&z, &b), b);
    assert_eq!(gcd(&z, &z), z);
}

#[test]
fn residue_division_by_zero_gives_zero() {
    let a = ModN::<7>::new(3);
    let z = ModN::<7>::new(0);
    assert_eq!(<ModN<7> as EuclideanDomain<Additive, Multiplicative>>::quot_rem(&a, &z), (z, z));
}
