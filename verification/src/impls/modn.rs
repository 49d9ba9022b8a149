//! `ModN<P>` impls: the residue ring `Z/PZ` — a finite field when `P` is
//! prime.
//!
//! The multiplicative inverse is the extended euclidean algorithm on
//! `(value, P)`; it is an inverse exactly when `P` is prime (the residue is
//! then coprime to `P`), which is the condition under which the field,
//! integral-domain and euclidean-division laws are stated.
use crate::modn::{bezout, in_range, is_prime, lemma_bezout_inverse, residue, ModN};
use crate::op::{Additive, Multiplicative};
use crate::tower::lemma_group_latin_square;
use crate::tower::{
    AbelianGroup, Carrier, CommutativeRing, DivisionRing, EuclideanDomain, Field, FiniteField,
    FreeModule, Group, IntegralDomain, Loop, Magma, Module, Monoid, Power, PrincipalIdealDomain,
    Quasigroup, Ring, Semigroup, Semiring, UniqueFactorizationDomain, VectorSpace,
};
use crate::wrapping::{lemma_wrap_basics, lemma_wrap_congruent, lemma_wrap_ring, wrap};
use vstd::arithmetic::div_mod::*;
use vstd::prelude::*;

verus! {

/// The sum of residues.
pub open spec fn sum(a: nat, b: nat, p: nat) -> nat {
    residue(a as int + b as int, p)
}

/// The product of residues.
pub open spec fn product(a: nat, b: nat, p: nat) -> nat {
    residue(a as int * b as int, p)
}

/// The unit of `Z/pZ`.
pub open spec fn unit(p: nat) -> nat {
    residue(1, p)
}

/// The negation of a residue.
pub open spec fn negation(a: nat, p: nat) -> nat {
    residue(p as int - a as int, p)
}

/// The inverse of a residue: its extended euclidean coefficient.
pub open spec fn inverse(a: nat, p: nat) -> nat {
    if p == 0 {
        0
    } else {
        bezout(a, p, unit(p), 0, p)
    }
}

/// The ring laws of residue arithmetic.
proof fn lemma_residue_ring(a: nat, b: nat, c: nat, p: nat)
    requires
        in_range(a, p),
        in_range(b, p),
        in_range(c, p),
    ensures
        in_range(sum(a, b, p), p),
        in_range(product(a, b, p), p),
        in_range(negation(a, p), p),
        in_range(unit(p), p),
        in_range(0, p),
        sum(sum(a, b, p), c, p) == sum(a, sum(b, c, p), p),
        sum(a, b, p) == sum(b, a, p),
        sum(a, 0, p) == a,
        sum(0, a, p) == a,
        sum(a, negation(a, p), p) == 0,
        sum(negation(a, p), a, p) == 0,
        product(product(a, b, p), c, p) == product(a, product(b, c, p), p),
        product(a, b, p) == product(b, a, p),
        product(a, unit(p), p) == a,
        product(unit(p), a, p) == a,
        product(a, sum(b, c, p), p) == sum(product(a, b, p), product(a, c, p), p),
        product(sum(b, c, p), a, p) == sum(product(b, a, p), product(c, a, p), p),
{
    if p == 1 {
        assert(a == 0 && b == 0 && c == 0);
    } else if p > 1 {
        let pi = p as int;
        lemma_wrap_ring(a as int, b as int, c as int, 0, pi);
        lemma_wrap_ring(b as int, a as int, c as int, 0, pi);
        lemma_small_mod(1, p);
        lemma_small_mod(a, p);
        lemma_wrap_basics(a as int + b as int, 0, pi);
        lemma_wrap_basics(a as int * b as int, 0, pi);
        lemma_wrap_basics(-(a as int), 0, pi);
        lemma_mod_self_0(pi);
        assert((pi - a as int) - (-(a as int)) == pi);
        lemma_wrap_congruent(pi - a as int, -(a as int), 0, pi);
        assert(forall|x: int| #[trigger] wrap(x, 0, pi) == x % pi);
    }
}

/// For a prime modulus, the inverse of a nonzero residue inverts it.
proof fn lemma_residue_inverse(a: nat, p: nat)
    requires
        is_prime(p),
        0 < a < p,
    ensures
        unit(p) == 1,
        in_range(inverse(a, p), p),
        product(a, inverse(a, p), p) == 1,
        product(inverse(a, p), a, p) == 1,
{
    lemma_small_mod(1, p);
    lemma_bezout_inverse(a, p);
    let i = bezout(a, p, 1, 0, p);
    vstd::arithmetic::mul::lemma_mul_is_commutative(i as int, a as int);
}

impl<const P: usize> Carrier for ModN<P> {
    type Model = nat;

    open spec fn model(self) -> nat {
        self@
    }

    open spec fn contains(m: nat) -> bool {
        in_range(m, P as nat)
    }

    proof fn lemma_model_contained(x: &Self) {
        x.lemma_in_range();
    }
}

impl<const P: usize> Magma<Additive> for ModN<P> {
    open spec fn spec_combine(a: nat, b: nat) -> nat {
        sum(a, b, P as nat)
    }

    proof fn lemma_closed(a: nat, b: nat) {
        lemma_residue_ring(a, b, b, P as nat);
    }

    fn combine(&self, rhs: &Self) -> (r: Self) {
        let a: usize = self.value();
        let b: usize = rhs.value();
        if P == 0 {
            return ModN::from_residue(0);
        }
        let s: u128 = ((a as u128) + (b as u128)) % (P as u128);
        ModN::from_residue(s as usize)
    }
}

impl<const P: usize> Magma<Multiplicative> for ModN<P> {
    open spec fn spec_combine(a: nat, b: nat) -> nat {
        product(a, b, P as nat)
    }

    proof fn lemma_closed(a: nat, b: nat) {
        lemma_residue_ring(a, b, b, P as nat);
    }

    fn combine(&self, rhs: &Self) -> (r: Self) {
        let a: usize = self.value();
        let b: usize = rhs.value();
        proof {
            assert(<Self as Magma<Multiplicative>>::spec_combine(self.model(), rhs.model())
                == product(a as nat, b as nat, P as nat));
        }
        if P == 0 {
            return ModN::from_residue(0);
        }
        proof {
            vstd::arithmetic::mul::lemma_mul_upper_bound(
                a as int,
                usize::MAX as int,
                b as int,
                usize::MAX as int,
            );
            assert(usize::MAX as int * usize::MAX as int <= u128::MAX) by (nonlinear_arith)
                requires
                    usize::MAX <= u64::MAX,
            ;
        }
        let s: u128 = ((a as u128) * (b as u128)) % (P as u128);
        ModN::from_residue(s as usize)
    }
}

impl<const P: usize> Semigroup<Additive> for ModN<P> {
    proof fn lemma_associative(a: nat, b: nat, c: nat) {
        lemma_residue_ring(a, b, c, P as nat);
    }
}

impl<const P: usize> Semigroup<Multiplicative> for ModN<P> {
    proof fn lemma_associative(a: nat, b: nat, c: nat) {
        lemma_residue_ring(a, b, c, P as nat);
    }
}

impl<const P: usize> Monoid<Additive> for ModN<P> {
    open spec fn spec_identity() -> nat {
        0
    }

    proof fn lemma_identity(a: nat) {
        lemma_residue_ring(0, 0, 0, P as nat);
        if in_range(a, P as nat) {
            lemma_residue_ring(a, a, a, P as nat);
        }
    }

    fn identity() -> (r: Self) {
        ModN::from_residue(0)
    }
}

impl<const P: usize> Monoid<Multiplicative> for ModN<P> {
    open spec fn spec_identity() -> nat {
        unit(P as nat)
    }

    proof fn lemma_identity(a: nat) {
        lemma_residue_ring(0, 0, 0, P as nat);
        if in_range(a, P as nat) {
            lemma_residue_ring(a, a, a, P as nat);
        }
    }

    fn identity() -> (r: Self) {
        if P == 0 {
            ModN::from_residue(0)
        } else {
            proof {
                lemma_mod_bound(1, P as int);
            }
            ModN::from_residue(1 % P)
        }
    }
}

impl<const P: usize> Quasigroup<Additive> for ModN<P> {
    proof fn lemma_latin_square(a: nat, b: nat) {
        lemma_residue_ring(a, b, b, P as nat);
        lemma_group_latin_square::<Additive, Self>(a, b, negation(a, P as nat));
    }
}

impl<const P: usize> Loop<Additive> for ModN<P> {

}

impl<const P: usize> Group<Additive> for ModN<P> {
    open spec fn spec_inverse(a: nat) -> nat {
        negation(a, P as nat)
    }

    proof fn lemma_inverse(a: nat) {
        lemma_residue_ring(a, a, a, P as nat);
    }

    fn inverse(&self) -> (r: Self) {
        let a: usize = self.value();
        if P == 0 {
            return ModN::from_residue(0);
        }
        proof {
            lemma_mod_bound(P as int - a as int, P as int);
        }
        ModN::from_residue((P - a) % P)
    }
}

impl<const P: usize> AbelianGroup<Additive> for ModN<P> {
    proof fn lemma_commutative(a: nat, b: nat) {
        lemma_residue_ring(a, b, b, P as nat);
    }
}

impl<const P: usize> Semiring<Additive, Multiplicative> for ModN<P> {
    proof fn lemma_distributive(a: nat, b: nat, c: nat) {
        lemma_residue_ring(a, b, c, P as nat);
    }
}

impl<const P: usize> Ring<Additive, Multiplicative> for ModN<P> {

}

impl<const P: usize> CommutativeRing<Additive, Multiplicative> for ModN<P> {
    proof fn lemma_multiplication_commutes(a: nat, b: nat) {
        lemma_residue_ring(a, b, b, P as nat);
    }
}

impl<const P: usize> DivisionRing<Additive, Multiplicative> for ModN<P> {
    open spec fn inverses_exist() -> bool {
        is_prime(P as nat)
    }

    open spec fn spec_inv(a: nat) -> nat {
        inverse(a, P as nat)
    }

    proof fn lemma_inv_closed(a: nat) {
        if P > 0 {
            lemma_bezout_in_range(a, P as nat);
        }
    }

    proof fn lemma_inv(a: nat) {
        lemma_residue_inverse(a, P as nat);
    }

    /// The multiplicative inverse: extended euclid on `(value, P)`, with the
    /// Bézout coefficients kept reduced modulo `P`.
    fn inv(&self) -> (r: Self) {
        let a: usize = self.value();
        proof {
            assert(Self::spec_inv(self.model()) == inverse(a as nat, P as nat));
        }
        if P == 0 {
            return ModN::from_residue(0);
        }
        let p: u128 = P as u128;
        let mut old_r: u128 = a as u128;
        let mut r: u128 = p;
        let mut old_s: u128 = 1 % p;
        let mut s: u128 = 0;
        proof {
            lemma_mod_bound(1, P as int);
        }
        while r != 0
            invariant
                p == P as u128,
                p > 0,
                p <= usize::MAX,
                old_r <= p,
                r <= p,
                old_s < p,
                s < p,
                bezout(old_r as nat, r as nat, old_s as nat, s as nat, p as nat) == inverse(
                    a as nat,
                    P as nat,
                ),
            decreases r,
        {
            let q: u128 = old_r / r;
            proof {
                vstd::arithmetic::div_mod::lemma_div_is_ordered_by_denominator(old_r as int, 1, r as int);
                vstd::arithmetic::div_mod::lemma_div_basics(old_r as int);
                vstd::arithmetic::mul::lemma_mul_upper_bound(
                    q as int,
                    usize::MAX as int,
                    s as int,
                    usize::MAX as int,
                );
                assert(usize::MAX as int * usize::MAX as int <= u128::MAX) by (nonlinear_arith)
                    requires
                        usize::MAX <= u64::MAX,
                ;
                lemma_mod_bound(old_r as int, r as int);
                lemma_mod_bound((q * s) as int, p as int);
            }
            let qs: u128 = (q * s) % p;
            let new_s: u128 = (old_s + p - qs) % p;
            let new_r: u128 = old_r % r;
            proof {
                lemma_mod_bound((old_s + p - qs) as int, p as int);
            }
            old_r = r;
            r = new_r;
            old_s = s;
            s = new_s;
        }
        ModN::from_residue(old_s as usize)
    }
}

/// The extended euclidean coefficient is a residue.
proof fn lemma_bezout_in_range(a: nat, p: nat)
    requires
        p > 0,
    ensures
        bezout(a, p, unit(p), 0, p) < p,
{
    lemma_mod_bound(1, p as int);
    lemma_bezout_bounded(a, p, unit(p), 0, p);
}

/// Every coefficient of the recursion is reduced.
proof fn lemma_bezout_bounded(old_r: nat, r: nat, old_s: nat, s: nat, p: nat)
    requires
        p > 0,
        old_s < p,
        s < p,
    ensures
        bezout(old_r, r, old_s, s, p) < p,
    decreases r,
{
    if r > 0 {
        let qs = ((old_r / r) * s) % p;
        lemma_mod_bound(((old_r / r) * s) as int, p as int);
        lemma_mod_bound((old_s + p - qs) as int, p as int);
        lemma_bezout_bounded(r, old_r % r, s, ((old_s + p - qs) % (p as int)) as nat, p);
    }
}

impl<const P: usize> Field<Additive, Multiplicative> for ModN<P> {
    proof fn lemma_zero_is_not_one() {
        lemma_small_mod(1, P as nat);
    }
}

impl<const P: usize> FiniteField<Additive, Multiplicative> for ModN<P> {
    open spec fn spec_characteristic() -> u64 {
        P as u64
    }

    open spec fn spec_order() -> u64 {
        P as u64
    }

    fn characteristic() -> (r: u64) {
        P as u64
    }

    fn order() -> (r: u64) {
        P as u64
    }
}

impl<const P: usize> IntegralDomain<Additive, Multiplicative> for ModN<P> {
    open spec fn is_domain() -> bool {
        is_prime(P as nat)
    }

    proof fn lemma_no_zero_divisors(a: nat, b: nat) {
        let p = P as nat;
        lemma_small_mod(1, p);
        if a != 0 && product(a, b, p) == 0 {
            lemma_residue_inverse(a, p);
            let i = inverse(a, p);
            lemma_residue_ring(i, a, b, p);
            lemma_residue_ring(b, b, b, p);
            lemma_residue_ring(i, i, i, p);
            assert(product(i, 0, p) == 0) by {
                lemma_small_mod(0, p);
            }
        }
    }
}

impl<const P: usize> UniqueFactorizationDomain<Additive, Multiplicative> for ModN<P> {

}

impl<const P: usize> PrincipalIdealDomain<Additive, Multiplicative> for ModN<P> {

}

impl<const P: usize> EuclideanDomain<Additive, Multiplicative> for ModN<P> {
    open spec fn is_euclidean() -> bool {
        is_prime(P as nat)
    }

    open spec fn spec_quot_rem(a: nat, b: nat) -> (nat, nat) {
        (product(a, inverse(b, P as nat), P as nat), 0)
    }

    open spec fn quot_rem_defined(b: nat) -> bool {
        true
    }

    proof fn lemma_nonzero_divisor_defined(b: nat) {
    }

    proof fn lemma_remainder_of_self_and_zero(b: nat) {
    }

    proof fn lemma_remainder_step(a: nat, b: nat, g: nat) {
    }

    open spec fn spec_euclidean_norm(a: nat) -> u128 {
        if a == 0 {
            0
        } else {
            1
        }
    }

    proof fn lemma_norm_zero(a: nat) {
        assert(<Self as Monoid<Additive>>::spec_identity() == 0);
    }

    proof fn lemma_remainder_smaller(a: nat, b: nat) {
        assert(<Self as Monoid<Additive>>::spec_identity() == 0);
        <Self as DivisionRing<Additive, Multiplicative>>::lemma_inv_closed(b);
        lemma_residue_ring(a, inverse(b, P as nat), b, P as nat);
    }

    proof fn lemma_division(a: nat, b: nat) {
        let p = P as nat;
        let i = inverse(b, p);
        lemma_residue_inverse(b, p);
        lemma_residue_ring(a, i, b, p);
        lemma_residue_ring(a, a, a, p);
        assert(<Self as Magma<Multiplicative>>::spec_combine(product(a, i, p), b) == product(
            product(a, i, p),
            b,
            p,
        ));
        assert(<Self as Magma<Additive>>::spec_combine(product(product(a, i, p), b, p), 0) == sum(
            product(product(a, i, p), b, p),
            0,
            p,
        ));
        lemma_residue_ring(product(product(a, i, p), b, p), 0, 0, p);
    }

    /// Division by the modular inverse, remainder 0 (a field has trivial
    /// euclidean division).
    fn quot_rem(&self, divisor: &Self) -> (r: (Self, Self)) {
        let inv = <Self as DivisionRing<Additive, Multiplicative>>::inv(divisor);
        let q = <Self as Magma<Multiplicative>>::combine(self, &inv);
        (q, ModN::from_residue(0))
    }

    /// `0` for zero, `1` for every other residue.
    fn euclidean_norm(&self) -> (r: u128) {
        let a: usize = self.value();
        if a == 0 {
            0
        } else {
            1
        }
    }
}

impl<const P: usize> Module<Additive, Multiplicative> for ModN<P> {
    type Scalar = Self;

    open spec fn spec_scale(s: nat, v: nat) -> nat {
        product(s, v, P as nat)
    }

    proof fn lemma_module(s: nat, t: nat, u: nat, v: nat) {
        lemma_residue_ring(s, u, v, P as nat);
        lemma_residue_ring(v, s, t, P as nat);
        lemma_residue_ring(s, t, v, P as nat);
    }

    fn scale(s: &Self, v: Self) -> (r: Self) {
        <Self as Magma<Multiplicative>>::combine(s, &v)
    }
}

impl<const P: usize> VectorSpace<Additive, Multiplicative> for ModN<P> {

}

impl<const P: usize> FreeModule<Additive, Multiplicative> for ModN<P> {
    open spec fn spec_rank() -> usize {
        1
    }

    open spec fn spec_basis_element(i: usize) -> nat {
        unit(P as nat)
    }

    open spec fn spec_coordinate(v: nat, i: usize) -> nat {
        v
    }

    proof fn lemma_basis(i: usize, j: usize) {
        lemma_residue_ring(0, 0, 0, P as nat);
    }

    fn rank() -> (r: usize) {
        1
    }

    fn basis_element(i: usize) -> (r: Self) {
        <Self as Monoid<Multiplicative>>::identity()
    }

    fn coordinate(&self, i: usize) -> (r: Self) {
        *self
    }
}

impl<const P: usize> Power<Additive> for ModN<P> {

}

impl<const P: usize> Power<Multiplicative> for ModN<P> {

}

} // verus!
