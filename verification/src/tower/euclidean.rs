//! Euclidean domains.
//!
//! An integral domain with a euclidean division: every `a, b` (b ≠ 0) splits
//! as `a = q·b + r` with the remainder's euclidean norm smaller than the
//! divisor's — the integers are the archetype, and the gcd/euclidean
//! algorithm is the standard inhabitant.
use crate::op::Operator;

use super::{AbelianGroup, Carrier, CommutativeRing, Group, Magma, Monoid, Ring, Semigroup, Semiring};
use vstd::prelude::*;

verus! {

/// `d` divides `x`: `x == k·d` for some `k` in the set.
pub open spec fn divides<Oa: Operator, Om: Operator, T: Ring<Oa, Om>>(
    d: T::Model,
    x: T::Model,
) -> bool {
    exists|k: T::Model| T::contains(k) && #[trigger] <T as Magma<Om>>::spec_combine(k, d) == x
}

/// `g` is a greatest common divisor of `a` and `b`: a common divisor that
/// every common divisor divides.
pub open spec fn is_gcd<Oa: Operator, Om: Operator, T: Ring<Oa, Om>>(
    g: T::Model,
    a: T::Model,
    b: T::Model,
) -> bool {
    &&& divides::<Oa, Om, T>(g, a)
    &&& divides::<Oa, Om, T>(g, b)
    &&& forall|d: T::Model|
        T::contains(d) && #[trigger] divides::<Oa, Om, T>(d, a) && divides::<Oa, Om, T>(d, b)
            ==> divides::<Oa, Om, T>(d, g)
}

/// The euclidean algorithm with the given norm and remainder: `a` when
/// `b` has norm `0`, else the same on `b` and `rem(a, b)`.
pub open spec fn euclid<M>(norm: spec_fn(M) -> u128, rem: spec_fn(M, M) -> M, a: M, b: M) -> M
    decreases norm(b),
{
    if norm(b) == 0 {
        a
    } else {
        // The remainder is always smaller for elements of a euclidean
        // domain (`lemma_remainder_smaller`).
        if norm(rem(a, b)) < norm(b) {
            euclid(norm, rem, b, rem(a, b))
        } else {
            b
        }
    }
}

/// The euclidean algorithm on the models of `T`.
pub open spec fn euclid_gcd<Oa: Operator, Om: Operator, T: EuclideanDomain<Oa, Om>>(
    a: T::Model,
    b: T::Model,
) -> T::Model {
    euclid(
        |x: T::Model| T::spec_euclidean_norm(x),
        |x: T::Model, y: T::Model| T::spec_quot_rem(x, y).1,
        a,
        b,
    )
}

/// The steps of the euclidean algorithm: `gcd(a, 0) == a`, and for
/// `b != 0`, `gcd(a, b) == gcd(b, a mod b)`.
pub proof fn lemma_euclid_gcd_steps<Oa: Operator, Om: Operator, T: EuclideanDomain<Oa, Om>>(
    a: T::Model,
    b: T::Model,
)
    requires
        T::contains(a),
        T::contains(b),
    ensures
        b == <T as Monoid<Oa>>::spec_identity() ==> euclid_gcd::<Oa, Om, T>(a, b) == a,
        b != <T as Monoid<Oa>>::spec_identity() ==> euclid_gcd::<Oa, Om, T>(a, b)
            == euclid_gcd::<Oa, Om, T>(b, T::spec_quot_rem(a, b).1),
{
    T::lemma_norm_zero(b);
    if b != <T as Monoid<Oa>>::spec_identity() {
        T::lemma_remainder_smaller(a, b);
        T::lemma_norm_zero(T::spec_quot_rem(a, b).1);
    }
}

/// A nonzero result of the euclidean algorithm leaves no remainder on
/// either argument.
pub proof fn lemma_euclid_gcd_divides<Oa: Operator, Om: Operator, T: EuclideanDomain<Oa, Om>>(
    a: T::Model,
    b: T::Model,
)
    requires
        T::contains(a),
        T::contains(b),
    ensures
        euclid_gcd::<Oa, Om, T>(a, b) != <T as Monoid<Oa>>::spec_identity() ==> T::spec_quot_rem(
            a,
            euclid_gcd::<Oa, Om, T>(a, b),
        ).1 == <T as Monoid<Oa>>::spec_identity() && T::spec_quot_rem(
            b,
            euclid_gcd::<Oa, Om, T>(a, b),
        ).1 == <T as Monoid<Oa>>::spec_identity(),
    decreases T::spec_euclidean_norm(b),
{
    let zero = <T as Monoid<Oa>>::spec_identity();
    T::lemma_norm_zero(b);
    lemma_euclid_gcd_steps::<Oa, Om, T>(a, b);
    if b == zero {
        if a != zero {
            T::lemma_remainder_of_self_and_zero(a);
        }
    } else {
        let r = T::spec_quot_rem(a, b).1;
        T::lemma_remainder_smaller(a, b);
        T::lemma_norm_zero(r);
        lemma_euclid_gcd_divides::<Oa, Om, T>(b, r);
        let g = euclid_gcd::<Oa, Om, T>(a, b);
        if g != zero {
            <T as Monoid<Oa>>::lemma_identity(a);
            lemma_gcd_contained::<Oa, Om, T>(b, r);
            T::lemma_remainder_step(a, b, g);
        }
    }
}

/// The result of the euclidean algorithm is in the set.
pub proof fn lemma_gcd_contained<Oa: Operator, Om: Operator, T: EuclideanDomain<Oa, Om>>(
    a: T::Model,
    b: T::Model,
)
    requires
        T::contains(a),
        T::contains(b),
    ensures
        T::contains(euclid_gcd::<Oa, Om, T>(a, b)),
    decreases T::spec_euclidean_norm(b),
{
    T::lemma_norm_zero(b);
    lemma_euclid_gcd_steps::<Oa, Om, T>(a, b);
    if b != <T as Monoid<Oa>>::spec_identity() {
        T::lemma_remainder_smaller(a, b);
        T::lemma_norm_zero(T::spec_quot_rem(a, b).1);
        lemma_gcd_contained::<Oa, Om, T>(b, T::spec_quot_rem(a, b).1);
    }
}

/// An integral domain with a euclidean division.
pub trait EuclideanDomain<Oa: Operator, Om: Operator>: CommutativeRing<Oa, Om> {
    /// Whether `quot_rem` is an exact division. True for every implementation
    /// in this crate except `ModN<P>` with `P` not prime.
    spec fn is_euclidean() -> bool;

    /// Quotient and remainder on models.
    spec fn spec_quot_rem(a: Self::Model, b: Self::Model) -> (Self::Model, Self::Model);

    /// The euclidean norm on models.
    spec fn spec_euclidean_norm(a: Self::Model) -> u128;

    /// The divisors `quot_rem` accepts: every nonzero one, and for some
    /// types zero too (the integers panic on it).
    spec fn quot_rem_defined(b: Self::Model) -> bool;

    /// Every nonzero divisor is accepted.
    proof fn lemma_nonzero_divisor_defined(b: Self::Model)
        requires
            b != <Self as Monoid<Oa>>::spec_identity(),
        ensures
            Self::quot_rem_defined(b),
    ;

    /// A nonzero element divided by itself, and zero divided by a nonzero
    /// element, leave no remainder.
    proof fn lemma_remainder_of_self_and_zero(b: Self::Model)
        requires
            Self::contains(b),
            b != <Self as Monoid<Oa>>::spec_identity(),
        ensures
            Self::spec_quot_rem(b, b).1 == <Self as Monoid<Oa>>::spec_identity(),
            Self::spec_quot_rem(<Self as Monoid<Oa>>::spec_identity(), b).1 == <Self as Monoid<
                Oa,
            >>::spec_identity(),
    ;

    /// If `g` leaves no remainder on `b` and on the remainder of `a ÷ b`, it
    /// leaves none on `a`.
    proof fn lemma_remainder_step(a: Self::Model, b: Self::Model, g: Self::Model)
        requires
            Self::contains(a),
            Self::contains(b),
            Self::contains(g),
            b != <Self as Monoid<Oa>>::spec_identity(),
            g != <Self as Monoid<Oa>>::spec_identity(),
            Self::spec_quot_rem(b, g).1 == <Self as Monoid<Oa>>::spec_identity(),
            Self::spec_quot_rem(Self::spec_quot_rem(a, b).1, g).1 == <Self as Monoid<
                Oa,
            >>::spec_identity(),
        ensures
            Self::spec_quot_rem(a, g).1 == <Self as Monoid<Oa>>::spec_identity(),
    ;

    /// The norm is `0` exactly for zero.
    proof fn lemma_norm_zero(a: Self::Model)
        requires
            Self::contains(a),
        ensures
            (Self::spec_euclidean_norm(a) == 0) == (a == <Self as Monoid<Oa>>::spec_identity()),
    ;

    /// Quotient and remainder are in the set, and a nonzero remainder is
    /// smaller than the divisor.
    proof fn lemma_remainder_smaller(a: Self::Model, b: Self::Model)
        requires
            Self::contains(a),
            Self::contains(b),
            b != <Self as Monoid<Oa>>::spec_identity(),
        ensures
            Self::contains(Self::spec_quot_rem(a, b).0),
            Self::contains(Self::spec_quot_rem(a, b).1),
            Self::spec_quot_rem(a, b).1 != <Self as Monoid<Oa>>::spec_identity()
                ==> Self::spec_euclidean_norm(Self::spec_quot_rem(a, b).1)
                < Self::spec_euclidean_norm(b),
    ;

    /// The division identity: `a == q·b + r`.
    proof fn lemma_division(a: Self::Model, b: Self::Model)
        requires
            Self::is_euclidean(),
            Self::contains(a),
            Self::contains(b),
            b != <Self as Monoid<Oa>>::spec_identity(),
        ensures
            <Self as Magma<Oa>>::spec_combine(
                <Self as Magma<Om>>::spec_combine(Self::spec_quot_rem(a, b).0, b),
                Self::spec_quot_rem(a, b).1,
            ) == a,
    ;

    /// The quotient and remainder of the euclidean division `self ÷ divisor`.
    fn quot_rem(&self, divisor: &Self) -> (r: (Self, Self))
        requires
            Self::quot_rem_defined(divisor.model()),
        ensures
            r.0.model() == Self::spec_quot_rem(self.model(), divisor.model()).0,
            r.1.model() == Self::spec_quot_rem(self.model(), divisor.model()).1,
    ;

    /// The euclidean norm (a nonnegative size measure, `0` only for zero).
    fn euclidean_norm(&self) -> (r: u128)
        ensures
            r == Self::spec_euclidean_norm(self.model()),
    ;

    /// The quotient of the euclidean division.
    fn quot(&self, divisor: &Self) -> (r: Self)
        requires
            Self::quot_rem_defined(divisor.model()),
        ensures
            r.model() == Self::spec_quot_rem(self.model(), divisor.model()).0,
    {
        self.quot_rem(divisor).0
    }

    /// The remainder of the euclidean division.
    fn rem(&self, divisor: &Self) -> (r: Self)
        requires
            Self::quot_rem_defined(divisor.model()),
        ensures
            r.model() == Self::spec_quot_rem(self.model(), divisor.model()).1,
    {
        self.quot_rem(divisor).1
    }

    /// The greatest common divisor via the euclidean algorithm.
    fn gcd(&self, other: &Self) -> (r: Self)
        where
            Self: PartialEq + Clone,
        ensures
            Self::contains(r.model()),
            r.model() == euclid(
                |x: Self::Model| Self::spec_euclidean_norm(x),
                |x: Self::Model, y: Self::Model| Self::spec_quot_rem(x, y).1,
                self.model(),
                other.model(),
            ),
            Self::is_euclidean() ==> is_gcd::<Oa, Om, Self>(r.model(), self.model(), other.model()),
    {
        let zero = <Self as Monoid<Oa>>::identity();
        let mut a = <Self as Magma<Oa>>::combine(self, &zero);
        let mut b = <Self as Magma<Oa>>::combine(other, &zero);
        proof {
            Self::lemma_model_contained(self);
            Self::lemma_model_contained(other);
            <Self as Monoid<Oa>>::lemma_identity(self.model());
            <Self as Monoid<Oa>>::lemma_identity(other.model());
        }
        while b.euclidean_norm() != 0
            invariant
                Self::contains(a.model()),
                Self::contains(b.model()),
                euclid(
                    |x: Self::Model| Self::spec_euclidean_norm(x),
                    |x: Self::Model, y: Self::Model| Self::spec_quot_rem(x, y).1,
                    a.model(),
                    b.model(),
                ) == euclid(
                    |x: Self::Model| Self::spec_euclidean_norm(x),
                    |x: Self::Model, y: Self::Model| Self::spec_quot_rem(x, y).1,
                    self.model(),
                    other.model(),
                ),
                Self::is_euclidean() ==> forall|d: Self::Model|
                    Self::contains(d) ==> ((#[trigger] divides::<Oa, Om, Self>(d, a.model())
                        && divides::<Oa, Om, Self>(d, b.model())) == (divides::<Oa, Om, Self>(
                        d,
                        self.model(),
                    ) && divides::<Oa, Om, Self>(d, other.model()))),
            decreases Self::spec_euclidean_norm(b.model()),
        {
            proof {
                Self::lemma_norm_zero(b.model());
                Self::lemma_remainder_smaller(a.model(), b.model());
            }
            proof {
                Self::lemma_nonzero_divisor_defined(b.model());
            }
            let (q, r) = a.quot_rem(&b);
            proof {
                Self::lemma_norm_zero(r.model());
                assert(euclid(
                    |x: Self::Model| Self::spec_euclidean_norm(x),
                    |x: Self::Model, y: Self::Model| Self::spec_quot_rem(x, y).1,
                    a.model(),
                    b.model(),
                ) == euclid(
                    |x: Self::Model| Self::spec_euclidean_norm(x),
                    |x: Self::Model, y: Self::Model| Self::spec_quot_rem(x, y).1,
                    b.model(),
                    r.model(),
                ));
                if Self::is_euclidean() {
                    Self::lemma_division(a.model(), b.model());
                    assert forall|d: Self::Model| Self::contains(d) implies ((#[trigger] divides::<
                        Oa,
                        Om,
                        Self,
                    >(d, b.model()) && divides::<Oa, Om, Self>(d, r.model())) == (divides::<
                        Oa,
                        Om,
                        Self,
                    >(d, self.model()) && divides::<Oa, Om, Self>(d, other.model()))) by {
                        lemma_divides_division_step::<Oa, Om, Self>(
                            d,
                            a.model(),
                            b.model(),
                            q.model(),
                            r.model(),
                        );
                        assert((divides::<Oa, Om, Self>(d, a.model()) && divides::<Oa, Om, Self>(
                            d,
                            b.model(),
                        )) == (divides::<Oa, Om, Self>(d, self.model()) && divides::<
                            Oa,
                            Om,
                            Self,
                        >(d, other.model())));
                    }
                }
            }
            a = b;
            b = r;
        }
        proof {
            Self::lemma_norm_zero(b.model());
            if Self::is_euclidean() {
                lemma_divides_zero::<Oa, Om, Self>(a.model());
                lemma_divides_self::<Oa, Om, Self>(a.model());
                lemma_divides_zero::<Oa, Om, Self>(a.model());
                assert(divides::<Oa, Om, Self>(a.model(), a.model()));
                assert forall|d: Self::Model|
                    Self::contains(d) && #[trigger] divides::<Oa, Om, Self>(d, self.model())
                        && divides::<Oa, Om, Self>(d, other.model()) implies divides::<
                    Oa,
                    Om,
                    Self,
                >(d, a.model()) by {
                    lemma_divides_zero::<Oa, Om, Self>(d);
                }
            }
        }
        a
    }
}

/// In a ring, zero absorbs: `0·a == 0` and `a·0 == 0`.
pub proof fn lemma_zero_absorbs<Oa: Operator, Om: Operator, T: Ring<Oa, Om>>(a: T::Model)
    requires
        T::contains(a),
    ensures
        <T as Magma<Om>>::spec_combine(<T as Monoid<Oa>>::spec_identity(), a) == <T as Monoid<
            Oa,
        >>::spec_identity(),
        <T as Magma<Om>>::spec_combine(a, <T as Monoid<Oa>>::spec_identity()) == <T as Monoid<
            Oa,
        >>::spec_identity(),
{
    let z = <T as Monoid<Oa>>::spec_identity();
    <T as Monoid<Oa>>::lemma_identity(a);
    <T as Monoid<Oa>>::lemma_identity(z);
    T::lemma_distributive(a, z, z);
    T::lemma_distributive(z, z, a);
    let x = <T as Magma<Om>>::spec_combine(z, a);
    let y = <T as Magma<Om>>::spec_combine(a, z);
    <T as Magma<Om>>::lemma_closed(z, a);
    <T as Magma<Om>>::lemma_closed(a, z);
    lemma_add_cancel_self::<Oa, T>(x);
    lemma_add_cancel_self::<Oa, T>(y);
}

/// In a group, `x·x == x` forces `x == e`.
pub proof fn lemma_add_cancel_self<Op: Operator, T: Group<Op>>(x: T::Model)
    requires
        T::contains(x),
        T::spec_combine(x, x) == x,
    ensures
        x == T::spec_identity(),
{
    let i = T::spec_inverse(x);
    T::lemma_inverse(x);
    T::lemma_associative(i, x, x);
    T::lemma_identity(x);
}

/// In a ring, `(-x)·d == -(x·d)`.
pub proof fn lemma_neg_mul<Oa: Operator, Om: Operator, T: Ring<Oa, Om>>(x: T::Model, d: T::Model)
    requires
        T::contains(x),
        T::contains(d),
    ensures
        <T as Magma<Om>>::spec_combine(<T as Group<Oa>>::spec_inverse(x), d) == <T as Group<
            Oa,
        >>::spec_inverse(<T as Magma<Om>>::spec_combine(x, d)),
{
    let nx = <T as Group<Oa>>::spec_inverse(x);
    let xd = <T as Magma<Om>>::spec_combine(x, d);
    let nxd = <T as Magma<Om>>::spec_combine(nx, d);
    <T as Group<Oa>>::lemma_inverse(x);
    <T as Magma<Om>>::lemma_closed(x, d);
    <T as Magma<Om>>::lemma_closed(nx, d);
    T::lemma_distributive(d, nx, x);
    lemma_zero_absorbs::<Oa, Om, T>(d);
    // nxd + xd == 0, so nxd is the inverse of xd
    <T as Group<Oa>>::lemma_inverse(xd);
    let ixd = <T as Group<Oa>>::spec_inverse(xd);
    <T as Semigroup<Oa>>::lemma_associative(nxd, xd, ixd);
    <T as Monoid<Oa>>::lemma_identity(nxd);
    <T as Monoid<Oa>>::lemma_identity(ixd);
}

/// Every element divides zero.
pub proof fn lemma_divides_zero<Oa: Operator, Om: Operator, T: Ring<Oa, Om>>(d: T::Model)
    requires
        T::contains(d),
    ensures
        divides::<Oa, Om, T>(d, <T as Monoid<Oa>>::spec_identity()),
{
    lemma_zero_absorbs::<Oa, Om, T>(d);
    <T as Monoid<Oa>>::lemma_identity(d);
    let z = <T as Monoid<Oa>>::spec_identity();
    assert(T::contains(z) && <T as Magma<Om>>::spec_combine(z, d) == z);
}

/// Every element divides itself.
pub proof fn lemma_divides_self<Oa: Operator, Om: Operator, T: Ring<Oa, Om>>(a: T::Model)
    requires
        T::contains(a),
    ensures
        divides::<Oa, Om, T>(a, a),
{
    <T as Monoid<Om>>::lemma_identity(a);
    let one = <T as Monoid<Om>>::spec_identity();
    assert(T::contains(one) && <T as Magma<Om>>::spec_combine(one, a) == a);
}

/// A euclidean step keeps the common divisors: with `a == q·b + r`, `d`
/// divides `a` and `b` exactly when it divides `b` and `r`.
pub proof fn lemma_divides_division_step<Oa: Operator, Om: Operator, T: Ring<Oa, Om>>(
    d: T::Model,
    a: T::Model,
    b: T::Model,
    q: T::Model,
    r: T::Model,
)
    requires
        T::contains(d),
        T::contains(a),
        T::contains(b),
        T::contains(q),
        T::contains(r),
        <T as Magma<Oa>>::spec_combine(<T as Magma<Om>>::spec_combine(q, b), r) == a,
    ensures
        (divides::<Oa, Om, T>(d, b) && divides::<Oa, Om, T>(d, r)) == (divides::<Oa, Om, T>(d, a)
            && divides::<Oa, Om, T>(d, b)),
{
    let qb = <T as Magma<Om>>::spec_combine(q, b);
    <T as Magma<Om>>::lemma_closed(q, b);
    if divides::<Oa, Om, T>(d, b) {
        let k = choose|k: T::Model| T::contains(k) && #[trigger] <T as Magma<Om>>::spec_combine(k, d) == b;
        // q·b == (q·k)·d
        let qk = <T as Magma<Om>>::spec_combine(q, k);
        <T as Magma<Om>>::lemma_closed(q, k);
        <T as Semigroup<Om>>::lemma_associative(q, k, d);
        assert(<T as Magma<Om>>::spec_combine(qk, d) == qb);
        if divides::<Oa, Om, T>(d, r) {
            let m = choose|m: T::Model| T::contains(m) && #[trigger] <T as Magma<Om>>::spec_combine(m, d) == r;
            T::lemma_distributive(d, qk, m);
            <T as Magma<Oa>>::lemma_closed(qk, m);
            assert(<T as Magma<Om>>::spec_combine(<T as Magma<Oa>>::spec_combine(qk, m), d) == a);
        }
        if divides::<Oa, Om, T>(d, a) {
            let m = choose|m: T::Model| T::contains(m) && #[trigger] <T as Magma<Om>>::spec_combine(m, d) == a;
            // r == -(q·b) + a == (-(q·k) + m)·d
            let nqk = <T as Group<Oa>>::spec_inverse(qk);
            <T as Group<Oa>>::lemma_inverse(qk);
            <T as Group<Oa>>::lemma_inverse(qb);
            lemma_neg_mul::<Oa, Om, T>(qk, d);
            T::lemma_distributive(d, nqk, m);
            <T as Magma<Oa>>::lemma_closed(nqk, m);
            let nqb = <T as Group<Oa>>::spec_inverse(qb);
            <T as Semigroup<Oa>>::lemma_associative(nqb, qb, r);
            <T as Monoid<Oa>>::lemma_identity(r);
            assert(<T as Magma<Oa>>::spec_combine(nqb, a) == r);
            assert(<T as Magma<Om>>::spec_combine(<T as Magma<Oa>>::spec_combine(nqk, m), d) == r);
        }
    }
}

} // verus!
