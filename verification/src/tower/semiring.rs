//! The multiplicative ladder: Semiring → Ring → CommutativeRing → Field.
//!
//! These traits combine both operators: the additive part is the abelian
//! ladder from the parent module, the multiplicative part is the monoid
//! under [`Multiplicative`](crate::op::Multiplicative), and the two are tied
//! together by distributivity. `Field` additionally requires `0 != 1`.
use crate::op::Operator;

use super::{AbelianGroup, Carrier, Magma, Module, Monoid, VectorSpace};
use vstd::prelude::*;

verus! {

/// A semiring: additive [`Monoid`] + multiplicative [`Monoid`] + distributivity.
pub trait Semiring<Oa: Operator, Om: Operator>: Monoid<Oa> + Monoid<Om> {
    /// Distributivity, both sides: `a·(b+c) == a·b + a·c` and
    /// `(b+c)·a == b·a + c·a`.
    proof fn lemma_distributive(a: Self::Model, b: Self::Model, c: Self::Model)
        requires
            Self::contains(a),
            Self::contains(b),
            Self::contains(c),
        ensures
            <Self as Magma<Om>>::spec_combine(a, <Self as Magma<Oa>>::spec_combine(b, c))
                == <Self as Magma<Oa>>::spec_combine(
                <Self as Magma<Om>>::spec_combine(a, b),
                <Self as Magma<Om>>::spec_combine(a, c),
            ),
            <Self as Magma<Om>>::spec_combine(<Self as Magma<Oa>>::spec_combine(b, c), a)
                == <Self as Magma<Oa>>::spec_combine(
                <Self as Magma<Om>>::spec_combine(b, a),
                <Self as Magma<Om>>::spec_combine(c, a),
            ),
    ;
}

/// A ring: a [`Semiring`] whose additive part is an abelian group.
pub trait Ring<Oa: Operator, Om: Operator>: Semiring<Oa, Om> + AbelianGroup<Oa> {

}

/// A commutative ring: a [`Ring`] whose multiplicative part commutes.
pub trait CommutativeRing<Oa: Operator, Om: Operator>: Ring<Oa, Om> {
    /// Multiplicative commutativity: `a·b == b·a`.
    proof fn lemma_multiplication_commutes(a: Self::Model, b: Self::Model)
        requires
            Self::contains(a),
            Self::contains(b),
        ensures
            <Self as Magma<Om>>::spec_combine(a, b) == <Self as Magma<Om>>::spec_combine(b, a),
    ;
}

/// A division ring: a [`Ring`] where every nonzero element has a
/// multiplicative inverse (not necessarily commutative). Every field is a
/// division ring; the quaternions are the classic non-commutative example.
pub trait DivisionRing<Oa: Operator, Om: Operator>: Ring<Oa, Om> {
    /// Whether every nonzero element is invertible. True for every
    /// implementation in this crate except `ModN<P>` with `P` not prime,
    /// where `inv` is only a Bézout coefficient.
    spec fn inverses_exist() -> bool;

    /// The multiplicative inverse on models.
    spec fn spec_inv(a: Self::Model) -> Self::Model;

    /// The inverse stays in the set.
    proof fn lemma_inv_closed(a: Self::Model)
        requires
            Self::contains(a),
        ensures
            Self::contains(Self::spec_inv(a)),
    ;

    /// Inverse: `a·a⁻¹ == 1` and `a⁻¹·a == 1` for every nonzero `a`.
    proof fn lemma_inv(a: Self::Model)
        requires
            Self::inverses_exist(),
            Self::contains(a),
            a != <Self as Monoid<Oa>>::spec_identity(),
        ensures
            <Self as Magma<Om>>::spec_combine(a, Self::spec_inv(a)) == <Self as Monoid<
                Om,
            >>::spec_identity(),
            <Self as Magma<Om>>::spec_combine(Self::spec_inv(a), a) == <Self as Monoid<
                Om,
            >>::spec_identity(),
    ;

    /// The multiplicative inverse of `self`.
    fn inv(&self) -> (r: Self)
        ensures
            r.model() == Self::spec_inv(self.model()),
    ;
}

/// A field: a commutative division ring with `0 != 1`.
pub trait Field<Oa: Operator, Om: Operator>: DivisionRing<Oa, Om> + CommutativeRing<Oa, Om> {
    /// Nontriviality: `0 != 1`.
    proof fn lemma_zero_is_not_one()
        requires
            Self::inverses_exist(),
        ensures
            <Self as Monoid<Oa>>::spec_identity() != <Self as Monoid<Om>>::spec_identity(),
    ;
}

/// An integral domain: a commutative ring without zero divisors and with
/// `0 != 1`.
pub trait IntegralDomain<Oa: Operator, Om: Operator>: CommutativeRing<Oa, Om> {
    /// Whether the ring is a domain. True for every implementation in this
    /// crate except `ModN<P>` with `P` not prime.
    spec fn is_domain() -> bool;

    /// No zero divisors: `a·b == 0` implies `a == 0` or `b == 0`; and `0 != 1`.
    proof fn lemma_no_zero_divisors(a: Self::Model, b: Self::Model)
        requires
            Self::is_domain(),
            Self::contains(a),
            Self::contains(b),
        ensures
            <Self as Monoid<Oa>>::spec_identity() != <Self as Monoid<Om>>::spec_identity(),
            <Self as Magma<Om>>::spec_combine(a, b) == <Self as Monoid<Oa>>::spec_identity()
                ==> a == <Self as Monoid<Oa>>::spec_identity() || b == <Self as Monoid<
                Oa,
            >>::spec_identity(),
    ;
}

/// A unique factorization domain.
pub trait UniqueFactorizationDomain<Oa: Operator, Om: Operator>: IntegralDomain<Oa, Om> {

}

/// A principal ideal domain.
pub trait PrincipalIdealDomain<Oa: Operator, Om: Operator>: UniqueFactorizationDomain<
    Oa,
    Om,
> {

}

/// An ordered field: a field with a total order compatible with its
/// operations.
pub trait OrderedField<Oa: Operator, Om: Operator>: Field<Oa, Om> + PartialOrd {

}

/// A finite field: a field with finitely many elements.
pub trait FiniteField<Oa: Operator, Om: Operator>: Field<Oa, Om> {
    /// The characteristic's value.
    spec fn spec_characteristic() -> u64;

    /// The number of elements.
    spec fn spec_order() -> u64;

    /// The characteristic — the additive order of the multiplicative
    /// identity (a prime).
    fn characteristic() -> (r: u64)
        ensures
            r == Self::spec_characteristic(),
    ;

    /// The number of elements (a prime power).
    fn order() -> (r: u64)
        ensures
            r == Self::spec_order(),
    ;
}

/// A field extension: a field that is a finite-dimensional vector space over
/// a base field.
pub trait FieldExtension<Oa: Operator, Om: Operator>: Field<Oa, Om> + VectorSpace<
    Oa,
    Om,
    Scalar = <Self as FieldExtension<Oa, Om>>::BaseField,
> {
    /// The base field.
    type BaseField: Field<Oa, Om>;

    /// The degree's value.
    spec fn spec_degree() -> usize;

    /// The field trace on models.
    spec fn spec_trace(a: Self::Model) -> <Self::BaseField as Carrier>::Model;

    /// The field norm on models.
    spec fn spec_norm(a: Self::Model) -> <Self::BaseField as Carrier>::Model;

    /// Trace additivity: `Tr(x + y) == Tr(x) + Tr(y)`.
    proof fn lemma_trace_additive(x: Self::Model, y: Self::Model)
        requires
            Self::contains(x),
            Self::contains(y),
        ensures
            Self::spec_trace(<Self as Magma<Oa>>::spec_combine(x, y)) == <Self::BaseField as Magma<
                Oa,
            >>::spec_combine(Self::spec_trace(x), Self::spec_trace(y)),
    ;

    /// Norm multiplicativity: `N(x·y) == N(x)·N(y)`.
    proof fn lemma_norm_multiplicative(x: Self::Model, y: Self::Model)
        requires
            Self::contains(x),
            Self::contains(y),
        ensures
            Self::spec_norm(<Self as Magma<Om>>::spec_combine(x, y)) == <Self::BaseField as Magma<
                Om,
            >>::spec_combine(Self::spec_norm(x), Self::spec_norm(y)),
    ;

    /// The degree of the extension `[K : F]`.
    fn degree() -> (r: usize)
        ensures
            r == Self::spec_degree(),
    ;

    /// The field trace `Tr(x)`.
    fn trace(&self) -> (r: Self::BaseField)
        ensures
            r.model() == Self::spec_trace(self.model()),
    ;

    /// The field norm `N(x)`.
    fn norm(&self) -> (r: Self::BaseField)
        ensures
            r.model() == Self::spec_norm(self.model()),
    ;
}

/// A tower of field extensions: `K = K₀ ⊃ K₁ ⊃ ... ⊃ K_h = F`.
pub trait FieldExtensionTower<Oa: Operator, Om: Operator>: FieldExtension<Oa, Om> {
    /// The height `h` of the tower.
    spec fn spec_tower_height() -> usize;

    /// The degree `[Kᵢ : Kᵢ₊₁]` of the `i`-th step.
    spec fn spec_extension_degree(i: usize) -> usize;

    /// The tower law: the degree of the whole extension is the product of
    /// the degrees of the steps.
    proof fn lemma_tower_law()
        ensures
            step_degree_product(Self::spec_tower_height() as nat, |i: nat| Self::spec_extension_degree(i as usize) as nat)
                == Self::spec_degree(),
    ;

    /// The height of the tower.
    fn tower_height() -> (r: usize)
        ensures
            r == Self::spec_tower_height(),
    ;

    /// The degree of the `i`-th step.
    fn extension_degree(i: usize) -> (r: usize)
        requires
            i < Self::spec_tower_height(),
        ensures
            r == Self::spec_extension_degree(i),
    ;
}

/// `d(0)·d(1)·…·d(h − 1)`.
pub open spec fn step_degree_product(h: nat, d: spec_fn(nat) -> nat) -> nat
    decreases h,
{
    if h == 0 {
        1
    } else {
        step_degree_product((h - 1) as nat, d) * d((h - 1) as nat)
    }
}

} // verus!
