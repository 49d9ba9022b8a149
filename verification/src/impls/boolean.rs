//! `bool` is the two-element field F₂: `+` is exclusive or, `*` is and.
//! It is also the boolean algebra under and/or/not, a band under `and`,
//! and a one-dimensional vector space over itself.
use crate::op::{Additive, Multiplicative};
use crate::tower::lemma_group_latin_square;
use crate::tower::{
    AbelianGroup, Band, BooleanAlgebra, BoundedLattice, Carrier, CommutativeRing,
    ComplementedLattice, DistributiveLattice, DivisionRing, Field, FiniteField, FreeModule, Group,
    IntegralDomain, JoinSemilattice, Lattice, Loop, Magma, MeetSemilattice, Module, Monoid, Power,
    PrincipalIdealDomain, Quasigroup, Ring, Semigroup, Semiring, UniqueFactorizationDomain,
    VectorSpace,
};
use vstd::prelude::*;

verus! {

impl Carrier for bool {
    type Model = bool;

    open spec fn model(self) -> bool {
        self
    }

    open spec fn contains(m: bool) -> bool {
        true
    }

    proof fn lemma_model_contained(x: &bool) {
    }
}

impl Magma<Additive> for bool {
    open spec fn spec_combine(a: bool, b: bool) -> bool {
        a != b
    }

    proof fn lemma_closed(a: bool, b: bool) {
    }

    fn combine(&self, rhs: &Self) -> (r: Self) {
        *self != *rhs
    }
}

impl Magma<Multiplicative> for bool {
    open spec fn spec_combine(a: bool, b: bool) -> bool {
        a && b
    }

    proof fn lemma_closed(a: bool, b: bool) {
    }

    fn combine(&self, rhs: &Self) -> (r: Self) {
        *self && *rhs
    }
}

impl Semigroup<Additive> for bool {
    proof fn lemma_associative(a: bool, b: bool, c: bool) {
    }
}

impl Semigroup<Multiplicative> for bool {
    proof fn lemma_associative(a: bool, b: bool, c: bool) {
    }
}

impl Monoid<Additive> for bool {
    open spec fn spec_identity() -> bool {
        false
    }

    proof fn lemma_identity(a: bool) {
    }

    fn identity() -> (r: Self) {
        false
    }
}

impl Monoid<Multiplicative> for bool {
    open spec fn spec_identity() -> bool {
        true
    }

    proof fn lemma_identity(a: bool) {
    }

    fn identity() -> (r: Self) {
        true
    }
}

impl Quasigroup<Additive> for bool {
    proof fn lemma_latin_square(a: bool, b: bool) {
        lemma_group_latin_square::<Additive, bool>(a, b, a);
    }
}

impl Loop<Additive> for bool {

}

impl Group<Additive> for bool {
    open spec fn spec_inverse(a: bool) -> bool {
        a
    }

    proof fn lemma_inverse(a: bool) {
    }

    fn inverse(&self) -> (r: Self) {
        *self
    }
}

impl AbelianGroup<Additive> for bool {
    proof fn lemma_commutative(a: bool, b: bool) {
    }
}

impl Semiring<Additive, Multiplicative> for bool {
    proof fn lemma_distributive(a: bool, b: bool, c: bool) {
    }
}

impl Ring<Additive, Multiplicative> for bool {

}

impl CommutativeRing<Additive, Multiplicative> for bool {
    proof fn lemma_multiplication_commutes(a: bool, b: bool) {
    }
}

impl DivisionRing<Additive, Multiplicative> for bool {
    open spec fn inverses_exist() -> bool {
        true
    }

    open spec fn spec_inv(a: bool) -> bool {
        a
    }

    proof fn lemma_inv_closed(a: bool) {
    }

    proof fn lemma_inv(a: bool) {
        assert(<Self as Monoid<Additive>>::spec_identity() == false);
        assert(<Self as Monoid<Multiplicative>>::spec_identity() == true);
    }

    fn inv(&self) -> (r: Self) {
        *self
    }
}

impl Field<Additive, Multiplicative> for bool {
    proof fn lemma_zero_is_not_one() {
        assert(<Self as Monoid<Additive>>::spec_identity() == false);
        assert(<Self as Monoid<Multiplicative>>::spec_identity() == true);
    }
}

impl FiniteField<Additive, Multiplicative> for bool {
    open spec fn spec_characteristic() -> u64 {
        2
    }

    open spec fn spec_order() -> u64 {
        2
    }

    fn characteristic() -> (r: u64) {
        2
    }

    fn order() -> (r: u64) {
        2
    }
}

impl IntegralDomain<Additive, Multiplicative> for bool {
    open spec fn is_domain() -> bool {
        true
    }

    proof fn lemma_no_zero_divisors(a: bool, b: bool) {
        assert(<Self as Monoid<Additive>>::spec_identity() == false);
        assert(<Self as Monoid<Multiplicative>>::spec_identity() == true);
    }
}

impl UniqueFactorizationDomain<Additive, Multiplicative> for bool {

}

impl PrincipalIdealDomain<Additive, Multiplicative> for bool {

}

impl Module<Additive, Multiplicative> for bool {
    type Scalar = bool;

    open spec fn spec_scale(s: bool, v: bool) -> bool {
        s && v
    }

    proof fn lemma_module(s: bool, t: bool, u: bool, v: bool) {
    }

    fn scale(s: &bool, v: bool) -> (r: bool) {
        *s && v
    }
}

impl VectorSpace<Additive, Multiplicative> for bool {

}

impl FreeModule<Additive, Multiplicative> for bool {
    open spec fn spec_rank() -> usize {
        1
    }

    open spec fn spec_basis_element(i: usize) -> bool {
        true
    }

    open spec fn spec_coordinate(v: bool, i: usize) -> bool {
        v
    }

    proof fn lemma_basis(i: usize, j: usize) {
    }

    fn rank() -> (r: usize) {
        1
    }

    fn basis_element(i: usize) -> (r: bool) {
        true
    }

    fn coordinate(&self, i: usize) -> (r: bool) {
        *self
    }
}

impl Band<Multiplicative> for bool {
    proof fn lemma_idempotent(a: bool) {
    }
}

impl Power<Additive> for bool {

}

impl Power<Multiplicative> for bool {

}

impl MeetSemilattice for bool {
    open spec fn meet_follows_order() -> bool {
        false
    }

    proof fn lemma_meet_follows_order(a: Self, b: Self) {
    }

    open spec fn spec_meet(a: bool, b: bool) -> bool {
        a && b
    }

    proof fn lemma_meet_semilattice(a: bool, b: bool, c: bool) {
    }

    fn meet(&self, other: &Self) -> (r: Self) {
        *self && *other
    }
}

impl JoinSemilattice for bool {
    open spec fn join_follows_order() -> bool {
        false
    }

    proof fn lemma_join_follows_order(a: Self, b: Self) {
    }

    open spec fn spec_join(a: bool, b: bool) -> bool {
        a || b
    }

    proof fn lemma_join_semilattice(a: bool, b: bool, c: bool) {
    }

    fn join(&self, other: &Self) -> (r: Self) {
        *self || *other
    }
}

impl Lattice for bool {
    proof fn lemma_absorption(a: bool, b: bool) {
    }
}

impl DistributiveLattice for bool {
    proof fn lemma_distributive(a: bool, b: bool, c: bool) {
    }
}

impl BoundedLattice for bool {
    open spec fn spec_top() -> bool {
        true
    }

    open spec fn spec_bottom() -> bool {
        false
    }

    proof fn lemma_bounds(a: bool) {
    }

    fn top() -> (r: Self) {
        true
    }

    fn bottom() -> (r: Self) {
        false
    }
}

impl ComplementedLattice for bool {
    open spec fn spec_complement(a: bool) -> bool {
        !a
    }

    proof fn lemma_complement(a: bool) {
    }

    fn complement(&self) -> (r: Self) {
        !*self
    }
}

impl BooleanAlgebra for bool {

}

} // verus!
