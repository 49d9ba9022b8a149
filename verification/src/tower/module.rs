//! Module and VectorSpace: a ring/field acting on an abelian group.
//!
//! `Module` ties the tower together — the additive group of vectors and the
//! multiplicative monoid of scalars, joined by scalar multiplication. A
//! `VectorSpace` is a module whose scalar ring is a field.
//!
//! The scalar ring is an associated type, so mixed shapes work out: a
//! numeric type is a module over itself, and a tuple of modules over one
//! ring `R` is a module over `R` (componentwise scaling).
use crate::op::Operator;

use super::{AbelianGroup, Carrier, Field, Magma, Monoid, Ring};
use vstd::prelude::*;

verus! {

/// A module over a ring: an additive abelian group with a compatible scalar
/// multiplication.
///
/// The laws are bilinearity — `s·(u+v) = s·u + s·v`, `(s+t)·v = s·v + t·v`,
/// `(s·t)·v = s·(t·v)`, `1·v = v` — where `+`/`·` are the
/// operator-parameterized operations.
pub trait Module<Oa: Operator, Om: Operator>: AbelianGroup<Oa> {
    /// The scalar ring acting on `Self`.
    type Scalar: Ring<Oa, Om>;

    /// Scalar multiplication on models.
    spec fn spec_scale(s: <Self::Scalar as Carrier>::Model, v: Self::Model) -> Self::Model;

    /// The module laws: closure, the two distributivities, compatibility
    /// with the scalar product, and the unit.
    proof fn lemma_module(
        s: <Self::Scalar as Carrier>::Model,
        t: <Self::Scalar as Carrier>::Model,
        u: Self::Model,
        v: Self::Model,
    )
        requires
            Self::Scalar::contains(s),
            Self::Scalar::contains(t),
            Self::contains(u),
            Self::contains(v),
        ensures
            Self::contains(Self::spec_scale(s, v)),
            Self::spec_scale(s, <Self as Magma<Oa>>::spec_combine(u, v)) == <Self as Magma<
                Oa,
            >>::spec_combine(Self::spec_scale(s, u), Self::spec_scale(s, v)),
            Self::spec_scale(<Self::Scalar as Magma<Oa>>::spec_combine(s, t), v) == <Self as Magma<
                Oa,
            >>::spec_combine(Self::spec_scale(s, v), Self::spec_scale(t, v)),
            Self::spec_scale(<Self::Scalar as Magma<Om>>::spec_combine(s, t), v)
                == Self::spec_scale(s, Self::spec_scale(t, v)),
            Self::spec_scale(<Self::Scalar as Monoid<Om>>::spec_identity(), v) == v,
    ;

    /// Scalar multiplication `s · v`.
    fn scale(s: &Self::Scalar, v: Self) -> (r: Self)
        ensures
            r.model() == Self::spec_scale(s.model(), v.model()),
    ;
}

/// A vector space: a module whose scalar ring is a field.
pub trait VectorSpace<Oa: Operator, Om: Operator>: Module<Oa, Om> where
    Self::Scalar: Field<Oa, Om>,
 {

}

/// A free module: a module with a finite basis.
pub trait FreeModule<Oa: Operator, Om: Operator>: Module<Oa, Om> {
    /// The rank's value.
    spec fn spec_rank() -> usize;

    /// The `i`-th basis element's model.
    spec fn spec_basis_element(i: usize) -> Self::Model;

    /// The `i`-th coordinate of a model.
    spec fn spec_coordinate(v: Self::Model, i: usize) -> <Self::Scalar as Carrier>::Model;

    /// The basis law: the `j`-th coordinate of the `i`-th basis element is
    /// `1` on the diagonal and `0` off it.
    proof fn lemma_basis(i: usize, j: usize)
        requires
            i < Self::spec_rank(),
            j < Self::spec_rank(),
        ensures
            Self::contains(Self::spec_basis_element(i)),
            Self::spec_coordinate(Self::spec_basis_element(i), j) == (if i == j {
                <Self::Scalar as Monoid<Om>>::spec_identity()
            } else {
                <Self::Scalar as Monoid<Oa>>::spec_identity()
            }),
    ;

    /// The rank — the number of basis elements.
    fn rank() -> (r: usize)
        ensures
            r == Self::spec_rank(),
    ;

    /// The `i`-th basis element.
    fn basis_element(i: usize) -> (r: Self)
        ensures
            r.model() == Self::spec_basis_element(i),
    ;

    /// The coordinate of `self` along the `i`-th basis element.
    fn coordinate(&self, i: usize) -> (r: Self::Scalar)
        requires
            i < Self::spec_rank(),
        ensures
            r.model() == Self::spec_coordinate(self.model(), i),
    ;
}

/// A linear map between two vector spaces over the same field.
pub trait LinearMap<Oa: Operator, Om: Operator> where
    <Self::Domain as Module<Oa, Om>>::Scalar: Field<Oa, Om>,
 {
    /// The domain vector space.
    type Domain: VectorSpace<Oa, Om>;

    /// The codomain vector space (over the same scalar field).
    type Codomain: VectorSpace<Oa, Om, Scalar = <Self::Domain as Module<Oa, Om>>::Scalar>;

    /// The map on models.
    spec fn spec_apply(&self, v: <Self::Domain as Carrier>::Model) -> <Self::Codomain as Carrier>::Model;

    /// Linearity: `f(u + v) == f(u) + f(v)` and `f(s·u) == s·f(u)`.
    proof fn lemma_linear(
        &self,
        s: <<Self::Domain as Module<Oa, Om>>::Scalar as Carrier>::Model,
        u: <Self::Domain as Carrier>::Model,
        v: <Self::Domain as Carrier>::Model,
    )
        requires
            <Self::Domain as Module<Oa, Om>>::Scalar::contains(s),
            Self::Domain::contains(u),
            Self::Domain::contains(v),
        ensures
            self.spec_apply(<Self::Domain as Magma<Oa>>::spec_combine(u, v)) == <Self::Codomain as Magma<
                Oa,
            >>::spec_combine(self.spec_apply(u), self.spec_apply(v)),
            self.spec_apply(<Self::Domain as Module<Oa, Om>>::spec_scale(s, u))
                == <Self::Codomain as Module<Oa, Om>>::spec_scale(s, self.spec_apply(u)),
    ;

    /// Applies the map to `v`.
    fn apply(&self, v: &Self::Domain) -> (r: Self::Codomain)
        ensures
            r.model() == self.spec_apply(v.model()),
    ;
}

} // verus!
