//! Bilinear forms: `B: V × V → F`, linear in each argument.
//!
//! A form is a separate object from the space it acts on (a Gram matrix, an
//! inner product, a metric tensor). The operator pair is fixed to the
//! additive/multiplicative one — the only one with a meaningful notion of
//! scalar multiplication. Bilinearity, symmetry and positive definiteness
//! are proof obligations of the implementations.
use crate::op::{Additive, Multiplicative};
use crate::tower::{Carrier, Field, Magma, Module, Monoid, VectorSpace};
use vstd::prelude::*;

verus! {

/// A bilinear form over a vector space: `B(u, v)` linear in both arguments.
pub trait BilinearForm where
    <Self::Space as Module<Additive, Multiplicative>>::Scalar: Field<Additive, Multiplicative>,
 {
    /// The vector space the form acts on.
    type Space: VectorSpace<Additive, Multiplicative, Scalar = Self::Scalar>;

    /// The scalar field the form evaluates into (the space's own).
    type Scalar: Field<Additive, Multiplicative>;

    /// `B(u, v)` on models.
    spec fn spec_apply(&self, u: <Self::Space as Carrier>::Model, v: <Self::Space as Carrier>::Model) -> <Self::Scalar as Carrier>::Model;

    /// Bilinearity: `B(u₁ + u₂, v) == B(u₁, v) + B(u₂, v)`,
    /// `B(u, v₁ + v₂) == B(u, v₁) + B(u, v₂)`.
    proof fn lemma_bilinear(
        &self,
        u1: <Self::Space as Carrier>::Model,
        u2: <Self::Space as Carrier>::Model,
        v: <Self::Space as Carrier>::Model,
    )
        requires
            Self::Space::contains(u1),
            Self::Space::contains(u2),
            Self::Space::contains(v),
        ensures
            self.spec_apply(<Self::Space as Magma<Additive>>::spec_combine(u1, u2), v)
                == <Self::Scalar as Magma<Additive>>::spec_combine(
                self.spec_apply(u1, v),
                self.spec_apply(u2, v),
            ),
            self.spec_apply(v, <Self::Space as Magma<Additive>>::spec_combine(u1, u2))
                == <Self::Scalar as Magma<Additive>>::spec_combine(
                self.spec_apply(v, u1),
                self.spec_apply(v, u2),
            ),
    ;

    /// Linearity in the scalar: `B(s·u, v) == s·B(u, v)`.
    proof fn lemma_scalar(
        &self,
        s: <Self::Scalar as Carrier>::Model,
        u: <Self::Space as Carrier>::Model,
        v: <Self::Space as Carrier>::Model,
    )
        requires
            Self::Scalar::contains(s),
            Self::Space::contains(u),
            Self::Space::contains(v),
        ensures
            self.spec_apply(Self::Space::spec_scale(s, u), v) == <Self::Scalar as Magma<
                Multiplicative,
            >>::spec_combine(s, self.spec_apply(u, v)),
    ;

    /// Evaluates `B(u, v)`.
    fn apply(&self, u: &Self::Space, v: &Self::Space) -> (r: Self::Scalar)
        ensures
            r.model() == self.spec_apply(u.model(), v.model()),
    ;
}

/// A symmetric bilinear form: `B(u, v) == B(v, u)`.
pub trait SymmetricBilinearForm: BilinearForm where
    <Self::Space as Module<Additive, Multiplicative>>::Scalar: Field<Additive, Multiplicative>,
 {
    /// Symmetry.
    proof fn lemma_symmetric(
        &self,
        u: <Self::Space as Carrier>::Model,
        v: <Self::Space as Carrier>::Model,
    )
        requires
            Self::Space::contains(u),
            Self::Space::contains(v),
        ensures
            self.spec_apply(u, v) == self.spec_apply(v, u),
    ;
}

/// A positive-definite bilinear form: `B(v, v) > 0` for every `v ≠ 0` in
/// the order of the scalar field. An inner product is the canonical
/// example.
pub trait PositiveDefinite: SymmetricBilinearForm where
    <Self::Space as Module<Additive, Multiplicative>>::Scalar: Field<Additive, Multiplicative>,
 {
    /// Whether a scalar is positive, in the order of the scalar field.
    spec fn spec_positive(s: <Self::Scalar as Carrier>::Model) -> bool;

    /// Positive definiteness.
    proof fn lemma_positive_definite(&self, v: <Self::Space as Carrier>::Model)
        requires
            Self::Space::contains(v),
            v != <Self::Space as Monoid<Additive>>::spec_identity(),
        ensures
            Self::spec_positive(self.spec_apply(v, v)),
    ;
}

} // verus!
