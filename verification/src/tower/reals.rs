//! Real numbers: ordered fields with `sqrt` and `abs`.
//!
//! The scalar type of the normed spaces ([`NormedSpace`](super::norm::NormedSpace))
//! and the common ground of the geometric traits. Real fields are also
//! closed under the std `*`/`/` operators (the norm/angle arithmetic uses
//! them directly).
use crate::op::{Additive, Multiplicative};

use super::closed::{ClosedDiv, ClosedMul};
use super::{Carrier, DivisionRing, Field, Group, Magma, Monoid};
use vstd::prelude::*;
use vstd::std_specs::cmp::{PartialOrdIs, PartialOrdSpec};
use vstd::std_specs::ops::{DivSpec, MulSpec};

verus! {

/// An ordered field with `sqrt` and `abs`, closed under `*` and `/`.
///
/// `sqrt`, `abs` and `acos` are approximations on the machine reals; the
/// trait names their results and states no law of them.
pub trait Real: Field<Additive, Multiplicative> + ClosedMul<Self> + ClosedDiv<Self> + Default
    + PartialOrd + core::ops::Neg<Output = Self> {
    /// The square root on models.
    spec fn spec_sqrt(a: Self::Model) -> Self::Model;

    /// The absolute value on models.
    spec fn spec_abs(a: Self::Model) -> Self::Model;

    /// The arccosine on models.
    spec fn spec_acos(a: Self::Model) -> Self::Model;

    /// The quotient `a / b` on models (the machine division, which need not
    /// be `a·b⁻¹` exactly).
    spec fn spec_div(a: Self::Model, b: Self::Model) -> Self::Model;

    /// The square root of zero is zero.
    proof fn lemma_sqrt_zero()
        ensures
            Self::spec_sqrt(<Self as Monoid<Additive>>::spec_identity())
                == <Self as Monoid<Additive>>::spec_identity(),
    ;

    /// A square root is never below zero.
    proof fn lemma_sqrt_not_negative(a: Self::Model)
        ensures
            !Self::spec_gt(<Self as Monoid<Additive>>::spec_identity(), Self::spec_sqrt(a)),
    ;

    /// The order `a > b` on models.
    spec fn spec_gt(a: Self::Model, b: Self::Model) -> bool;

    /// Where the real field follows its `partial_cmp` specification, `a > b`
    /// holds exactly when it holds of the models.
    proof fn lemma_order_on_models(a: Self, b: Self)
        ensures
            Self::obeys_partial_cmp_spec() ==> (a.is_gt(&b) <==> Self::spec_gt(a.model(), b.model())),
    ;

    /// `*` and `/` are defined on every pair of reals; where the operators
    /// follow their specifications, `*` is the field's multiplication and
    /// `/` is [`spec_div`](Real::spec_div).
    proof fn lemma_operators_defined(a: Self, b: Self)
        ensures
            a.mul_req(b),
            a.div_req(b),
            Self::obeys_mul_spec() ==> a.mul_spec(b).model() == <Self as Magma<
                Multiplicative,
            >>::spec_combine(a.model(), b.model()),
            Self::obeys_div_spec() ==> a.div_spec(b).model() == Self::spec_div(a.model(), b.model()),
    ;

    /// The square root (rounding for non-perfect squares).
    fn sqrt(self) -> (r: Self)
        ensures
            r.model() == Self::spec_sqrt(self.model()),
    ;

    /// The absolute value.
    fn abs(self) -> (r: Self)
        ensures
            r.model() == Self::spec_abs(self.model()),
    ;

    /// The arccosine (used by the inner-product angle).
    fn acos(self) -> (r: Self)
        ensures
            r.model() == Self::spec_acos(self.model()),
    ;
}

/// Whether the real field's comparisons follow its `partial_cmp`
/// specification.
pub open spec fn order_obeyed<R: Real>() -> bool {
    R::obeys_partial_cmp_spec()
}

/// The multiplicative inverse in a real field, on models.
pub open spec fn real_inv<R: Real>(x: R::Model) -> R::Model {
    <R as DivisionRing<Additive, Multiplicative>>::spec_inv(x)
}

/// A field of complex numbers over a real field.
pub trait ComplexField: Field<Additive, Multiplicative> {
    /// The real field the complex numbers are built over.
    type RealField: Real;

    /// The embedding of the real axis on models.
    spec fn spec_from_real(re: <Self::RealField as Carrier>::Model) -> Self::Model;

    /// The real part of a model.
    spec fn spec_re(z: Self::Model) -> <Self::RealField as Carrier>::Model;

    /// The imaginary part of a model.
    spec fn spec_im(z: Self::Model) -> <Self::RealField as Carrier>::Model;

    /// The conjugate of a model.
    spec fn spec_conjugate(z: Self::Model) -> Self::Model;

    /// The real axis has no imaginary part, and conjugation negates the
    /// imaginary part only.
    proof fn lemma_complex(re: <Self::RealField as Carrier>::Model, z: Self::Model)
        requires
            Self::RealField::contains(re),
            Self::contains(z),
        ensures
            Self::contains(Self::spec_from_real(re)),
            Self::contains(Self::spec_conjugate(z)),
            Self::spec_re(Self::spec_from_real(re)) == re,
            Self::spec_im(Self::spec_from_real(re)) == <Self::RealField as Monoid<
                Additive,
            >>::spec_identity(),
            Self::spec_re(Self::spec_conjugate(z)) == Self::spec_re(z),
            Self::spec_im(Self::spec_conjugate(z)) == <Self::RealField as Group<
                Additive,
            >>::spec_inverse(Self::spec_im(z)),
    ;

    /// The embedding of a real number (the real axis).
    fn from_real(re: Self::RealField) -> (r: Self)
        ensures
            r.model() == Self::spec_from_real(re.model()),
    ;

    /// The real part.
    fn re(&self) -> (r: Self::RealField)
        ensures
            r.model() == Self::spec_re(self.model()),
    ;

    /// The imaginary part.
    fn im(&self) -> (r: Self::RealField)
        ensures
            r.model() == Self::spec_im(self.model()),
    ;

    /// The complex conjugate.
    fn conjugate(&self) -> (r: Self)
        ensures
            r.model() == Self::spec_conjugate(self.model()),
    ;
}

} // verus!
