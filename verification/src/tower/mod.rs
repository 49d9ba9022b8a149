//! The algebraic trait hierarchy (the "tower").
//!
//! Three ladders: the additive one here ([`Magma`] → [`Semigroup`] →
//! [`Monoid`] → [`Group`] → [`AbelianGroup`], with the [`Quasigroup`] →
//! [`Loop`] leg), the multiplicative one in [`semiring`] ([`Semiring`] →
//! [`Ring`] → [`CommutativeRing`] → [`Field`], plus the non-commutative
//! [`DivisionRing`]), and the module/vector-space level in [`module`] tying
//! both together. Every trait is parameterized over an [`Operator`] marker,
//! so one type can inhabit each level twice — once per operator.
//!
//! Every element of an algebraic type stands for a mathematical value, its
//! model ([`Carrier`]); the operations are specified on models, and each
//! level states its laws (associativity, identity, inverses, ...) as proof
//! functions that every implementation must discharge.
pub mod band;
pub mod bilinear;
pub mod closed;
pub mod euclid;
pub mod euclidean;
pub mod id;
pub mod lattice;
pub mod lie;
pub mod matrix;
pub mod module;
pub mod norm;
pub mod polynomial;
pub mod pow;
pub mod reals;
pub mod semiring;
pub mod star;
pub mod subset;
pub mod tensor;
pub mod transform;

pub use self::band::Band;
pub use self::bilinear::{BilinearForm, PositiveDefinite, SymmetricBilinearForm};
pub use self::closed::{ClosedAdd, ClosedDiv, ClosedMul, ClosedNeg, ClosedSub};
pub use self::euclid::{AffineSpace, EuclideanSpace};
pub use self::euclidean::EuclideanDomain;
pub use self::id::Id;
pub use self::lattice::{
    BooleanAlgebra, BoundedLattice, ComplementedLattice, DistributiveLattice, JoinSemilattice,
    Lattice, MeetSemilattice,
};
pub use self::lie::LieAlgebra;
pub use self::matrix::{
    InversibleSquareMatrix, Matrix, MatrixEntries, MatrixMut, SquareMatrix, SquareMatrixMut,
};
pub use self::module::{FreeModule, LinearMap, Module, VectorSpace};
pub use self::norm::{FiniteDimInnerSpace, FiniteDimVectorSpace, InnerSpace, NormedSpace};
pub use self::polynomial::Polynomial;
pub use self::pow::Power;
pub use self::reals::{ComplexField, Real};
pub use self::semiring::{
    CommutativeRing, DivisionRing, Field, FieldExtension, FieldExtensionTower, FiniteField,
    IntegralDomain, OrderedField, PrincipalIdealDomain, Ring, Semiring, UniqueFactorizationDomain,
};
pub use self::star::StarSemiring;
pub use self::subset::{SubsetOf, SupersetOf};
pub use self::tensor::TensorProduct;
pub use self::transform::{
    AffineTransformation, DirectIsometry, Isometry, OrthogonalTransformation,
    ProjectiveTransformation, Rotation, Scaling, Similarity, Transformation, Translation,
};

use crate::op::Operator;
use vstd::prelude::*;

verus! {

/// The underlying set of an algebraic structure.
///
/// Every element stands for a mathematical value, its `model`; `contains`
/// singles out the models that elements can take (all of them for most
/// types; the residues below `P` for `ModN<P>`). The operations of the tower
/// are specified on models, and the laws are stated for contained models.
pub trait Carrier: Sized {
    /// The mathematical values the elements stand for.
    type Model;

    /// The model of `self`.
    spec fn model(self) -> Self::Model;

    /// Whether `m` is the model of some element.
    spec fn contains(m: Self::Model) -> bool;

    /// Every element's model is contained.
    proof fn lemma_model_contained(x: &Self)
        ensures
            Self::contains(x.model()),
    ;
}

/// A magma: a set closed under a binary operation.
///
/// The operation itself lives in the impl: `combine` is `+` under
/// [`Additive`](crate::op::Additive) and `*` under
/// [`Multiplicative`](crate::op::Multiplicative).
pub trait Magma<Op: Operator>: Carrier {
    /// The binary operation on models.
    spec fn spec_combine(a: Self::Model, b: Self::Model) -> Self::Model;

    /// Closure: the operation never leaves the set.
    proof fn lemma_closed(a: Self::Model, b: Self::Model)
        requires
            Self::contains(a),
            Self::contains(b),
        ensures
            Self::contains(Self::spec_combine(a, b)),
    ;

    /// The binary operation.
    fn combine(&self, rhs: &Self) -> (r: Self)
        ensures
            r.model() == Self::spec_combine(self.model(), rhs.model()),
    ;
}

/// A quasigroup: a [`Magma`] with the latin-square property — for every
/// `a`, `b` there is a unique `x` with `a·x = b` and a unique `y` with
/// `y·a = b`. Every group is a quasigroup; `(R, ·)` over the full numeric
/// set is not one (zero absorbs), so only additive sides implement this.
pub trait Quasigroup<Op: Operator>: Magma<Op> {
    /// The latin-square property: solutions exist and are unique.
    proof fn lemma_latin_square(a: Self::Model, b: Self::Model)
        requires
            Self::contains(a),
            Self::contains(b),
        ensures
            exists|x: Self::Model| Self::contains(x) && #[trigger] Self::spec_combine(a, x) == b,
            exists|y: Self::Model| Self::contains(y) && #[trigger] Self::spec_combine(y, a) == b,
            forall|x1: Self::Model, x2: Self::Model|
                Self::contains(x1) && Self::contains(x2) && #[trigger] Self::spec_combine(a, x1)
                    == #[trigger] Self::spec_combine(a, x2) ==> x1 == x2,
            forall|y1: Self::Model, y2: Self::Model|
                Self::contains(y1) && Self::contains(y2) && #[trigger] Self::spec_combine(y1, a)
                    == #[trigger] Self::spec_combine(y2, a) ==> y1 == y2,
    ;
}

/// The solution `x` of `a·x == b` in a quasigroup.
pub open spec fn left_quotient<Op: Operator, T: Quasigroup<Op>>(a: T::Model, b: T::Model) -> T::Model {
    choose|x: T::Model| T::contains(x) && #[trigger] T::spec_combine(a, x) == b
}

/// The solution `y` of `y·a == b` in a quasigroup.
pub open spec fn right_quotient<Op: Operator, T: Quasigroup<Op>>(a: T::Model, b: T::Model) -> T::Model {
    choose|y: T::Model| T::contains(y) && #[trigger] T::spec_combine(y, a) == b
}

/// A loop: a [`Quasigroup`] with an identity element (a [`Monoid`]).
pub trait Loop<Op: Operator>: Quasigroup<Op> + Monoid<Op> {

}

/// A semigroup: an associative [`Magma`].
pub trait Semigroup<Op: Operator>: Magma<Op> {
    /// Associativity: `(a·b)·c == a·(b·c)`.
    proof fn lemma_associative(a: Self::Model, b: Self::Model, c: Self::Model)
        requires
            Self::contains(a),
            Self::contains(b),
            Self::contains(c),
        ensures
            Self::spec_combine(Self::spec_combine(a, b), c) == Self::spec_combine(
                a,
                Self::spec_combine(b, c),
            ),
    ;
}

/// A monoid: a [`Semigroup`] with an identity element.
pub trait Monoid<Op: Operator>: Semigroup<Op> {
    /// The identity element's model.
    spec fn spec_identity() -> Self::Model;

    /// Identity: `e` is in the set, and `e·a == a` and `a·e == a` for every
    /// `a` in the set.
    proof fn lemma_identity(a: Self::Model)
        ensures
            Self::contains(Self::spec_identity()),
            Self::contains(a) ==> Self::spec_combine(Self::spec_identity(), a) == a
                && Self::spec_combine(a, Self::spec_identity()) == a,
    ;

    /// The identity element (`0` under `Additive`, `1` under `Multiplicative`).
    fn identity() -> (r: Self)
        ensures
            r.model() == Self::spec_identity(),
    ;
}

/// A group: a [`Monoid`] with inverses (equivalently, an associative loop).
pub trait Group<Op: Operator>: Loop<Op> {
    /// The inverse on models.
    spec fn spec_inverse(a: Self::Model) -> Self::Model;

    /// Inverse: `a·a⁻¹ == e` and `a⁻¹·a == e`, with `a⁻¹` in the set.
    proof fn lemma_inverse(a: Self::Model)
        requires
            Self::contains(a),
        ensures
            Self::contains(Self::spec_inverse(a)),
            Self::spec_combine(a, Self::spec_inverse(a)) == Self::spec_identity(),
            Self::spec_combine(Self::spec_inverse(a), a) == Self::spec_identity(),
    ;

    /// The inverse of `self` (`-x` under `Additive`).
    fn inverse(&self) -> (r: Self)
        ensures
            r.model() == Self::spec_inverse(self.model()),
    ;
}

/// An abelian group: a [`Group`] whose operation commutes.
pub trait AbelianGroup<Op: Operator>: Group<Op> {
    /// Commutativity: `a·b == b·a`.
    proof fn lemma_commutative(a: Self::Model, b: Self::Model)
        requires
            Self::contains(a),
            Self::contains(b),
        ensures
            Self::spec_combine(a, b) == Self::spec_combine(b, a),
    ;
}

/// The latin-square property of every group: `x = a⁻¹·b` solves `a·x = b`,
/// `y = b·a⁻¹` solves `y·a = b`, and both are unique (cancellation).
pub proof fn lemma_group_latin_square<Op: Operator, T: Semigroup<Op> + Monoid<Op>>(
    a: T::Model,
    b: T::Model,
    inv_a: T::Model,
)
    requires
        T::contains(a),
        T::contains(b),
        T::contains(inv_a),
        T::spec_combine(a, inv_a) == T::spec_identity(),
        T::spec_combine(inv_a, a) == T::spec_identity(),
    ensures
        exists|x: T::Model| T::contains(x) && #[trigger] T::spec_combine(a, x) == b,
        exists|y: T::Model| T::contains(y) && #[trigger] T::spec_combine(y, a) == b,
        forall|x1: T::Model, x2: T::Model|
            T::contains(x1) && T::contains(x2) && #[trigger] T::spec_combine(a, x1)
                == #[trigger] T::spec_combine(a, x2) ==> x1 == x2,
        forall|y1: T::Model, y2: T::Model|
            T::contains(y1) && T::contains(y2) && #[trigger] T::spec_combine(y1, a)
                == #[trigger] T::spec_combine(y2, a) ==> y1 == y2,
{
    let x = T::spec_combine(inv_a, b);
    T::lemma_closed(inv_a, b);
    T::lemma_associative(a, inv_a, b);
    T::lemma_identity(b);
    assert(T::spec_combine(a, x) == b);
    let y = T::spec_combine(b, inv_a);
    T::lemma_closed(b, inv_a);
    T::lemma_associative(b, inv_a, a);
    assert(T::spec_combine(y, a) == b);
    assert forall|x1: T::Model, x2: T::Model|
        T::contains(x1) && T::contains(x2) && #[trigger] T::spec_combine(a, x1)
            == #[trigger] T::spec_combine(a, x2) implies x1 == x2 by {
        T::lemma_associative(inv_a, a, x1);
        T::lemma_associative(inv_a, a, x2);
        T::lemma_identity(x1);
        T::lemma_identity(x2);
    }
    assert forall|y1: T::Model, y2: T::Model|
        T::contains(y1) && T::contains(y2) && #[trigger] T::spec_combine(y1, a)
            == #[trigger] T::spec_combine(y2, a) implies y1 == y2 by {
        T::lemma_associative(y1, a, inv_a);
        T::lemma_associative(y2, a, inv_a);
        T::lemma_identity(y1);
        T::lemma_identity(y2);
    }
}

} // verus!
