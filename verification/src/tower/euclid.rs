//! Euclidean and affine spaces: points vs. vectors.
//!
//! A point lives in a `EuclideanSpace` with a coordinate vector space; an
//! affine space additionally distinguishes a translation vector space.
use crate::op::{Additive, Multiplicative};

use super::{Carrier, Field, Group, Magma, Module, Monoid, NormedSpace, Real, VectorSpace};
use vstd::prelude::*;

verus! {

/// An euclidean space: a set of points with a coordinate vector space and a
/// distance.
pub trait EuclideanSpace: Sized + Clone + PartialEq where
    <Self::Coordinates as Module<Additive, Multiplicative>>::Scalar: Field<
        Additive,
        Multiplicative,
    >,
 {
    /// The vector space of coordinate differences.
    type Coordinates: NormedSpace<Additive, Multiplicative> + Module<Additive, Multiplicative>
        + VectorSpace<Additive, Multiplicative> + Clone;

    /// The coordinates of a point (relative to the origin), on models.
    spec fn spec_coordinates(p: Self) -> <Self::Coordinates as Carrier>::Model;

    /// A point's coordinates are a vector of the coordinate space.
    proof fn lemma_coordinates_contained(p: Self)
        ensures
            Self::Coordinates::contains(Self::spec_coordinates(p)),
    ;

    /// The point at the given coordinates.
    spec fn spec_from_coordinates(c: <Self::Coordinates as Carrier>::Model) -> Self;

    /// A clone of a coordinate vector is that same vector.
    proof fn lemma_coordinates_clone(v: Self::Coordinates, w: Self::Coordinates)
        requires
            vstd::pervasive::strictly_cloned(v, w),
        ensures
            w == v,
    ;

    /// The origin point: its coordinates are the zero vector.
    fn origin() -> (r: Self)
        ensures
            Self::spec_coordinates(r) == <Self::Coordinates as Monoid<Additive>>::spec_identity(),
    ;

    /// The point at the given coordinates.
    fn from_coordinates(coords: Self::Coordinates) -> (r: Self)
        ensures
            r == Self::spec_from_coordinates(coords.model()),
            Self::spec_coordinates(r) == coords.model(),
    ;

    /// The coordinates of `self` relative to the origin.
    fn coordinates(&self) -> (r: Self::Coordinates)
        ensures
            r.model() == Self::spec_coordinates(*self),
    ;

    /// The euclidean distance to `other`: `‖other − self‖`, the norm of the
    /// coordinate difference, computed as `‖self − other‖` (the two agree:
    /// [`lemma_distance_symmetric`]).
    fn distance(&self, other: &Self) -> (r: <Self::Coordinates as NormedSpace<
        Additive,
        Multiplicative,
    >>::RealField)
        ensures
            r.model() == <Self::Coordinates as NormedSpace<
                Additive,
                Multiplicative,
            >>::RealField::spec_sqrt(
                Self::Coordinates::spec_norm_squared(
                    <Self::Coordinates as Magma<Additive>>::spec_combine(
                        Self::spec_coordinates(*self),
                        <Self::Coordinates as Group<Additive>>::spec_inverse(
                            Self::spec_coordinates(*other),
                        ),
                    ),
                ),
            ),
    {
        let diff = <Self::Coordinates as Magma<Additive>>::combine(
            &self.coordinates(),
            &<Self::Coordinates as Group<Additive>>::inverse(&other.coordinates()),
        );
        diff.norm()
    }
}

/// In a group, `(a·b⁻¹)⁻¹ == b·a⁻¹`.
pub proof fn lemma_inverse_of_difference<Op: crate::op::Operator, G: Group<Op>>(
    a: G::Model,
    b: G::Model,
)
    requires
        G::contains(a),
        G::contains(b),
    ensures
        G::spec_inverse(G::spec_combine(a, G::spec_inverse(b))) == G::spec_combine(
            b,
            G::spec_inverse(a),
        ),
{
    let ai = G::spec_inverse(a);
    let bi = G::spec_inverse(b);
    G::lemma_inverse(a);
    G::lemma_inverse(b);
    let x = G::spec_combine(a, bi);
    let y = G::spec_combine(b, ai);
    G::lemma_closed(a, bi);
    G::lemma_closed(b, ai);
    // x·y == a·((b⁻¹·b)·a⁻¹) == a·a⁻¹ == e
    G::lemma_associative(a, bi, y);
    G::lemma_associative(bi, b, ai);
    G::lemma_identity(ai);
    // y == (x⁻¹·x)·y == x⁻¹·(x·y) == x⁻¹
    let xi = G::spec_inverse(x);
    G::lemma_inverse(x);
    G::lemma_identity(y);
    G::lemma_associative(xi, x, y);
    G::lemma_identity(xi);
}

/// The distance is symmetric: `‖p − q‖ == ‖q − p‖`.
pub proof fn lemma_distance_symmetric<E: EuclideanSpace>(p: E, q: E) where
    <E::Coordinates as Module<Additive, Multiplicative>>::Scalar: Field<Additive, Multiplicative>,

    ensures
        E::Coordinates::spec_norm_squared(
            <E::Coordinates as Magma<Additive>>::spec_combine(
                E::spec_coordinates(p),
                <E::Coordinates as Group<Additive>>::spec_inverse(E::spec_coordinates(q)),
            ),
        ) == E::Coordinates::spec_norm_squared(
            <E::Coordinates as Magma<Additive>>::spec_combine(
                E::spec_coordinates(q),
                <E::Coordinates as Group<Additive>>::spec_inverse(E::spec_coordinates(p)),
            ),
        ),
{
    let cp = E::spec_coordinates(p);
    let cq = E::spec_coordinates(q);
    E::lemma_coordinates_contained(p);
    E::lemma_coordinates_contained(q);
    lemma_inverse_of_difference::<Additive, E::Coordinates>(cp, cq);
    <E::Coordinates as Group<Additive>>::lemma_inverse(cq);
    <E::Coordinates as Magma<Additive>>::lemma_closed(
        cp,
        <E::Coordinates as Group<Additive>>::spec_inverse(cq),
    );
    E::Coordinates::lemma_norm_of_inverse(
        <E::Coordinates as Magma<Additive>>::spec_combine(
            cp,
            <E::Coordinates as Group<Additive>>::spec_inverse(cq),
        ),
    );
}

/// A point is at distance zero from itself.
pub proof fn lemma_distance_to_self<E: EuclideanSpace>(p: E) where
    <E::Coordinates as Module<Additive, Multiplicative>>::Scalar: Field<Additive, Multiplicative>,

    ensures
        <E::Coordinates as NormedSpace<Additive, Multiplicative>>::RealField::spec_sqrt(
            E::Coordinates::spec_norm_squared(
                <E::Coordinates as Magma<Additive>>::spec_combine(
                    E::spec_coordinates(p),
                    <E::Coordinates as Group<Additive>>::spec_inverse(E::spec_coordinates(p)),
                ),
            ),
        ) == <<E::Coordinates as NormedSpace<
            Additive,
            Multiplicative,
        >>::RealField as Monoid<Additive>>::spec_identity(),
{
    E::lemma_coordinates_contained(p);
    <E::Coordinates as Group<Additive>>::lemma_inverse(E::spec_coordinates(p));
    E::Coordinates::lemma_norm_of_zero();
    <E::Coordinates as NormedSpace<Additive, Multiplicative>>::RealField::lemma_sqrt_zero();
}

/// The distance is never negative: zero is not greater than it.
pub proof fn lemma_distance_not_negative<E: EuclideanSpace>(p: E, q: E) where
    <E::Coordinates as Module<Additive, Multiplicative>>::Scalar: Field<Additive, Multiplicative>,

    ensures
        !<E::Coordinates as NormedSpace<Additive, Multiplicative>>::RealField::spec_gt(
            <<E::Coordinates as NormedSpace<
                Additive,
                Multiplicative,
            >>::RealField as Monoid<Additive>>::spec_identity(),
            <E::Coordinates as NormedSpace<Additive, Multiplicative>>::RealField::spec_sqrt(
                E::Coordinates::spec_norm_squared(
                    <E::Coordinates as Magma<Additive>>::spec_combine(
                        E::spec_coordinates(p),
                        <E::Coordinates as Group<Additive>>::spec_inverse(E::spec_coordinates(q)),
                    ),
                ),
            ),
        ),
{
    <E::Coordinates as NormedSpace<Additive, Multiplicative>>::RealField::lemma_sqrt_not_negative(
        E::Coordinates::spec_norm_squared(
            <E::Coordinates as Magma<Additive>>::spec_combine(
                E::spec_coordinates(p),
                <E::Coordinates as Group<Additive>>::spec_inverse(E::spec_coordinates(q)),
            ),
        ),
    );
}

/// An affine space: points with a translation vector space.
pub trait AffineSpace: Sized + Clone + PartialEq where
    <Self::Translation as Module<Additive, Multiplicative>>::Scalar: Field<
        Additive,
        Multiplicative,
    >,
 {
    /// The vector space of translations.
    type Translation: VectorSpace<Additive, Multiplicative>;

    /// The origin point.
    spec fn spec_origin() -> Self;

    /// `p` translated by `t`.
    spec fn spec_translate(p: Self, t: <Self::Translation as Carrier>::Model) -> Self;

    /// The translation taking `p` to `q`, on models.
    spec fn spec_translation(p: Self, q: Self) -> <Self::Translation as Carrier>::Model;

    /// Translating `p` by the vector that takes it to `q` gives `q`.
    proof fn lemma_translation(p: Self, q: Self)
        ensures
            Self::spec_translate(p, Self::spec_translation(p, q)) == q,
    ;

    /// The origin point.
    fn origin() -> (r: Self)
        ensures
            r == Self::spec_origin(),
    ;

    /// `origin` translated by `translation`.
    fn from_point_translation(origin: &Self, translation: &Self::Translation) -> (r: Self)
        ensures
            r == Self::spec_translate(*origin, translation.model()),
    ;

    /// `self` translated by `translation`.
    fn translate_by(&self, t: &Self::Translation) -> (r: Self)
        ensures
            r == Self::spec_translate(*self, t.model()),
    ;

    /// The translation taking `self` to `other`.
    fn translation(&self, other: &Self) -> (r: Self::Translation)
        ensures
            r.model() == Self::spec_translation(*self, *other),
    ;
}

} // verus!
