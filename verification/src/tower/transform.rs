//! Transformations of points/vectors.
//!
//! The transformation hierarchy — plain, projective, affine, similarity —
//! describes how a transformation acts on an [`EuclideanSpace`]: points and
//! vectors are transformed separately, and the richer classes decompose
//! into translation / rotation / scaling. Like the matrix traits, these are
//! an interface for downstream geometry types.
use crate::op::{Additive, Multiplicative};
use crate::tower::{Carrier, EuclideanSpace, Field, Group, Magma, Module, NormedSpace};
use vstd::prelude::*;

verus! {

/// A transformation of an euclidean space: acts on both points and vectors.
pub trait Transformation<E: EuclideanSpace>: Sized + Clone where
    <E::Coordinates as Module<Additive, Multiplicative>>::Scalar: Field<Additive, Multiplicative>,
 {
    /// The image of a point.
    spec fn spec_transform_point(&self, pt: E) -> E;

    /// The image of a vector, on models.
    spec fn spec_transform_vector(&self, v: <E::Coordinates as Carrier>::Model) -> <E::Coordinates as Carrier>::Model;

    /// Transforms a point.
    fn transform_point(&self, pt: &E) -> (r: E)
        ensures
            r == self.spec_transform_point(*pt),
    ;

    /// Transforms a vector (the coordinate part).
    fn transform_vector(&self, v: &E::Coordinates) -> (r: E::Coordinates)
        ensures
            r.model() == self.spec_transform_vector(v.model()),
    ;
}

/// A projective transformation: invertible.
pub trait ProjectiveTransformation<E: EuclideanSpace>: Transformation<E> where
    <E::Coordinates as Module<Additive, Multiplicative>>::Scalar: Field<Additive, Multiplicative>,
 {
    /// The inverse transformation.
    spec fn spec_inverse_transform(&self) -> Self;

    /// The inverse undoes the transformation, and the transformation undoes
    /// the inverse, on points and on vectors.
    proof fn lemma_inverse(&self, pt: E, v: <E::Coordinates as Carrier>::Model)
        requires
            E::Coordinates::contains(v),
        ensures
            self.spec_inverse_transform().spec_transform_point(self.spec_transform_point(pt)) == pt,
            self.spec_inverse_transform().spec_transform_vector(self.spec_transform_vector(v)) == v,
            self.spec_transform_point(self.spec_inverse_transform().spec_transform_point(pt)) == pt,
            self.spec_transform_vector(self.spec_inverse_transform().spec_transform_vector(v)) == v,
    ;

    /// The inverse transformation.
    fn inverse_transform(&self) -> (r: Self)
        ensures
            r == self.spec_inverse_transform(),
    ;

    /// Transforms a point by the inverse.
    fn inverse_transform_point(&self, pt: &E) -> (r: E)
        ensures
            r == self.spec_inverse_transform().spec_transform_point(*pt),
    {
        self.inverse_transform().transform_point(pt)
    }

    /// Transforms a vector by the inverse.
    fn inverse_transform_vector(&self, v: &E::Coordinates) -> (r: E::Coordinates)
        ensures
            r.model() == self.spec_inverse_transform().spec_transform_vector(v.model()),
    {
        self.inverse_transform().transform_vector(v)
    }
}

/// An affine transformation: decomposes into translation, rotation, scaling.
pub trait AffineTransformation<E: EuclideanSpace>: ProjectiveTransformation<E> where
    <E::Coordinates as Module<Additive, Multiplicative>>::Scalar: Field<Additive, Multiplicative>,
 {
    /// The rotation part type.
    type Rotation: Rotation<E>;

    /// The non-uniform scaling part type: a projective transformation. It
    /// is not bounded by `AffineTransformation` itself, because an
    /// associated type bounded by the very trait that declares it cannot be
    /// checked here.
    type NonUniformScaling: ProjectiveTransformation<E>;

    /// The translation part type.
    type Translation: Translation<E>;

    /// Decomposes into `(translation, rotation, non-uniform scaling)`:
    /// the transformation is the scaling, then the rotation, then the
    /// translation.
    fn decompose(&self) -> (r: (Self::Translation, Self::Rotation, Self::NonUniformScaling))
        ensures
            forall|pt: E|
                #![trigger self.spec_transform_point(pt)]
                self.spec_transform_point(pt) == r.0.spec_transform_point(
                    r.1.spec_transform_point(r.2.spec_transform_point(pt)),
                ),
    ;

    /// Appends a translation: `t` applied after `self`.
    fn append_translation(&self, t: &Self::Translation) -> (r: Self)
        ensures
            forall|pt: E|
                #![trigger r.spec_transform_point(pt)]
                r.spec_transform_point(pt) == t.spec_transform_point(self.spec_transform_point(pt)),
    ;

    /// Prepends a translation: `t` applied before `self`.
    fn prepend_translation(&self, t: &Self::Translation) -> (r: Self)
        ensures
            forall|pt: E|
                #![trigger r.spec_transform_point(pt)]
                r.spec_transform_point(pt) == self.spec_transform_point(t.spec_transform_point(pt)),
    ;

    /// Appends a rotation: `r` applied after `self`.
    fn append_rotation(&self, rot: &Self::Rotation) -> (r: Self)
        ensures
            forall|pt: E|
                #![trigger r.spec_transform_point(pt)]
                r.spec_transform_point(pt) == rot.spec_transform_point(self.spec_transform_point(pt)),
    ;

    /// Prepends a rotation: `r` applied before `self`.
    fn prepend_rotation(&self, rot: &Self::Rotation) -> (r: Self)
        ensures
            forall|pt: E|
                #![trigger r.spec_transform_point(pt)]
                r.spec_transform_point(pt) == self.spec_transform_point(rot.spec_transform_point(pt)),
    ;

    /// Appends a non-uniform scaling: `s` applied after `self`.
    fn append_scaling(&self, s: &Self::NonUniformScaling) -> (r: Self)
        ensures
            forall|pt: E|
                #![trigger r.spec_transform_point(pt)]
                r.spec_transform_point(pt) == s.spec_transform_point(self.spec_transform_point(pt)),
    ;

    /// Prepends a non-uniform scaling: `s` applied before `self`.
    fn prepend_scaling(&self, s: &Self::NonUniformScaling) -> (r: Self)
        ensures
            forall|pt: E|
                #![trigger r.spec_transform_point(pt)]
                r.spec_transform_point(pt) == self.spec_transform_point(s.spec_transform_point(pt)),
    ;
}

/// A similarity transformation: uniform scaling + rotation + translation.
pub trait Similarity<E: EuclideanSpace>: AffineTransformation<E> where
    <E::Coordinates as Module<Additive, Multiplicative>>::Scalar: Field<Additive, Multiplicative>,
 {
    /// The uniform scaling part type.
    type Scaling: Scaling<E>;

    /// The translation part.
    spec fn spec_translation(&self) -> Self::Translation;

    /// The rotation part.
    spec fn spec_rotation(&self) -> Self::Rotation;

    /// The uniform scaling part.
    spec fn spec_scaling(&self) -> Self::Scaling;

    /// The similarity is its scaling part, then its rotation part, then its
    /// translation part.
    proof fn lemma_decomposes(&self, pt: E)
        ensures
            self.spec_transform_point(pt) == self.spec_translation().spec_transform_point(
                self.spec_rotation().spec_transform_point(self.spec_scaling().spec_transform_point(pt)),
            ),
    ;

    /// The translation part.
    fn translation(&self) -> (r: Self::Translation)
        ensures
            r == self.spec_translation(),
    ;

    /// The rotation part.
    fn rotation(&self) -> (r: Self::Rotation)
        ensures
            r == self.spec_rotation(),
    ;

    /// The uniform scaling part.
    fn scaling(&self) -> (r: Self::Scaling)
        ensures
            r == self.spec_scaling(),
    ;

    /// Translates a point by the translation part: the point whose
    /// coordinates are those of `pt` moved by the translation vector.
    fn translate_point(&self, pt: &E) -> (r: E)
        ensures
            r == E::spec_from_coordinates(
                <E::Coordinates as Magma<Additive>>::spec_combine(
                    E::spec_coordinates(*pt),
                    self.spec_translation().spec_translation_vector(),
                ),
            ),
    {
        <Self::Translation as Translation<E>>::transform_point(&self.translation(), pt)
    }

    /// Rotates a point by the rotation part.
    fn rotate_point(&self, pt: &E) -> (r: E)
        ensures
            r == self.spec_rotation().spec_transform_point(*pt),
    {
        <Self::Rotation as Transformation<E>>::transform_point(&self.rotation(), pt)
    }

    /// Uniformly scales a point by the scaling part.
    fn scale_point(&self, pt: &E) -> (r: E)
        ensures
            r == self.spec_scaling().spec_transform_point(*pt),
    {
        <Self::Scaling as Transformation<E>>::transform_point(&self.scaling(), pt)
    }
}

/// A rotation: preserves norms (and orientation).
pub trait Rotation<E: EuclideanSpace>: Transformation<E> where
    <E::Coordinates as Module<Additive, Multiplicative>>::Scalar: Field<Additive, Multiplicative>,
 {
    /// The norm of a vector is unchanged.
    proof fn lemma_preserves_norm(&self, v: <E::Coordinates as Carrier>::Model)
        requires
            E::Coordinates::contains(v),
        ensures
            E::Coordinates::spec_norm_squared(self.spec_transform_vector(v))
                == E::Coordinates::spec_norm_squared(v),
    ;
}

/// An isometry: a similarity with unit scaling (preserves distances).
pub trait Isometry<E: EuclideanSpace>: Similarity<E> where
    <E::Coordinates as Module<Additive, Multiplicative>>::Scalar: Field<Additive, Multiplicative>,
 {
    /// The distance between two points is unchanged: the squared norm of
    /// their coordinate difference is the same before and after.
    proof fn lemma_preserves_distance(&self, p: E, q: E)
        ensures
            E::Coordinates::spec_norm_squared(
                <E::Coordinates as Magma<Additive>>::spec_combine(
                    E::spec_coordinates(self.spec_transform_point(p)),
                    <E::Coordinates as Group<Additive>>::spec_inverse(
                        E::spec_coordinates(self.spec_transform_point(q)),
                    ),
                ),
            ) == E::Coordinates::spec_norm_squared(
                <E::Coordinates as Magma<Additive>>::spec_combine(
                    E::spec_coordinates(p),
                    <E::Coordinates as Group<Additive>>::spec_inverse(E::spec_coordinates(q)),
                ),
            ),
    ;
}

/// A direct isometry: an isometry preserving orientation.
pub trait DirectIsometry<E: EuclideanSpace>: Isometry<E> where
    <E::Coordinates as Module<Additive, Multiplicative>>::Scalar: Field<Additive, Multiplicative>,
 {

}

/// An orthogonal transformation: preserves the inner product — a linear
/// isometry fixing the origin.
pub trait OrthogonalTransformation<E: EuclideanSpace>: Transformation<E> where
    <E::Coordinates as Module<Additive, Multiplicative>>::Scalar: Field<Additive, Multiplicative>,
 {
    /// The norm of a vector is unchanged.
    proof fn lemma_preserves_norm(&self, v: <E::Coordinates as Carrier>::Model)
        requires
            E::Coordinates::contains(v),
        ensures
            E::Coordinates::spec_norm_squared(self.spec_transform_vector(v))
                == E::Coordinates::spec_norm_squared(v),
    ;
}

/// A (possibly non-uniform) scaling.
pub trait Scaling<E: EuclideanSpace>: Transformation<E> where
    <E::Coordinates as Module<Additive, Multiplicative>>::Scalar: Field<Additive, Multiplicative>,
 {

}

/// A translation: moves points by a vector, leaves vectors untouched.
pub trait Translation<E: EuclideanSpace>: Transformation<E> where
    <E::Coordinates as Module<Additive, Multiplicative>>::Scalar: Field<Additive, Multiplicative>,
 {
    /// The translation vector, on models.
    spec fn spec_translation_vector(&self) -> <E::Coordinates as Carrier>::Model;

    /// The translation vector.
    fn translation_vector(&self) -> (r: E::Coordinates)
        ensures
            r.model() == self.spec_translation_vector(),
    ;

    /// As a transformation, a translation moves every point by its
    /// translation vector and leaves every vector as it is.
    proof fn lemma_translates(&self, pt: E, v: <E::Coordinates as Carrier>::Model)
        requires
            E::Coordinates::contains(v),
        ensures
            E::spec_coordinates(self.spec_transform_point(pt))
                == <E::Coordinates as Magma<Additive>>::spec_combine(
                E::spec_coordinates(pt),
                self.spec_translation_vector(),
            ),
            self.spec_transform_vector(v) == v,
    ;

    /// Applies to a point: the point whose coordinates are those of `pt`
    /// moved by the translation vector.
    fn transform_point(&self, pt: &E) -> E
        returns
            E::spec_from_coordinates(
                <E::Coordinates as Magma<Additive>>::spec_combine(
                    E::spec_coordinates(*pt),
                    self.spec_translation_vector(),
                ),
            ),
    {
        E::from_coordinates(
            <E::Coordinates as Magma<Additive>>::combine(
                &pt.coordinates(),
                &self.translation_vector(),
            ),
        )
    }

    /// Applies to a vector: the vector itself (a translation leaves vectors
    /// untouched), as a clone.
    fn transform_vector(&self, v: &E::Coordinates) -> E::Coordinates
        returns
            *v,
    {
        let r = v.clone();
        proof {
            E::lemma_coordinates_clone(*v, r);
        }
        r
    }
}

} // verus!
