//! Quaternions `w + x·i + y·j + z·k` over a scalar type.
//!
//! The algebraic structure (`Quaternion<T>` is a ring over any ring `T`,
//! non-commutative: `i·j == k` but `j·i == −k`) is implemented alongside
//! the other impls; this module holds the type.
use crate::op::{Additive, Multiplicative};
use crate::tower::{Carrier, CommutativeRing, Magma, Ring};
use vstd::prelude::*;

verus! {

/// A quaternion `w + x·i + y·j + z·k` with components in `T`.
#[derive(Clone, Copy, Debug, PartialEq, Eq)]
pub struct Quaternion<T> {
    w: T,
    x: T,
    y: T,
    z: T,
}

impl<T> Quaternion<T> {
    /// The components `(w, x, y, z)`.
    pub closed spec fn components(self) -> (T, T, T, T) {
        (self.w, self.x, self.y, self.z)
    }

    /// The quaternion `w + x·i + y·j + z·k`.
    pub fn new(w: T, x: T, y: T, z: T) -> (r: Self)
        ensures
            r.components() == (w, x, y, z),
    {
        Quaternion { w, x, y, z }
    }

    /// The real part `w`.
    pub fn w(&self) -> (r: &T)
        ensures
            *r == self.components().0,
    {
        &self.w
    }

    /// The `i` component.
    pub fn x(&self) -> (r: &T)
        ensures
            *r == self.components().1,
    {
        &self.x
    }

    /// The `j` component.
    pub fn y(&self) -> (r: &T)
        ensures
            *r == self.components().2,
    {
        &self.y
    }

    /// The `k` component.
    pub fn z(&self) -> (r: &T)
        ensures
            *r == self.components().3,
    {
        &self.z
    }
}

/// The squared norm `(w² + x²) + (y² + z²)` of a quaternion's model.
pub open spec fn norm_squared_of<T: Ring<Additive, Multiplicative>>(
    q: (T::Model, T::Model, T::Model, T::Model),
) -> T::Model {
    <T as Magma<Additive>>::spec_combine(
        <T as Magma<Additive>>::spec_combine(
            <T as Magma<Multiplicative>>::spec_combine(q.0, q.0),
            <T as Magma<Multiplicative>>::spec_combine(q.1, q.1),
        ),
        <T as Magma<Additive>>::spec_combine(
            <T as Magma<Multiplicative>>::spec_combine(q.2, q.2),
            <T as Magma<Multiplicative>>::spec_combine(q.3, q.3),
        ),
    )
}

/// The squared norm is multiplicative over a commutative ring (Euler's
/// four-square identity): `‖p·q‖² == ‖p‖²·‖q‖²`.
pub proof fn lemma_norm_multiplicative<T: CommutativeRing<Additive, Multiplicative>>(
    p: Quaternion<T>,
    q: Quaternion<T>,
)
    ensures
        norm_squared_of::<T>(
            <Quaternion<T> as Magma<Multiplicative>>::spec_combine(p.model(), q.model()),
        ) == <T as Magma<Multiplicative>>::spec_combine(
            norm_squared_of::<T>(p.model()),
            norm_squared_of::<T>(q.model()),
        ),
{
    Quaternion::<T>::lemma_model_contained(&p);
    Quaternion::<T>::lemma_model_contained(&q);
    crate::impls::quaternion::lemma_norm_multiplicative::<T>(p.model(), q.model());
}

} // verus!
