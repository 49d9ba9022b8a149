//! Tensor products: the universal target of bilinear maps.
//!
//! A tensor product `V ⊗ W` receives the universal bilinear map
//! `V × W → V ⊗ W`. Concrete tensor types (multidimensional arrays, outer
//! products) belong to linear-algebra libraries; the tower declares the
//! shape and its bilinearity laws.
use crate::op::Operator;
use crate::tower::{Carrier, Magma};
use vstd::prelude::*;

verus! {

/// A tensor product `V ⊗ W`: the target of the universal bilinear map
/// `V × W → V ⊗ W`, bilinear in both factors.
pub trait TensorProduct<Op: Operator>: Magma<Op> {
    /// The left factor.
    type Left: Magma<Op>;

    /// The right factor.
    type Right: Magma<Op>;

    /// The tensor product on models.
    spec fn spec_tensor_product(
        left: <Self::Left as Carrier>::Model,
        right: <Self::Right as Carrier>::Model,
    ) -> Self::Model;

    /// Bilinearity: `(u1+u2) ⊗ v == u1⊗v + u2⊗v` and
    /// `u ⊗ (v1+v2) == u⊗v1 + u⊗v2`.
    proof fn lemma_bilinear(
        u1: <Self::Left as Carrier>::Model,
        u2: <Self::Left as Carrier>::Model,
        v1: <Self::Right as Carrier>::Model,
        v2: <Self::Right as Carrier>::Model,
    )
        requires
            Self::Left::contains(u1),
            Self::Left::contains(u2),
            Self::Right::contains(v1),
            Self::Right::contains(v2),
        ensures
            Self::spec_tensor_product(<Self::Left as Magma<Op>>::spec_combine(u1, u2), v1)
                == Self::spec_combine(
                Self::spec_tensor_product(u1, v1),
                Self::spec_tensor_product(u2, v1),
            ),
            Self::spec_tensor_product(u1, <Self::Right as Magma<Op>>::spec_combine(v1, v2))
                == Self::spec_combine(
                Self::spec_tensor_product(u1, v1),
                Self::spec_tensor_product(u1, v2),
            ),
    ;

    /// The tensor product of `left` and `right`.
    fn tensor_product(left: Self::Left, right: Self::Right) -> (r: Self)
        ensures
            r.model() == Self::spec_tensor_product(left.model(), right.model()),
    ;
}

} // verus!
