//! Lie algebras.
//!
//! A Lie algebra is a magma whose bracket is alternating (`[a, a] == 0`) and
//! satisfies the Jacobi identity — the infinitesimal structure behind Lie
//! groups, rotations (the cross product is the 3D example) and the matrix
//! commutator `[A, B] = AB − BA`.
use crate::op::Operator;

use super::Magma;
use vstd::prelude::*;

verus! {

/// A Lie algebra: a magma (the addition of the algebra) with an
/// alternating, Jacobi-satisfying bracket.
pub trait LieAlgebra<Op: Operator>: Magma<Op> {
    /// The bracket on models.
    spec fn spec_bracket(a: Self::Model, b: Self::Model) -> Self::Model;

    /// The Lie laws: the bracket stays in the set; it is alternating —
    /// `[a, a]` is one and the same element for every `a`, the zero of the
    /// operation (`c + [a, a] == c`); and the Jacobi identity
    /// `[a,[b,c]] + [b,[c,a]] + [c,[a,b]] == 0` holds.
    proof fn lemma_lie(a: Self::Model, b: Self::Model, c: Self::Model)
        requires
            Self::contains(a),
            Self::contains(b),
            Self::contains(c),
        ensures
            Self::contains(Self::spec_bracket(a, b)),
            Self::spec_bracket(a, a) == Self::spec_bracket(b, b),
            Self::spec_combine(c, Self::spec_bracket(a, a)) == c,
            Self::spec_combine(
                Self::spec_combine(
                    Self::spec_bracket(a, Self::spec_bracket(b, c)),
                    Self::spec_bracket(b, Self::spec_bracket(c, a)),
                ),
                Self::spec_bracket(c, Self::spec_bracket(a, b)),
            ) == Self::spec_bracket(a, a),
    ;

    /// The Lie bracket `[self, other]`.
    fn bracket(&self, other: &Self) -> (r: Self)
        ensures
            r.model() == Self::spec_bracket(self.model(), other.model()),
    ;
}

} // verus!
