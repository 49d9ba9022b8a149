//! Star semirings (Kleene star).
//!
//! A semiring with a unary `a*` satisfying the closure laws `1 + a·a* == a*`
//! and `1 + a*·a == a*` — the algebraic home of regular languages, path
//! problems in graphs, and the boolean semiring's iteration.
use crate::op::Operator;

use super::{Magma, Monoid, Semiring};
use vstd::prelude::*;

verus! {

/// A semiring with a Kleene star.
pub trait StarSemiring<Oa: Operator, Om: Operator>: Semiring<Oa, Om> {
    /// The star on models.
    spec fn spec_star(a: Self::Model) -> Self::Model;

    /// The star laws: `1 + a·a* == a*` and `1 + a*·a == a*`.
    proof fn lemma_star(a: Self::Model)
        requires
            Self::contains(a),
        ensures
            Self::contains(Self::spec_star(a)),
            <Self as Magma<Oa>>::spec_combine(
                <Self as Monoid<Om>>::spec_identity(),
                <Self as Magma<Om>>::spec_combine(a, Self::spec_star(a)),
            ) == Self::spec_star(a),
            <Self as Magma<Oa>>::spec_combine(
                <Self as Monoid<Om>>::spec_identity(),
                <Self as Magma<Om>>::spec_combine(Self::spec_star(a), a),
            ) == Self::spec_star(a),
    ;

    /// The Kleene star `a*` (the closure of `a` under the operation).
    fn star(&self) -> (r: Self)
        ensures
            r.model() == Self::spec_star(self.model()),
    ;
}

} // verus!
