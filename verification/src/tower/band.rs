//! Idempotent semigroups (bands).
//!
//! A band is a semigroup where every element is idempotent: `a·a == a`. The
//! boolean `and`/`or` operations and the lattice meet/join are the natural
//! examples; the additive ladder of the numerics is not a band.
use crate::op::Operator;

use super::{Magma, Semigroup};
use vstd::prelude::*;

verus! {

/// An idempotent semigroup: `a·a == a` for every `a`.
pub trait Band<Op: Operator>: Semigroup<Op> {
    /// Idempotence.
    proof fn lemma_idempotent(a: Self::Model)
        requires
            Self::contains(a),
        ensures
            <Self as Magma<Op>>::spec_combine(a, a) == a,
    ;
}

} // verus!
