//! Option impls: the `T`-lifting structure.
//!
//! `Option<T>` lifts `T`'s operation: `Some(x) ⊕ Some(y) == Some(x ⊕ y)`,
//! and `None` absorbs. Under `Multiplicative` the identity is
//! `Some(T::identity())`, so `Option<T>` is a monoid with zero. With `None`
//! absorbing, `Some(x)` has no inverse, so `Option` is never a group — and
//! no element can be an identity for an operator whose identity is `None`
//! (`None ⊕ Some(x) == None`), so the additive side stops at `Semigroup`.
use crate::op::{Multiplicative, Operator};
use crate::tower::{Carrier, Magma, Monoid, Semigroup};
use vstd::prelude::*;

verus! {

impl<T: Carrier> Carrier for Option<T> {
    type Model = Option<T::Model>;

    open spec fn model(self) -> Option<T::Model> {
        match self {
            Some(x) => Some(x.model()),
            None => None,
        }
    }

    open spec fn contains(m: Option<T::Model>) -> bool {
        match m {
            Some(x) => T::contains(x),
            None => true,
        }
    }

    proof fn lemma_model_contained(x: &Self) {
        match x {
            Some(y) => T::lemma_model_contained(y),
            None => {},
        }
    }
}

impl<Op: Operator, T: Magma<Op>> Magma<Op> for Option<T> {
    open spec fn spec_combine(a: Option<T::Model>, b: Option<T::Model>) -> Option<T::Model> {
        match (a, b) {
            (Some(x), Some(y)) => Some(T::spec_combine(x, y)),
            _ => None,
        }
    }

    proof fn lemma_closed(a: Option<T::Model>, b: Option<T::Model>) {
        match (a, b) {
            (Some(x), Some(y)) => T::lemma_closed(x, y),
            _ => {},
        }
    }

    fn combine(&self, rhs: &Self) -> (r: Self) {
        match (self, rhs) {
            (Some(a), Some(b)) => Some(a.combine(b)),
            _ => None,
        }
    }
}

impl<Op: Operator, T: Semigroup<Op>> Semigroup<Op> for Option<T> {
    proof fn lemma_associative(a: Option<T::Model>, b: Option<T::Model>, c: Option<T::Model>) {
        match (a, b, c) {
            (Some(x), Some(y), Some(z)) => T::lemma_associative(x, y, z),
            _ => {},
        }
    }
}

impl<T: Monoid<Multiplicative>> Monoid<Multiplicative> for Option<T> {
    open spec fn spec_identity() -> Option<T::Model> {
        Some(T::spec_identity())
    }

    proof fn lemma_identity(a: Option<T::Model>) {
        match a {
            Some(x) => T::lemma_identity(x),
            None => T::lemma_identity(T::spec_identity()),
        }
    }

    fn identity() -> (r: Self) {
        Some(T::identity())
    }
}

} // verus!
