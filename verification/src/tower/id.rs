//! The identity-element wrapper.
//!
//! `Id<O>` denotes "the identity value under operator `O`" as a type — the
//! companion to [`Monoid::identity`](crate::tower::Monoid::identity) for
//! generic code that must name the identity without knowing the concrete
//! type's `identity()` implementation.
use core::marker::PhantomData;

use crate::op::Operator;
use vstd::prelude::*;

verus! {

/// A unit type standing for the identity element under `O`.
pub struct Id<O: Operator = crate::op::Multiplicative>(pub PhantomData<O>);

impl<O: Operator> Default for Id<O> {
    fn default() -> (r: Self)
        ensures
            r == Id::<O>(PhantomData),
    {
        Id(PhantomData)
    }
}

impl<O: Operator> Clone for Id<O> {
    fn clone(&self) -> (r: Self)
        ensures
            r == *self,
    {
        *self
    }
}

impl<O: Operator> Copy for Id<O> {

}

impl<O: Operator> PartialEq for Id<O> {
    fn eq(&self, other: &Self) -> (r: bool) {
        true
    }
}

impl<O: Operator> vstd::std_specs::cmp::PartialEqSpecImpl for Id<O> {
    open spec fn obeys_eq_spec() -> bool {
        true
    }

    open spec fn eq_spec(&self, other: &Self) -> bool {
        true
    }
}

impl<O: Operator> Eq for Id<O> {

}

} // verus!
