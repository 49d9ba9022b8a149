//! Polynomials over a ring: a finite coefficient sequence.
//!
//! The tower declares the shape and coefficient access; concrete polynomial
//! types (dense, sparse, fixed-length arrays) implement it.
use crate::op::{Additive, Multiplicative};
use crate::tower::{Carrier, Monoid, Ring};
use vstd::prelude::*;

verus! {

/// A polynomial `Σ aᵢ·xⁱ` over a coefficient ring: a finite coefficient
/// sequence with the usual degree notion.
pub trait Polynomial: Sized + Clone {
    /// The coefficient ring.
    type Coefficient: Ring<Additive, Multiplicative>;

    /// The `i`-th coefficient's model.
    spec fn spec_coefficient(&self, i: usize) -> <Self::Coefficient as Carrier>::Model;

    /// The degree's value.
    spec fn spec_degree(&self) -> usize;

    /// The degree law: every coefficient beyond the degree is `0`, and the
    /// leading coefficient of a nonzero degree is not.
    proof fn lemma_degree(&self, i: usize)
        ensures
            i > self.spec_degree() ==> self.spec_coefficient(i) == <Self::Coefficient as Monoid<
                Additive,
            >>::spec_identity(),
            self.spec_degree() > 0 ==> self.spec_coefficient(self.spec_degree()) != <Self::Coefficient as Monoid<
                Additive,
            >>::spec_identity(),
    ;

    /// The degree — `max { i | aᵢ ≠ 0 }`, or `0` for the zero polynomial.
    fn degree(&self) -> (r: usize)
        ensures
            r == self.spec_degree(),
    ;

    /// The `i`-th coefficient `aᵢ` (`0` beyond the degree).
    fn coefficient(&self, i: usize) -> (r: Self::Coefficient)
        ensures
            r.model() == self.spec_coefficient(i),
    ;
}

} // verus!
