//! The operator markers.
//!
//! A type can be a monoid under `+` and under `*`, so every tower trait is
//! parameterized over an operator marker ([`Additive`] / [`Multiplicative`]).

use vstd::prelude::*;

verus! {

/// Marker implemented by every operator tag.
///
/// Bounds the `Op` parameter of the tower traits, so only operator markers
/// can parameterize the hierarchy.
pub trait Operator {}

/// The additive operator (`+`).
pub struct Additive;

impl Operator for Additive {}

/// The multiplicative operator (`*`).
pub struct Multiplicative;

impl Operator for Multiplicative {}

} // verus!
