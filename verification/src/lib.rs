//! An abstract-algebra hierarchy whose laws are proof obligations.
//!
//! Every level of the tower (`Magma` → `Semigroup` → `Monoid` → `Group` →
//! `AbelianGroup`, `Semiring` → `Ring` → `CommutativeRing` → `Field`, the
//! module level and the extended structures) is a trait parameterized over an
//! operator marker ([`op::Additive`] / [`op::Multiplicative`]). Each trait
//! states its laws as proof functions over the mathematical model of the
//! type ([`tower::Carrier`]), so every implementation in this crate is
//! checked against the laws of the level it claims, and generic algorithms
//! (square-and-multiply powers, the euclidean gcd) are proved once for every
//! implementation.
//!
//! Modules: [`tower`] (the hierarchy), [`op`] (the operator markers),
//! [`complex`], [`quaternion`] and [`modn`] (the in-crate algebras),
//! [`keys`] (the key types of the collection impls), [`derive`] (the plan
//! behind `#[derive(Alga)]`) and [`laws`] (what the operations are for).
//! The impls for the primitive integers, `bool`
//! (the field F₂), arrays, tuples, `Option`, the containers and the
//! collections are private: they are reached through the traits.

pub mod complex;
pub mod derive;
pub mod keys;
pub mod laws;
pub mod modn;
pub mod op;
pub mod quaternion;
pub mod tower;

mod impls;
mod rings;
mod wrapping;
