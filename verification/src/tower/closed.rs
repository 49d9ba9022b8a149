//! Operator-closure markers: the type is closed under a std operator.
//!
//! These are the "the operation never leaves the type" certificates that
//! downstream generic code (e.g. vector/geometry algorithms) can bound on.
use core::ops::{Add, Div, Mul, Neg, Sub};
use vstd::prelude::*;

verus! {

/// Closed under `+`.
pub trait ClosedAdd<Right = Self>: Sized + Add<Right, Output = Self> {

}

/// Closed under `-`.
pub trait ClosedSub<Right = Self>: Sized + Sub<Right, Output = Self> {

}

/// Closed under `*`.
pub trait ClosedMul<Right = Self>: Sized + Mul<Right, Output = Self> {

}

/// Closed under `/`.
pub trait ClosedDiv<Right = Self>: Sized + Div<Right, Output = Self> {

}

/// Closed under unary `-`.
pub trait ClosedNeg: Sized + Neg<Output = Self> {

}

} // verus!
