//! Complex numbers `re + im·i` over a scalar type.
//!
//! The algebraic structure (`Complex<T>` inherits the tower from `T`) is
//! implemented alongside the other impls; this module holds the type.
use vstd::prelude::*;

verus! {

/// A complex number `re + im·i` with components in `T`.
#[derive(Clone, Copy, Debug, PartialEq, Eq)]
pub struct Complex<T> {
    re: T,
    im: T,
}

impl<T> Complex<T> {
    /// The real part.
    pub closed spec fn real_part(self) -> T {
        self.re
    }

    /// The imaginary part.
    pub closed spec fn imaginary_part(self) -> T {
        self.im
    }

    /// The complex number `re + im·i`.
    pub fn new(re: T, im: T) -> (r: Self)
        ensures
            r.real_part() == re,
            r.imaginary_part() == im,
    {
        Complex { re, im }
    }

    /// The real part.
    pub fn re(&self) -> (r: &T)
        ensures
            *r == self.real_part(),
    {
        &self.re
    }

    /// The imaginary part.
    pub fn im(&self) -> (r: &T)
        ensures
            *r == self.imaginary_part(),
    {
        &self.im
    }
}

} // verus!
