//! Integer powers in a monoid.
//!
//! Any monoid supports `aⁿ` by square-and-multiply — the default
//! implementation here runs in `O(log n)` combines and needs only the
//! monoid structure; its result is proved equal to the `n`-fold product.
use crate::op::Operator;

use super::{Carrier, Magma, Monoid, Semigroup};
use vstd::prelude::*;

verus! {

/// `aⁿ`: the identity for `n == 0`, else `aⁿ⁻¹·a`.
pub open spec fn power<Op: Operator, T: Monoid<Op>>(a: T::Model, n: nat) -> T::Model
    decreases n,
{
    if n == 0 {
        T::spec_identity()
    } else {
        T::spec_combine(power::<Op, T>(a, (n - 1) as nat), a)
    }
}

/// Powers of a contained element are contained.
pub proof fn lemma_power_contained<Op: Operator, T: Monoid<Op>>(a: T::Model, n: nat)
    requires
        T::contains(a),
    ensures
        T::contains(power::<Op, T>(a, n)),
    decreases n,
{
    T::lemma_identity(a);
    if n > 0 {
        lemma_power_contained::<Op, T>(a, (n - 1) as nat);
        T::lemma_closed(power::<Op, T>(a, (n - 1) as nat), a);
    }
}

/// Exponents add: `aᵐ·aᵏ == aᵐ⁺ᵏ`.
pub proof fn lemma_power_add<Op: Operator, T: Monoid<Op>>(a: T::Model, m: nat, k: nat)
    requires
        T::contains(a),
    ensures
        T::spec_combine(power::<Op, T>(a, m), power::<Op, T>(a, k)) == power::<Op, T>(a, m + k),
    decreases k,
{
    lemma_power_contained::<Op, T>(a, m);
    if k == 0 {
        T::lemma_identity(power::<Op, T>(a, m));
    } else {
        lemma_power_add::<Op, T>(a, m, (k - 1) as nat);
        lemma_power_contained::<Op, T>(a, (k - 1) as nat);
        T::lemma_associative(power::<Op, T>(a, m), power::<Op, T>(a, (k - 1) as nat), a);
        assert(m + k - 1 == m + (k - 1));
    }
}

/// Squaring doubles the exponent: `(a·a)ᵏ == a²ᵏ`.
pub proof fn lemma_power_of_square<Op: Operator, T: Monoid<Op>>(a: T::Model, k: nat)
    requires
        T::contains(a),
    ensures
        power::<Op, T>(T::spec_combine(a, a), k) == power::<Op, T>(a, 2 * k),
    decreases k,
{
    if k > 0 {
        lemma_power_of_square::<Op, T>(a, (k - 1) as nat);
        T::lemma_identity(a);
        lemma_power_add::<Op, T>(a, 2 * (k - 1) as nat, 2);
        assert(power::<Op, T>(a, 0) == T::spec_identity());
        assert(power::<Op, T>(a, 1) == T::spec_combine(T::spec_identity(), a));
        assert(power::<Op, T>(a, 2) == T::spec_combine(a, a));
        assert(2 * (k - 1) as nat + 2 == 2 * k);
    }
}

/// Integer powers in a [`Monoid`] via square-and-multiply.
pub trait Power<Op: Operator>: Monoid<Op> + Clone {
    /// `selfⁿ` (`n == 0` yields the identity).
    fn pow(&self, n: u32) -> (r: Self)
        ensures
            r.model() == power::<Op, Self>(self.model(), n as nat),
    {
        let mut acc = Self::identity();
        let one = Self::identity();
        let mut base = <Self as Magma<Op>>::combine(self, &one);
        let mut e: u32 = n;
        proof {
            Self::lemma_model_contained(self);
            Self::lemma_identity(self.model());
            lemma_power_contained::<Op, Self>(self.model(), n as nat);
            Self::lemma_identity(power::<Op, Self>(self.model(), n as nat));
        }
        while e > 0
            invariant
                Self::contains(acc.model()),
                Self::contains(base.model()),
                Self::spec_combine(acc.model(), power::<Op, Self>(base.model(), e as nat))
                    == power::<Op, Self>(self.model(), n as nat),
            decreases e,
        {
            let ghost a0 = acc.model();
            let ghost b0 = base.model();
            let ghost e0: u32 = e;
            proof {
                assert(e & 1 == e % 2) by (bit_vector);
                assert(e >> 1 == e / 2) by (bit_vector);
                lemma_power_of_square::<Op, Self>(b0, (e0 / 2) as nat);
                lemma_power_contained::<Op, Self>(b0, (2 * (e0 / 2)) as nat);
                Self::lemma_closed(b0, b0);
            }
            if e & 1 == 1 {
                acc = <Self as Magma<Op>>::combine(&acc, &base);
                proof {
                    Self::lemma_closed(a0, b0);
                    Self::lemma_associative(a0, b0, power::<Op, Self>(b0, (2 * (e0 / 2)) as nat));
                    lemma_power_add::<Op, Self>(b0, 1, (2 * (e0 / 2)) as nat);
                    Self::lemma_identity(b0);
                    assert(power::<Op, Self>(b0, 0) == Self::spec_identity());
                    assert(power::<Op, Self>(b0, 1) == b0);
                    assert(1 + 2 * (e0 / 2) == e0);
                }
            } else {
                proof {
                    assert(2 * (e0 / 2) == e0);
                }
            }
            base = <Self as Magma<Op>>::combine(&base, &base);
            e = e >> 1;
        }
        proof {
            Self::lemma_identity(acc.model());
        }
        acc
    }
}

} // verus!
