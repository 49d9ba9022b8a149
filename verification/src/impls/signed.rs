//! The primitive integers: wrapping arithmetic makes each one the residue
//! ring `Z/2^N Z` — an abelian group under `+`, a commutative ring with `*`,
//! a module over itself, a euclidean ring (with the nonnegative euclidean
//! remainder), a commutative Lie algebra, and a distributive bounded lattice
//! under `min`/`max`.
use crate::op::{Additive, Multiplicative};
use crate::tower::lemma_group_latin_square;
use crate::tower::{
    AbelianGroup, BoundedLattice, Carrier, CommutativeRing, DistributiveLattice, EuclideanDomain,
    FreeModule, Group, JoinSemilattice, Lattice, LieAlgebra, Loop, Magma, MeetSemilattice, Module,
    Monoid, Power, Quasigroup, Ring, Semigroup, Semiring,
};
use crate::wrapping::{
    lemma_mod_bound_any, lemma_multiple_remainder,
    lemma_wrap_absorbed, lemma_wrap_from_remainder, lemma_wrap_near, lemma_wrap_ring, lemma_wrap_small, wrap,
};
use vstd::arithmetic::div_mod::*;
use vstd::arithmetic::mul::*;
use vstd::prelude::*;
use vstd::wrapping::*;

verus! {

/// The euclidean remainder is bounded by the divisor's magnitude.
proof fn lemma_mod_bound_abs(a: int, b: int)
    requires
        b != 0,
    ensures
        0 <= a % b < if b > 0 {
            b
        } else {
            -b
        },
{
    assert(0 <= a % b < if b > 0 {
        b
    } else {
        -b
    }) by (nonlinear_arith)
        requires
            b != 0,
    ;
}

/// Outside `MIN / -1`, the euclidean quotient of two window values stays
/// in the window.
proof fn lemma_div_bound_abs(a: int, b: int, lo: int)
    requires
        b != 0,
        lo < 0,
        lo <= a < -lo,
        lo <= b < -lo,
        !(b == -1 && a == lo),
    ensures
        lo <= a / b < -lo,
{
    assert(a == b * (a / b) + a % b) by (nonlinear_arith)
        requires
            b != 0,
    ;
    lemma_mod_bound_abs(a, b);
    let q = a / b;
    let r = a % b;
    assert(a == b * q + r);
    if b > 0 {
        assert(lo <= q < -lo) by (nonlinear_arith)
            requires
                a == b * q + r,
                0 <= r < b,
                lo <= a < -lo,
                b >= 1,
                lo < 0,
        ;
    } else {
        assert(lo <= q < -lo) by (nonlinear_arith)
            requires
                a == b * q + r,
                0 <= r < -b,
                lo <= a < -lo,
                b <= -1,
                lo <= b,
                lo < 0,
                !(b == -1 && a == lo),
        ;
    }
}

// ---- i8 ----

/// Wrapping `i8` arithmetic is arithmetic modulo `2^N` on the window of
/// `i8` values.
proof fn lemma_i8_ops(x: i8, y: i8)
    ensures
        i8_specs::wrapping_add(x, y) as int == wrap(x + y, i8::MIN as int, 0x100),
        i8_specs::wrapping_sub(x, y) as int == wrap(x - y, i8::MIN as int, 0x100),
        i8_specs::wrapping_mul(x, y) as int == wrap(x * y, i8::MIN as int, 0x100),
        i8::MIN as int == i8::MIN as int,
        i8::MAX as int == i8::MIN as int + 0x100 - 1,
{
    lemma_wrap_near(x + y, i8::MIN as int, 0x100);
    lemma_wrap_near(x - y, i8::MIN as int, 0x100);
    lemma_wrap_from_remainder(x * y, i8::MIN as int, 0x100);
}

/// The ring laws of wrapping `i8` arithmetic.
proof fn lemma_i8_ring(a: i8, b: i8, c: i8)
    ensures
        i8_specs::wrapping_add(i8_specs::wrapping_add(a, b), c) == i8_specs::wrapping_add(a, i8_specs::wrapping_add(b, c)),
        i8_specs::wrapping_add(a, b) == i8_specs::wrapping_add(b, a),
        i8_specs::wrapping_add(a, 0) == a,
        i8_specs::wrapping_add(0, a) == a,
        i8_specs::wrapping_add(a, i8_specs::wrapping_sub(0, a)) == 0,
        i8_specs::wrapping_add(i8_specs::wrapping_sub(0, a), a) == 0,
        i8_specs::wrapping_mul(i8_specs::wrapping_mul(a, b), c) == i8_specs::wrapping_mul(a, i8_specs::wrapping_mul(b, c)),
        i8_specs::wrapping_mul(a, b) == i8_specs::wrapping_mul(b, a),
        i8_specs::wrapping_mul(a, 1) == a,
        i8_specs::wrapping_mul(1, a) == a,
        i8_specs::wrapping_mul(a, i8_specs::wrapping_add(b, c)) == i8_specs::wrapping_add(i8_specs::wrapping_mul(a, b), i8_specs::wrapping_mul(a, c)),
        i8_specs::wrapping_mul(i8_specs::wrapping_add(b, c), a) == i8_specs::wrapping_add(i8_specs::wrapping_mul(b, a), i8_specs::wrapping_mul(c, a)),
        i8_specs::wrapping_sub(i8_specs::wrapping_mul(a, b), i8_specs::wrapping_mul(b, a)) == 0,
{
    let ab = i8_specs::wrapping_add(a, b);
    let bc = i8_specs::wrapping_add(b, c);
    let na = i8_specs::wrapping_sub(0, a);
    let mab = i8_specs::wrapping_mul(a, b);
    let mbc = i8_specs::wrapping_mul(b, c);
    let mac = i8_specs::wrapping_mul(a, c);
    let mba = i8_specs::wrapping_mul(b, a);
    let mca = i8_specs::wrapping_mul(c, a);
    lemma_i8_ops(a, b);
    lemma_i8_ops(b, c);
    lemma_i8_ops(ab, c);
    lemma_i8_ops(a, bc);
    lemma_i8_ops(b, a);
    lemma_i8_ops(a, 0);
    lemma_i8_ops(0, a);
    lemma_i8_ops(a, na);
    lemma_i8_ops(na, a);
    lemma_i8_ops(a, c);
    lemma_i8_ops(c, a);
    lemma_i8_ops(mab, c);
    lemma_i8_ops(a, mbc);
    lemma_i8_ops(a, 1);
    lemma_i8_ops(1, a);
    lemma_i8_ops(bc, a);
    lemma_i8_ops(mab, mac);
    lemma_i8_ops(mba, mca);
    lemma_i8_ops(mab, mba);
    lemma_wrap_ring(a as int, b as int, c as int, i8::MIN as int, 0x100);
    lemma_wrap_ring(b as int, a as int, c as int, i8::MIN as int, 0x100);
    lemma_wrap_small(0, i8::MIN as int, 0x100);
    assert(a * 1 == a);
    assert(0 + a == a);
}

/// The euclidean quotient and remainder of `i8` values fit the type,
/// except for `MIN / -1`.
proof fn lemma_i8_division(a: i8, b: i8)
    requires
        b != 0,
        !(b == -1 && a == i8::MIN),
    ensures
        i8::MIN <= a / b <= i8::MAX,
        0 <= a % b < if b > 0 {
            b as int
        } else {
            -(b as int)
        },
        (a / b) * b + a % b == a,
{
    assert((a as int) == (b as int) * ((a as int) / (b as int)) + (a as int) % (b as int)) by (nonlinear_arith)
        requires
            b != 0,
    ;
    lemma_mod_bound_abs(a as int, b as int);
    lemma_div_bound_abs(a as int, b as int, i8::MIN as int);
    lemma_mul_is_commutative(b as int, (a as int) / (b as int));
}

impl Carrier for i8 {
    type Model = i8;

    open spec fn model(self) -> i8 {
        self
    }

    open spec fn contains(m: i8) -> bool {
        true
    }

    proof fn lemma_model_contained(x: &i8) {
    }
}

impl Magma<Additive> for i8 {
    open spec fn spec_combine(a: i8, b: i8) -> i8 {
        i8_specs::wrapping_add(a, b)
    }

    proof fn lemma_closed(a: i8, b: i8) {
    }

    fn combine(&self, rhs: &Self) -> (r: Self) {
        self.wrapping_add(*rhs)
    }
}

impl Magma<Multiplicative> for i8 {
    open spec fn spec_combine(a: i8, b: i8) -> i8 {
        i8_specs::wrapping_mul(a, b)
    }

    proof fn lemma_closed(a: i8, b: i8) {
    }

    fn combine(&self, rhs: &Self) -> (r: Self) {
        self.wrapping_mul(*rhs)
    }
}

impl Semigroup<Additive> for i8 {
    proof fn lemma_associative(a: i8, b: i8, c: i8) {
        lemma_i8_ring(a, b, c);
    }
}

impl Semigroup<Multiplicative> for i8 {
    proof fn lemma_associative(a: i8, b: i8, c: i8) {
        lemma_i8_ring(a, b, c);
    }
}

impl Monoid<Additive> for i8 {
    open spec fn spec_identity() -> i8 {
        0
    }

    proof fn lemma_identity(a: i8) {
        lemma_i8_ring(a, a, a);
    }

    fn identity() -> (r: Self) {
        0
    }
}

impl Monoid<Multiplicative> for i8 {
    open spec fn spec_identity() -> i8 {
        1
    }

    proof fn lemma_identity(a: i8) {
        lemma_i8_ring(a, a, a);
    }

    fn identity() -> (r: Self) {
        1
    }
}

impl Quasigroup<Additive> for i8 {
    proof fn lemma_latin_square(a: i8, b: i8) {
        lemma_i8_ring(a, a, a);
        lemma_group_latin_square::<Additive, i8>(a, b, i8_specs::wrapping_sub(0, a));
    }
}

impl Loop<Additive> for i8 {

}

impl Group<Additive> for i8 {
    open spec fn spec_inverse(a: i8) -> i8 {
        i8_specs::wrapping_sub(0, a)
    }

    proof fn lemma_inverse(a: i8) {
        lemma_i8_ring(a, a, a);
    }

    fn inverse(&self) -> (r: Self) {
        0i8.wrapping_sub(*self)
    }
}

impl AbelianGroup<Additive> for i8 {
    proof fn lemma_commutative(a: i8, b: i8) {
        lemma_i8_ring(a, b, b);
    }
}

impl Semiring<Additive, Multiplicative> for i8 {
    proof fn lemma_distributive(a: i8, b: i8, c: i8) {
        lemma_i8_ring(a, b, c);
    }
}

impl Ring<Additive, Multiplicative> for i8 {

}

impl CommutativeRing<Additive, Multiplicative> for i8 {
    proof fn lemma_multiplication_commutes(a: i8, b: i8) {
        lemma_i8_ring(a, b, b);
    }
}

impl Module<Additive, Multiplicative> for i8 {
    type Scalar = i8;

    open spec fn spec_scale(s: i8, v: i8) -> i8 {
        i8_specs::wrapping_mul(s, v)
    }

    proof fn lemma_module(s: i8, t: i8, u: i8, v: i8) {
        lemma_i8_ring(s, u, v);
        lemma_i8_ring(v, s, t);
        lemma_i8_ring(s, t, v);
    }

    fn scale(s: &i8, v: i8) -> (r: i8) {
        s.wrapping_mul(v)
    }
}

impl FreeModule<Additive, Multiplicative> for i8 {
    open spec fn spec_rank() -> usize {
        1
    }

    open spec fn spec_basis_element(i: usize) -> i8 {
        1
    }

    open spec fn spec_coordinate(v: i8, i: usize) -> i8 {
        v
    }

    proof fn lemma_basis(i: usize, j: usize) {
    }

    fn rank() -> (r: usize) {
        1
    }

    fn basis_element(i: usize) -> (r: i8) {
        1
    }

    fn coordinate(&self, i: usize) -> (r: i8) {
        *self
    }
}

impl Power<Additive> for i8 {

}

impl Power<Multiplicative> for i8 {

}

impl LieAlgebra<Additive> for i8 {
    open spec fn spec_bracket(a: i8, b: i8) -> i8 {
        i8_specs::wrapping_sub(i8_specs::wrapping_mul(a, b), i8_specs::wrapping_mul(b, a))
    }

    proof fn lemma_lie(a: i8, b: i8, c: i8) {
        lemma_i8_ring(a, a, a);
        lemma_i8_ring(b, b, b);
        lemma_i8_ring(c, c, c);
        lemma_i8_ring(a, b, b);
        lemma_i8_ring(b, c, c);
        lemma_i8_ring(c, a, a);
        lemma_i8_ring(a, 0, 0);
        lemma_i8_ring(b, 0, 0);
        lemma_i8_ring(c, 0, 0);
        lemma_i8_ring(0, 0, 0);
    }

    fn bracket(&self, other: &Self) -> (r: Self) {
        self.wrapping_mul(*other).wrapping_sub(other.wrapping_mul(*self))
    }
}

impl EuclideanDomain<Additive, Multiplicative> for i8 {
    open spec fn is_euclidean() -> bool {
        true
    }

    open spec fn spec_quot_rem(a: i8, b: i8) -> (i8, i8) {
        if b == -1 && a == i8::MIN {
            (i8::MIN, 0)
        } else {
            ((a / b) as i8, (a % b) as i8)
        }
    }

    open spec fn quot_rem_defined(b: i8) -> bool {
        b != 0
    }

    proof fn lemma_nonzero_divisor_defined(b: i8) {
    }

    proof fn lemma_remainder_of_self_and_zero(b: i8) {
        lemma_mod_bound_any(b as int, b as int);
        lemma_multiple_remainder(1, b as int);
        lemma_multiple_remainder(0, b as int);
    }

    proof fn lemma_remainder_step(a: i8, b: i8, g: i8) {
        lemma_mod_bound_any(a as int, b as int);
        lemma_mod_bound_any(b as int, g as int);
        lemma_mod_bound_any((a as int) % (b as int), g as int);
        lemma_mod_bound_any(a as int, g as int);
        crate::wrapping::lemma_remainder_step(a as int, b as int, g as int);
    }

    open spec fn spec_euclidean_norm(a: i8) -> u128 {
        if a >= 0 {
            a as u128
        } else {
            (-(a as int)) as u128
        }
    }

    proof fn lemma_norm_zero(a: i8) {
        assert(<Self as Monoid<Additive>>::spec_identity() == 0);
        assert(Self::spec_euclidean_norm(a) == <Self as EuclideanDomain<Additive, Multiplicative>>::spec_euclidean_norm(a));
    }

    proof fn lemma_remainder_smaller(a: i8, b: i8) {
        assert(<Self as Monoid<Additive>>::spec_identity() == 0);
        let (q, r) = Self::spec_quot_rem(a, b);
        assert(Self::spec_euclidean_norm(r) == <Self as EuclideanDomain<Additive, Multiplicative>>::spec_euclidean_norm(r));
        assert(Self::spec_euclidean_norm(b) == <Self as EuclideanDomain<Additive, Multiplicative>>::spec_euclidean_norm(b));
        if !(b == -1 && a == i8::MIN) { lemma_i8_division(a, b); }
    }

    proof fn lemma_division(a: i8, b: i8) {
        let (q, r) = Self::spec_quot_rem(a, b);
        if !(b == -1 && a == i8::MIN) {
            lemma_i8_division(a, b);
        } else {
            lemma_wrap_near(-(i8::MIN as int), i8::MIN as int, 0x100);
        }
        lemma_i8_ops(q, b);
        lemma_i8_ops(i8_specs::wrapping_mul(q, b), r);
        lemma_wrap_absorbed(q * b, r as int, i8::MIN as int, 0x100);
        lemma_wrap_small(a as int, i8::MIN as int, 0x100);
        assert(<Self as Magma<Additive>>::spec_combine(i8_specs::wrapping_mul(q, b), r) == i8_specs::wrapping_add(i8_specs::wrapping_mul(q, b), r));
        assert(<Self as Magma<Multiplicative>>::spec_combine(q, b) == i8_specs::wrapping_mul(q, b));
    }

    fn quot_rem(&self, divisor: &Self) -> (r: (Self, Self)) {
        proof {
            assert(self.model() == *self);
            assert(divisor.model() == *divisor);
            assert(<Self as Monoid<Additive>>::spec_identity() == 0);
        }
        if *divisor == -1 && *self == i8::MIN {
            (i8::MIN, 0)
        } else {
            proof {
                lemma_i8_division(*self, *divisor);
            }
            let q: i8 = match self.checked_div_euclid(*divisor) {
                Some(q) => q,
                None => 0,
            };
            let r: i8 = match self.checked_rem_euclid(*divisor) {
                Some(r) => r,
                None => 0,
            };
            (q, r)
        }
    }

    fn euclidean_norm(&self) -> (r: u128) {
        proof {
            assert(self.model() == *self);
            assert(Self::spec_euclidean_norm(*self) == <Self as EuclideanDomain<Additive, Multiplicative>>::spec_euclidean_norm(*self));
        }
        if *self >= 0 {
            *self as u128
        } else {
            ((-((*self as i128) + 1)) as u128) + 1
        }
    }
}

impl MeetSemilattice for i8 {
    open spec fn meet_follows_order() -> bool {
        true
    }

    proof fn lemma_meet_follows_order(a: Self, b: Self) {
    }

    open spec fn spec_meet(a: i8, b: i8) -> i8 {
        if a <= b {
            a
        } else {
            b
        }
    }

    proof fn lemma_meet_semilattice(a: i8, b: i8, c: i8) {
    }

    fn meet(&self, other: &Self) -> (r: Self) {
        if *self <= *other {
            *self
        } else {
            *other
        }
    }
}

impl JoinSemilattice for i8 {
    open spec fn join_follows_order() -> bool {
        true
    }

    proof fn lemma_join_follows_order(a: Self, b: Self) {
    }

    open spec fn spec_join(a: i8, b: i8) -> i8 {
        if a >= b {
            a
        } else {
            b
        }
    }

    proof fn lemma_join_semilattice(a: i8, b: i8, c: i8) {
    }

    fn join(&self, other: &Self) -> (r: Self) {
        if *self >= *other {
            *self
        } else {
            *other
        }
    }
}

impl Lattice for i8 {
    proof fn lemma_absorption(a: i8, b: i8) {
    }
}

impl DistributiveLattice for i8 {
    proof fn lemma_distributive(a: i8, b: i8, c: i8) {
    }
}

impl BoundedLattice for i8 {
    open spec fn spec_top() -> i8 {
        i8::MAX
    }

    open spec fn spec_bottom() -> i8 {
        i8::MIN
    }

    proof fn lemma_bounds(a: i8) {
    }

    fn top() -> (r: Self) {
        i8::MAX
    }

    fn bottom() -> (r: Self) {
        i8::MIN
    }
}

// ---- i16 ----

/// Wrapping `i16` arithmetic is arithmetic modulo `2^N` on the window of
/// `i16` values.
proof fn lemma_i16_ops(x: i16, y: i16)
    ensures
        i16_specs::wrapping_add(x, y) as int == wrap(x + y, i16::MIN as int, 0x1_0000),
        i16_specs::wrapping_sub(x, y) as int == wrap(x - y, i16::MIN as int, 0x1_0000),
        i16_specs::wrapping_mul(x, y) as int == wrap(x * y, i16::MIN as int, 0x1_0000),
        i16::MIN as int == i16::MIN as int,
        i16::MAX as int == i16::MIN as int + 0x1_0000 - 1,
{
    lemma_wrap_near(x + y, i16::MIN as int, 0x1_0000);
    lemma_wrap_near(x - y, i16::MIN as int, 0x1_0000);
    lemma_wrap_from_remainder(x * y, i16::MIN as int, 0x1_0000);
}

/// The ring laws of wrapping `i16` arithmetic.
proof fn lemma_i16_ring(a: i16, b: i16, c: i16)
    ensures
        i16_specs::wrapping_add(i16_specs::wrapping_add(a, b), c) == i16_specs::wrapping_add(a, i16_specs::wrapping_add(b, c)),
        i16_specs::wrapping_add(a, b) == i16_specs::wrapping_add(b, a),
        i16_specs::wrapping_add(a, 0) == a,
        i16_specs::wrapping_add(0, a) == a,
        i16_specs::wrapping_add(a, i16_specs::wrapping_sub(0, a)) == 0,
        i16_specs::wrapping_add(i16_specs::wrapping_sub(0, a), a) == 0,
        i16_specs::wrapping_mul(i16_specs::wrapping_mul(a, b), c) == i16_specs::wrapping_mul(a, i16_specs::wrapping_mul(b, c)),
        i16_specs::wrapping_mul(a, b) == i16_specs::wrapping_mul(b, a),
        i16_specs::wrapping_mul(a, 1) == a,
        i16_specs::wrapping_mul(1, a) == a,
        i16_specs::wrapping_mul(a, i16_specs::wrapping_add(b, c)) == i16_specs::wrapping_add(i16_specs::wrapping_mul(a, b), i16_specs::wrapping_mul(a, c)),
        i16_specs::wrapping_mul(i16_specs::wrapping_add(b, c), a) == i16_specs::wrapping_add(i16_specs::wrapping_mul(b, a), i16_specs::wrapping_mul(c, a)),
        i16_specs::wrapping_sub(i16_specs::wrapping_mul(a, b), i16_specs::wrapping_mul(b, a)) == 0,
{
    let ab = i16_specs::wrapping_add(a, b);
    let bc = i16_specs::wrapping_add(b, c);
    let na = i16_specs::wrapping_sub(0, a);
    let mab = i16_specs::wrapping_mul(a, b);
    let mbc = i16_specs::wrapping_mul(b, c);
    let mac = i16_specs::wrapping_mul(a, c);
    let mba = i16_specs::wrapping_mul(b, a);
    let mca = i16_specs::wrapping_mul(c, a);
    lemma_i16_ops(a, b);
    lemma_i16_ops(b, c);
    lemma_i16_ops(ab, c);
    lemma_i16_ops(a, bc);
    lemma_i16_ops(b, a);
    lemma_i16_ops(a, 0);
    lemma_i16_ops(0, a);
    lemma_i16_ops(a, na);
    lemma_i16_ops(na, a);
    lemma_i16_ops(a, c);
    lemma_i16_ops(c, a);
    lemma_i16_ops(mab, c);
    lemma_i16_ops(a, mbc);
    lemma_i16_ops(a, 1);
    lemma_i16_ops(1, a);
    lemma_i16_ops(bc, a);
    lemma_i16_ops(mab, mac);
    lemma_i16_ops(mba, mca);
    lemma_i16_ops(mab, mba);
    lemma_wrap_ring(a as int, b as int, c as int, i16::MIN as int, 0x1_0000);
    lemma_wrap_ring(b as int, a as int, c as int, i16::MIN as int, 0x1_0000);
    lemma_wrap_small(0, i16::MIN as int, 0x1_0000);
    assert(a * 1 == a);
    assert(0 + a == a);
}

/// The euclidean quotient and remainder of `i16` values fit the type,
/// except for `MIN / -1`.
proof fn lemma_i16_division(a: i16, b: i16)
    requires
        b != 0,
        !(b == -1 && a == i16::MIN),
    ensures
        i16::MIN <= a / b <= i16::MAX,
        0 <= a % b < if b > 0 {
            b as int
        } else {
            -(b as int)
        },
        (a / b) * b + a % b == a,
{
    assert((a as int) == (b as int) * ((a as int) / (b as int)) + (a as int) % (b as int)) by (nonlinear_arith)
        requires
            b != 0,
    ;
    lemma_mod_bound_abs(a as int, b as int);
    lemma_div_bound_abs(a as int, b as int, i16::MIN as int);
    lemma_mul_is_commutative(b as int, (a as int) / (b as int));
}

impl Carrier for i16 {
    type Model = i16;

    open spec fn model(self) -> i16 {
        self
    }

    open spec fn contains(m: i16) -> bool {
        true
    }

    proof fn lemma_model_contained(x: &i16) {
    }
}

impl Magma<Additive> for i16 {
    open spec fn spec_combine(a: i16, b: i16) -> i16 {
        i16_specs::wrapping_add(a, b)
    }

    proof fn lemma_closed(a: i16, b: i16) {
    }

    fn combine(&self, rhs: &Self) -> (r: Self) {
        self.wrapping_add(*rhs)
    }
}

impl Magma<Multiplicative> for i16 {
    open spec fn spec_combine(a: i16, b: i16) -> i16 {
        i16_specs::wrapping_mul(a, b)
    }

    proof fn lemma_closed(a: i16, b: i16) {
    }

    fn combine(&self, rhs: &Self) -> (r: Self) {
        self.wrapping_mul(*rhs)
    }
}

impl Semigroup<Additive> for i16 {
    proof fn lemma_associative(a: i16, b: i16, c: i16) {
        lemma_i16_ring(a, b, c);
    }
}

impl Semigroup<Multiplicative> for i16 {
    proof fn lemma_associative(a: i16, b: i16, c: i16) {
        lemma_i16_ring(a, b, c);
    }
}

impl Monoid<Additive> for i16 {
    open spec fn spec_identity() -> i16 {
        0
    }

    proof fn lemma_identity(a: i16) {
        lemma_i16_ring(a, a, a);
    }

    fn identity() -> (r: Self) {
        0
    }
}

impl Monoid<Multiplicative> for i16 {
    open spec fn spec_identity() -> i16 {
        1
    }

    proof fn lemma_identity(a: i16) {
        lemma_i16_ring(a, a, a);
    }

    fn identity() -> (r: Self) {
        1
    }
}

impl Quasigroup<Additive> for i16 {
    proof fn lemma_latin_square(a: i16, b: i16) {
        lemma_i16_ring(a, a, a);
        lemma_group_latin_square::<Additive, i16>(a, b, i16_specs::wrapping_sub(0, a));
    }
}

impl Loop<Additive> for i16 {

}

impl Group<Additive> for i16 {
    open spec fn spec_inverse(a: i16) -> i16 {
        i16_specs::wrapping_sub(0, a)
    }

    proof fn lemma_inverse(a: i16) {
        lemma_i16_ring(a, a, a);
    }

    fn inverse(&self) -> (r: Self) {
        0i16.wrapping_sub(*self)
    }
}

impl AbelianGroup<Additive> for i16 {
    proof fn lemma_commutative(a: i16, b: i16) {
        lemma_i16_ring(a, b, b);
    }
}

impl Semiring<Additive, Multiplicative> for i16 {
    proof fn lemma_distributive(a: i16, b: i16, c: i16) {
        lemma_i16_ring(a, b, c);
    }
}

impl Ring<Additive, Multiplicative> for i16 {

}

impl CommutativeRing<Additive, Multiplicative> for i16 {
    proof fn lemma_multiplication_commutes(a: i16, b: i16) {
        lemma_i16_ring(a, b, b);
    }
}

impl Module<Additive, Multiplicative> for i16 {
    type Scalar = i16;

    open spec fn spec_scale(s: i16, v: i16) -> i16 {
        i16_specs::wrapping_mul(s, v)
    }

    proof fn lemma_module(s: i16, t: i16, u: i16, v: i16) {
        lemma_i16_ring(s, u, v);
        lemma_i16_ring(v, s, t);
        lemma_i16_ring(s, t, v);
    }

    fn scale(s: &i16, v: i16) -> (r: i16) {
        s.wrapping_mul(v)
    }
}

impl FreeModule<Additive, Multiplicative> for i16 {
    open spec fn spec_rank() -> usize {
        1
    }

    open spec fn spec_basis_element(i: usize) -> i16 {
        1
    }

    open spec fn spec_coordinate(v: i16, i: usize) -> i16 {
        v
    }

    proof fn lemma_basis(i: usize, j: usize) {
    }

    fn rank() -> (r: usize) {
        1
    }

    fn basis_element(i: usize) -> (r: i16) {
        1
    }

    fn coordinate(&self, i: usize) -> (r: i16) {
        *self
    }
}

impl Power<Additive> for i16 {

}

impl Power<Multiplicative> for i16 {

}

impl LieAlgebra<Additive> for i16 {
    open spec fn spec_bracket(a: i16, b: i16) -> i16 {
        i16_specs::wrapping_sub(i16_specs::wrapping_mul(a, b), i16_specs::wrapping_mul(b, a))
    }

    proof fn lemma_lie(a: i16, b: i16, c: i16) {
        lemma_i16_ring(a, a, a);
        lemma_i16_ring(b, b, b);
        lemma_i16_ring(c, c, c);
        lemma_i16_ring(a, b, b);
        lemma_i16_ring(b, c, c);
        lemma_i16_ring(c, a, a);
        lemma_i16_ring(a, 0, 0);
        lemma_i16_ring(b, 0, 0);
        lemma_i16_ring(c, 0, 0);
        lemma_i16_ring(0, 0, 0);
    }

    fn bracket(&self, other: &Self) -> (r: Self) {
        self.wrapping_mul(*other).wrapping_sub(other.wrapping_mul(*self))
    }
}

impl EuclideanDomain<Additive, Multiplicative> for i16 {
    open spec fn is_euclidean() -> bool {
        true
    }

    open spec fn spec_quot_rem(a: i16, b: i16) -> (i16, i16) {
        if b == -1 && a == i16::MIN {
            (i16::MIN, 0)
        } else {
            ((a / b) as i16, (a % b) as i16)
        }
    }

    open spec fn quot_rem_defined(b: i16) -> bool {
        b != 0
    }

    proof fn lemma_nonzero_divisor_defined(b: i16) {
    }

    proof fn lemma_remainder_of_self_and_zero(b: i16) {
        lemma_mod_bound_any(b as int, b as int);
        lemma_multiple_remainder(1, b as int);
        lemma_multiple_remainder(0, b as int);
    }

    proof fn lemma_remainder_step(a: i16, b: i16, g: i16) {
        lemma_mod_bound_any(a as int, b as int);
        lemma_mod_bound_any(b as int, g as int);
        lemma_mod_bound_any((a as int) % (b as int), g as int);
        lemma_mod_bound_any(a as int, g as int);
        crate::wrapping::lemma_remainder_step(a as int, b as int, g as int);
    }

    open spec fn spec_euclidean_norm(a: i16) -> u128 {
        if a >= 0 {
            a as u128
        } else {
            (-(a as int)) as u128
        }
    }

    proof fn lemma_norm_zero(a: i16) {
        assert(<Self as Monoid<Additive>>::spec_identity() == 0);
        assert(Self::spec_euclidean_norm(a) == <Self as EuclideanDomain<Additive, Multiplicative>>::spec_euclidean_norm(a));
    }

    proof fn lemma_remainder_smaller(a: i16, b: i16) {
        assert(<Self as Monoid<Additive>>::spec_identity() == 0);
        let (q, r) = Self::spec_quot_rem(a, b);
        assert(Self::spec_euclidean_norm(r) == <Self as EuclideanDomain<Additive, Multiplicative>>::spec_euclidean_norm(r));
        assert(Self::spec_euclidean_norm(b) == <Self as EuclideanDomain<Additive, Multiplicative>>::spec_euclidean_norm(b));
        if !(b == -1 && a == i16::MIN) { lemma_i16_division(a, b); }
    }

    proof fn lemma_division(a: i16, b: i16) {
        let (q, r) = Self::spec_quot_rem(a, b);
        if !(b == -1 && a == i16::MIN) {
            lemma_i16_division(a, b);
        } else {
            lemma_wrap_near(-(i16::MIN as int), i16::MIN as int, 0x1_0000);
        }
        lemma_i16_ops(q, b);
        lemma_i16_ops(i16_specs::wrapping_mul(q, b), r);
        lemma_wrap_absorbed(q * b, r as int, i16::MIN as int, 0x1_0000);
        lemma_wrap_small(a as int, i16::MIN as int, 0x1_0000);
        assert(<Self as Magma<Additive>>::spec_combine(i16_specs::wrapping_mul(q, b), r) == i16_specs::wrapping_add(i16_specs::wrapping_mul(q, b), r));
        assert(<Self as Magma<Multiplicative>>::spec_combine(q, b) == i16_specs::wrapping_mul(q, b));
    }

    fn quot_rem(&self, divisor: &Self) -> (r: (Self, Self)) {
        proof {
            assert(self.model() == *self);
            assert(divisor.model() == *divisor);
            assert(<Self as Monoid<Additive>>::spec_identity() == 0);
        }
        if *divisor == -1 && *self == i16::MIN {
            (i16::MIN, 0)
        } else {
            proof {
                lemma_i16_division(*self, *divisor);
            }
            let q: i16 = match self.checked_div_euclid(*divisor) {
                Some(q) => q,
                None => 0,
            };
            let r: i16 = match self.checked_rem_euclid(*divisor) {
                Some(r) => r,
                None => 0,
            };
            (q, r)
        }
    }

    fn euclidean_norm(&self) -> (r: u128) {
        proof {
            assert(self.model() == *self);
            assert(Self::spec_euclidean_norm(*self) == <Self as EuclideanDomain<Additive, Multiplicative>>::spec_euclidean_norm(*self));
        }
        if *self >= 0 {
            *self as u128
        } else {
            ((-((*self as i128) + 1)) as u128) + 1
        }
    }
}

impl MeetSemilattice for i16 {
    open spec fn meet_follows_order() -> bool {
        true
    }

    proof fn lemma_meet_follows_order(a: Self, b: Self) {
    }

    open spec fn spec_meet(a: i16, b: i16) -> i16 {
        if a <= b {
            a
        } else {
            b
        }
    }

    proof fn lemma_meet_semilattice(a: i16, b: i16, c: i16) {
    }

    fn meet(&self, other: &Self) -> (r: Self) {
        if *self <= *other {
            *self
        } else {
            *other
        }
    }
}

impl JoinSemilattice for i16 {
    open spec fn join_follows_order() -> bool {
        true
    }

    proof fn lemma_join_follows_order(a: Self, b: Self) {
    }

    open spec fn spec_join(a: i16, b: i16) -> i16 {
        if a >= b {
            a
        } else {
            b
        }
    }

    proof fn lemma_join_semilattice(a: i16, b: i16, c: i16) {
    }

    fn join(&self, other: &Self) -> (r: Self) {
        if *self >= *other {
            *self
        } else {
            *other
        }
    }
}

impl Lattice for i16 {
    proof fn lemma_absorption(a: i16, b: i16) {
    }
}

impl DistributiveLattice for i16 {
    proof fn lemma_distributive(a: i16, b: i16, c: i16) {
    }
}

impl BoundedLattice for i16 {
    open spec fn spec_top() -> i16 {
        i16::MAX
    }

    open spec fn spec_bottom() -> i16 {
        i16::MIN
    }

    proof fn lemma_bounds(a: i16) {
    }

    fn top() -> (r: Self) {
        i16::MAX
    }

    fn bottom() -> (r: Self) {
        i16::MIN
    }
}

// ---- i32 ----

/// Wrapping `i32` arithmetic is arithmetic modulo `2^N` on the window of
/// `i32` values.
proof fn lemma_i32_ops(x: i32, y: i32)
    ensures
        i32_specs::wrapping_add(x, y) as int == wrap(x + y, i32::MIN as int, 0x1_0000_0000),
        i32_specs::wrapping_sub(x, y) as int == wrap(x - y, i32::MIN as int, 0x1_0000_0000),
        i32_specs::wrapping_mul(x, y) as int == wrap(x * y, i32::MIN as int, 0x1_0000_0000),
        i32::MIN as int == i32::MIN as int,
        i32::MAX as int == i32::MIN as int + 0x1_0000_0000 - 1,
{
    lemma_wrap_near(x + y, i32::MIN as int, 0x1_0000_0000);
    lemma_wrap_near(x - y, i32::MIN as int, 0x1_0000_0000);
    lemma_wrap_from_remainder(x * y, i32::MIN as int, 0x1_0000_0000);
}

/// The ring laws of wrapping `i32` arithmetic.
proof fn lemma_i32_ring(a: i32, b: i32, c: i32)
    ensures
        i32_specs::wrapping_add(i32_specs::wrapping_add(a, b), c) == i32_specs::wrapping_add(a, i32_specs::wrapping_add(b, c)),
        i32_specs::wrapping_add(a, b) == i32_specs::wrapping_add(b, a),
        i32_specs::wrapping_add(a, 0) == a,
        i32_specs::wrapping_add(0, a) == a,
        i32_specs::wrapping_add(a, i32_specs::wrapping_sub(0, a)) == 0,
        i32_specs::wrapping_add(i32_specs::wrapping_sub(0, a), a) == 0,
        i32_specs::wrapping_mul(i32_specs::wrapping_mul(a, b), c) == i32_specs::wrapping_mul(a, i32_specs::wrapping_mul(b, c)),
        i32_specs::wrapping_mul(a, b) == i32_specs::wrapping_mul(b, a),
        i32_specs::wrapping_mul(a, 1) == a,
        i32_specs::wrapping_mul(1, a) == a,
        i32_specs::wrapping_mul(a, i32_specs::wrapping_add(b, c)) == i32_specs::wrapping_add(i32_specs::wrapping_mul(a, b), i32_specs::wrapping_mul(a, c)),
        i32_specs::wrapping_mul(i32_specs::wrapping_add(b, c), a) == i32_specs::wrapping_add(i32_specs::wrapping_mul(b, a), i32_specs::wrapping_mul(c, a)),
        i32_specs::wrapping_sub(i32_specs::wrapping_mul(a, b), i32_specs::wrapping_mul(b, a)) == 0,
{
    let ab = i32_specs::wrapping_add(a, b);
    let bc = i32_specs::wrapping_add(b, c);
    let na = i32_specs::wrapping_sub(0, a);
    let mab = i32_specs::wrapping_mul(a, b);
    let mbc = i32_specs::wrapping_mul(b, c);
    let mac = i32_specs::wrapping_mul(a, c);
    let mba = i32_specs::wrapping_mul(b, a);
    let mca = i32_specs::wrapping_mul(c, a);
    lemma_i32_ops(a, b);
    lemma_i32_ops(b, c);
    lemma_i32_ops(ab, c);
    lemma_i32_ops(a, bc);
    lemma_i32_ops(b, a);
    lemma_i32_ops(a, 0);
    lemma_i32_ops(0, a);
    lemma_i32_ops(a, na);
    lemma_i32_ops(na, a);
    lemma_i32_ops(a, c);
    lemma_i32_ops(c, a);
    lemma_i32_ops(mab, c);
    lemma_i32_ops(a, mbc);
    lemma_i32_ops(a, 1);
    lemma_i32_ops(1, a);
    lemma_i32_ops(bc, a);
    lemma_i32_ops(mab, mac);
    lemma_i32_ops(mba, mca);
    lemma_i32_ops(mab, mba);
    lemma_wrap_ring(a as int, b as int, c as int, i32::MIN as int, 0x1_0000_0000);
    lemma_wrap_ring(b as int, a as int, c as int, i32::MIN as int, 0x1_0000_0000);
    lemma_wrap_small(0, i32::MIN as int, 0x1_0000_0000);
    assert(a * 1 == a);
    assert(0 + a == a);
}

/// The euclidean quotient and remainder of `i32` values fit the type,
/// except for `MIN / -1`.
proof fn lemma_i32_division(a: i32, b: i32)
    requires
        b != 0,
        !(b == -1 && a == i32::MIN),
    ensures
        i32::MIN <= a / b <= i32::MAX,
        0 <= a % b < if b > 0 {
            b as int
        } else {
            -(b as int)
        },
        (a / b) * b + a % b == a,
{
    assert((a as int) == (b as int) * ((a as int) / (b as int)) + (a as int) % (b as int)) by (nonlinear_arith)
        requires
            b != 0,
    ;
    lemma_mod_bound_abs(a as int, b as int);
    lemma_div_bound_abs(a as int, b as int, i32::MIN as int);
    lemma_mul_is_commutative(b as int, (a as int) / (b as int));
}

impl Carrier for i32 {
    type Model = i32;

    open spec fn model(self) -> i32 {
        self
    }

    open spec fn contains(m: i32) -> bool {
        true
    }

    proof fn lemma_model_contained(x: &i32) {
    }
}

impl Magma<Additive> for i32 {
    open spec fn spec_combine(a: i32, b: i32) -> i32 {
        i32_specs::wrapping_add(a, b)
    }

    proof fn lemma_closed(a: i32, b: i32) {
    }

    fn combine(&self, rhs: &Self) -> (r: Self) {
        self.wrapping_add(*rhs)
    }
}

impl Magma<Multiplicative> for i32 {
    open spec fn spec_combine(a: i32, b: i32) -> i32 {
        i32_specs::wrapping_mul(a, b)
    }

    proof fn lemma_closed(a: i32, b: i32) {
    }

    fn combine(&self, rhs: &Self) -> (r: Self) {
        self.wrapping_mul(*rhs)
    }
}

impl Semigroup<Additive> for i32 {
    proof fn lemma_associative(a: i32, b: i32, c: i32) {
        lemma_i32_ring(a, b, c);
    }
}

impl Semigroup<Multiplicative> for i32 {
    proof fn lemma_associative(a: i32, b: i32, c: i32) {
        lemma_i32_ring(a, b, c);
    }
}

impl Monoid<Additive> for i32 {
    open spec fn spec_identity() -> i32 {
        0
    }

    proof fn lemma_identity(a: i32) {
        lemma_i32_ring(a, a, a);
    }

    fn identity() -> (r: Self) {
        0
    }
}

impl Monoid<Multiplicative> for i32 {
    open spec fn spec_identity() -> i32 {
        1
    }

    proof fn lemma_identity(a: i32) {
        lemma_i32_ring(a, a, a);
    }

    fn identity() -> (r: Self) {
        1
    }
}

impl Quasigroup<Additive> for i32 {
    proof fn lemma_latin_square(a: i32, b: i32) {
        lemma_i32_ring(a, a, a);
        lemma_group_latin_square::<Additive, i32>(a, b, i32_specs::wrapping_sub(0, a));
    }
}

impl Loop<Additive> for i32 {

}

impl Group<Additive> for i32 {
    open spec fn spec_inverse(a: i32) -> i32 {
        i32_specs::wrapping_sub(0, a)
    }

    proof fn lemma_inverse(a: i32) {
        lemma_i32_ring(a, a, a);
    }

    fn inverse(&self) -> (r: Self) {
        0i32.wrapping_sub(*self)
    }
}

impl AbelianGroup<Additive> for i32 {
    proof fn lemma_commutative(a: i32, b: i32) {
        lemma_i32_ring(a, b, b);
    }
}

impl Semiring<Additive, Multiplicative> for i32 {
    proof fn lemma_distributive(a: i32, b: i32, c: i32) {
        lemma_i32_ring(a, b, c);
    }
}

impl Ring<Additive, Multiplicative> for i32 {

}

impl CommutativeRing<Additive, Multiplicative> for i32 {
    proof fn lemma_multiplication_commutes(a: i32, b: i32) {
        lemma_i32_ring(a, b, b);
    }
}

impl Module<Additive, Multiplicative> for i32 {
    type Scalar = i32;

    open spec fn spec_scale(s: i32, v: i32) -> i32 {
        i32_specs::wrapping_mul(s, v)
    }

    proof fn lemma_module(s: i32, t: i32, u: i32, v: i32) {
        lemma_i32_ring(s, u, v);
        lemma_i32_ring(v, s, t);
        lemma_i32_ring(s, t, v);
    }

    fn scale(s: &i32, v: i32) -> (r: i32) {
        s.wrapping_mul(v)
    }
}

impl FreeModule<Additive, Multiplicative> for i32 {
    open spec fn spec_rank() -> usize {
        1
    }

    open spec fn spec_basis_element(i: usize) -> i32 {
        1
    }

    open spec fn spec_coordinate(v: i32, i: usize) -> i32 {
        v
    }

    proof fn lemma_basis(i: usize, j: usize) {
    }

    fn rank() -> (r: usize) {
        1
    }

    fn basis_element(i: usize) -> (r: i32) {
        1
    }

    fn coordinate(&self, i: usize) -> (r: i32) {
        *self
    }
}

impl Power<Additive> for i32 {

}

impl Power<Multiplicative> for i32 {

}

impl LieAlgebra<Additive> for i32 {
    open spec fn spec_bracket(a: i32, b: i32) -> i32 {
        i32_specs::wrapping_sub(i32_specs::wrapping_mul(a, b), i32_specs::wrapping_mul(b, a))
    }

    proof fn lemma_lie(a: i32, b: i32, c: i32) {
        lemma_i32_ring(a, a, a);
        lemma_i32_ring(b, b, b);
        lemma_i32_ring(c, c, c);
        lemma_i32_ring(a, b, b);
        lemma_i32_ring(b, c, c);
        lemma_i32_ring(c, a, a);
        lemma_i32_ring(a, 0, 0);
        lemma_i32_ring(b, 0, 0);
        lemma_i32_ring(c, 0, 0);
        lemma_i32_ring(0, 0, 0);
    }

    fn bracket(&self, other: &Self) -> (r: Self) {
        self.wrapping_mul(*other).wrapping_sub(other.wrapping_mul(*self))
    }
}

impl EuclideanDomain<Additive, Multiplicative> for i32 {
    open spec fn is_euclidean() -> bool {
        true
    }

    open spec fn spec_quot_rem(a: i32, b: i32) -> (i32, i32) {
        if b == -1 && a == i32::MIN {
            (i32::MIN, 0)
        } else {
            ((a / b) as i32, (a % b) as i32)
        }
    }

    open spec fn quot_rem_defined(b: i32) -> bool {
        b != 0
    }

    proof fn lemma_nonzero_divisor_defined(b: i32) {
    }

    proof fn lemma_remainder_of_self_and_zero(b: i32) {
        lemma_mod_bound_any(b as int, b as int);
        lemma_multiple_remainder(1, b as int);
        lemma_multiple_remainder(0, b as int);
    }

    proof fn lemma_remainder_step(a: i32, b: i32, g: i32) {
        lemma_mod_bound_any(a as int, b as int);
        lemma_mod_bound_any(b as int, g as int);
        lemma_mod_bound_any((a as int) % (b as int), g as int);
        lemma_mod_bound_any(a as int, g as int);
        crate::wrapping::lemma_remainder_step(a as int, b as int, g as int);
    }

    open spec fn spec_euclidean_norm(a: i32) -> u128 {
        if a >= 0 {
            a as u128
        } else {
            (-(a as int)) as u128
        }
    }

    proof fn lemma_norm_zero(a: i32) {
        assert(<Self as Monoid<Additive>>::spec_identity() == 0);
        assert(Self::spec_euclidean_norm(a) == <Self as EuclideanDomain<Additive, Multiplicative>>::spec_euclidean_norm(a));
    }

    proof fn lemma_remainder_smaller(a: i32, b: i32) {
        assert(<Self as Monoid<Additive>>::spec_identity() == 0);
        let (q, r) = Self::spec_quot_rem(a, b);
        assert(Self::spec_euclidean_norm(r) == <Self as EuclideanDomain<Additive, Multiplicative>>::spec_euclidean_norm(r));
        assert(Self::spec_euclidean_norm(b) == <Self as EuclideanDomain<Additive, Multiplicative>>::spec_euclidean_norm(b));
        if !(b == -1 && a == i32::MIN) { lemma_i32_division(a, b); }
    }

    proof fn lemma_division(a: i32, b: i32) {
        let (q, r) = Self::spec_quot_rem(a, b);
        if !(b == -1 && a == i32::MIN) {
            lemma_i32_division(a, b);
        } else {
            lemma_wrap_near(-(i32::MIN as int), i32::MIN as int, 0x1_0000_0000);
        }
        lemma_i32_ops(q, b);
        lemma_i32_ops(i32_specs::wrapping_mul(q, b), r);
        lemma_wrap_absorbed(q * b, r as int, i32::MIN as int, 0x1_0000_0000);
        lemma_wrap_small(a as int, i32::MIN as int, 0x1_0000_0000);
        assert(<Self as Magma<Additive>>::spec_combine(i32_specs::wrapping_mul(q, b), r) == i32_specs::wrapping_add(i32_specs::wrapping_mul(q, b), r));
        assert(<Self as Magma<Multiplicative>>::spec_combine(q, b) == i32_specs::wrapping_mul(q, b));
    }

    fn quot_rem(&self, divisor: &Self) -> (r: (Self, Self)) {
        proof {
            assert(self.model() == *self);
            assert(divisor.model() == *divisor);
            assert(<Self as Monoid<Additive>>::spec_identity() == 0);
        }
        if *divisor == -1 && *self == i32::MIN {
            (i32::MIN, 0)
        } else {
            proof {
                lemma_i32_division(*self, *divisor);
            }
            let q: i32 = match self.checked_div_euclid(*divisor) {
                Some(q) => q,
                None => 0,
            };
            let r: i32 = match self.checked_rem_euclid(*divisor) {
                Some(r) => r,
                None => 0,
            };
            (q, r)
        }
    }

    fn euclidean_norm(&self) -> (r: u128) {
        proof {
            assert(self.model() == *self);
            assert(Self::spec_euclidean_norm(*self) == <Self as EuclideanDomain<Additive, Multiplicative>>::spec_euclidean_norm(*self));
        }
        if *self >= 0 {
            *self as u128
        } else {
            ((-((*self as i128) + 1)) as u128) + 1
        }
    }
}

impl MeetSemilattice for i32 {
    open spec fn meet_follows_order() -> bool {
        true
    }

    proof fn lemma_meet_follows_order(a: Self, b: Self) {
    }

    open spec fn spec_meet(a: i32, b: i32) -> i32 {
        if a <= b {
            a
        } else {
            b
        }
    }

    proof fn lemma_meet_semilattice(a: i32, b: i32, c: i32) {
    }

    fn meet(&self, other: &Self) -> (r: Self) {
        if *self <= *other {
            *self
        } else {
            *other
        }
    }
}

impl JoinSemilattice for i32 {
    open spec fn join_follows_order() -> bool {
        true
    }

    proof fn lemma_join_follows_order(a: Self, b: Self) {
    }

    open spec fn spec_join(a: i32, b: i32) -> i32 {
        if a >= b {
            a
        } else {
            b
        }
    }

    proof fn lemma_join_semilattice(a: i32, b: i32, c: i32) {
    }

    fn join(&self, other: &Self) -> (r: Self) {
        if *self >= *other {
            *self
        } else {
            *other
        }
    }
}

impl Lattice for i32 {
    proof fn lemma_absorption(a: i32, b: i32) {
    }
}

impl DistributiveLattice for i32 {
    proof fn lemma_distributive(a: i32, b: i32, c: i32) {
    }
}

impl BoundedLattice for i32 {
    open spec fn spec_top() -> i32 {
        i32::MAX
    }

    open spec fn spec_bottom() -> i32 {
        i32::MIN
    }

    proof fn lemma_bounds(a: i32) {
    }

    fn top() -> (r: Self) {
        i32::MAX
    }

    fn bottom() -> (r: Self) {
        i32::MIN
    }
}

// ---- i64 ----

/// Wrapping `i64` arithmetic is arithmetic modulo `2^N` on the window of
/// `i64` values.
proof fn lemma_i64_ops(x: i64, y: i64)
    ensures
        i64_specs::wrapping_add(x, y) as int == wrap(x + y, i64::MIN as int, 0x1_0000_0000_0000_0000),
        i64_specs::wrapping_sub(x, y) as int == wrap(x - y, i64::MIN as int, 0x1_0000_0000_0000_0000),
        i64_specs::wrapping_mul(x, y) as int == wrap(x * y, i64::MIN as int, 0x1_0000_0000_0000_0000),
        i64::MIN as int == i64::MIN as int,
        i64::MAX as int == i64::MIN as int + 0x1_0000_0000_0000_0000 - 1,
{
    lemma_wrap_near(x + y, i64::MIN as int, 0x1_0000_0000_0000_0000);
    lemma_wrap_near(x - y, i64::MIN as int, 0x1_0000_0000_0000_0000);
    lemma_wrap_from_remainder(x * y, i64::MIN as int, 0x1_0000_0000_0000_0000);
}

/// The ring laws of wrapping `i64` arithmetic.
proof fn lemma_i64_ring(a: i64, b: i64, c: i64)
    ensures
        i64_specs::wrapping_add(i64_specs::wrapping_add(a, b), c) == i64_specs::wrapping_add(a, i64_specs::wrapping_add(b, c)),
        i64_specs::wrapping_add(a, b) == i64_specs::wrapping_add(b, a),
        i64_specs::wrapping_add(a, 0) == a,
        i64_specs::wrapping_add(0, a) == a,
        i64_specs::wrapping_add(a, i64_specs::wrapping_sub(0, a)) == 0,
        i64_specs::wrapping_add(i64_specs::wrapping_sub(0, a), a) == 0,
        i64_specs::wrapping_mul(i64_specs::wrapping_mul(a, b), c) == i64_specs::wrapping_mul(a, i64_specs::wrapping_mul(b, c)),
        i64_specs::wrapping_mul(a, b) == i64_specs::wrapping_mul(b, a),
        i64_specs::wrapping_mul(a, 1) == a,
        i64_specs::wrapping_mul(1, a) == a,
        i64_specs::wrapping_mul(a, i64_specs::wrapping_add(b, c)) == i64_specs::wrapping_add(i64_specs::wrapping_mul(a, b), i64_specs::wrapping_mul(a, c)),
        i64_specs::wrapping_mul(i64_specs::wrapping_add(b, c), a) == i64_specs::wrapping_add(i64_specs::wrapping_mul(b, a), i64_specs::wrapping_mul(c, a)),
        i64_specs::wrapping_sub(i64_specs::wrapping_mul(a, b), i64_specs::wrapping_mul(b, a)) == 0,
{
    let ab = i64_specs::wrapping_add(a, b);
    let bc = i64_specs::wrapping_add(b, c);
    let na = i64_specs::wrapping_sub(0, a);
    let mab = i64_specs::wrapping_mul(a, b);
    let mbc = i64_specs::wrapping_mul(b, c);
    let mac = i64_specs::wrapping_mul(a, c);
    let mba = i64_specs::wrapping_mul(b, a);
    let mca = i64_specs::wrapping_mul(c, a);
    lemma_i64_ops(a, b);
    lemma_i64_ops(b, c);
    lemma_i64_ops(ab, c);
    lemma_i64_ops(a, bc);
    lemma_i64_ops(b, a);
    lemma_i64_ops(a, 0);
    lemma_i64_ops(0, a);
    lemma_i64_ops(a, na);
    lemma_i64_ops(na, a);
    lemma_i64_ops(a, c);
    lemma_i64_ops(c, a);
    lemma_i64_ops(mab, c);
    lemma_i64_ops(a, mbc);
    lemma_i64_ops(a, 1);
    lemma_i64_ops(1, a);
    lemma_i64_ops(bc, a);
    lemma_i64_ops(mab, mac);
    lemma_i64_ops(mba, mca);
    lemma_i64_ops(mab, mba);
    lemma_wrap_ring(a as int, b as int, c as int, i64::MIN as int, 0x1_0000_0000_0000_0000);
    lemma_wrap_ring(b as int, a as int, c as int, i64::MIN as int, 0x1_0000_0000_0000_0000);
    lemma_wrap_small(0, i64::MIN as int, 0x1_0000_0000_0000_0000);
    assert(a * 1 == a);
    assert(0 + a == a);
}

/// The euclidean quotient and remainder of `i64` values fit the type,
/// except for `MIN / -1`.
proof fn lemma_i64_division(a: i64, b: i64)
    requires
        b != 0,
        !(b == -1 && a == i64::MIN),
    ensures
        i64::MIN <= a / b <= i64::MAX,
        0 <= a % b < if b > 0 {
            b as int
        } else {
            -(b as int)
        },
        (a / b) * b + a % b == a,
{
    assert((a as int) == (b as int) * ((a as int) / (b as int)) + (a as int) % (b as int)) by (nonlinear_arith)
        requires
            b != 0,
    ;
    lemma_mod_bound_abs(a as int, b as int);
    lemma_div_bound_abs(a as int, b as int, i64::MIN as int);
    lemma_mul_is_commutative(b as int, (a as int) / (b as int));
}

impl Carrier for i64 {
    type Model = i64;

    open spec fn model(self) -> i64 {
        self
    }

    open spec fn contains(m: i64) -> bool {
        true
    }

    proof fn lemma_model_contained(x: &i64) {
    }
}

impl Magma<Additive> for i64 {
    open spec fn spec_combine(a: i64, b: i64) -> i64 {
        i64_specs::wrapping_add(a, b)
    }

    proof fn lemma_closed(a: i64, b: i64) {
    }

    fn combine(&self, rhs: &Self) -> (r: Self) {
        self.wrapping_add(*rhs)
    }
}

impl Magma<Multiplicative> for i64 {
    open spec fn spec_combine(a: i64, b: i64) -> i64 {
        i64_specs::wrapping_mul(a, b)
    }

    proof fn lemma_closed(a: i64, b: i64) {
    }

    fn combine(&self, rhs: &Self) -> (r: Self) {
        self.wrapping_mul(*rhs)
    }
}

impl Semigroup<Additive> for i64 {
    proof fn lemma_associative(a: i64, b: i64, c: i64) {
        lemma_i64_ring(a, b, c);
    }
}

impl Semigroup<Multiplicative> for i64 {
    proof fn lemma_associative(a: i64, b: i64, c: i64) {
        lemma_i64_ring(a, b, c);
    }
}

impl Monoid<Additive> for i64 {
    open spec fn spec_identity() -> i64 {
        0
    }

    proof fn lemma_identity(a: i64) {
        lemma_i64_ring(a, a, a);
    }

    fn identity() -> (r: Self) {
        0
    }
}

impl Monoid<Multiplicative> for i64 {
    open spec fn spec_identity() -> i64 {
        1
    }

    proof fn lemma_identity(a: i64) {
        lemma_i64_ring(a, a, a);
    }

    fn identity() -> (r: Self) {
        1
    }
}

impl Quasigroup<Additive> for i64 {
    proof fn lemma_latin_square(a: i64, b: i64) {
        lemma_i64_ring(a, a, a);
        lemma_group_latin_square::<Additive, i64>(a, b, i64_specs::wrapping_sub(0, a));
    }
}

impl Loop<Additive> for i64 {

}

impl Group<Additive> for i64 {
    open spec fn spec_inverse(a: i64) -> i64 {
        i64_specs::wrapping_sub(0, a)
    }

    proof fn lemma_inverse(a: i64) {
        lemma_i64_ring(a, a, a);
    }

    fn inverse(&self) -> (r: Self) {
        0i64.wrapping_sub(*self)
    }
}

impl AbelianGroup<Additive> for i64 {
    proof fn lemma_commutative(a: i64, b: i64) {
        lemma_i64_ring(a, b, b);
    }
}

impl Semiring<Additive, Multiplicative> for i64 {
    proof fn lemma_distributive(a: i64, b: i64, c: i64) {
        lemma_i64_ring(a, b, c);
    }
}

impl Ring<Additive, Multiplicative> for i64 {

}

impl CommutativeRing<Additive, Multiplicative> for i64 {
    proof fn lemma_multiplication_commutes(a: i64, b: i64) {
        lemma_i64_ring(a, b, b);
    }
}

impl Module<Additive, Multiplicative> for i64 {
    type Scalar = i64;

    open spec fn spec_scale(s: i64, v: i64) -> i64 {
        i64_specs::wrapping_mul(s, v)
    }

    proof fn lemma_module(s: i64, t: i64, u: i64, v: i64) {
        lemma_i64_ring(s, u, v);
        lemma_i64_ring(v, s, t);
        lemma_i64_ring(s, t, v);
    }

    fn scale(s: &i64, v: i64) -> (r: i64) {
        s.wrapping_mul(v)
    }
}

impl FreeModule<Additive, Multiplicative> for i64 {
    open spec fn spec_rank() -> usize {
        1
    }

    open spec fn spec_basis_element(i: usize) -> i64 {
        1
    }

    open spec fn spec_coordinate(v: i64, i: usize) -> i64 {
        v
    }

    proof fn lemma_basis(i: usize, j: usize) {
    }

    fn rank() -> (r: usize) {
        1
    }

    fn basis_element(i: usize) -> (r: i64) {
        1
    }

    fn coordinate(&self, i: usize) -> (r: i64) {
        *self
    }
}

impl Power<Additive> for i64 {

}

impl Power<Multiplicative> for i64 {

}

impl LieAlgebra<Additive> for i64 {
    open spec fn spec_bracket(a: i64, b: i64) -> i64 {
        i64_specs::wrapping_sub(i64_specs::wrapping_mul(a, b), i64_specs::wrapping_mul(b, a))
    }

    proof fn lemma_lie(a: i64, b: i64, c: i64) {
        lemma_i64_ring(a, a, a);
        lemma_i64_ring(b, b, b);
        lemma_i64_ring(c, c, c);
        lemma_i64_ring(a, b, b);
        lemma_i64_ring(b, c, c);
        lemma_i64_ring(c, a, a);
        lemma_i64_ring(a, 0, 0);
        lemma_i64_ring(b, 0, 0);
        lemma_i64_ring(c, 0, 0);
        lemma_i64_ring(0, 0, 0);
    }

    fn bracket(&self, other: &Self) -> (r: Self) {
        self.wrapping_mul(*other).wrapping_sub(other.wrapping_mul(*self))
    }
}

impl EuclideanDomain<Additive, Multiplicative> for i64 {
    open spec fn is_euclidean() -> bool {
        true
    }

    open spec fn spec_quot_rem(a: i64, b: i64) -> (i64, i64) {
        if b == -1 && a == i64::MIN {
            (i64::MIN, 0)
        } else {
            ((a / b) as i64, (a % b) as i64)
        }
    }

    open spec fn quot_rem_defined(b: i64) -> bool {
        b != 0
    }

    proof fn lemma_nonzero_divisor_defined(b: i64) {
    }

    proof fn lemma_remainder_of_self_and_zero(b: i64) {
        lemma_mod_bound_any(b as int, b as int);
        lemma_multiple_remainder(1, b as int);
        lemma_multiple_remainder(0, b as int);
    }

    proof fn lemma_remainder_step(a: i64, b: i64, g: i64) {
        lemma_mod_bound_any(a as int, b as int);
        lemma_mod_bound_any(b as int, g as int);
        lemma_mod_bound_any((a as int) % (b as int), g as int);
        lemma_mod_bound_any(a as int, g as int);
        crate::wrapping::lemma_remainder_step(a as int, b as int, g as int);
    }

    open spec fn spec_euclidean_norm(a: i64) -> u128 {
        if a >= 0 {
            a as u128
        } else {
            (-(a as int)) as u128
        }
    }

    proof fn lemma_norm_zero(a: i64) {
        assert(<Self as Monoid<Additive>>::spec_identity() == 0);
        assert(Self::spec_euclidean_norm(a) == <Self as EuclideanDomain<Additive, Multiplicative>>::spec_euclidean_norm(a));
    }

    proof fn lemma_remainder_smaller(a: i64, b: i64) {
        assert(<Self as Monoid<Additive>>::spec_identity() == 0);
        let (q, r) = Self::spec_quot_rem(a, b);
        assert(Self::spec_euclidean_norm(r) == <Self as EuclideanDomain<Additive, Multiplicative>>::spec_euclidean_norm(r));
        assert(Self::spec_euclidean_norm(b) == <Self as EuclideanDomain<Additive, Multiplicative>>::spec_euclidean_norm(b));
        if !(b == -1 && a == i64::MIN) { lemma_i64_division(a, b); }
    }

    proof fn lemma_division(a: i64, b: i64) {
        let (q, r) = Self::spec_quot_rem(a, b);
        if !(b == -1 && a == i64::MIN) {
            lemma_i64_division(a, b);
        } else {
            lemma_wrap_near(-(i64::MIN as int), i64::MIN as int, 0x1_0000_0000_0000_0000);
        }
        lemma_i64_ops(q, b);
        lemma_i64_ops(i64_specs::wrapping_mul(q, b), r);
        lemma_wrap_absorbed(q * b, r as int, i64::MIN as int, 0x1_0000_0000_0000_0000);
        lemma_wrap_small(a as int, i64::MIN as int, 0x1_0000_0000_0000_0000);
        assert(<Self as Magma<Additive>>::spec_combine(i64_specs::wrapping_mul(q, b), r) == i64_specs::wrapping_add(i64_specs::wrapping_mul(q, b), r));
        assert(<Self as Magma<Multiplicative>>::spec_combine(q, b) == i64_specs::wrapping_mul(q, b));
    }

    fn quot_rem(&self, divisor: &Self) -> (r: (Self, Self)) {
        proof {
            assert(self.model() == *self);
            assert(divisor.model() == *divisor);
            assert(<Self as Monoid<Additive>>::spec_identity() == 0);
        }
        if *divisor == -1 && *self == i64::MIN {
            (i64::MIN, 0)
        } else {
            proof {
                lemma_i64_division(*self, *divisor);
            }
            let q: i64 = match self.checked_div_euclid(*divisor) {
                Some(q) => q,
                None => 0,
            };
            let r: i64 = match self.checked_rem_euclid(*divisor) {
                Some(r) => r,
                None => 0,
            };
            (q, r)
        }
    }

    fn euclidean_norm(&self) -> (r: u128) {
        proof {
            assert(self.model() == *self);
            assert(Self::spec_euclidean_norm(*self) == <Self as EuclideanDomain<Additive, Multiplicative>>::spec_euclidean_norm(*self));
        }
        if *self >= 0 {
            *self as u128
        } else {
            ((-((*self as i128) + 1)) as u128) + 1
        }
    }
}

impl MeetSemilattice for i64 {
    open spec fn meet_follows_order() -> bool {
        true
    }

    proof fn lemma_meet_follows_order(a: Self, b: Self) {
    }

    open spec fn spec_meet(a: i64, b: i64) -> i64 {
        if a <= b {
            a
        } else {
            b
        }
    }

    proof fn lemma_meet_semilattice(a: i64, b: i64, c: i64) {
    }

    fn meet(&self, other: &Self) -> (r: Self) {
        if *self <= *other {
            *self
        } else {
            *other
        }
    }
}

impl JoinSemilattice for i64 {
    open spec fn join_follows_order() -> bool {
        true
    }

    proof fn lemma_join_follows_order(a: Self, b: Self) {
    }

    open spec fn spec_join(a: i64, b: i64) -> i64 {
        if a >= b {
            a
        } else {
            b
        }
    }

    proof fn lemma_join_semilattice(a: i64, b: i64, c: i64) {
    }

    fn join(&self, other: &Self) -> (r: Self) {
        if *self >= *other {
            *self
        } else {
            *other
        }
    }
}

impl Lattice for i64 {
    proof fn lemma_absorption(a: i64, b: i64) {
    }
}

impl DistributiveLattice for i64 {
    proof fn lemma_distributive(a: i64, b: i64, c: i64) {
    }
}

impl BoundedLattice for i64 {
    open spec fn spec_top() -> i64 {
        i64::MAX
    }

    open spec fn spec_bottom() -> i64 {
        i64::MIN
    }

    proof fn lemma_bounds(a: i64) {
    }

    fn top() -> (r: Self) {
        i64::MAX
    }

    fn bottom() -> (r: Self) {
        i64::MIN
    }
}

// ---- i128 ----

/// Wrapping `i128` arithmetic is arithmetic modulo `2^N` on the window of
/// `i128` values.
proof fn lemma_i128_ops(x: i128, y: i128)
    ensures
        i128_specs::wrapping_add(x, y) as int == wrap(x + y, i128::MIN as int, 0x1_0000_0000_0000_0000_0000_0000_0000_0000int),
        i128_specs::wrapping_sub(x, y) as int == wrap(x - y, i128::MIN as int, 0x1_0000_0000_0000_0000_0000_0000_0000_0000int),
        i128_specs::wrapping_mul(x, y) as int == wrap(x * y, i128::MIN as int, 0x1_0000_0000_0000_0000_0000_0000_0000_0000int),
        i128::MIN as int == i128::MIN as int,
        i128::MAX as int == i128::MIN as int + 0x1_0000_0000_0000_0000_0000_0000_0000_0000int - 1,
{
    lemma_wrap_near(x + y, i128::MIN as int, 0x1_0000_0000_0000_0000_0000_0000_0000_0000int);
    lemma_wrap_near(x - y, i128::MIN as int, 0x1_0000_0000_0000_0000_0000_0000_0000_0000int);
    lemma_wrap_from_remainder(x * y, i128::MIN as int, 0x1_0000_0000_0000_0000_0000_0000_0000_0000int);
}

/// The ring laws of wrapping `i128` arithmetic.
proof fn lemma_i128_ring(a: i128, b: i128, c: i128)
    ensures
        i128_specs::wrapping_add(i128_specs::wrapping_add(a, b), c) == i128_specs::wrapping_add(a, i128_specs::wrapping_add(b, c)),
        i128_specs::wrapping_add(a, b) == i128_specs::wrapping_add(b, a),
        i128_specs::wrapping_add(a, 0) == a,
        i128_specs::wrapping_add(0, a) == a,
        i128_specs::wrapping_add(a, i128_specs::wrapping_sub(0, a)) == 0,
        i128_specs::wrapping_add(i128_specs::wrapping_sub(0, a), a) == 0,
        i128_specs::wrapping_mul(i128_specs::wrapping_mul(a, b), c) == i128_specs::wrapping_mul(a, i128_specs::wrapping_mul(b, c)),
        i128_specs::wrapping_mul(a, b) == i128_specs::wrapping_mul(b, a),
        i128_specs::wrapping_mul(a, 1) == a,
        i128_specs::wrapping_mul(1, a) == a,
        i128_specs::wrapping_mul(a, i128_specs::wrapping_add(b, c)) == i128_specs::wrapping_add(i128_specs::wrapping_mul(a, b), i128_specs::wrapping_mul(a, c)),
        i128_specs::wrapping_mul(i128_specs::wrapping_add(b, c), a) == i128_specs::wrapping_add(i128_specs::wrapping_mul(b, a), i128_specs::wrapping_mul(c, a)),
        i128_specs::wrapping_sub(i128_specs::wrapping_mul(a, b), i128_specs::wrapping_mul(b, a)) == 0,
{
    let ab = i128_specs::wrapping_add(a, b);
    let bc = i128_specs::wrapping_add(b, c);
    let na = i128_specs::wrapping_sub(0, a);
    let mab = i128_specs::wrapping_mul(a, b);
    let mbc = i128_specs::wrapping_mul(b, c);
    let mac = i128_specs::wrapping_mul(a, c);
    let mba = i128_specs::wrapping_mul(b, a);
    let mca = i128_specs::wrapping_mul(c, a);
    lemma_i128_ops(a, b);
    lemma_i128_ops(b, c);
    lemma_i128_ops(ab, c);
    lemma_i128_ops(a, bc);
    lemma_i128_ops(b, a);
    lemma_i128_ops(a, 0);
    lemma_i128_ops(0, a);
    lemma_i128_ops(a, na);
    lemma_i128_ops(na, a);
    lemma_i128_ops(a, c);
    lemma_i128_ops(c, a);
    lemma_i128_ops(mab, c);
    lemma_i128_ops(a, mbc);
    lemma_i128_ops(a, 1);
    lemma_i128_ops(1, a);
    lemma_i128_ops(bc, a);
    lemma_i128_ops(mab, mac);
    lemma_i128_ops(mba, mca);
    lemma_i128_ops(mab, mba);
    lemma_wrap_ring(a as int, b as int, c as int, i128::MIN as int, 0x1_0000_0000_0000_0000_0000_0000_0000_0000int);
    lemma_wrap_ring(b as int, a as int, c as int, i128::MIN as int, 0x1_0000_0000_0000_0000_0000_0000_0000_0000int);
    lemma_wrap_small(0, i128::MIN as int, 0x1_0000_0000_0000_0000_0000_0000_0000_0000int);
    assert(a * 1 == a);
    assert(0 + a == a);
}

/// The euclidean quotient and remainder of `i128` values fit the type,
/// except for `MIN / -1`.
proof fn lemma_i128_division(a: i128, b: i128)
    requires
        b != 0,
        !(b == -1 && a == i128::MIN),
    ensures
        i128::MIN <= a / b <= i128::MAX,
        0 <= a % b < if b > 0 {
            b as int
        } else {
            -(b as int)
        },
        (a / b) * b + a % b == a,
{
    assert((a as int) == (b as int) * ((a as int) / (b as int)) + (a as int) % (b as int)) by (nonlinear_arith)
        requires
            b != 0,
    ;
    lemma_mod_bound_abs(a as int, b as int);
    lemma_div_bound_abs(a as int, b as int, i128::MIN as int);
    lemma_mul_is_commutative(b as int, (a as int) / (b as int));
}

impl Carrier for i128 {
    type Model = i128;

    open spec fn model(self) -> i128 {
        self
    }

    open spec fn contains(m: i128) -> bool {
        true
    }

    proof fn lemma_model_contained(x: &i128) {
    }
}

impl Magma<Additive> for i128 {
    open spec fn spec_combine(a: i128, b: i128) -> i128 {
        i128_specs::wrapping_add(a, b)
    }

    proof fn lemma_closed(a: i128, b: i128) {
    }

    fn combine(&self, rhs: &Self) -> (r: Self) {
        self.wrapping_add(*rhs)
    }
}

impl Magma<Multiplicative> for i128 {
    open spec fn spec_combine(a: i128, b: i128) -> i128 {
        i128_specs::wrapping_mul(a, b)
    }

    proof fn lemma_closed(a: i128, b: i128) {
    }

    fn combine(&self, rhs: &Self) -> (r: Self) {
        self.wrapping_mul(*rhs)
    }
}

impl Semigroup<Additive> for i128 {
    proof fn lemma_associative(a: i128, b: i128, c: i128) {
        lemma_i128_ring(a, b, c);
    }
}

impl Semigroup<Multiplicative> for i128 {
    proof fn lemma_associative(a: i128, b: i128, c: i128) {
        lemma_i128_ring(a, b, c);
    }
}

impl Monoid<Additive> for i128 {
    open spec fn spec_identity() -> i128 {
        0
    }

    proof fn lemma_identity(a: i128) {
        lemma_i128_ring(a, a, a);
    }

    fn identity() -> (r: Self) {
        0
    }
}

impl Monoid<Multiplicative> for i128 {
    open spec fn spec_identity() -> i128 {
        1
    }

    proof fn lemma_identity(a: i128) {
        lemma_i128_ring(a, a, a);
    }

    fn identity() -> (r: Self) {
        1
    }
}

impl Quasigroup<Additive> for i128 {
    proof fn lemma_latin_square(a: i128, b: i128) {
        lemma_i128_ring(a, a, a);
        lemma_group_latin_square::<Additive, i128>(a, b, i128_specs::wrapping_sub(0, a));
    }
}

impl Loop<Additive> for i128 {

}

impl Group<Additive> for i128 {
    open spec fn spec_inverse(a: i128) -> i128 {
        i128_specs::wrapping_sub(0, a)
    }

    proof fn lemma_inverse(a: i128) {
        lemma_i128_ring(a, a, a);
    }

    fn inverse(&self) -> (r: Self) {
        0i128.wrapping_sub(*self)
    }
}

impl AbelianGroup<Additive> for i128 {
    proof fn lemma_commutative(a: i128, b: i128) {
        lemma_i128_ring(a, b, b);
    }
}

impl Semiring<Additive, Multiplicative> for i128 {
    proof fn lemma_distributive(a: i128, b: i128, c: i128) {
        lemma_i128_ring(a, b, c);
    }
}

impl Ring<Additive, Multiplicative> for i128 {

}

impl CommutativeRing<Additive, Multiplicative> for i128 {
    proof fn lemma_multiplication_commutes(a: i128, b: i128) {
        lemma_i128_ring(a, b, b);
    }
}

impl Module<Additive, Multiplicative> for i128 {
    type Scalar = i128;

    open spec fn spec_scale(s: i128, v: i128) -> i128 {
        i128_specs::wrapping_mul(s, v)
    }

    proof fn lemma_module(s: i128, t: i128, u: i128, v: i128) {
        lemma_i128_ring(s, u, v);
        lemma_i128_ring(v, s, t);
        lemma_i128_ring(s, t, v);
    }

    fn scale(s: &i128, v: i128) -> (r: i128) {
        s.wrapping_mul(v)
    }
}

impl FreeModule<Additive, Multiplicative> for i128 {
    open spec fn spec_rank() -> usize {
        1
    }

    open spec fn spec_basis_element(i: usize) -> i128 {
        1
    }

    open spec fn spec_coordinate(v: i128, i: usize) -> i128 {
        v
    }

    proof fn lemma_basis(i: usize, j: usize) {
    }

    fn rank() -> (r: usize) {
        1
    }

    fn basis_element(i: usize) -> (r: i128) {
        1
    }

    fn coordinate(&self, i: usize) -> (r: i128) {
        *self
    }
}

impl Power<Additive> for i128 {

}

impl Power<Multiplicative> for i128 {

}

impl LieAlgebra<Additive> for i128 {
    open spec fn spec_bracket(a: i128, b: i128) -> i128 {
        i128_specs::wrapping_sub(i128_specs::wrapping_mul(a, b), i128_specs::wrapping_mul(b, a))
    }

    proof fn lemma_lie(a: i128, b: i128, c: i128) {
        lemma_i128_ring(a, a, a);
        lemma_i128_ring(b, b, b);
        lemma_i128_ring(c, c, c);
        lemma_i128_ring(a, b, b);
        lemma_i128_ring(b, c, c);
        lemma_i128_ring(c, a, a);
        lemma_i128_ring(a, 0, 0);
        lemma_i128_ring(b, 0, 0);
        lemma_i128_ring(c, 0, 0);
        lemma_i128_ring(0, 0, 0);
    }

    fn bracket(&self, other: &Self) -> (r: Self) {
        self.wrapping_mul(*other).wrapping_sub(other.wrapping_mul(*self))
    }
}

impl EuclideanDomain<Additive, Multiplicative> for i128 {
    open spec fn is_euclidean() -> bool {
        true
    }

    open spec fn spec_quot_rem(a: i128, b: i128) -> (i128, i128) {
        if b == -1 && a == i128::MIN {
            (i128::MIN, 0)
        } else {
            ((a / b) as i128, (a % b) as i128)
        }
    }

    open spec fn quot_rem_defined(b: i128) -> bool {
        b != 0
    }

    proof fn lemma_nonzero_divisor_defined(b: i128) {
    }

    proof fn lemma_remainder_of_self_and_zero(b: i128) {
        lemma_mod_bound_any(b as int, b as int);
        lemma_multiple_remainder(1, b as int);
        lemma_multiple_remainder(0, b as int);
    }

    proof fn lemma_remainder_step(a: i128, b: i128, g: i128) {
        lemma_mod_bound_any(a as int, b as int);
        lemma_mod_bound_any(b as int, g as int);
        lemma_mod_bound_any((a as int) % (b as int), g as int);
        lemma_mod_bound_any(a as int, g as int);
        crate::wrapping::lemma_remainder_step(a as int, b as int, g as int);
    }

    open spec fn spec_euclidean_norm(a: i128) -> u128 {
        if a >= 0 {
            a as u128
        } else {
            (-(a as int)) as u128
        }
    }

    proof fn lemma_norm_zero(a: i128) {
        assert(<Self as Monoid<Additive>>::spec_identity() == 0);
        assert(Self::spec_euclidean_norm(a) == <Self as EuclideanDomain<Additive, Multiplicative>>::spec_euclidean_norm(a));
    }

    proof fn lemma_remainder_smaller(a: i128, b: i128) {
        assert(<Self as Monoid<Additive>>::spec_identity() == 0);
        let (q, r) = Self::spec_quot_rem(a, b);
        assert(Self::spec_euclidean_norm(r) == <Self as EuclideanDomain<Additive, Multiplicative>>::spec_euclidean_norm(r));
        assert(Self::spec_euclidean_norm(b) == <Self as EuclideanDomain<Additive, Multiplicative>>::spec_euclidean_norm(b));
        if !(b == -1 && a == i128::MIN) { lemma_i128_division(a, b); }
    }

    proof fn lemma_division(a: i128, b: i128) {
        let (q, r) = Self::spec_quot_rem(a, b);
        if !(b == -1 && a == i128::MIN) {
            lemma_i128_division(a, b);
        } else {
            lemma_wrap_near(-(i128::MIN as int), i128::MIN as int, 0x1_0000_0000_0000_0000_0000_0000_0000_0000int);
        }
        lemma_i128_ops(q, b);
        lemma_i128_ops(i128_specs::wrapping_mul(q, b), r);
        lemma_wrap_absorbed(q * b, r as int, i128::MIN as int, 0x1_0000_0000_0000_0000_0000_0000_0000_0000int);
        lemma_wrap_small(a as int, i128::MIN as int, 0x1_0000_0000_0000_0000_0000_0000_0000_0000int);
        assert(<Self as Magma<Additive>>::spec_combine(i128_specs::wrapping_mul(q, b), r) == i128_specs::wrapping_add(i128_specs::wrapping_mul(q, b), r));
        assert(<Self as Magma<Multiplicative>>::spec_combine(q, b) == i128_specs::wrapping_mul(q, b));
    }

    fn quot_rem(&self, divisor: &Self) -> (r: (Self, Self)) {
        proof {
            assert(self.model() == *self);
            assert(divisor.model() == *divisor);
            assert(<Self as Monoid<Additive>>::spec_identity() == 0);
        }
        if *divisor == -1 && *self == i128::MIN {
            (i128::MIN, 0)
        } else {
            proof {
                lemma_i128_division(*self, *divisor);
            }
            let q: i128 = match self.checked_div_euclid(*divisor) {
                Some(q) => q,
                None => 0,
            };
            let r: i128 = match self.checked_rem_euclid(*divisor) {
                Some(r) => r,
                None => 0,
            };
            (q, r)
        }
    }

    fn euclidean_norm(&self) -> (r: u128) {
        proof {
            assert(self.model() == *self);
            assert(Self::spec_euclidean_norm(*self) == <Self as EuclideanDomain<Additive, Multiplicative>>::spec_euclidean_norm(*self));
        }
        if *self >= 0 {
            *self as u128
        } else {
            ((-((*self as i128) + 1)) as u128) + 1
        }
    }
}

impl MeetSemilattice for i128 {
    open spec fn meet_follows_order() -> bool {
        true
    }

    proof fn lemma_meet_follows_order(a: Self, b: Self) {
    }

    open spec fn spec_meet(a: i128, b: i128) -> i128 {
        if a <= b {
            a
        } else {
            b
        }
    }

    proof fn lemma_meet_semilattice(a: i128, b: i128, c: i128) {
    }

    fn meet(&self, other: &Self) -> (r: Self) {
        if *self <= *other {
            *self
        } else {
            *other
        }
    }
}

impl JoinSemilattice for i128 {
    open spec fn join_follows_order() -> bool {
        true
    }

    proof fn lemma_join_follows_order(a: Self, b: Self) {
    }

    open spec fn spec_join(a: i128, b: i128) -> i128 {
        if a >= b {
            a
        } else {
            b
        }
    }

    proof fn lemma_join_semilattice(a: i128, b: i128, c: i128) {
    }

    fn join(&self, other: &Self) -> (r: Self) {
        if *self >= *other {
            *self
        } else {
            *other
        }
    }
}

impl Lattice for i128 {
    proof fn lemma_absorption(a: i128, b: i128) {
    }
}

impl DistributiveLattice for i128 {
    proof fn lemma_distributive(a: i128, b: i128, c: i128) {
    }
}

impl BoundedLattice for i128 {
    open spec fn spec_top() -> i128 {
        i128::MAX
    }

    open spec fn spec_bottom() -> i128 {
        i128::MIN
    }

    proof fn lemma_bounds(a: i128) {
    }

    fn top() -> (r: Self) {
        i128::MAX
    }

    fn bottom() -> (r: Self) {
        i128::MIN
    }
}

// ---- isize ----

/// Wrapping `isize` arithmetic is arithmetic modulo `2^N` on the window of
/// `isize` values.
proof fn lemma_isize_ops(x: isize, y: isize)
    ensures
        isize_specs::wrapping_add(x, y) as int == wrap(x + y, isize::MIN as int, (usize::MAX - usize::MIN + 1)),
        isize_specs::wrapping_sub(x, y) as int == wrap(x - y, isize::MIN as int, (usize::MAX - usize::MIN + 1)),
        isize_specs::wrapping_mul(x, y) as int == wrap(x * y, isize::MIN as int, (usize::MAX - usize::MIN + 1)),
        isize::MIN as int == isize::MIN as int,
        isize::MAX as int == isize::MIN as int + (usize::MAX - usize::MIN + 1) - 1,
{
    lemma_wrap_near(x + y, isize::MIN as int, (usize::MAX - usize::MIN + 1));
    lemma_wrap_near(x - y, isize::MIN as int, (usize::MAX - usize::MIN + 1));
    lemma_wrap_from_remainder(x * y, isize::MIN as int, (usize::MAX - usize::MIN + 1));
}

/// The ring laws of wrapping `isize` arithmetic.
proof fn lemma_isize_ring(a: isize, b: isize, c: isize)
    ensures
        isize_specs::wrapping_add(isize_specs::wrapping_add(a, b), c) == isize_specs::wrapping_add(a, isize_specs::wrapping_add(b, c)),
        isize_specs::wrapping_add(a, b) == isize_specs::wrapping_add(b, a),
        isize_specs::wrapping_add(a, 0) == a,
        isize_specs::wrapping_add(0, a) == a,
        isize_specs::wrapping_add(a, isize_specs::wrapping_sub(0, a)) == 0,
        isize_specs::wrapping_add(isize_specs::wrapping_sub(0, a), a) == 0,
        isize_specs::wrapping_mul(isize_specs::wrapping_mul(a, b), c) == isize_specs::wrapping_mul(a, isize_specs::wrapping_mul(b, c)),
        isize_specs::wrapping_mul(a, b) == isize_specs::wrapping_mul(b, a),
        isize_specs::wrapping_mul(a, 1) == a,
        isize_specs::wrapping_mul(1, a) == a,
        isize_specs::wrapping_mul(a, isize_specs::wrapping_add(b, c)) == isize_specs::wrapping_add(isize_specs::wrapping_mul(a, b), isize_specs::wrapping_mul(a, c)),
        isize_specs::wrapping_mul(isize_specs::wrapping_add(b, c), a) == isize_specs::wrapping_add(isize_specs::wrapping_mul(b, a), isize_specs::wrapping_mul(c, a)),
        isize_specs::wrapping_sub(isize_specs::wrapping_mul(a, b), isize_specs::wrapping_mul(b, a)) == 0,
{
    let ab = isize_specs::wrapping_add(a, b);
    let bc = isize_specs::wrapping_add(b, c);
    let na = isize_specs::wrapping_sub(0, a);
    let mab = isize_specs::wrapping_mul(a, b);
    let mbc = isize_specs::wrapping_mul(b, c);
    let mac = isize_specs::wrapping_mul(a, c);
    let mba = isize_specs::wrapping_mul(b, a);
    let mca = isize_specs::wrapping_mul(c, a);
    lemma_isize_ops(a, b);
    lemma_isize_ops(b, c);
    lemma_isize_ops(ab, c);
    lemma_isize_ops(a, bc);
    lemma_isize_ops(b, a);
    lemma_isize_ops(a, 0);
    lemma_isize_ops(0, a);
    lemma_isize_ops(a, na);
    lemma_isize_ops(na, a);
    lemma_isize_ops(a, c);
    lemma_isize_ops(c, a);
    lemma_isize_ops(mab, c);
    lemma_isize_ops(a, mbc);
    lemma_isize_ops(a, 1);
    lemma_isize_ops(1, a);
    lemma_isize_ops(bc, a);
    lemma_isize_ops(mab, mac);
    lemma_isize_ops(mba, mca);
    lemma_isize_ops(mab, mba);
    lemma_wrap_ring(a as int, b as int, c as int, isize::MIN as int, (usize::MAX - usize::MIN + 1));
    lemma_wrap_ring(b as int, a as int, c as int, isize::MIN as int, (usize::MAX - usize::MIN + 1));
    lemma_wrap_small(0, isize::MIN as int, (usize::MAX - usize::MIN + 1));
    assert(a * 1 == a);
    assert(0 + a == a);
}

/// The euclidean quotient and remainder of `isize` values fit the type,
/// except for `MIN / -1`.
proof fn lemma_isize_division(a: isize, b: isize)
    requires
        b != 0,
        !(b == -1 && a == isize::MIN),
    ensures
        isize::MIN <= a / b <= isize::MAX,
        0 <= a % b < if b > 0 {
            b as int
        } else {
            -(b as int)
        },
        (a / b) * b + a % b == a,
{
    assert((a as int) == (b as int) * ((a as int) / (b as int)) + (a as int) % (b as int)) by (nonlinear_arith)
        requires
            b != 0,
    ;
    lemma_mod_bound_abs(a as int, b as int);
    lemma_div_bound_abs(a as int, b as int, isize::MIN as int);
    lemma_mul_is_commutative(b as int, (a as int) / (b as int));
}

impl Carrier for isize {
    type Model = isize;

    open spec fn model(self) -> isize {
        self
    }

    open spec fn contains(m: isize) -> bool {
        true
    }

    proof fn lemma_model_contained(x: &isize) {
    }
}

impl Magma<Additive> for isize {
    open spec fn spec_combine(a: isize, b: isize) -> isize {
        isize_specs::wrapping_add(a, b)
    }

    proof fn lemma_closed(a: isize, b: isize) {
    }

    fn combine(&self, rhs: &Self) -> (r: Self) {
        self.wrapping_add(*rhs)
    }
}

impl Magma<Multiplicative> for isize {
    open spec fn spec_combine(a: isize, b: isize) -> isize {
        isize_specs::wrapping_mul(a, b)
    }

    proof fn lemma_closed(a: isize, b: isize) {
    }

    fn combine(&self, rhs: &Self) -> (r: Self) {
        self.wrapping_mul(*rhs)
    }
}

impl Semigroup<Additive> for isize {
    proof fn lemma_associative(a: isize, b: isize, c: isize) {
        lemma_isize_ring(a, b, c);
    }
}

impl Semigroup<Multiplicative> for isize {
    proof fn lemma_associative(a: isize, b: isize, c: isize) {
        lemma_isize_ring(a, b, c);
    }
}

impl Monoid<Additive> for isize {
    open spec fn spec_identity() -> isize {
        0
    }

    proof fn lemma_identity(a: isize) {
        lemma_isize_ring(a, a, a);
    }

    fn identity() -> (r: Self) {
        0
    }
}

impl Monoid<Multiplicative> for isize {
    open spec fn spec_identity() -> isize {
        1
    }

    proof fn lemma_identity(a: isize) {
        lemma_isize_ring(a, a, a);
    }

    fn identity() -> (r: Self) {
        1
    }
}

impl Quasigroup<Additive> for isize {
    proof fn lemma_latin_square(a: isize, b: isize) {
        lemma_isize_ring(a, a, a);
        lemma_group_latin_square::<Additive, isize>(a, b, isize_specs::wrapping_sub(0, a));
    }
}

impl Loop<Additive> for isize {

}

impl Group<Additive> for isize {
    open spec fn spec_inverse(a: isize) -> isize {
        isize_specs::wrapping_sub(0, a)
    }

    proof fn lemma_inverse(a: isize) {
        lemma_isize_ring(a, a, a);
    }

    fn inverse(&self) -> (r: Self) {
        0isize.wrapping_sub(*self)
    }
}

impl AbelianGroup<Additive> for isize {
    proof fn lemma_commutative(a: isize, b: isize) {
        lemma_isize_ring(a, b, b);
    }
}

impl Semiring<Additive, Multiplicative> for isize {
    proof fn lemma_distributive(a: isize, b: isize, c: isize) {
        lemma_isize_ring(a, b, c);
    }
}

impl Ring<Additive, Multiplicative> for isize {

}

impl CommutativeRing<Additive, Multiplicative> for isize {
    proof fn lemma_multiplication_commutes(a: isize, b: isize) {
        lemma_isize_ring(a, b, b);
    }
}

impl Module<Additive, Multiplicative> for isize {
    type Scalar = isize;

    open spec fn spec_scale(s: isize, v: isize) -> isize {
        isize_specs::wrapping_mul(s, v)
    }

    proof fn lemma_module(s: isize, t: isize, u: isize, v: isize) {
        lemma_isize_ring(s, u, v);
        lemma_isize_ring(v, s, t);
        lemma_isize_ring(s, t, v);
    }

    fn scale(s: &isize, v: isize) -> (r: isize) {
        s.wrapping_mul(v)
    }
}

impl FreeModule<Additive, Multiplicative> for isize {
    open spec fn spec_rank() -> usize {
        1
    }

    open spec fn spec_basis_element(i: usize) -> isize {
        1
    }

    open spec fn spec_coordinate(v: isize, i: usize) -> isize {
        v
    }

    proof fn lemma_basis(i: usize, j: usize) {
    }

    fn rank() -> (r: usize) {
        1
    }

    fn basis_element(i: usize) -> (r: isize) {
        1
    }

    fn coordinate(&self, i: usize) -> (r: isize) {
        *self
    }
}

impl Power<Additive> for isize {

}

impl Power<Multiplicative> for isize {

}

impl LieAlgebra<Additive> for isize {
    open spec fn spec_bracket(a: isize, b: isize) -> isize {
        isize_specs::wrapping_sub(isize_specs::wrapping_mul(a, b), isize_specs::wrapping_mul(b, a))
    }

    proof fn lemma_lie(a: isize, b: isize, c: isize) {
        lemma_isize_ring(a, a, a);
        lemma_isize_ring(b, b, b);
        lemma_isize_ring(c, c, c);
        lemma_isize_ring(a, b, b);
        lemma_isize_ring(b, c, c);
        lemma_isize_ring(c, a, a);
        lemma_isize_ring(a, 0, 0);
        lemma_isize_ring(b, 0, 0);
        lemma_isize_ring(c, 0, 0);
        lemma_isize_ring(0, 0, 0);
    }

    fn bracket(&self, other: &Self) -> (r: Self) {
        self.wrapping_mul(*other).wrapping_sub(other.wrapping_mul(*self))
    }
}

impl EuclideanDomain<Additive, Multiplicative> for isize {
    open spec fn is_euclidean() -> bool {
        true
    }

    open spec fn spec_quot_rem(a: isize, b: isize) -> (isize, isize) {
        if b == -1 && a == isize::MIN {
            (isize::MIN, 0)
        } else {
            ((a / b) as isize, (a % b) as isize)
        }
    }

    open spec fn quot_rem_defined(b: isize) -> bool {
        b != 0
    }

    proof fn lemma_nonzero_divisor_defined(b: isize) {
    }

    proof fn lemma_remainder_of_self_and_zero(b: isize) {
        lemma_mod_bound_any(b as int, b as int);
        lemma_multiple_remainder(1, b as int);
        lemma_multiple_remainder(0, b as int);
    }

    proof fn lemma_remainder_step(a: isize, b: isize, g: isize) {
        lemma_mod_bound_any(a as int, b as int);
        lemma_mod_bound_any(b as int, g as int);
        lemma_mod_bound_any((a as int) % (b as int), g as int);
        lemma_mod_bound_any(a as int, g as int);
        crate::wrapping::lemma_remainder_step(a as int, b as int, g as int);
    }

    open spec fn spec_euclidean_norm(a: isize) -> u128 {
        if a >= 0 {
            a as u128
        } else {
            (-(a as int)) as u128
        }
    }

    proof fn lemma_norm_zero(a: isize) {
        assert(<Self as Monoid<Additive>>::spec_identity() == 0);
        assert(Self::spec_euclidean_norm(a) == <Self as EuclideanDomain<Additive, Multiplicative>>::spec_euclidean_norm(a));
    }

    proof fn lemma_remainder_smaller(a: isize, b: isize) {
        assert(<Self as Monoid<Additive>>::spec_identity() == 0);
        let (q, r) = Self::spec_quot_rem(a, b);
        assert(Self::spec_euclidean_norm(r) == <Self as EuclideanDomain<Additive, Multiplicative>>::spec_euclidean_norm(r));
        assert(Self::spec_euclidean_norm(b) == <Self as EuclideanDomain<Additive, Multiplicative>>::spec_euclidean_norm(b));
        if !(b == -1 && a == isize::MIN) { lemma_isize_division(a, b); }
    }

    proof fn lemma_division(a: isize, b: isize) {
        let (q, r) = Self::spec_quot_rem(a, b);
        if !(b == -1 && a == isize::MIN) {
            lemma_isize_division(a, b);
        } else {
            lemma_wrap_near(-(isize::MIN as int), isize::MIN as int, (usize::MAX - usize::MIN + 1));
        }
        lemma_isize_ops(q, b);
        lemma_isize_ops(isize_specs::wrapping_mul(q, b), r);
        lemma_wrap_absorbed(q * b, r as int, isize::MIN as int, (usize::MAX - usize::MIN + 1));
        lemma_wrap_small(a as int, isize::MIN as int, (usize::MAX - usize::MIN + 1));
        assert(<Self as Magma<Additive>>::spec_combine(isize_specs::wrapping_mul(q, b), r) == isize_specs::wrapping_add(isize_specs::wrapping_mul(q, b), r));
        assert(<Self as Magma<Multiplicative>>::spec_combine(q, b) == isize_specs::wrapping_mul(q, b));
    }

    fn quot_rem(&self, divisor: &Self) -> (r: (Self, Self)) {
        proof {
            assert(self.model() == *self);
            assert(divisor.model() == *divisor);
            assert(<Self as Monoid<Additive>>::spec_identity() == 0);
        }
        if *divisor == -1 && *self == isize::MIN {
            (isize::MIN, 0)
        } else {
            proof {
                lemma_isize_division(*self, *divisor);
            }
            let q: isize = match self.checked_div_euclid(*divisor) {
                Some(q) => q,
                None => 0,
            };
            let r: isize = match self.checked_rem_euclid(*divisor) {
                Some(r) => r,
                None => 0,
            };
            (q, r)
        }
    }

    fn euclidean_norm(&self) -> (r: u128) {
        proof {
            assert(self.model() == *self);
            assert(Self::spec_euclidean_norm(*self) == <Self as EuclideanDomain<Additive, Multiplicative>>::spec_euclidean_norm(*self));
        }
        if *self >= 0 {
            *self as u128
        } else {
            ((-((*self as i128) + 1)) as u128) + 1
        }
    }
}

impl MeetSemilattice for isize {
    open spec fn meet_follows_order() -> bool {
        true
    }

    proof fn lemma_meet_follows_order(a: Self, b: Self) {
    }

    open spec fn spec_meet(a: isize, b: isize) -> isize {
        if a <= b {
            a
        } else {
            b
        }
    }

    proof fn lemma_meet_semilattice(a: isize, b: isize, c: isize) {
    }

    fn meet(&self, other: &Self) -> (r: Self) {
        if *self <= *other {
            *self
        } else {
            *other
        }
    }
}

impl JoinSemilattice for isize {
    open spec fn join_follows_order() -> bool {
        true
    }

    proof fn lemma_join_follows_order(a: Self, b: Self) {
    }

    open spec fn spec_join(a: isize, b: isize) -> isize {
        if a >= b {
            a
        } else {
            b
        }
    }

    proof fn lemma_join_semilattice(a: isize, b: isize, c: isize) {
    }

    fn join(&self, other: &Self) -> (r: Self) {
        if *self >= *other {
            *self
        } else {
            *other
        }
    }
}

impl Lattice for isize {
    proof fn lemma_absorption(a: isize, b: isize) {
    }
}

impl DistributiveLattice for isize {
    proof fn lemma_distributive(a: isize, b: isize, c: isize) {
    }
}

impl BoundedLattice for isize {
    open spec fn spec_top() -> isize {
        isize::MAX
    }

    open spec fn spec_bottom() -> isize {
        isize::MIN
    }

    proof fn lemma_bounds(a: isize) {
    }

    fn top() -> (r: Self) {
        isize::MAX
    }

    fn bottom() -> (r: Self) {
        isize::MIN
    }
}

} // verus!

