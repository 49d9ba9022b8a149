//! The primitive integers: wrapping arithmetic makes each one the residue
//! ring `Z/2^N Z` — an abelian group under `+`, a commutative ring with `*`,
//! a module over itself, a euclidean ring (with the nonnegative euclidean
//! remainder), a commutative Lie algebra, and a distributive bounded lattice
//! under `min`/`max`.
use crate::op::{Additive, Multiplicative};
use crate::tower::lemma_group_latin_square;
use crate::tower::{
    AbelianGroup, BoundedLattice, Carrier, CommutativeRing, DistributiveLattice, EuclideanDomain,
    FreeModule, Group, JoinSemilattice, Lattice, LieAlgebra, Loop, Magma, MeetSemilattice, Module,
    Monoid, Power, Quasigroup, Ring, Semigroup, Semiring,
};
use crate::wrapping::{
    lemma_mod_bound_any, lemma_multiple_remainder,
    lemma_wrap_absorbed, lemma_wrap_from_remainder, lemma_wrap_near, lemma_wrap_ring, lemma_wrap_small, wrap,
};
use vstd::arithmetic::div_mod::*;
use vstd::arithmetic::mul::*;
use vstd::prelude::*;
use vstd::wrapping::*;

verus! {

// ---- u8 ----

/// Wrapping `u8` arithmetic is arithmetic modulo `2^N` on the window of
/// `u8` values.
proof fn lemma_u8_ops(x: u8, y: u8)
    ensures
        u8_specs::wrapping_add(x, y) as int == wrap(x + y, 0 as int, 0x100),
        u8_specs::wrapping_sub(x, y) as int == wrap(x - y, 0 as int, 0x100),
        u8_specs::wrapping_mul(x, y) as int == wrap(x * y, 0 as int, 0x100),
        u8::MIN as int == 0 as int,
        u8::MAX as int == 0 as int + 0x100 - 1,
{
    lemma_wrap_near(x + y, 0 as int, 0x100);
    lemma_wrap_near(x - y, 0 as int, 0x100);
    lemma_wrap_from_remainder(x * y, 0, 0x100);
}

/// The ring laws of wrapping `u8` arithmetic.
proof fn lemma_u8_ring(a: u8, b: u8, c: u8)
    ensures
        u8_specs::wrapping_add(u8_specs::wrapping_add(a, b), c) == u8_specs::wrapping_add(a, u8_specs::wrapping_add(b, c)),
        u8_specs::wrapping_add(a, b) == u8_specs::wrapping_add(b, a),
        u8_specs::wrapping_add(a, 0) == a,
        u8_specs::wrapping_add(0, a) == a,
        u8_specs::wrapping_add(a, u8_specs::wrapping_sub(0, a)) == 0,
        u8_specs::wrapping_add(u8_specs::wrapping_sub(0, a), a) == 0,
        u8_specs::wrapping_mul(u8_specs::wrapping_mul(a, b), c) == u8_specs::wrapping_mul(a, u8_specs::wrapping_mul(b, c)),
        u8_specs::wrapping_mul(a, b) == u8_specs::wrapping_mul(b, a),
        u8_specs::wrapping_mul(a, 1) == a,
        u8_specs::wrapping_mul(1, a) == a,
        u8_specs::wrapping_mul(a, u8_specs::wrapping_add(b, c)) == u8_specs::wrapping_add(u8_specs::wrapping_mul(a, b), u8_specs::wrapping_mul(a, c)),
        u8_specs::wrapping_mul(u8_specs::wrapping_add(b, c), a) == u8_specs::wrapping_add(u8_specs::wrapping_mul(b, a), u8_specs::wrapping_mul(c, a)),
        u8_specs::wrapping_sub(u8_specs::wrapping_mul(a, b), u8_specs::wrapping_mul(b, a)) == 0,
{
    let ab = u8_specs::wrapping_add(a, b);
    let bc = u8_specs::wrapping_add(b, c);
    let na = u8_specs::wrapping_sub(0, a);
    let mab = u8_specs::wrapping_mul(a, b);
    let mbc = u8_specs::wrapping_mul(b, c);
    let mac = u8_specs::wrapping_mul(a, c);
    let mba = u8_specs::wrapping_mul(b, a);
    let mca = u8_specs::wrapping_mul(c, a);
    lemma_u8_ops(a, b);
    lemma_u8_ops(b, c);
    lemma_u8_ops(ab, c);
    lemma_u8_ops(a, bc);
    lemma_u8_ops(b, a);
    lemma_u8_ops(a, 0);
    lemma_u8_ops(0, a);
    lemma_u8_ops(a, na);
    lemma_u8_ops(na, a);
    lemma_u8_ops(a, c);
    lemma_u8_ops(c, a);
    lemma_u8_ops(mab, c);
    lemma_u8_ops(a, mbc);
    lemma_u8_ops(a, 1);
    lemma_u8_ops(1, a);
    lemma_u8_ops(bc, a);
    lemma_u8_ops(mab, mac);
    lemma_u8_ops(mba, mca);
    lemma_u8_ops(mab, mba);
    lemma_wrap_ring(a as int, b as int, c as int, 0 as int, 0x100);
    lemma_wrap_ring(b as int, a as int, c as int, 0 as int, 0x100);
    lemma_wrap_small(0, 0 as int, 0x100);
    assert(a * 1 == a);
    assert(0 + a == a);
}

impl Carrier for u8 {
    type Model = u8;

    open spec fn model(self) -> u8 {
        self
    }

    open spec fn contains(m: u8) -> bool {
        true
    }

    proof fn lemma_model_contained(x: &u8) {
    }
}

impl Magma<Additive> for u8 {
    open spec fn spec_combine(a: u8, b: u8) -> u8 {
        u8_specs::wrapping_add(a, b)
    }

    proof fn lemma_closed(a: u8, b: u8) {
    }

    fn combine(&self, rhs: &Self) -> (r: Self) {
        self.wrapping_add(*rhs)
    }
}

impl Magma<Multiplicative> for u8 {
    open spec fn spec_combine(a: u8, b: u8) -> u8 {
        u8_specs::wrapping_mul(a, b)
    }

    proof fn lemma_closed(a: u8, b: u8) {
    }

    fn combine(&self, rhs: &Self) -> (r: Self) {
        self.wrapping_mul(*rhs)
    }
}

impl Semigroup<Additive> for u8 {
    proof fn lemma_associative(a: u8, b: u8, c: u8) {
        lemma_u8_ring(a, b, c);
    }
}

impl Semigroup<Multiplicative> for u8 {
    proof fn lemma_associative(a: u8, b: u8, c: u8) {
        lemma_u8_ring(a, b, c);
    }
}

impl Monoid<Additive> for u8 {
    open spec fn spec_identity() -> u8 {
        0
    }

    proof fn lemma_identity(a: u8) {
        lemma_u8_ring(a, a, a);
    }

    fn identity() -> (r: Self) {
        0
    }
}

impl Monoid<Multiplicative> for u8 {
    open spec fn spec_identity() -> u8 {
        1
    }

    proof fn lemma_identity(a: u8) {
        lemma_u8_ring(a, a, a);
    }

    fn identity() -> (r: Self) {
        1
    }
}

impl Quasigroup<Additive> for u8 {
    proof fn lemma_latin_square(a: u8, b: u8) {
        lemma_u8_ring(a, a, a);
        lemma_group_latin_square::<Additive, u8>(a, b, u8_specs::wrapping_sub(0, a));
    }
}

impl Loop<Additive> for u8 {

}

impl Group<Additive> for u8 {
    open spec fn spec_inverse(a: u8) -> u8 {
        u8_specs::wrapping_sub(0, a)
    }

    proof fn lemma_inverse(a: u8) {
        lemma_u8_ring(a, a, a);
    }

    fn inverse(&self) -> (r: Self) {
        0u8.wrapping_sub(*self)
    }
}

impl AbelianGroup<Additive> for u8 {
    proof fn lemma_commutative(a: u8, b: u8) {
        lemma_u8_ring(a, b, b);
    }
}

impl Semiring<Additive, Multiplicative> for u8 {
    proof fn lemma_distributive(a: u8, b: u8, c: u8) {
        lemma_u8_ring(a, b, c);
    }
}

impl Ring<Additive, Multiplicative> for u8 {

}

impl CommutativeRing<Additive, Multiplicative> for u8 {
    proof fn lemma_multiplication_commutes(a: u8, b: u8) {
        lemma_u8_ring(a, b, b);
    }
}

impl Module<Additive, Multiplicative> for u8 {
    type Scalar = u8;

    open spec fn spec_scale(s: u8, v: u8) -> u8 {
        u8_specs::wrapping_mul(s, v)
    }

    proof fn lemma_module(s: u8, t: u8, u: u8, v: u8) {
        lemma_u8_ring(s, u, v);
        lemma_u8_ring(v, s, t);
        lemma_u8_ring(s, t, v);
    }

    fn scale(s: &u8, v: u8) -> (r: u8) {
        s.wrapping_mul(v)
    }
}

impl FreeModule<Additive, Multiplicative> for u8 {
    open spec fn spec_rank() -> usize {
        1
    }

    open spec fn spec_basis_element(i: usize) -> u8 {
        1
    }

    open spec fn spec_coordinate(v: u8, i: usize) -> u8 {
        v
    }

    proof fn lemma_basis(i: usize, j: usize) {
    }

    fn rank() -> (r: usize) {
        1
    }

    fn basis_element(i: usize) -> (r: u8) {
        1
    }

    fn coordinate(&self, i: usize) -> (r: u8) {
        *self
    }
}

impl Power<Additive> for u8 {

}

impl Power<Multiplicative> for u8 {

}

impl LieAlgebra<Additive> for u8 {
    open spec fn spec_bracket(a: u8, b: u8) -> u8 {
        u8_specs::wrapping_sub(u8_specs::wrapping_mul(a, b), u8_specs::wrapping_mul(b, a))
    }

    proof fn lemma_lie(a: u8, b: u8, c: u8) {
        lemma_u8_ring(a, a, a);
        lemma_u8_ring(b, b, b);
        lemma_u8_ring(c, c, c);
        lemma_u8_ring(a, b, b);
        lemma_u8_ring(b, c, c);
        lemma_u8_ring(c, a, a);
        lemma_u8_ring(a, 0, 0);
        lemma_u8_ring(b, 0, 0);
        lemma_u8_ring(c, 0, 0);
        lemma_u8_ring(0, 0, 0);
    }

    fn bracket(&self, other: &Self) -> (r: Self) {
        self.wrapping_mul(*other).wrapping_sub(other.wrapping_mul(*self))
    }
}

impl EuclideanDomain<Additive, Multiplicative> for u8 {
    open spec fn is_euclidean() -> bool {
        true
    }

    open spec fn spec_quot_rem(a: u8, b: u8) -> (u8, u8) {
        ((a / b) as u8, (a % b) as u8)
    }

    open spec fn quot_rem_defined(b: u8) -> bool {
        b != 0
    }

    proof fn lemma_nonzero_divisor_defined(b: u8) {
    }

    proof fn lemma_remainder_of_self_and_zero(b: u8) {
        lemma_mod_bound_any(b as int, b as int);
        lemma_multiple_remainder(1, b as int);
        lemma_multiple_remainder(0, b as int);
    }

    proof fn lemma_remainder_step(a: u8, b: u8, g: u8) {
        lemma_mod_bound_any(a as int, b as int);
        lemma_mod_bound_any(b as int, g as int);
        lemma_mod_bound_any((a as int) % (b as int), g as int);
        lemma_mod_bound_any(a as int, g as int);
        crate::wrapping::lemma_remainder_step(a as int, b as int, g as int);
    }

    open spec fn spec_euclidean_norm(a: u8) -> u128 {
        a as u128
    }

    proof fn lemma_norm_zero(a: u8) {
        assert(<Self as Monoid<Additive>>::spec_identity() == 0);
        assert(Self::spec_euclidean_norm(a) == <Self as EuclideanDomain<Additive, Multiplicative>>::spec_euclidean_norm(a));
    }

    proof fn lemma_remainder_smaller(a: u8, b: u8) {
        assert(<Self as Monoid<Additive>>::spec_identity() == 0);
        let (q, r) = Self::spec_quot_rem(a, b);
        assert(Self::spec_euclidean_norm(r) == <Self as EuclideanDomain<Additive, Multiplicative>>::spec_euclidean_norm(r));
        assert(Self::spec_euclidean_norm(b) == <Self as EuclideanDomain<Additive, Multiplicative>>::spec_euclidean_norm(b));
        lemma_mod_bound(a as int, b as int);
    }

    proof fn lemma_division(a: u8, b: u8) {
        let (q, r) = Self::spec_quot_rem(a, b);
        lemma_fundamental_div_mod(a as int, b as int);
        lemma_mul_is_commutative(b as int, (a / b) as int);
        lemma_mod_bound(a as int, b as int);
        lemma_div_pos_is_pos(a as int, b as int);
        lemma_div_is_ordered_by_denominator(a as int, 1, b as int);
        lemma_div_basics(a as int);
        lemma_u8_ops(q, b);
        lemma_u8_ops(u8_specs::wrapping_mul(q, b), r);
        lemma_wrap_absorbed(q * b, r as int, 0 as int, 0x100);
        lemma_wrap_small(a as int, 0 as int, 0x100);
        assert(<Self as Magma<Additive>>::spec_combine(u8_specs::wrapping_mul(q, b), r) == u8_specs::wrapping_add(u8_specs::wrapping_mul(q, b), r));
        assert(<Self as Magma<Multiplicative>>::spec_combine(q, b) == u8_specs::wrapping_mul(q, b));
    }

    fn quot_rem(&self, divisor: &Self) -> (r: (Self, Self)) {
        proof {
            assert(self.model() == *self);
            assert(divisor.model() == *divisor);
            assert(<Self as Monoid<Additive>>::spec_identity() == 0);
        }
        (*self / *divisor, *self % *divisor)
    }

    fn euclidean_norm(&self) -> (r: u128) {
        proof {
            assert(self.model() == *self);
            assert(Self::spec_euclidean_norm(*self) == <Self as EuclideanDomain<Additive, Multiplicative>>::spec_euclidean_norm(*self));
        }
        *self as u128
    }
}

impl MeetSemilattice for u8 {
    open spec fn meet_follows_order() -> bool {
        true
    }

    proof fn lemma_meet_follows_order(a: Self, b: Self) {
    }

    open spec fn spec_meet(a: u8, b: u8) -> u8 {
        if a <= b {
            a
        } else {
            b
        }
    }

    proof fn lemma_meet_semilattice(a: u8, b: u8, c: u8) {
    }

    fn meet(&self, other: &Self) -> (r: Self) {
        if *self <= *other {
            *self
        } else {
            *other
        }
    }
}

impl JoinSemilattice for u8 {
    open spec fn join_follows_order() -> bool {
        true
    }

    proof fn lemma_join_follows_order(a: Self, b: Self) {
    }

    open spec fn spec_join(a: u8, b: u8) -> u8 {
        if a >= b {
            a
        } else {
            b
        }
    }

    proof fn lemma_join_semilattice(a: u8, b: u8, c: u8) {
    }

    fn join(&self, other: &Self) -> (r: Self) {
        if *self >= *other {
            *self
        } else {
            *other
        }
    }
}

impl Lattice for u8 {
    proof fn lemma_absorption(a: u8, b: u8) {
    }
}

impl DistributiveLattice for u8 {
    proof fn lemma_distributive(a: u8, b: u8, c: u8) {
    }
}

impl BoundedLattice for u8 {
    open spec fn spec_top() -> u8 {
        u8::MAX
    }

    open spec fn spec_bottom() -> u8 {
        u8::MIN
    }

    proof fn lemma_bounds(a: u8) {
    }

    fn top() -> (r: Self) {
        u8::MAX
    }

    fn bottom() -> (r: Self) {
        u8::MIN
    }
}

// ---- u16 ----

/// Wrapping `u16` arithmetic is arithmetic modulo `2^N` on the window of
/// `u16` values.
proof fn lemma_u16_ops(x: u16, y: u16)
    ensures
        u16_specs::wrapping_add(x, y) as int == wrap(x + y, 0 as int, 0x1_0000),
        u16_specs::wrapping_sub(x, y) as int == wrap(x - y, 0 as int, 0x1_0000),
        u16_specs::wrapping_mul(x, y) as int == wrap(x * y, 0 as int, 0x1_0000),
        u16::MIN as int == 0 as int,
        u16::MAX as int == 0 as int + 0x1_0000 - 1,
{
    lemma_wrap_near(x + y, 0 as int, 0x1_0000);
    lemma_wrap_near(x - y, 0 as int, 0x1_0000);
    lemma_wrap_from_remainder(x * y, 0, 0x1_0000);
}

/// The ring laws of wrapping `u16` arithmetic.
proof fn lemma_u16_ring(a: u16, b: u16, c: u16)
    ensures
        u16_specs::wrapping_add(u16_specs::wrapping_add(a, b), c) == u16_specs::wrapping_add(a, u16_specs::wrapping_add(b, c)),
        u16_specs::wrapping_add(a, b) == u16_specs::wrapping_add(b, a),
        u16_specs::wrapping_add(a, 0) == a,
        u16_specs::wrapping_add(0, a) == a,
        u16_specs::wrapping_add(a, u16_specs::wrapping_sub(0, a)) == 0,
        u16_specs::wrapping_add(u16_specs::wrapping_sub(0, a), a) == 0,
        u16_specs::wrapping_mul(u16_specs::wrapping_mul(a, b), c) == u16_specs::wrapping_mul(a, u16_specs::wrapping_mul(b, c)),
        u16_specs::wrapping_mul(a, b) == u16_specs::wrapping_mul(b, a),
        u16_specs::wrapping_mul(a, 1) == a,
        u16_specs::wrapping_mul(1, a) == a,
        u16_specs::wrapping_mul(a, u16_specs::wrapping_add(b, c)) == u16_specs::wrapping_add(u16_specs::wrapping_mul(a, b), u16_specs::wrapping_mul(a, c)),
        u16_specs::wrapping_mul(u16_specs::wrapping_add(b, c), a) == u16_specs::wrapping_add(u16_specs::wrapping_mul(b, a), u16_specs::wrapping_mul(c, a)),
        u16_specs::wrapping_sub(u16_specs::wrapping_mul(a, b), u16_specs::wrapping_mul(b, a)) == 0,
{
    let ab = u16_specs::wrapping_add(a, b);
    let bc = u16_specs::wrapping_add(b, c);
    let na = u16_specs::wrapping_sub(0, a);
    let mab = u16_specs::wrapping_mul(a, b);
    let mbc = u16_specs::wrapping_mul(b, c);
    let mac = u16_specs::wrapping_mul(a, c);
    let mba = u16_specs::wrapping_mul(b, a);
    let mca = u16_specs::wrapping_mul(c, a);
    lemma_u16_ops(a, b);
    lemma_u16_ops(b, c);
    lemma_u16_ops(ab, c);
    lemma_u16_ops(a, bc);
    lemma_u16_ops(b, a);
    lemma_u16_ops(a, 0);
    lemma_u16_ops(0, a);
    lemma_u16_ops(a, na);
    lemma_u16_ops(na, a);
    lemma_u16_ops(a, c);
    lemma_u16_ops(c, a);
    lemma_u16_ops(mab, c);
    lemma_u16_ops(a, mbc);
    lemma_u16_ops(a, 1);
    lemma_u16_ops(1, a);
    lemma_u16_ops(bc, a);
    lemma_u16_ops(mab, mac);
    lemma_u16_ops(mba, mca);
    lemma_u16_ops(mab, mba);
    lemma_wrap_ring(a as int, b as int, c as int, 0 as int, 0x1_0000);
    lemma_wrap_ring(b as int, a as int, c as int, 0 as int, 0x1_0000);
    lemma_wrap_small(0, 0 as int, 0x1_0000);
    assert(a * 1 == a);
    assert(0 + a == a);
}

impl Carrier for u16 {
    type Model = u16;

    open spec fn model(self) -> u16 {
        self
    }

    open spec fn contains(m: u16) -> bool {
        true
    }

    proof fn lemma_model_contained(x: &u16) {
    }
}

impl Magma<Additive> for u16 {
    open spec fn spec_combine(a: u16, b: u16) -> u16 {
        u16_specs::wrapping_add(a, b)
    }

    proof fn lemma_closed(a: u16, b: u16) {
    }

    fn combine(&self, rhs: &Self) -> (r: Self) {
        self.wrapping_add(*rhs)
    }
}

impl Magma<Multiplicative> for u16 {
    open spec fn spec_combine(a: u16, b: u16) -> u16 {
        u16_specs::wrapping_mul(a, b)
    }

    proof fn lemma_closed(a: u16, b: u16) {
    }

    fn combine(&self, rhs: &Self) -> (r: Self) {
        self.wrapping_mul(*rhs)
    }
}

impl Semigroup<Additive> for u16 {
    proof fn lemma_associative(a: u16, b: u16, c: u16) {
        lemma_u16_ring(a, b, c);
    }
}

impl Semigroup<Multiplicative> for u16 {
    proof fn lemma_associative(a: u16, b: u16, c: u16) {
        lemma_u16_ring(a, b, c);
    }
}

impl Monoid<Additive> for u16 {
    open spec fn spec_identity() -> u16 {
        0
    }

    proof fn lemma_identity(a: u16) {
        lemma_u16_ring(a, a, a);
    }

    fn identity() -> (r: Self) {
        0
    }
}

impl Monoid<Multiplicative> for u16 {
    open spec fn spec_identity() -> u16 {
        1
    }

    proof fn lemma_identity(a: u16) {
        lemma_u16_ring(a, a, a);
    }

    fn identity() -> (r: Self) {
        1
    }
}

impl Quasigroup<Additive> for u16 {
    proof fn lemma_latin_square(a: u16, b: u16) {
        lemma_u16_ring(a, a, a);
        lemma_group_latin_square::<Additive, u16>(a, b, u16_specs::wrapping_sub(0, a));
    }
}

impl Loop<Additive> for u16 {

}

impl Group<Additive> for u16 {
    open spec fn spec_inverse(a: u16) -> u16 {
        u16_specs::wrapping_sub(0, a)
    }

    proof fn lemma_inverse(a: u16) {
        lemma_u16_ring(a, a, a);
    }

    fn inverse(&self) -> (r: Self) {
        0u16.wrapping_sub(*self)
    }
}

impl AbelianGroup<Additive> for u16 {
    proof fn lemma_commutative(a: u16, b: u16) {
        lemma_u16_ring(a, b, b);
    }
}

impl Semiring<Additive, Multiplicative> for u16 {
    proof fn lemma_distributive(a: u16, b: u16, c: u16) {
        lemma_u16_ring(a, b, c);
    }
}

impl Ring<Additive, Multiplicative> for u16 {

}

impl CommutativeRing<Additive, Multiplicative> for u16 {
    proof fn lemma_multiplication_commutes(a: u16, b: u16) {
        lemma_u16_ring(a, b, b);
    }
}

impl Module<Additive, Multiplicative> for u16 {
    type Scalar = u16;

    open spec fn spec_scale(s: u16, v: u16) -> u16 {
        u16_specs::wrapping_mul(s, v)
    }

    proof fn lemma_module(s: u16, t: u16, u: u16, v: u16) {
        lemma_u16_ring(s, u, v);
        lemma_u16_ring(v, s, t);
        lemma_u16_ring(s, t, v);
    }

    fn scale(s: &u16, v: u16) -> (r: u16) {
        s.wrapping_mul(v)
    }
}

impl FreeModule<Additive, Multiplicative> for u16 {
    open spec fn spec_rank() -> usize {
        1
    }

    open spec fn spec_basis_element(i: usize) -> u16 {
        1
    }

    open spec fn spec_coordinate(v: u16, i: usize) -> u16 {
        v
    }

    proof fn lemma_basis(i: usize, j: usize) {
    }

    fn rank() -> (r: usize) {
        1
    }

    fn basis_element(i: usize) -> (r: u16) {
        1
    }

    fn coordinate(&self, i: usize) -> (r: u16) {
        *self
    }
}

impl Power<Additive> for u16 {

}

impl Power<Multiplicative> for u16 {

}

impl LieAlgebra<Additive> for u16 {
    open spec fn spec_bracket(a: u16, b: u16) -> u16 {
        u16_specs::wrapping_sub(u16_specs::wrapping_mul(a, b), u16_specs::wrapping_mul(b, a))
    }

    proof fn lemma_lie(a: u16, b: u16, c: u16) {
        lemma_u16_ring(a, a, a);
        lemma_u16_ring(b, b, b);
        lemma_u16_ring(c, c, c);
        lemma_u16_ring(a, b, b);
        lemma_u16_ring(b, c, c);
        lemma_u16_ring(c, a, a);
        lemma_u16_ring(a, 0, 0);
        lemma_u16_ring(b, 0, 0);
        lemma_u16_ring(c, 0, 0);
        lemma_u16_ring(0, 0, 0);
    }

    fn bracket(&self, other: &Self) -> (r: Self) {
        self.wrapping_mul(*other).wrapping_sub(other.wrapping_mul(*self))
    }
}

impl EuclideanDomain<Additive, Multiplicative> for u16 {
    open spec fn is_euclidean() -> bool {
        true
    }

    open spec fn spec_quot_rem(a: u16, b: u16) -> (u16, u16) {
        ((a / b) as u16, (a % b) as u16)
    }

    open spec fn quot_rem_defined(b: u16) -> bool {
        b != 0
    }

    proof fn lemma_nonzero_divisor_defined(b: u16) {
    }

    proof fn lemma_remainder_of_self_and_zero(b: u16) {
        lemma_mod_bound_any(b as int, b as int);
        lemma_multiple_remainder(1, b as int);
        lemma_multiple_remainder(0, b as int);
    }

    proof fn lemma_remainder_step(a: u16, b: u16, g: u16) {
        lemma_mod_bound_any(a as int, b as int);
        lemma_mod_bound_any(b as int, g as int);
        lemma_mod_bound_any((a as int) % (b as int), g as int);
        lemma_mod_bound_any(a as int, g as int);
        crate::wrapping::lemma_remainder_step(a as int, b as int, g as int);
    }

    open spec fn spec_euclidean_norm(a: u16) -> u128 {
        a as u128
    }

    proof fn lemma_norm_zero(a: u16) {
        assert(<Self as Monoid<Additive>>::spec_identity() == 0);
        assert(Self::spec_euclidean_norm(a) == <Self as EuclideanDomain<Additive, Multiplicative>>::spec_euclidean_norm(a));
    }

    proof fn lemma_remainder_smaller(a: u16, b: u16) {
        assert(<Self as Monoid<Additive>>::spec_identity() == 0);
        let (q, r) = Self::spec_quot_rem(a, b);
        assert(Self::spec_euclidean_norm(r) == <Self as EuclideanDomain<Additive, Multiplicative>>::spec_euclidean_norm(r));
        assert(Self::spec_euclidean_norm(b) == <Self as EuclideanDomain<Additive, Multiplicative>>::spec_euclidean_norm(b));
        lemma_mod_bound(a as int, b as int);
    }

    proof fn lemma_division(a: u16, b: u16) {
        let (q, r) = Self::spec_quot_rem(a, b);
        lemma_fundamental_div_mod(a as int, b as int);
        lemma_mul_is_commutative(b as int, (a / b) as int);
        lemma_mod_bound(a as int, b as int);
        lemma_div_pos_is_pos(a as int, b as int);
        lemma_div_is_ordered_by_denominator(a as int, 1, b as int);
        lemma_div_basics(a as int);
        lemma_u16_ops(q, b);
        lemma_u16_ops(u16_specs::wrapping_mul(q, b), r);
        lemma_wrap_absorbed(q * b, r as int, 0 as int, 0x1_0000);
        lemma_wrap_small(a as int, 0 as int, 0x1_0000);
        assert(<Self as Magma<Additive>>::spec_combine(u16_specs::wrapping_mul(q, b), r) == u16_specs::wrapping_add(u16_specs::wrapping_mul(q, b), r));
        assert(<Self as Magma<Multiplicative>>::spec_combine(q, b) == u16_specs::wrapping_mul(q, b));
    }

    fn quot_rem(&self, divisor: &Self) -> (r: (Self, Self)) {
        proof {
            assert(self.model() == *self);
            assert(divisor.model() == *divisor);
            assert(<Self as Monoid<Additive>>::spec_identity() == 0);
        }
        (*self / *divisor, *self % *divisor)
    }

    fn euclidean_norm(&self) -> (r: u128) {
        proof {
            assert(self.model() == *self);
            assert(Self::spec_euclidean_norm(*self) == <Self as EuclideanDomain<Additive, Multiplicative>>::spec_euclidean_norm(*self));
        }
        *self as u128
    }
}

impl MeetSemilattice for u16 {
    open spec fn meet_follows_order() -> bool {
        true
    }

    proof fn lemma_meet_follows_order(a: Self, b: Self) {
    }

    open spec fn spec_meet(a: u16, b: u16) -> u16 {
        if a <= b {
            a
        } else {
            b
        }
    }

    proof fn lemma_meet_semilattice(a: u16, b: u16, c: u16) {
    }

    fn meet(&self, other: &Self) -> (r: Self) {
        if *self <= *other {
            *self
        } else {
            *other
        }
    }
}

impl JoinSemilattice for u16 {
    open spec fn join_follows_order() -> bool {
        true
    }

    proof fn lemma_join_follows_order(a: Self, b: Self) {
    }

    open spec fn spec_join(a: u16, b: u16) -> u16 {
        if a >= b {
            a
        } else {
            b
        }
    }

    proof fn lemma_join_semilattice(a: u16, b: u16, c: u16) {
    }

    fn join(&self, other: &Self) -> (r: Self) {
        if *self >= *other {
            *self
        } else {
            *other
        }
    }
}

impl Lattice for u16 {
    proof fn lemma_absorption(a: u16, b: u16) {
    }
}

impl DistributiveLattice for u16 {
    proof fn lemma_distributive(a: u16, b: u16, c: u16) {
    }
}

impl BoundedLattice for u16 {
    open spec fn spec_top() -> u16 {
        u16::MAX
    }

    open spec fn spec_bottom() -> u16 {
        u16::MIN
    }

    proof fn lemma_bounds(a: u16) {
    }

    fn top() -> (r: Self) {
        u16::MAX
    }

    fn bottom() -> (r: Self) {
        u16::MIN
    }
}

// ---- u32 ----

/// Wrapping `u32` arithmetic is arithmetic modulo `2^N` on the window of
/// `u32` values.
proof fn lemma_u32_ops(x: u32, y: u32)
    ensures
        u32_specs::wrapping_add(x, y) as int == wrap(x + y, 0 as int, 0x1_0000_0000),
        u32_specs::wrapping_sub(x, y) as int == wrap(x - y, 0 as int, 0x1_0000_0000),
        u32_specs::wrapping_mul(x, y) as int == wrap(x * y, 0 as int, 0x1_0000_0000),
        u32::MIN as int == 0 as int,
        u32::MAX as int == 0 as int + 0x1_0000_0000 - 1,
{
    lemma_wrap_near(x + y, 0 as int, 0x1_0000_0000);
    lemma_wrap_near(x - y, 0 as int, 0x1_0000_0000);
    lemma_wrap_from_remainder(x * y, 0, 0x1_0000_0000);
}

/// The ring laws of wrapping `u32` arithmetic.
proof fn lemma_u32_ring(a: u32, b: u32, c: u32)
    ensures
        u32_specs::wrapping_add(u32_specs::wrapping_add(a, b), c) == u32_specs::wrapping_add(a, u32_specs::wrapping_add(b, c)),
        u32_specs::wrapping_add(a, b) == u32_specs::wrapping_add(b, a),
        u32_specs::wrapping_add(a, 0) == a,
        u32_specs::wrapping_add(0, a) == a,
        u32_specs::wrapping_add(a, u32_specs::wrapping_sub(0, a)) == 0,
        u32_specs::wrapping_add(u32_specs::wrapping_sub(0, a), a) == 0,
        u32_specs::wrapping_mul(u32_specs::wrapping_mul(a, b), c) == u32_specs::wrapping_mul(a, u32_specs::wrapping_mul(b, c)),
        u32_specs::wrapping_mul(a, b) == u32_specs::wrapping_mul(b, a),
        u32_specs::wrapping_mul(a, 1) == a,
        u32_specs::wrapping_mul(1, a) == a,
        u32_specs::wrapping_mul(a, u32_specs::wrapping_add(b, c)) == u32_specs::wrapping_add(u32_specs::wrapping_mul(a, b), u32_specs::wrapping_mul(a, c)),
        u32_specs::wrapping_mul(u32_specs::wrapping_add(b, c), a) == u32_specs::wrapping_add(u32_specs::wrapping_mul(b, a), u32_specs::wrapping_mul(c, a)),
        u32_specs::wrapping_sub(u32_specs::wrapping_mul(a, b), u32_specs::wrapping_mul(b, a)) == 0,
{
    let ab = u32_specs::wrapping_add(a, b);
    let bc = u32_specs::wrapping_add(b, c);
    let na = u32_specs::wrapping_sub(0, a);
    let mab = u32_specs::wrapping_mul(a, b);
    let mbc = u32_specs::wrapping_mul(b, c);
    let mac = u32_specs::wrapping_mul(a, c);
    let mba = u32_specs::wrapping_mul(b, a);
    let mca = u32_specs::wrapping_mul(c, a);
    lemma_u32_ops(a, b);
    lemma_u32_ops(b, c);
    lemma_u32_ops(ab, c);
    lemma_u32_ops(a, bc);
    lemma_u32_ops(b, a);
    lemma_u32_ops(a, 0);
    lemma_u32_ops(0, a);
    lemma_u32_ops(a, na);
    lemma_u32_ops(na, a);
    lemma_u32_ops(a, c);
    lemma_u32_ops(c, a);
    lemma_u32_ops(mab, c);
    lemma_u32_ops(a, mbc);
    lemma_u32_ops(a, 1);
    lemma_u32_ops(1, a);
    lemma_u32_ops(bc, a);
    lemma_u32_ops(mab, mac);
    lemma_u32_ops(mba, mca);
    lemma_u32_ops(mab, mba);
    lemma_wrap_ring(a as int, b as int, c as int, 0 as int, 0x1_0000_0000);
    lemma_wrap_ring(b as int, a as int, c as int, 0 as int, 0x1_0000_0000);
    lemma_wrap_small(0, 0 as int, 0x1_0000_0000);
    assert(a * 1 == a);
    assert(0 + a == a);
}

impl Carrier for u32 {
    type Model = u32;

    open spec fn model(self) -> u32 {
        self
    }

    open spec fn contains(m: u32) -> bool {
        true
    }

    proof fn lemma_model_contained(x: &u32) {
    }
}

impl Magma<Additive> for u32 {
    open spec fn spec_combine(a: u32, b: u32) -> u32 {
        u32_specs::wrapping_add(a, b)
    }

    proof fn lemma_closed(a: u32, b: u32) {
    }

    fn combine(&self, rhs: &Self) -> (r: Self) {
        self.wrapping_add(*rhs)
    }
}

impl Magma<Multiplicative> for u32 {
    open spec fn spec_combine(a: u32, b: u32) -> u32 {
        u32_specs::wrapping_mul(a, b)
    }

    proof fn lemma_closed(a: u32, b: u32) {
    }

    fn combine(&self, rhs: &Self) -> (r: Self) {
        self.wrapping_mul(*rhs)
    }
}

impl Semigroup<Additive> for u32 {
    proof fn lemma_associative(a: u32, b: u32, c: u32) {
        lemma_u32_ring(a, b, c);
    }
}

impl Semigroup<Multiplicative> for u32 {
    proof fn lemma_associative(a: u32, b: u32, c: u32) {
        lemma_u32_ring(a, b, c);
    }
}

impl Monoid<Additive> for u32 {
    open spec fn spec_identity() -> u32 {
        0
    }

    proof fn lemma_identity(a: u32) {
        lemma_u32_ring(a, a, a);
    }

    fn identity() -> (r: Self) {
        0
    }
}

impl Monoid<Multiplicative> for u32 {
    open spec fn spec_identity() -> u32 {
        1
    }

    proof fn lemma_identity(a: u32) {
        lemma_u32_ring(a, a, a);
    }

    fn identity() -> (r: Self) {
        1
    }
}

impl Quasigroup<Additive> for u32 {
    proof fn lemma_latin_square(a: u32, b: u32) {
        lemma_u32_ring(a, a, a);
        lemma_group_latin_square::<Additive, u32>(a, b, u32_specs::wrapping_sub(0, a));
    }
}

impl Loop<Additive> for u32 {

}

impl Group<Additive> for u32 {
    open spec fn spec_inverse(a: u32) -> u32 {
        u32_specs::wrapping_sub(0, a)
    }

    proof fn lemma_inverse(a: u32) {
        lemma_u32_ring(a, a, a);
    }

    fn inverse(&self) -> (r: Self) {
        0u32.wrapping_sub(*self)
    }
}

impl AbelianGroup<Additive> for u32 {
    proof fn lemma_commutative(a: u32, b: u32) {
        lemma_u32_ring(a, b, b);
    }
}

impl Semiring<Additive, Multiplicative> for u32 {
    proof fn lemma_distributive(a: u32, b: u32, c: u32) {
        lemma_u32_ring(a, b, c);
    }
}

impl Ring<Additive, Multiplicative> for u32 {

}

impl CommutativeRing<Additive, Multiplicative> for u32 {
    proof fn lemma_multiplication_commutes(a: u32, b: u32) {
        lemma_u32_ring(a, b, b);
    }
}

impl Module<Additive, Multiplicative> for u32 {
    type Scalar = u32;

    open spec fn spec_scale(s: u32, v: u32) -> u32 {
        u32_specs::wrapping_mul(s, v)
    }

    proof fn lemma_module(s: u32, t: u32, u: u32, v: u32) {
        lemma_u32_ring(s, u, v);
        lemma_u32_ring(v, s, t);
        lemma_u32_ring(s, t, v);
    }

    fn scale(s: &u32, v: u32) -> (r: u32) {
        s.wrapping_mul(v)
    }
}

impl FreeModule<Additive, Multiplicative> for u32 {
    open spec fn spec_rank() -> usize {
        1
    }

    open spec fn spec_basis_element(i: usize) -> u32 {
        1
    }

    open spec fn spec_coordinate(v: u32, i: usize) -> u32 {
        v
    }

    proof fn lemma_basis(i: usize, j: usize) {
    }

    fn rank() -> (r: usize) {
        1
    }

    fn basis_element(i: usize) -> (r: u32) {
        1
    }

    fn coordinate(&self, i: usize) -> (r: u32) {
        *self
    }
}

impl Power<Additive> for u32 {

}

impl Power<Multiplicative> for u32 {

}

impl LieAlgebra<Additive> for u32 {
    open spec fn spec_bracket(a: u32, b: u32) -> u32 {
        u32_specs::wrapping_sub(u32_specs::wrapping_mul(a, b), u32_specs::wrapping_mul(b, a))
    }

    proof fn lemma_lie(a: u32, b: u32, c: u32) {
        lemma_u32_ring(a, a, a);
        lemma_u32_ring(b, b, b);
        lemma_u32_ring(c, c, c);
        lemma_u32_ring(a, b, b);
        lemma_u32_ring(b, c, c);
        lemma_u32_ring(c, a, a);
        lemma_u32_ring(a, 0, 0);
        lemma_u32_ring(b, 0, 0);
        lemma_u32_ring(c, 0, 0);
        lemma_u32_ring(0, 0, 0);
    }

    fn bracket(&self, other: &Self) -> (r: Self) {
        self.wrapping_mul(*other).wrapping_sub(other.wrapping_mul(*self))
    }
}

impl EuclideanDomain<Additive, Multiplicative> for u32 {
    open spec fn is_euclidean() -> bool {
        true
    }

    open spec fn spec_quot_rem(a: u32, b: u32) -> (u32, u32) {
        ((a / b) as u32, (a % b) as u32)
    }

    open spec fn quot_rem_defined(b: u32) -> bool {
        b != 0
    }

    proof fn lemma_nonzero_divisor_defined(b: u32) {
    }

    proof fn lemma_remainder_of_self_and_zero(b: u32) {
        lemma_mod_bound_any(b as int, b as int);
        lemma_multiple_remainder(1, b as int);
        lemma_multiple_remainder(0, b as int);
    }

    proof fn lemma_remainder_step(a: u32, b: u32, g: u32) {
        lemma_mod_bound_any(a as int, b as int);
        lemma_mod_bound_any(b as int, g as int);
        lemma_mod_bound_any((a as int) % (b as int), g as int);
        lemma_mod_bound_any(a as int, g as int);
        crate::wrapping::lemma_remainder_step(a as int, b as int, g as int);
    }

    open spec fn spec_euclidean_norm(a: u32) -> u128 {
        a as u128
    }

    proof fn lemma_norm_zero(a: u32) {
        assert(<Self as Monoid<Additive>>::spec_identity() == 0);
        assert(Self::spec_euclidean_norm(a) == <Self as EuclideanDomain<Additive, Multiplicative>>::spec_euclidean_norm(a));
    }

    proof fn lemma_remainder_smaller(a: u32, b: u32) {
        assert(<Self as Monoid<Additive>>::spec_identity() == 0);
        let (q, r) = Self::spec_quot_rem(a, b);
        assert(Self::spec_euclidean_norm(r) == <Self as EuclideanDomain<Additive, Multiplicative>>::spec_euclidean_norm(r));
        assert(Self::spec_euclidean_norm(b) == <Self as EuclideanDomain<Additive, Multiplicative>>::spec_euclidean_norm(b));
        lemma_mod_bound(a as int, b as int);
    }

    proof fn lemma_division(a: u32, b: u32) {
        let (q, r) = Self::spec_quot_rem(a, b);
        lemma_fundamental_div_mod(a as int, b as int);
        lemma_mul_is_commutative(b as int, (a / b) as int);
        lemma_mod_bound(a as int, b as int);
        lemma_div_pos_is_pos(a as int, b as int);
        lemma_div_is_ordered_by_denominator(a as int, 1, b as int);
        lemma_div_basics(a as int);
        lemma_u32_ops(q, b);
        lemma_u32_ops(u32_specs::wrapping_mul(q, b), r);
        lemma_wrap_absorbed(q * b, r as int, 0 as int, 0x1_0000_0000);
        lemma_wrap_small(a as int, 0 as int, 0x1_0000_0000);
        assert(<Self as Magma<Additive>>::spec_combine(u32_specs::wrapping_mul(q, b), r) == u32_specs::wrapping_add(u32_specs::wrapping_mul(q, b), r));
        assert(<Self as Magma<Multiplicative>>::spec_combine(q, b) == u32_specs::wrapping_mul(q, b));
    }

    fn quot_rem(&self, divisor: &Self) -> (r: (Self, Self)) {
        proof {
            assert(self.model() == *self);
            assert(divisor.model() == *divisor);
            assert(<Self as Monoid<Additive>>::spec_identity() == 0);
        }
        (*self / *divisor, *self % *divisor)
    }

    fn euclidean_norm(&self) -> (r: u128) {
        proof {
            assert(self.model() == *self);
            assert(Self::spec_euclidean_norm(*self) == <Self as EuclideanDomain<Additive, Multiplicative>>::spec_euclidean_norm(*self));
        }
        *self as u128
    }
}

impl MeetSemilattice for u32 {
    open spec fn meet_follows_order() -> bool {
        true
    }

    proof fn lemma_meet_follows_order(a: Self, b: Self) {
    }

    open spec fn spec_meet(a: u32, b: u32) -> u32 {
        if a <= b {
            a
        } else {
            b
        }
    }

    proof fn lemma_meet_semilattice(a: u32, b: u32, c: u32) {
    }

    fn meet(&self, other: &Self) -> (r: Self) {
        if *self <= *other {
            *self
        } else {
            *other
        }
    }
}

impl JoinSemilattice for u32 {
    open spec fn join_follows_order() -> bool {
        true
    }

    proof fn lemma_join_follows_order(a: Self, b: Self) {
    }

    open spec fn spec_join(a: u32, b: u32) -> u32 {
        if a >= b {
            a
        } else {
            b
        }
    }

    proof fn lemma_join_semilattice(a: u32, b: u32, c: u32) {
    }

    fn join(&self, other: &Self) -> (r: Self) {
        if *self >= *other {
            *self
        } else {
            *other
        }
    }
}

impl Lattice for u32 {
    proof fn lemma_absorption(a: u32, b: u32) {
    }
}

impl DistributiveLattice for u32 {
    proof fn lemma_distributive(a: u32, b: u32, c: u32) {
    }
}

impl BoundedLattice for u32 {
    open spec fn spec_top() -> u32 {
        u32::MAX
    }

    open spec fn spec_bottom() -> u32 {
        u32::MIN
    }

    proof fn lemma_bounds(a: u32) {
    }

    fn top() -> (r: Self) {
        u32::MAX
    }

    fn bottom() -> (r: Self) {
        u32::MIN
    }
}

// ---- u64 ----

/// Wrapping `u64` arithmetic is arithmetic modulo `2^N` on the window of
/// `u64` values.
proof fn lemma_u64_ops(x: u64, y: u64)
    ensures
        u64_specs::wrapping_add(x, y) as int == wrap(x + y, 0 as int, 0x1_0000_0000_0000_0000),
        u64_specs::wrapping_sub(x, y) as int == wrap(x - y, 0 as int, 0x1_0000_0000_0000_0000),
        u64_specs::wrapping_mul(x, y) as int == wrap(x * y, 0 as int, 0x1_0000_0000_0000_0000),
        u64::MIN as int == 0 as int,
        u64::MAX as int == 0 as int + 0x1_0000_0000_0000_0000 - 1,
{
    lemma_wrap_near(x + y, 0 as int, 0x1_0000_0000_0000_0000);
    lemma_wrap_near(x - y, 0 as int, 0x1_0000_0000_0000_0000);
    lemma_wrap_from_remainder(x * y, 0, 0x1_0000_0000_0000_0000);
}

/// The ring laws of wrapping `u64` arithmetic.
proof fn lemma_u64_ring(a: u64, b: u64, c: u64)
    ensures
        u64_specs::wrapping_add(u64_specs::wrapping_add(a, b), c) == u64_specs::wrapping_add(a, u64_specs::wrapping_add(b, c)),
        u64_specs::wrapping_add(a, b) == u64_specs::wrapping_add(b, a),
        u64_specs::wrapping_add(a, 0) == a,
        u64_specs::wrapping_add(0, a) == a,
        u64_specs::wrapping_add(a, u64_specs::wrapping_sub(0, a)) == 0,
        u64_specs::wrapping_add(u64_specs::wrapping_sub(0, a), a) == 0,
        u64_specs::wrapping_mul(u64_specs::wrapping_mul(a, b), c) == u64_specs::wrapping_mul(a, u64_specs::wrapping_mul(b, c)),
        u64_specs::wrapping_mul(a, b) == u64_specs::wrapping_mul(b, a),
        u64_specs::wrapping_mul(a, 1) == a,
        u64_specs::wrapping_mul(1, a) == a,
        u64_specs::wrapping_mul(a, u64_specs::wrapping_add(b, c)) == u64_specs::wrapping_add(u64_specs::wrapping_mul(a, b), u64_specs::wrapping_mul(a, c)),
        u64_specs::wrapping_mul(u64_specs::wrapping_add(b, c), a) == u64_specs::wrapping_add(u64_specs::wrapping_mul(b, a), u64_specs::wrapping_mul(c, a)),
        u64_specs::wrapping_sub(u64_specs::wrapping_mul(a, b), u64_specs::wrapping_mul(b, a)) == 0,
{
    let ab = u64_specs::wrapping_add(a, b);
    let bc = u64_specs::wrapping_add(b, c);
    let na = u64_specs::wrapping_sub(0, a);
    let mab = u64_specs::wrapping_mul(a, b);
    let mbc = u64_specs::wrapping_mul(b, c);
    let mac = u64_specs::wrapping_mul(a, c);
    let mba = u64_specs::wrapping_mul(b, a);
    let mca = u64_specs::wrapping_mul(c, a);
    lemma_u64_ops(a, b);
    lemma_u64_ops(b, c);
    lemma_u64_ops(ab, c);
    lemma_u64_ops(a, bc);
    lemma_u64_ops(b, a);
    lemma_u64_ops(a, 0);
    lemma_u64_ops(0, a);
    lemma_u64_ops(a, na);
    lemma_u64_ops(na, a);
    lemma_u64_ops(a, c);
    lemma_u64_ops(c, a);
    lemma_u64_ops(mab, c);
    lemma_u64_ops(a, mbc);
    lemma_u64_ops(a, 1);
    lemma_u64_ops(1, a);
    lemma_u64_ops(bc, a);
    lemma_u64_ops(mab, mac);
    lemma_u64_ops(mba, mca);
    lemma_u64_ops(mab, mba);
    lemma_wrap_ring(a as int, b as int, c as int, 0 as int, 0x1_0000_0000_0000_0000);
    lemma_wrap_ring(b as int, a as int, c as int, 0 as int, 0x1_0000_0000_0000_0000);
    lemma_wrap_small(0, 0 as int, 0x1_0000_0000_0000_0000);
    assert(a * 1 == a);
    assert(0 + a == a);
}

impl Carrier for u64 {
    type Model = u64;

    open spec fn model(self) -> u64 {
        self
    }

    open spec fn contains(m: u64) -> bool {
        true
    }

    proof fn lemma_model_contained(x: &u64) {
    }
}

impl Magma<Additive> for u64 {
    open spec fn spec_combine(a: u64, b: u64) -> u64 {
        u64_specs::wrapping_add(a, b)
    }

    proof fn lemma_closed(a: u64, b: u64) {
    }

    fn combine(&self, rhs: &Self) -> (r: Self) {
        self.wrapping_add(*rhs)
    }
}

impl Magma<Multiplicative> for u64 {
    open spec fn spec_combine(a: u64, b: u64) -> u64 {
        u64_specs::wrapping_mul(a, b)
    }

    proof fn lemma_closed(a: u64, b: u64) {
    }

    fn combine(&self, rhs: &Self) -> (r: Self) {
        self.wrapping_mul(*rhs)
    }
}

impl Semigroup<Additive> for u64 {
    proof fn lemma_associative(a: u64, b: u64, c: u64) {
        lemma_u64_ring(a, b, c);
    }
}

impl Semigroup<Multiplicative> for u64 {
    proof fn lemma_associative(a: u64, b: u64, c: u64) {
        lemma_u64_ring(a, b, c);
    }
}

impl Monoid<Additive> for u64 {
    open spec fn spec_identity() -> u64 {
        0
    }

    proof fn lemma_identity(a: u64) {
        lemma_u64_ring(a, a, a);
    }

    fn identity() -> (r: Self) {
        0
    }
}

impl Monoid<Multiplicative> for u64 {
    open spec fn spec_identity() -> u64 {
        1
    }

    proof fn lemma_identity(a: u64) {
        lemma_u64_ring(a, a, a);
    }

    fn identity() -> (r: Self) {
        1
    }
}

impl Quasigroup<Additive> for u64 {
    proof fn lemma_latin_square(a: u64, b: u64) {
        lemma_u64_ring(a, a, a);
        lemma_group_latin_square::<Additive, u64>(a, b, u64_specs::wrapping_sub(0, a));
    }
}

impl Loop<Additive> for u64 {

}

impl Group<Additive> for u64 {
    open spec fn spec_inverse(a: u64) -> u64 {
        u64_specs::wrapping_sub(0, a)
    }

    proof fn lemma_inverse(a: u64) {
        lemma_u64_ring(a, a, a);
    }

    fn inverse(&self) -> (r: Self) {
        0u64.wrapping_sub(*self)
    }
}

impl AbelianGroup<Additive> for u64 {
    proof fn lemma_commutative(a: u64, b: u64) {
        lemma_u64_ring(a, b, b);
    }
}

impl Semiring<Additive, Multiplicative> for u64 {
    proof fn lemma_distributive(a: u64, b: u64, c: u64) {
        lemma_u64_ring(a, b, c);
    }
}

impl Ring<Additive, Multiplicative> for u64 {

}

impl CommutativeRing<Additive, Multiplicative> for u64 {
    proof fn lemma_multiplication_commutes(a: u64, b: u64) {
        lemma_u64_ring(a, b, b);
    }
}

impl Module<Additive, Multiplicative> for u64 {
    type Scalar = u64;

    open spec fn spec_scale(s: u64, v: u64) -> u64 {
        u64_specs::wrapping_mul(s, v)
    }

    proof fn lemma_module(s: u64, t: u64, u: u64, v: u64) {
        lemma_u64_ring(s, u, v);
        lemma_u64_ring(v, s, t);
        lemma_u64_ring(s, t, v);
    }

    fn scale(s: &u64, v: u64) -> (r: u64) {
        s.wrapping_mul(v)
    }
}

impl FreeModule<Additive, Multiplicative> for u64 {
    open spec fn spec_rank() -> usize {
        1
    }

    open spec fn spec_basis_element(i: usize) -> u64 {
        1
    }

    open spec fn spec_coordinate(v: u64, i: usize) -> u64 {
        v
    }

    proof fn lemma_basis(i: usize, j: usize) {
    }

    fn rank() -> (r: usize) {
        1
    }

    fn basis_element(i: usize) -> (r: u64) {
        1
    }

    fn coordinate(&self, i: usize) -> (r: u64) {
        *self
    }
}

impl Power<Additive> for u64 {

}

impl Power<Multiplicative> for u64 {

}

impl LieAlgebra<Additive> for u64 {
    open spec fn spec_bracket(a: u64, b: u64) -> u64 {
        u64_specs::wrapping_sub(u64_specs::wrapping_mul(a, b), u64_specs::wrapping_mul(b, a))
    }

    proof fn lemma_lie(a: u64, b: u64, c: u64) {
        lemma_u64_ring(a, a, a);
        lemma_u64_ring(b, b, b);
        lemma_u64_ring(c, c, c);
        lemma_u64_ring(a, b, b);
        lemma_u64_ring(b, c, c);
        lemma_u64_ring(c, a, a);
        lemma_u64_ring(a, 0, 0);
        lemma_u64_ring(b, 0, 0);
        lemma_u64_ring(c, 0, 0);
        lemma_u64_ring(0, 0, 0);
    }

    fn bracket(&self, other: &Self) -> (r: Self) {
        self.wrapping_mul(*other).wrapping_sub(other.wrapping_mul(*self))
    }
}

impl EuclideanDomain<Additive, Multiplicative> for u64 {
    open spec fn is_euclidean() -> bool {
        true
    }

    open spec fn spec_quot_rem(a: u64, b: u64) -> (u64, u64) {
        ((a / b) as u64, (a % b) as u64)
    }

    open spec fn quot_rem_defined(b: u64) -> bool {
        b != 0
    }

    proof fn lemma_nonzero_divisor_defined(b: u64) {
    }

    proof fn lemma_remainder_of_self_and_zero(b: u64) {
        lemma_mod_bound_any(b as int, b as int);
        lemma_multiple_remainder(1, b as int);
        lemma_multiple_remainder(0, b as int);
    }

    proof fn lemma_remainder_step(a: u64, b: u64, g: u64) {
        lemma_mod_bound_any(a as int, b as int);
        lemma_mod_bound_any(b as int, g as int);
        lemma_mod_bound_any((a as int) % (b as int), g as int);
        lemma_mod_bound_any(a as int, g as int);
        crate::wrapping::lemma_remainder_step(a as int, b as int, g as int);
    }

    open spec fn spec_euclidean_norm(a: u64) -> u128 {
        a as u128
    }

    proof fn lemma_norm_zero(a: u64) {
        assert(<Self as Monoid<Additive>>::spec_identity() == 0);
        assert(Self::spec_euclidean_norm(a) == <Self as EuclideanDomain<Additive, Multiplicative>>::spec_euclidean_norm(a));
    }

    proof fn lemma_remainder_smaller(a: u64, b: u64) {
        assert(<Self as Monoid<Additive>>::spec_identity() == 0);
        let (q, r) = Self::spec_quot_rem(a, b);
        assert(Self::spec_euclidean_norm(r) == <Self as EuclideanDomain<Additive, Multiplicative>>::spec_euclidean_norm(r));
        assert(Self::spec_euclidean_norm(b) == <Self as EuclideanDomain<Additive, Multiplicative>>::spec_euclidean_norm(b));
        lemma_mod_bound(a as int, b as int);
    }

    proof fn lemma_division(a: u64, b: u64) {
        let (q, r) = Self::spec_quot_rem(a, b);
        lemma_fundamental_div_mod(a as int, b as int);
        lemma_mul_is_commutative(b as int, (a / b) as int);
        lemma_mod_bound(a as int, b as int);
        lemma_div_pos_is_pos(a as int, b as int);
        lemma_div_is_ordered_by_denominator(a as int, 1, b as int);
        lemma_div_basics(a as int);
        lemma_u64_ops(q, b);
        lemma_u64_ops(u64_specs::wrapping_mul(q, b), r);
        lemma_wrap_absorbed(q * b, r as int, 0 as int, 0x1_0000_0000_0000_0000);
        lemma_wrap_small(a as int, 0 as int, 0x1_0000_0000_0000_0000);
        assert(<Self as Magma<Additive>>::spec_combine(u64_specs::wrapping_mul(q, b), r) == u64_specs::wrapping_add(u64_specs::wrapping_mul(q, b), r));
        assert(<Self as Magma<Multiplicative>>::spec_combine(q, b) == u64_specs::wrapping_mul(q, b));
    }

    fn quot_rem(&self, divisor: &Self) -> (r: (Self, Self)) {
        proof {
            assert(self.model() == *self);
            assert(divisor.model() == *divisor);
            assert(<Self as Monoid<Additive>>::spec_identity() == 0);
        }
        (*self / *divisor, *self % *divisor)
    }

    fn euclidean_norm(&self) -> (r: u128) {
        proof {
            assert(self.model() == *self);
            assert(Self::spec_euclidean_norm(*self) == <Self as EuclideanDomain<Additive, Multiplicative>>::spec_euclidean_norm(*self));
        }
        *self as u128
    }
}

impl MeetSemilattice for u64 {
    open spec fn meet_follows_order() -> bool {
        true
    }

    proof fn lemma_meet_follows_order(a: Self, b: Self) {
    }

    open spec fn spec_meet(a: u64, b: u64) -> u64 {
        if a <= b {
            a
        } else {
            b
        }
    }

    proof fn lemma_meet_semilattice(a: u64, b: u64, c: u64) {
    }

    fn meet(&self, other: &Self) -> (r: Self) {
        if *self <= *other {
            *self
        } else {
            *other
        }
    }
}

impl JoinSemilattice for u64 {
    open spec fn join_follows_order() -> bool {
        true
    }

    proof fn lemma_join_follows_order(a: Self, b: Self) {
    }

    open spec fn spec_join(a: u64, b: u64) -> u64 {
        if a >= b {
            a
        } else {
            b
        }
    }

    proof fn lemma_join_semilattice(a: u64, b: u64, c: u64) {
    }

    fn join(&self, other: &Self) -> (r: Self) {
        if *self >= *other {
            *self
        } else {
            *other
        }
    }
}

impl Lattice for u64 {
    proof fn lemma_absorption(a: u64, b: u64) {
    }
}

impl DistributiveLattice for u64 {
    proof fn lemma_distributive(a: u64, b: u64, c: u64) {
    }
}

impl BoundedLattice for u64 {
    open spec fn spec_top() -> u64 {
        u64::MAX
    }

    open spec fn spec_bottom() -> u64 {
        u64::MIN
    }

    proof fn lemma_bounds(a: u64) {
    }

    fn top() -> (r: Self) {
        u64::MAX
    }

    fn bottom() -> (r: Self) {
        u64::MIN
    }
}

// ---- u128 ----

/// Wrapping `u128` arithmetic is arithmetic modulo `2^N` on the window of
/// `u128` values.
proof fn lemma_u128_ops(x: u128, y: u128)
    ensures
        u128_specs::wrapping_add(x, y) as int == wrap(x + y, 0 as int, 0x1_0000_0000_0000_0000_0000_0000_0000_0000int),
        u128_specs::wrapping_sub(x, y) as int == wrap(x - y, 0 as int, 0x1_0000_0000_0000_0000_0000_0000_0000_0000int),
        u128_specs::wrapping_mul(x, y) as int == wrap(x * y, 0 as int, 0x1_0000_0000_0000_0000_0000_0000_0000_0000int),
        u128::MIN as int == 0 as int,
        u128::MAX as int == 0 as int + 0x1_0000_0000_0000_0000_0000_0000_0000_0000int - 1,
{
    lemma_wrap_near(x + y, 0 as int, 0x1_0000_0000_0000_0000_0000_0000_0000_0000int);
    lemma_wrap_near(x - y, 0 as int, 0x1_0000_0000_0000_0000_0000_0000_0000_0000int);
    lemma_wrap_from_remainder(x * y, 0, 0x1_0000_0000_0000_0000_0000_0000_0000_0000int);
}

/// The ring laws of wrapping `u128` arithmetic.
proof fn lemma_u128_ring(a: u128, b: u128, c: u128)
    ensures
        u128_specs::wrapping_add(u128_specs::wrapping_add(a, b), c) == u128_specs::wrapping_add(a, u128_specs::wrapping_add(b, c)),
        u128_specs::wrapping_add(a, b) == u128_specs::wrapping_add(b, a),
        u128_specs::wrapping_add(a, 0) == a,
        u128_specs::wrapping_add(0, a) == a,
        u128_specs::wrapping_add(a, u128_specs::wrapping_sub(0, a)) == 0,
        u128_specs::wrapping_add(u128_specs::wrapping_sub(0, a), a) == 0,
        u128_specs::wrapping_mul(u128_specs::wrapping_mul(a, b), c) == u128_specs::wrapping_mul(a, u128_specs::wrapping_mul(b, c)),
        u128_specs::wrapping_mul(a, b) == u128_specs::wrapping_mul(b, a),
        u128_specs::wrapping_mul(a, 1) == a,
        u128_specs::wrapping_mul(1, a) == a,
        u128_specs::wrapping_mul(a, u128_specs::wrapping_add(b, c)) == u128_specs::wrapping_add(u128_specs::wrapping_mul(a, b), u128_specs::wrapping_mul(a, c)),
        u128_specs::wrapping_mul(u128_specs::wrapping_add(b, c), a) == u128_specs::wrapping_add(u128_specs::wrapping_mul(b, a), u128_specs::wrapping_mul(c, a)),
        u128_specs::wrapping_sub(u128_specs::wrapping_mul(a, b), u128_specs::wrapping_mul(b, a)) == 0,
{
    let ab = u128_specs::wrapping_add(a, b);
    let bc = u128_specs::wrapping_add(b, c);
    let na = u128_specs::wrapping_sub(0, a);
    let mab = u128_specs::wrapping_mul(a, b);
    let mbc = u128_specs::wrapping_mul(b, c);
    let mac = u128_specs::wrapping_mul(a, c);
    let mba = u128_specs::wrapping_mul(b, a);
    let mca = u128_specs::wrapping_mul(c, a);
    lemma_u128_ops(a, b);
    lemma_u128_ops(b, c);
    lemma_u128_ops(ab, c);
    lemma_u128_ops(a, bc);
    lemma_u128_ops(b, a);
    lemma_u128_ops(a, 0);
    lemma_u128_ops(0, a);
    lemma_u128_ops(a, na);
    lemma_u128_ops(na, a);
    lemma_u128_ops(a, c);
    lemma_u128_ops(c, a);
    lemma_u128_ops(mab, c);
    lemma_u128_ops(a, mbc);
    lemma_u128_ops(a, 1);
    lemma_u128_ops(1, a);
    lemma_u128_ops(bc, a);
    lemma_u128_ops(mab, mac);
    lemma_u128_ops(mba, mca);
    lemma_u128_ops(mab, mba);
    lemma_wrap_ring(a as int, b as int, c as int, 0 as int, 0x1_0000_0000_0000_0000_0000_0000_0000_0000int);
    lemma_wrap_ring(b as int, a as int, c as int, 0 as int, 0x1_0000_0000_0000_0000_0000_0000_0000_0000int);
    lemma_wrap_small(0, 0 as int, 0x1_0000_0000_0000_0000_0000_0000_0000_0000int);
    assert(a * 1 == a);
    assert(0 + a == a);
}

impl Carrier for u128 {
    type Model = u128;

    open spec fn model(self) -> u128 {
        self
    }

    open spec fn contains(m: u128) -> bool {
        true
    }

    proof fn lemma_model_contained(x: &u128) {
    }
}

impl Magma<Additive> for u128 {
    open spec fn spec_combine(a: u128, b: u128) -> u128 {
        u128_specs::wrapping_add(a, b)
    }

    proof fn lemma_closed(a: u128, b: u128) {
    }

    fn combine(&self, rhs: &Self) -> (r: Self) {
        self.wrapping_add(*rhs)
    }
}

impl Magma<Multiplicative> for u128 {
    open spec fn spec_combine(a: u128, b: u128) -> u128 {
        u128_specs::wrapping_mul(a, b)
    }

    proof fn lemma_closed(a: u128, b: u128) {
    }

    fn combine(&self, rhs: &Self) -> (r: Self) {
        self.wrapping_mul(*rhs)
    }
}

impl Semigroup<Additive> for u128 {
    proof fn lemma_associative(a: u128, b: u128, c: u128) {
        lemma_u128_ring(a, b, c);
    }
}

impl Semigroup<Multiplicative> for u128 {
    proof fn lemma_associative(a: u128, b: u128, c: u128) {
        lemma_u128_ring(a, b, c);
    }
}

impl Monoid<Additive> for u128 {
    open spec fn spec_identity() -> u128 {
        0
    }

    proof fn lemma_identity(a: u128) {
        lemma_u128_ring(a, a, a);
    }

    fn identity() -> (r: Self) {
        0
    }
}

impl Monoid<Multiplicative> for u128 {
    open spec fn spec_identity() -> u128 {
        1
    }

    proof fn lemma_identity(a: u128) {
        lemma_u128_ring(a, a, a);
    }

    fn identity() -> (r: Self) {
        1
    }
}

impl Quasigroup<Additive> for u128 {
    proof fn lemma_latin_square(a: u128, b: u128) {
        lemma_u128_ring(a, a, a);
        lemma_group_latin_square::<Additive, u128>(a, b, u128_specs::wrapping_sub(0, a));
    }
}

impl Loop<Additive> for u128 {

}

impl Group<Additive> for u128 {
    open spec fn spec_inverse(a: u128) -> u128 {
        u128_specs::wrapping_sub(0, a)
    }

    proof fn lemma_inverse(a: u128) {
        lemma_u128_ring(a, a, a);
    }

    fn inverse(&self) -> (r: Self) {
        0u128.wrapping_sub(*self)
    }
}

impl AbelianGroup<Additive> for u128 {
    proof fn lemma_commutative(a: u128, b: u128) {
        lemma_u128_ring(a, b, b);
    }
}

impl Semiring<Additive, Multiplicative> for u128 {
    proof fn lemma_distributive(a: u128, b: u128, c: u128) {
        lemma_u128_ring(a, b, c);
    }
}

impl Ring<Additive, Multiplicative> for u128 {

}

impl CommutativeRing<Additive, Multiplicative> for u128 {
    proof fn lemma_multiplication_commutes(a: u128, b: u128) {
        lemma_u128_ring(a, b, b);
    }
}

impl Module<Additive, Multiplicative> for u128 {
    type Scalar = u128;

    open spec fn spec_scale(s: u128, v: u128) -> u128 {
        u128_specs::wrapping_mul(s, v)
    }

    proof fn lemma_module(s: u128, t: u128, u: u128, v: u128) {
        lemma_u128_ring(s, u, v);
        lemma_u128_ring(v, s, t);
        lemma_u128_ring(s, t, v);
    }

    fn scale(s: &u128, v: u128) -> (r: u128) {
        s.wrapping_mul(v)
    }
}

impl FreeModule<Additive, Multiplicative> for u128 {
    open spec fn spec_rank() -> usize {
        1
    }

    open spec fn spec_basis_element(i: usize) -> u128 {
        1
    }

    open spec fn spec_coordinate(v: u128, i: usize) -> u128 {
        v
    }

    proof fn lemma_basis(i: usize, j: usize) {
    }

    fn rank() -> (r: usize) {
        1
    }

    fn basis_element(i: usize) -> (r: u128) {
        1
    }

    fn coordinate(&self, i: usize) -> (r: u128) {
        *self
    }
}

impl Power<Additive> for u128 {

}

impl Power<Multiplicative> for u128 {

}

impl LieAlgebra<Additive> for u128 {
    open spec fn spec_bracket(a: u128, b: u128) -> u128 {
        u128_specs::wrapping_sub(u128_specs::wrapping_mul(a, b), u128_specs::wrapping_mul(b, a))
    }

    proof fn lemma_lie(a: u128, b: u128, c: u128) {
        lemma_u128_ring(a, a, a);
        lemma_u128_ring(b, b, b);
        lemma_u128_ring(c, c, c);
        lemma_u128_ring(a, b, b);
        lemma_u128_ring(b, c, c);
        lemma_u128_ring(c, a, a);
        lemma_u128_ring(a, 0, 0);
        lemma_u128_ring(b, 0, 0);
        lemma_u128_ring(c, 0, 0);
        lemma_u128_ring(0, 0, 0);
    }

    fn bracket(&self, other: &Self) -> (r: Self) {
        self.wrapping_mul(*other).wrapping_sub(other.wrapping_mul(*self))
    }
}

impl EuclideanDomain<Additive, Multiplicative> for u128 {
    open spec fn is_euclidean() -> bool {
        true
    }

    open spec fn spec_quot_rem(a: u128, b: u128) -> (u128, u128) {
        ((a / b) as u128, (a % b) as u128)
    }

    open spec fn quot_rem_defined(b: u128) -> bool {
        b != 0
    }

    proof fn lemma_nonzero_divisor_defined(b: u128) {
    }

    proof fn lemma_remainder_of_self_and_zero(b: u128) {
        lemma_mod_bound_any(b as int, b as int);
        lemma_multiple_remainder(1, b as int);
        lemma_multiple_remainder(0, b as int);
    }

    proof fn lemma_remainder_step(a: u128, b: u128, g: u128) {
        lemma_mod_bound_any(a as int, b as int);
        lemma_mod_bound_any(b as int, g as int);
        lemma_mod_bound_any((a as int) % (b as int), g as int);
        lemma_mod_bound_any(a as int, g as int);
        crate::wrapping::lemma_remainder_step(a as int, b as int, g as int);
    }

    open spec fn spec_euclidean_norm(a: u128) -> u128 {
        a as u128
    }

    proof fn lemma_norm_zero(a: u128) {
        assert(<Self as Monoid<Additive>>::spec_identity() == 0);
        assert(Self::spec_euclidean_norm(a) == <Self as EuclideanDomain<Additive, Multiplicative>>::spec_euclidean_norm(a));
    }

    proof fn lemma_remainder_smaller(a: u128, b: u128) {
        assert(<Self as Monoid<Additive>>::spec_identity() == 0);
        let (q, r) = Self::spec_quot_rem(a, b);
        assert(Self::spec_euclidean_norm(r) == <Self as EuclideanDomain<Additive, Multiplicative>>::spec_euclidean_norm(r));
        assert(Self::spec_euclidean_norm(b) == <Self as EuclideanDomain<Additive, Multiplicative>>::spec_euclidean_norm(b));
        lemma_mod_bound(a as int, b as int);
    }

    proof fn lemma_division(a: u128, b: u128) {
        let (q, r) = Self::spec_quot_rem(a, b);
        lemma_fundamental_div_mod(a as int, b as int);
        lemma_mul_is_commutative(b as int, (a / b) as int);
        lemma_mod_bound(a as int, b as int);
        lemma_div_pos_is_pos(a as int, b as int);
        lemma_div_is_ordered_by_denominator(a as int, 1, b as int);
        lemma_div_basics(a as int);
        lemma_u128_ops(q, b);
        lemma_u128_ops(u128_specs::wrapping_mul(q, b), r);
        lemma_wrap_absorbed(q * b, r as int, 0 as int, 0x1_0000_0000_0000_0000_0000_0000_0000_0000int);
        lemma_wrap_small(a as int, 0 as int, 0x1_0000_0000_0000_0000_0000_0000_0000_0000int);
        assert(<Self as Magma<Additive>>::spec_combine(u128_specs::wrapping_mul(q, b), r) == u128_specs::wrapping_add(u128_specs::wrapping_mul(q, b), r));
        assert(<Self as Magma<Multiplicative>>::spec_combine(q, b) == u128_specs::wrapping_mul(q, b));
    }

    fn quot_rem(&self, divisor: &Self) -> (r: (Self, Self)) {
        proof {
            assert(self.model() == *self);
            assert(divisor.model() == *divisor);
            assert(<Self as Monoid<Additive>>::spec_identity() == 0);
        }
        (*self / *divisor, *self % *divisor)
    }

    fn euclidean_norm(&self) -> (r: u128) {
        proof {
            assert(self.model() == *self);
            assert(Self::spec_euclidean_norm(*self) == <Self as EuclideanDomain<Additive, Multiplicative>>::spec_euclidean_norm(*self));
        }
        *self as u128
    }
}

impl MeetSemilattice for u128 {
    open spec fn meet_follows_order() -> bool {
        true
    }

    proof fn lemma_meet_follows_order(a: Self, b: Self) {
    }

    open spec fn spec_meet(a: u128, b: u128) -> u128 {
        if a <= b {
            a
        } else {
            b
        }
    }

    proof fn lemma_meet_semilattice(a: u128, b: u128, c: u128) {
    }

    fn meet(&self, other: &Self) -> (r: Self) {
        if *self <= *other {
            *self
        } else {
            *other
        }
    }
}

impl JoinSemilattice for u128 {
    open spec fn join_follows_order() -> bool {
        true
    }

    proof fn lemma_join_follows_order(a: Self, b: Self) {
    }

    open spec fn spec_join(a: u128, b: u128) -> u128 {
        if a >= b {
            a
        } else {
            b
        }
    }

    proof fn lemma_join_semilattice(a: u128, b: u128, c: u128) {
    }

    fn join(&self, other: &Self) -> (r: Self) {
        if *self >= *other {
            *self
        } else {
            *other
        }
    }
}

impl Lattice for u128 {
    proof fn lemma_absorption(a: u128, b: u128) {
    }
}

impl DistributiveLattice for u128 {
    proof fn lemma_distributive(a: u128, b: u128, c: u128) {
    }
}

impl BoundedLattice for u128 {
    open spec fn spec_top() -> u128 {
        u128::MAX
    }

    open spec fn spec_bottom() -> u128 {
        u128::MIN
    }

    proof fn lemma_bounds(a: u128) {
    }

    fn top() -> (r: Self) {
        u128::MAX
    }

    fn bottom() -> (r: Self) {
        u128::MIN
    }
}

// ---- usize ----

/// Wrapping `usize` arithmetic is arithmetic modulo `2^N` on the window of
/// `usize` values.
proof fn lemma_usize_ops(x: usize, y: usize)
    ensures
        usize_specs::wrapping_add(x, y) as int == wrap(x + y, 0 as int, (usize::MAX - usize::MIN + 1)),
        usize_specs::wrapping_sub(x, y) as int == wrap(x - y, 0 as int, (usize::MAX - usize::MIN + 1)),
        usize_specs::wrapping_mul(x, y) as int == wrap(x * y, 0 as int, (usize::MAX - usize::MIN + 1)),
        usize::MIN as int == 0 as int,
        usize::MAX as int == 0 as int + (usize::MAX - usize::MIN + 1) - 1,
{
    lemma_wrap_near(x + y, 0 as int, (usize::MAX - usize::MIN + 1));
    lemma_wrap_near(x - y, 0 as int, (usize::MAX - usize::MIN + 1));
    lemma_wrap_from_remainder(x * y, 0, (usize::MAX - usize::MIN + 1));
}

/// The ring laws of wrapping `usize` arithmetic.
proof fn lemma_usize_ring(a: usize, b: usize, c: usize)
    ensures
        usize_specs::wrapping_add(usize_specs::wrapping_add(a, b), c) == usize_specs::wrapping_add(a, usize_specs::wrapping_add(b, c)),
        usize_specs::wrapping_add(a, b) == usize_specs::wrapping_add(b, a),
        usize_specs::wrapping_add(a, 0) == a,
        usize_specs::wrapping_add(0, a) == a,
        usize_specs::wrapping_add(a, usize_specs::wrapping_sub(0, a)) == 0,
        usize_specs::wrapping_add(usize_specs::wrapping_sub(0, a), a) == 0,
        usize_specs::wrapping_mul(usize_specs::wrapping_mul(a, b), c) == usize_specs::wrapping_mul(a, usize_specs::wrapping_mul(b, c)),
        usize_specs::wrapping_mul(a, b) == usize_specs::wrapping_mul(b, a),
        usize_specs::wrapping_mul(a, 1) == a,
        usize_specs::wrapping_mul(1, a) == a,
        usize_specs::wrapping_mul(a, usize_specs::wrapping_add(b, c)) == usize_specs::wrapping_add(usize_specs::wrapping_mul(a, b), usize_specs::wrapping_mul(a, c)),
        usize_specs::wrapping_mul(usize_specs::wrapping_add(b, c), a) == usize_specs::wrapping_add(usize_specs::wrapping_mul(b, a), usize_specs::wrapping_mul(c, a)),
        usize_specs::wrapping_sub(usize_specs::wrapping_mul(a, b), usize_specs::wrapping_mul(b, a)) == 0,
{
    let ab = usize_specs::wrapping_add(a, b);
    let bc = usize_specs::wrapping_add(b, c);
    let na = usize_specs::wrapping_sub(0, a);
    let mab = usize_specs::wrapping_mul(a, b);
    let mbc = usize_specs::wrapping_mul(b, c);
    let mac = usize_specs::wrapping_mul(a, c);
    let mba = usize_specs::wrapping_mul(b, a);
    let mca = usize_specs::wrapping_mul(c, a);
    lemma_usize_ops(a, b);
    lemma_usize_ops(b, c);
    lemma_usize_ops(ab, c);
    lemma_usize_ops(a, bc);
    lemma_usize_ops(b, a);
    lemma_usize_ops(a, 0);
    lemma_usize_ops(0, a);
    lemma_usize_ops(a, na);
    lemma_usize_ops(na, a);
    lemma_usize_ops(a, c);
    lemma_usize_ops(c, a);
    lemma_usize_ops(mab, c);
    lemma_usize_ops(a, mbc);
    lemma_usize_ops(a, 1);
    lemma_usize_ops(1, a);
    lemma_usize_ops(bc, a);
    lemma_usize_ops(mab, mac);
    lemma_usize_ops(mba, mca);
    lemma_usize_ops(mab, mba);
    lemma_wrap_ring(a as int, b as int, c as int, 0 as int, (usize::MAX - usize::MIN + 1));
    lemma_wrap_ring(b as int, a as int, c as int, 0 as int, (usize::MAX - usize::MIN + 1));
    lemma_wrap_small(0, 0 as int, (usize::MAX - usize::MIN + 1));
    assert(a * 1 == a);
    assert(0 + a == a);
}

impl Carrier for usize {
    type Model = usize;

    open spec fn model(self) -> usize {
        self
    }

    open spec fn contains(m: usize) -> bool {
        true
    }

    proof fn lemma_model_contained(x: &usize) {
    }
}

impl Magma<Additive> for usize {
    open spec fn spec_combine(a: usize, b: usize) -> usize {
        usize_specs::wrapping_add(a, b)
    }

    proof fn lemma_closed(a: usize, b: usize) {
    }

    fn combine(&self, rhs: &Self) -> (r: Self) {
        self.wrapping_add(*rhs)
    }
}

impl Magma<Multiplicative> for usize {
    open spec fn spec_combine(a: usize, b: usize) -> usize {
        usize_specs::wrapping_mul(a, b)
    }

    proof fn lemma_closed(a: usize, b: usize) {
    }

    fn combine(&self, rhs: &Self) -> (r: Self) {
        self.wrapping_mul(*rhs)
    }
}

impl Semigroup<Additive> for usize {
    proof fn lemma_associative(a: usize, b: usize, c: usize) {
        lemma_usize_ring(a, b, c);
    }
}

impl Semigroup<Multiplicative> for usize {
    proof fn lemma_associative(a: usize, b: usize, c: usize) {
        lemma_usize_ring(a, b, c);
    }
}

impl Monoid<Additive> for usize {
    open spec fn spec_identity() -> usize {
        0
    }

    proof fn lemma_identity(a: usize) {
        lemma_usize_ring(a, a, a);
    }

    fn identity() -> (r: Self) {
        0
    }
}

impl Monoid<Multiplicative> for usize {
    open spec fn spec_identity() -> usize {
        1
    }

    proof fn lemma_identity(a: usize) {
        lemma_usize_ring(a, a, a);
    }

    fn identity() -> (r: Self) {
        1
    }
}

impl Quasigroup<Additive> for usize {
    proof fn lemma_latin_square(a: usize, b: usize) {
        lemma_usize_ring(a, a, a);
        lemma_group_latin_square::<Additive, usize>(a, b, usize_specs::wrapping_sub(0, a));
    }
}

impl Loop<Additive> for usize {

}

impl Group<Additive> for usize {
    open spec fn spec_inverse(a: usize) -> usize {
        usize_specs::wrapping_sub(0, a)
    }

    proof fn lemma_inverse(a: usize) {
        lemma_usize_ring(a, a, a);
    }

    fn inverse(&self) -> (r: Self) {
        0usize.wrapping_sub(*self)
    }
}

impl AbelianGroup<Additive> for usize {
    proof fn lemma_commutative(a: usize, b: usize) {
        lemma_usize_ring(a, b, b);
    }
}

impl Semiring<Additive, Multiplicative> for usize {
    proof fn lemma_distributive(a: usize, b: usize, c: usize) {
        lemma_usize_ring(a, b, c);
    }
}

impl Ring<Additive, Multiplicative> for usize {

}

impl CommutativeRing<Additive, Multiplicative> for usize {
    proof fn lemma_multiplication_commutes(a: usize, b: usize) {
        lemma_usize_ring(a, b, b);
    }
}

impl Module<Additive, Multiplicative> for usize {
    type Scalar = usize;

    open spec fn spec_scale(s: usize, v: usize) -> usize {
        usize_specs::wrapping_mul(s, v)
    }

    proof fn lemma_module(s: usize, t: usize, u: usize, v: usize) {
        lemma_usize_ring(s, u, v);
        lemma_usize_ring(v, s, t);
        lemma_usize_ring(s, t, v);
    }

    fn scale(s: &usize, v: usize) -> (r: usize) {
        s.wrapping_mul(v)
    }
}

impl FreeModule<Additive, Multiplicative> for usize {
    open spec fn spec_rank() -> usize {
        1
    }

    open spec fn spec_basis_element(i: usize) -> usize {
        1
    }

    open spec fn spec_coordinate(v: usize, i: usize) -> usize {
        v
    }

    proof fn lemma_basis(i: usize, j: usize) {
    }

    fn rank() -> (r: usize) {
        1
    }

    fn basis_element(i: usize) -> (r: usize) {
        1
    }

    fn coordinate(&self, i: usize) -> (r: usize) {
        *self
    }
}

impl Power<Additive> for usize {

}

impl Power<Multiplicative> for usize {

}

impl LieAlgebra<Additive> for usize {
    open spec fn spec_bracket(a: usize, b: usize) -> usize {
        usize_specs::wrapping_sub(usize_specs::wrapping_mul(a, b), usize_specs::wrapping_mul(b, a))
    }

    proof fn lemma_lie(a: usize, b: usize, c: usize) {
        lemma_usize_ring(a, a, a);
        lemma_usize_ring(b, b, b);
        lemma_usize_ring(c, c, c);
        lemma_usize_ring(a, b, b);
        lemma_usize_ring(b, c, c);
        lemma_usize_ring(c, a, a);
        lemma_usize_ring(a, 0, 0);
        lemma_usize_ring(b, 0, 0);
        lemma_usize_ring(c, 0, 0);
        lemma_usize_ring(0, 0, 0);
    }

    fn bracket(&self, other: &Self) -> (r: Self) {
        self.wrapping_mul(*other).wrapping_sub(other.wrapping_mul(*self))
    }
}

impl EuclideanDomain<Additive, Multiplicative> for usize {
    open spec fn is_euclidean() -> bool {
        true
    }

    open spec fn spec_quot_rem(a: usize, b: usize) -> (usize, usize) {
        ((a / b) as usize, (a % b) as usize)
    }

    open spec fn quot_rem_defined(b: usize) -> bool {
        b != 0
    }

    proof fn lemma_nonzero_divisor_defined(b: usize) {
    }

    proof fn lemma_remainder_of_self_and_zero(b: usize) {
        lemma_mod_bound_any(b as int, b as int);
        lemma_multiple_remainder(1, b as int);
        lemma_multiple_remainder(0, b as int);
    }

    proof fn lemma_remainder_step(a: usize, b: usize, g: usize) {
        lemma_mod_bound_any(a as int, b as int);
        lemma_mod_bound_any(b as int, g as int);
        lemma_mod_bound_any((a as int) % (b as int), g as int);
        lemma_mod_bound_any(a as int, g as int);
        crate::wrapping::lemma_remainder_step(a as int, b as int, g as int);
    }

    open spec fn spec_euclidean_norm(a: usize) -> u128 {
        a as u128
    }

    proof fn lemma_norm_zero(a: usize) {
        assert(<Self as Monoid<Additive>>::spec_identity() == 0);
        assert(Self::spec_euclidean_norm(a) == <Self as EuclideanDomain<Additive, Multiplicative>>::spec_euclidean_norm(a));
    }

    proof fn lemma_remainder_smaller(a: usize, b: usize) {
        assert(<Self as Monoid<Additive>>::spec_identity() == 0);
        let (q, r) = Self::spec_quot_rem(a, b);
        assert(Self::spec_euclidean_norm(r) == <Self as EuclideanDomain<Additive, Multiplicative>>::spec_euclidean_norm(r));
        assert(Self::spec_euclidean_norm(b) == <Self as EuclideanDomain<Additive, Multiplicative>>::spec_euclidean_norm(b));
        lemma_mod_bound(a as int, b as int);
    }

    proof fn lemma_division(a: usize, b: usize) {
        let (q, r) = Self::spec_quot_rem(a, b);
        lemma_fundamental_div_mod(a as int, b as int);
        lemma_mul_is_commutative(b as int, (a / b) as int);
        lemma_mod_bound(a as int, b as int);
        lemma_div_pos_is_pos(a as int, b as int);
        lemma_div_is_ordered_by_denominator(a as int, 1, b as int);
        lemma_div_basics(a as int);
        lemma_usize_ops(q, b);
        lemma_usize_ops(usize_specs::wrapping_mul(q, b), r);
        lemma_wrap_absorbed(q * b, r as int, 0 as int, (usize::MAX - usize::MIN + 1));
        lemma_wrap_small(a as int, 0 as int, (usize::MAX - usize::MIN + 1));
        assert(<Self as Magma<Additive>>::spec_combine(usize_specs::wrapping_mul(q, b), r) == usize_specs::wrapping_add(usize_specs::wrapping_mul(q, b), r));
        assert(<Self as Magma<Multiplicative>>::spec_combine(q, b) == usize_specs::wrapping_mul(q, b));
    }

    fn quot_rem(&self, divisor: &Self) -> (r: (Self, Self)) {
        proof {
            assert(self.model() == *self);
            assert(divisor.model() == *divisor);
            assert(<Self as Monoid<Additive>>::spec_identity() == 0);
        }
        (*self / *divisor, *self % *divisor)
    }

    fn euclidean_norm(&self) -> (r: u128) {
        proof {
            assert(self.model() == *self);
            assert(Self::spec_euclidean_norm(*self) == <Self as EuclideanDomain<Additive, Multiplicative>>::spec_euclidean_norm(*self));
        }
        *self as u128
    }
}

impl MeetSemilattice for usize {
    open spec fn meet_follows_order() -> bool {
        true
    }

    proof fn lemma_meet_follows_order(a: Self, b: Self) {
    }

    open spec fn spec_meet(a: usize, b: usize) -> usize {
        if a <= b {
            a
        } else {
            b
        }
    }

    proof fn lemma_meet_semilattice(a: usize, b: usize, c: usize) {
    }

    fn meet(&self, other: &Self) -> (r: Self) {
        if *self <= *other {
            *self
        } else {
            *other
        }
    }
}

impl JoinSemilattice for usize {
    open spec fn join_follows_order() -> bool {
        true
    }

    proof fn lemma_join_follows_order(a: Self, b: Self) {
    }

    open spec fn spec_join(a: usize, b: usize) -> usize {
        if a >= b {
            a
        } else {
            b
        }
    }

    proof fn lemma_join_semilattice(a: usize, b: usize, c: usize) {
    }

    fn join(&self, other: &Self) -> (r: Self) {
        if *self >= *other {
            *self
        } else {
            *other
        }
    }
}

impl Lattice for usize {
    proof fn lemma_absorption(a: usize, b: usize) {
    }
}

impl DistributiveLattice for usize {
    proof fn lemma_distributive(a: usize, b: usize, c: usize) {
    }
}

impl BoundedLattice for usize {
    open spec fn spec_top() -> usize {
        usize::MAX
    }

    open spec fn spec_bottom() -> usize {
        usize::MIN
    }

    proof fn lemma_bounds(a: usize) {
    }

    fn top() -> (r: Self) {
        usize::MAX
    }

    fn bottom() -> (r: Self) {
        usize::MIN
    }
}

} // verus!

