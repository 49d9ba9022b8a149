//! Identities of an abstract ring, over the models of a
//! [`Ring`](crate::tower::Ring) under `Additive` and `Multiplicative`.
//!
//! The ring structures built from a ring (complex numbers, quaternions)
//! prove their laws from these: every identity here follows from the ring
//! axioms that the tower states.
use crate::op::{Additive, Multiplicative};
use crate::tower::euclidean::{lemma_neg_mul, lemma_zero_absorbs};
use crate::tower::{AbelianGroup, CommutativeRing, Group, Magma, Monoid, Ring, Semigroup, Semiring};
use vstd::prelude::*;

verus! {

/// `x + y` on models.
pub open spec fn plus<T: Ring<Additive, Multiplicative>>(x: T::Model, y: T::Model) -> T::Model {
    <T as Magma<Additive>>::spec_combine(x, y)
}

/// `x · y` on models.
pub open spec fn times<T: Ring<Additive, Multiplicative>>(x: T::Model, y: T::Model) -> T::Model {
    <T as Magma<Multiplicative>>::spec_combine(x, y)
}

/// `-x` on models.
pub open spec fn neg<T: Ring<Additive, Multiplicative>>(x: T::Model) -> T::Model {
    <T as Group<Additive>>::spec_inverse(x)
}

/// `0` on models.
pub open spec fn zero<T: Ring<Additive, Multiplicative>>() -> T::Model {
    <T as Monoid<Additive>>::spec_identity()
}

/// `1` on models.
pub open spec fn one<T: Ring<Additive, Multiplicative>>() -> T::Model {
    <T as Monoid<Multiplicative>>::spec_identity()
}

/// The operations stay in the set.
pub proof fn lemma_closed<T: Ring<Additive, Multiplicative>>(x: T::Model, y: T::Model)
    requires
        T::contains(x),
        T::contains(y),
    ensures
        T::contains(plus::<T>(x, y)),
        T::contains(times::<T>(x, y)),
        T::contains(neg::<T>(x)),
        T::contains(zero::<T>()),
        T::contains(one::<T>()),
{
    <T as Magma<Additive>>::lemma_closed(x, y);
    <T as Magma<Multiplicative>>::lemma_closed(x, y);
    <T as Group<Additive>>::lemma_inverse(x);
    <T as Monoid<Additive>>::lemma_identity(x);
    <T as Monoid<Multiplicative>>::lemma_identity(x);
}

/// `0` and `1` are in the set.
pub proof fn lemma_constants<T: Ring<Additive, Multiplicative>>()
    ensures
        T::contains(zero::<T>()),
        T::contains(one::<T>()),
{
    <T as Monoid<Additive>>::lemma_identity(zero::<T>());
    <T as Monoid<Multiplicative>>::lemma_identity(zero::<T>());
}

/// Closure of `+`, `·` and `-` (as ambient facts for `broadcast use`).
pub broadcast proof fn lemma_plus_closed<T: Ring<Additive, Multiplicative>>(x: T::Model, y: T::Model)
    requires
        T::contains(x),
        T::contains(y),
    ensures
        #[trigger] T::contains(plus::<T>(x, y)),
{
    lemma_closed::<T>(x, y);
}

/// See [`lemma_plus_closed`].
pub broadcast proof fn lemma_times_closed<T: Ring<Additive, Multiplicative>>(x: T::Model, y: T::Model)
    requires
        T::contains(x),
        T::contains(y),
    ensures
        #[trigger] T::contains(times::<T>(x, y)),
{
    lemma_closed::<T>(x, y);
}

/// See [`lemma_plus_closed`].
pub broadcast proof fn lemma_neg_closed<T: Ring<Additive, Multiplicative>>(x: T::Model)
    requires
        T::contains(x),
    ensures
        #[trigger] T::contains(neg::<T>(x)),
{
    lemma_closed::<T>(x, x);
}

/// The closure facts, as one group.
pub broadcast group group_closed {
    lemma_plus_closed,
    lemma_times_closed,
    lemma_neg_closed,
}

/// `0` and `1` are neutral, `0` absorbs, and `x + (-x) == 0`.
pub proof fn lemma_units<T: Ring<Additive, Multiplicative>>(x: T::Model)
    requires
        T::contains(x),
    ensures
        plus::<T>(zero::<T>(), x) == x,
        plus::<T>(x, zero::<T>()) == x,
        times::<T>(one::<T>(), x) == x,
        times::<T>(x, one::<T>()) == x,
        times::<T>(zero::<T>(), x) == zero::<T>(),
        times::<T>(x, zero::<T>()) == zero::<T>(),
        plus::<T>(x, neg::<T>(x)) == zero::<T>(),
        plus::<T>(neg::<T>(x), x) == zero::<T>(),
{
    <T as Monoid<Additive>>::lemma_identity(x);
    <T as Monoid<Multiplicative>>::lemma_identity(x);
    lemma_zero_absorbs::<Additive, Multiplicative, T>(x);
    <T as Group<Additive>>::lemma_inverse(x);
}

/// Associativity and commutativity of `+`, associativity of `·`.
pub proof fn lemma_assoc<T: Ring<Additive, Multiplicative>>(x: T::Model, y: T::Model, z: T::Model)
    requires
        T::contains(x),
        T::contains(y),
        T::contains(z),
    ensures
        plus::<T>(plus::<T>(x, y), z) == plus::<T>(x, plus::<T>(y, z)),
        plus::<T>(x, y) == plus::<T>(y, x),
        times::<T>(times::<T>(x, y), z) == times::<T>(x, times::<T>(y, z)),
{
    <T as Semigroup<Additive>>::lemma_associative(x, y, z);
    <T as AbelianGroup<Additive>>::lemma_commutative(x, y);
    <T as Semigroup<Multiplicative>>::lemma_associative(x, y, z);
}

/// Both distributive laws.
pub proof fn lemma_distrib<T: Ring<Additive, Multiplicative>>(x: T::Model, y: T::Model, z: T::Model)
    requires
        T::contains(x),
        T::contains(y),
        T::contains(z),
    ensures
        times::<T>(x, plus::<T>(y, z)) == plus::<T>(times::<T>(x, y), times::<T>(x, z)),
        times::<T>(plus::<T>(y, z), x) == plus::<T>(times::<T>(y, x), times::<T>(z, x)),
{
    T::lemma_distributive(x, y, z);
}

/// Inverse of a sum, double inverse, inverse of zero.
pub proof fn lemma_neg<T: Ring<Additive, Multiplicative>>(x: T::Model, y: T::Model)
    requires
        T::contains(x),
        T::contains(y),
    ensures
        neg::<T>(plus::<T>(x, y)) == plus::<T>(neg::<T>(x), neg::<T>(y)),
        neg::<T>(neg::<T>(x)) == x,
        neg::<T>(zero::<T>()) == zero::<T>(),
{
    lemma_closed::<T>(x, y);
    lemma_closed::<T>(y, x);
    lemma_closed::<T>(neg::<T>(x), neg::<T>(y));
    let s = plus::<T>(x, y);
    let t = plus::<T>(neg::<T>(x), neg::<T>(y));
    lemma_closed::<T>(s, t);
    // s + t == 0, so t is the inverse of s
    lemma_swap_middle::<T>(x, y, neg::<T>(x), neg::<T>(y));
    lemma_units::<T>(x);
    lemma_units::<T>(y);
    lemma_units::<T>(zero::<T>());
    lemma_inverse_unique::<T>(s, t);
    // -(-x) == x
    lemma_units::<T>(neg::<T>(x));
    lemma_inverse_unique::<T>(neg::<T>(x), x);
    // -0 == 0
    lemma_inverse_unique::<T>(zero::<T>(), zero::<T>());
}

/// An element that adds up to zero with `s` is the inverse of `s`.
pub proof fn lemma_inverse_unique<T: Ring<Additive, Multiplicative>>(s: T::Model, t: T::Model)
    requires
        T::contains(s),
        T::contains(t),
        plus::<T>(s, t) == zero::<T>(),
    ensures
        t == neg::<T>(s),
{
    let n = neg::<T>(s);
    lemma_closed::<T>(s, t);
    lemma_units::<T>(s);
    lemma_units::<T>(t);
    lemma_units::<T>(n);
    // t == (n + s) + t == n + (s + t) == n
    lemma_assoc::<T>(n, s, t);
}

/// `(a + b) + (c + d) == (a + c) + (b + d)`.
pub proof fn lemma_swap_middle<T: Ring<Additive, Multiplicative>>(
    a: T::Model,
    b: T::Model,
    c: T::Model,
    d: T::Model,
)
    requires
        T::contains(a),
        T::contains(b),
        T::contains(c),
        T::contains(d),
    ensures
        plus::<T>(plus::<T>(a, b), plus::<T>(c, d)) == plus::<T>(plus::<T>(a, c), plus::<T>(b, d)),
{
    lemma_closed::<T>(a, b);
    lemma_closed::<T>(c, d);
    lemma_closed::<T>(b, c);
    lemma_closed::<T>(c, b);
    lemma_closed::<T>(a, c);
    lemma_closed::<T>(b, d);
    // (a+b)+(c+d) == a+(b+(c+d)) == a+((b+c)+d) == a+((c+b)+d) == a+(c+(b+d)) == (a+c)+(b+d)
    lemma_assoc::<T>(a, b, plus::<T>(c, d));
    lemma_assoc::<T>(b, c, d);
    lemma_assoc::<T>(c, b, d);
    lemma_closed::<T>(plus::<T>(b, c), d);
    lemma_closed::<T>(c, plus::<T>(b, d));
    lemma_assoc::<T>(a, c, plus::<T>(b, d));
}

/// `(-x)·y == -(x·y)` and `x·(-y) == -(x·y)`.
pub proof fn lemma_neg_times<T: Ring<Additive, Multiplicative>>(x: T::Model, y: T::Model)
    requires
        T::contains(x),
        T::contains(y),
    ensures
        times::<T>(neg::<T>(x), y) == neg::<T>(times::<T>(x, y)),
        times::<T>(x, neg::<T>(y)) == neg::<T>(times::<T>(x, y)),
{
    lemma_neg_mul::<Additive, Multiplicative, T>(x, y);
    // x·(-y) + x·y == x·(-y + y) == x·0 == 0
    lemma_closed::<T>(x, y);
    lemma_closed::<T>(y, x);
    lemma_closed::<T>(x, neg::<T>(y));
    lemma_units::<T>(y);
    lemma_units::<T>(x);
    lemma_distrib::<T>(x, neg::<T>(y), y);
    lemma_units::<T>(times::<T>(x, y));
    lemma_assoc::<T>(times::<T>(x, neg::<T>(y)), times::<T>(x, y), zero::<T>());
    lemma_inverse_unique::<T>(times::<T>(x, y), times::<T>(x, neg::<T>(y)));
}

/// Commutativity of `·` in a commutative ring.
pub proof fn lemma_times_commutes<T: CommutativeRing<Additive, Multiplicative>>(
    x: T::Model,
    y: T::Model,
)
    requires
        T::contains(x),
        T::contains(y),
    ensures
        times::<T>(x, y) == times::<T>(y, x),
{
    T::lemma_multiplication_commutes(x, y);
}

/// `(x + y)·(x + y) == (xx + xy) + (yx + yy)`.
pub proof fn lemma_square_of_sum<T: Ring<Additive, Multiplicative>>(x: T::Model, y: T::Model)
    requires
        T::contains(x),
        T::contains(y),
    ensures
        times::<T>(plus::<T>(x, y), plus::<T>(x, y)) == plus::<T>(
            plus::<T>(times::<T>(x, x), times::<T>(x, y)),
            plus::<T>(times::<T>(y, x), times::<T>(y, y)),
        ),
{
    lemma_closed::<T>(x, y);
    lemma_distrib::<T>(plus::<T>(x, y), x, y);
    lemma_distrib::<T>(x, x, y);
    lemma_distrib::<T>(y, x, y);
}

/// `(xy)(zw) == (xz)(yw)` in a commutative ring.
pub proof fn lemma_times_swap_middle<T: CommutativeRing<Additive, Multiplicative>>(
    x: T::Model,
    y: T::Model,
    z: T::Model,
    w: T::Model,
)
    requires
        T::contains(x),
        T::contains(y),
        T::contains(z),
        T::contains(w),
    ensures
        times::<T>(times::<T>(x, y), times::<T>(z, w)) == times::<T>(
            times::<T>(x, z),
            times::<T>(y, w),
        ),
{
    lemma_closed::<T>(x, y);
    lemma_closed::<T>(z, w);
    lemma_closed::<T>(y, z);
    lemma_closed::<T>(z, y);
    lemma_closed::<T>(x, z);
    lemma_closed::<T>(y, w);
    // (xy)(zw) == x(y(zw)) == x((yz)w) == x((zy)w) == x(z(yw)) == (xz)(yw)
    lemma_assoc::<T>(x, y, times::<T>(z, w));
    lemma_assoc::<T>(y, z, w);
    lemma_times_commutes::<T>(y, z);
    lemma_assoc::<T>(z, y, w);
    lemma_closed::<T>(times::<T>(y, z), w);
    lemma_closed::<T>(z, times::<T>(y, w));
    lemma_assoc::<T>(x, z, times::<T>(y, w));
}

/// `(a + b) + (c + d)`.
pub open spec fn sum4<T: Ring<Additive, Multiplicative>>(
    a: T::Model,
    b: T::Model,
    c: T::Model,
    d: T::Model,
) -> T::Model {
    plus::<T>(plus::<T>(a, b), plus::<T>(c, d))
}

/// The sum of a sequence, added from the left: `((0 + s₀) + s₁) + …`.
pub open spec fn sum<T: Ring<Additive, Multiplicative>>(s: Seq<T::Model>) -> T::Model
    decreases s.len(),
{
    if s.len() == 0 {
        zero::<T>()
    } else {
        plus::<T>(sum::<T>(s.drop_last()), s.last())
    }
}

/// Every element of `s` is in the set.
pub open spec fn all_contained<T: Ring<Additive, Multiplicative>>(s: Seq<T::Model>) -> bool {
    forall|i: int| 0 <= i < s.len() ==> T::contains(#[trigger] s[i])
}

/// A sum of elements of the set is in the set.
pub proof fn lemma_sum_contained<T: Ring<Additive, Multiplicative>>(s: Seq<T::Model>)
    requires
        all_contained::<T>(s),
    ensures
        T::contains(sum::<T>(s)),
    decreases s.len(),
{
    lemma_constants::<T>();
    if s.len() > 0 {
        lemma_sum_contained::<T>(s.drop_last());
        lemma_closed::<T>(sum::<T>(s.drop_last()), s.last());
    }
}

/// `sum(s + t) == sum(s) + sum(t)`.
pub proof fn lemma_sum_concat<T: Ring<Additive, Multiplicative>>(s: Seq<T::Model>, t: Seq<T::Model>)
    requires
        all_contained::<T>(s),
        all_contained::<T>(t),
    ensures
        sum::<T>(s + t) == plus::<T>(sum::<T>(s), sum::<T>(t)),
    decreases t.len(),
{
    lemma_sum_contained::<T>(s);
    if t.len() == 0 {
        assert(s + t =~= s);
        lemma_units::<T>(sum::<T>(s));
    } else {
        assert((s + t).drop_last() =~= s + t.drop_last());
        lemma_sum_concat::<T>(s, t.drop_last());
        lemma_sum_contained::<T>(t.drop_last());
        lemma_assoc::<T>(sum::<T>(s), sum::<T>(t.drop_last()), t.last());
    }
}

/// Taking out the `j`-th element: `sum(s) == sum(s without sⱼ) + sⱼ`.
pub proof fn lemma_sum_remove<T: Ring<Additive, Multiplicative>>(s: Seq<T::Model>, j: int)
    requires
        all_contained::<T>(s),
        0 <= j < s.len(),
    ensures
        sum::<T>(s) == plus::<T>(sum::<T>(s.remove(j)), s[j]),
    decreases s.len(),
{
    if j == s.len() - 1 {
        assert(s.remove(j) =~= s.drop_last());
    } else {
        let u = s.drop_last();
        lemma_sum_remove::<T>(u, j);
        assert(s.remove(j).drop_last() =~= u.remove(j));
        assert(s.remove(j).last() == s.last());
        lemma_sum_contained::<T>(u.remove(j));
        lemma_assoc::<T>(sum::<T>(u.remove(j)), s[j], s.last());
        lemma_assoc::<T>(sum::<T>(u.remove(j)), s.last(), s[j]);
        lemma_assoc::<T>(s[j], s.last(), s[j]);
    }
}

/// A sum does not depend on the order of its terms.
pub proof fn lemma_sum_permutation<T: Ring<Additive, Multiplicative>>(
    s: Seq<T::Model>,
    t: Seq<T::Model>,
)
    requires
        all_contained::<T>(s),
        all_contained::<T>(t),
        s.to_multiset() == t.to_multiset(),
    ensures
        sum::<T>(s) == sum::<T>(t),
    decreases s.len(),
{
    broadcast use vstd::seq_lib::group_to_multiset_ensures;

    if s.len() == 0 {
        assert(t.to_multiset().len() == 0);
    } else {
        let x = s.last();
        assert(s.to_multiset().count(x) > 0);
        assert(t.contains(x));
        let j = choose|j: int| 0 <= j < t.len() && t[j] == x;
        assert(s.drop_last() =~= s.remove(s.len() - 1));
        lemma_sum_remove::<T>(t, j);
        lemma_sum_permutation::<T>(s.drop_last(), t.remove(j));
    }
}

/// A sum of four as a sum of a sequence.
pub proof fn lemma_sum4_as_sum<T: Ring<Additive, Multiplicative>>(
    a: T::Model,
    b: T::Model,
    c: T::Model,
    d: T::Model,
)
    requires
        T::contains(a),
        T::contains(b),
        T::contains(c),
        T::contains(d),
    ensures
        sum::<T>(Seq::empty().push(a).push(b).push(c).push(d)) == sum4::<T>(a, b, c, d),
{
    let s0 = Seq::<T::Model>::empty();
    let s1 = s0.push(a);
    let s2 = s1.push(b);
    let s3 = s2.push(c);
    let s4 = s3.push(d);
    assert(s1.drop_last() =~= s0);
    assert(s2.drop_last() =~= s1);
    assert(s3.drop_last() =~= s2);
    assert(s4.drop_last() =~= s3);
    lemma_constants::<T>();
    lemma_units::<T>(a);
    assert(sum::<T>(s0) == zero::<T>());
    assert(sum::<T>(s1) == plus::<T>(sum::<T>(s0), a));
    assert(sum::<T>(s1) == a);
    assert(sum::<T>(s2) == plus::<T>(a, b));
    assert(sum::<T>(s3) == plus::<T>(plus::<T>(a, b), c));
    assert(sum::<T>(s4) == plus::<T>(plus::<T>(plus::<T>(a, b), c), d));
    lemma_closed::<T>(a, b);
    lemma_assoc::<T>(plus::<T>(a, b), c, d);
}

/// A sum of four sums of four as the sum of the sixteen terms.
pub proof fn lemma_sum16<T: Ring<Additive, Multiplicative>>(t: Seq<T::Model>)
    requires
        t.len() == 16,
        all_contained::<T>(t),
    ensures
        sum::<T>(t) == sum4::<T>(
            sum4::<T>(t[0], t[1], t[2], t[3]),
            sum4::<T>(t[4], t[5], t[6], t[7]),
            sum4::<T>(t[8], t[9], t[10], t[11]),
            sum4::<T>(t[12], t[13], t[14], t[15]),
        ),
{
    let r0 = Seq::<T::Model>::empty().push(t[0]).push(t[1]).push(t[2]).push(t[3]);
    let r1 = Seq::<T::Model>::empty().push(t[4]).push(t[5]).push(t[6]).push(t[7]);
    let r2 = Seq::<T::Model>::empty().push(t[8]).push(t[9]).push(t[10]).push(t[11]);
    let r3 = Seq::<T::Model>::empty().push(t[12]).push(t[13]).push(t[14]).push(t[15]);
    assert(t =~= ((r0 + r1) + r2) + r3);
    lemma_sum_concat::<T>(r0, r1);
    lemma_sum_concat::<T>(r0 + r1, r2);
    lemma_sum_concat::<T>((r0 + r1) + r2, r3);
    lemma_sum4_as_sum::<T>(t[0], t[1], t[2], t[3]);
    lemma_sum4_as_sum::<T>(t[4], t[5], t[6], t[7]);
    lemma_sum4_as_sum::<T>(t[8], t[9], t[10], t[11]);
    lemma_sum4_as_sum::<T>(t[12], t[13], t[14], t[15]);
    let s0 = sum::<T>(r0);
    let s1 = sum::<T>(r1);
    let s2 = sum::<T>(r2);
    let s3 = sum::<T>(r3);
    lemma_sum_contained::<T>(r0);
    lemma_sum_contained::<T>(r1);
    lemma_sum_contained::<T>(r2);
    lemma_sum_contained::<T>(r3);
    lemma_closed::<T>(s0, s1);
    lemma_assoc::<T>(plus::<T>(s0, s1), s2, s3);
}

/// `x·(a + b + c + d)` and `(a + b + c + d)·x` term by term, and the
/// inverse of a sum of four.
pub proof fn lemma_sum4_distrib<T: Ring<Additive, Multiplicative>>(
    a: T::Model,
    b: T::Model,
    c: T::Model,
    d: T::Model,
    x: T::Model,
)
    requires
        T::contains(a),
        T::contains(b),
        T::contains(c),
        T::contains(d),
        T::contains(x),
    ensures
        times::<T>(sum4::<T>(a, b, c, d), x) == sum4::<T>(
            times::<T>(a, x),
            times::<T>(b, x),
            times::<T>(c, x),
            times::<T>(d, x),
        ),
        times::<T>(x, sum4::<T>(a, b, c, d)) == sum4::<T>(
            times::<T>(x, a),
            times::<T>(x, b),
            times::<T>(x, c),
            times::<T>(x, d),
        ),
        neg::<T>(sum4::<T>(a, b, c, d)) == sum4::<T>(
            neg::<T>(a),
            neg::<T>(b),
            neg::<T>(c),
            neg::<T>(d),
        ),
{
    lemma_closed::<T>(a, b);
    lemma_closed::<T>(c, d);
    lemma_closed::<T>(b, a);
    lemma_closed::<T>(d, c);
    lemma_distrib::<T>(x, plus::<T>(a, b), plus::<T>(c, d));
    lemma_distrib::<T>(x, a, b);
    lemma_distrib::<T>(x, c, d);
    lemma_neg::<T>(plus::<T>(a, b), plus::<T>(c, d));
    lemma_neg::<T>(a, b);
    lemma_neg::<T>(c, d);
}

/// A sum of four sums: `(a₀ + b₀) + … + (a₃ + b₃) == (a₀ + … + a₃) + (b₀ + … + b₃)`.
pub proof fn lemma_sum4_of_sums<T: Ring<Additive, Multiplicative>>(
    a0: T::Model,
    a1: T::Model,
    a2: T::Model,
    a3: T::Model,
    b0: T::Model,
    b1: T::Model,
    b2: T::Model,
    b3: T::Model,
)
    requires
        T::contains(a0),
        T::contains(a1),
        T::contains(a2),
        T::contains(a3),
        T::contains(b0),
        T::contains(b1),
        T::contains(b2),
        T::contains(b3),
    ensures
        sum4::<T>(plus::<T>(a0, b0), plus::<T>(a1, b1), plus::<T>(a2, b2), plus::<T>(a3, b3))
            == plus::<T>(sum4::<T>(a0, a1, a2, a3), sum4::<T>(b0, b1, b2, b3)),
{
    lemma_swap_middle::<T>(a0, b0, a1, b1);
    lemma_swap_middle::<T>(a2, b2, a3, b3);
    lemma_closed::<T>(a0, a1);
    lemma_closed::<T>(b0, b1);
    lemma_closed::<T>(a2, a3);
    lemma_closed::<T>(b2, b3);
    lemma_swap_middle::<T>(plus::<T>(a0, a1), plus::<T>(b0, b1), plus::<T>(a2, a3), plus::<T>(b2, b3));
}

/// The rewriting rules that bring a product of three, with signs, to the
/// form `±(a·(b·c))`.
pub proof fn lemma_normal_forms<T: Ring<Additive, Multiplicative>>()
    ensures
        forall|a: T::Model, b: T::Model, c: T::Model|
            T::contains(a) && T::contains(b) && T::contains(c) ==> #[trigger] times::<T>(
                times::<T>(a, b),
                c,
            ) == times::<T>(a, times::<T>(b, c)),
        forall|a: T::Model, b: T::Model, c: T::Model|
            T::contains(a) && T::contains(b) && T::contains(c) ==> #[trigger] times::<T>(
                neg::<T>(times::<T>(a, b)),
                c,
            ) == neg::<T>(times::<T>(a, times::<T>(b, c))),
        forall|a: T::Model, b: T::Model, c: T::Model|
            T::contains(a) && T::contains(b) && T::contains(c) ==> #[trigger] times::<T>(
                a,
                neg::<T>(times::<T>(b, c)),
            ) == neg::<T>(times::<T>(a, times::<T>(b, c))),
        forall|x: T::Model| T::contains(x) ==> #[trigger] neg::<T>(neg::<T>(x)) == x,
{
    assert forall|a: T::Model, b: T::Model, c: T::Model|
        T::contains(a) && T::contains(b) && T::contains(c) implies #[trigger] times::<T>(
            times::<T>(a, b),
            c,
        ) == times::<T>(a, times::<T>(b, c)) by {
        lemma_assoc::<T>(a, b, c);
    }
    assert forall|a: T::Model, b: T::Model, c: T::Model|
        T::contains(a) && T::contains(b) && T::contains(c) implies #[trigger] times::<T>(
            neg::<T>(times::<T>(a, b)),
            c,
        ) == neg::<T>(times::<T>(a, times::<T>(b, c))) by {
        lemma_closed::<T>(a, b);
        lemma_neg_times::<T>(times::<T>(a, b), c);
        lemma_assoc::<T>(a, b, c);
    }
    assert forall|a: T::Model, b: T::Model, c: T::Model|
        T::contains(a) && T::contains(b) && T::contains(c) implies #[trigger] times::<T>(
            a,
            neg::<T>(times::<T>(b, c)),
        ) == neg::<T>(times::<T>(a, times::<T>(b, c))) by {
        lemma_closed::<T>(b, c);
        lemma_neg_times::<T>(a, times::<T>(b, c));
    }
    assert forall|x: T::Model| T::contains(x) implies #[trigger] neg::<T>(neg::<T>(x)) == x by {
        lemma_neg::<T>(x, x);
    }
}

} // verus!
