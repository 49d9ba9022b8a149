//! Quaternion impls: `Quaternion<T>` is a ring over any ring `T` — the
//! classic non-commutative one (`i·j == k`, `j·i == −k`) — a module over
//! a field `T`, and a division ring over the fields whose sums of four
//! squares vanish only at zero (the real fields).
//!
//! Addition is component-wise; multiplication is the Hamilton product,
//! whose associativity is proved here from the ring laws of `T`.
use crate::op::{Additive, Multiplicative};
use crate::quaternion::Quaternion;
use crate::rings::{
    group_closed, lemma_assoc, lemma_closed, lemma_constants, lemma_distrib, lemma_neg, lemma_normal_forms,
    lemma_neg_times, lemma_sum16, lemma_sum4_distrib, lemma_sum4_of_sums, lemma_sum_permutation,
    lemma_swap_middle, lemma_times_commutes, lemma_units, neg,
    one, plus, sum4, times, zero,
};
use crate::tower::{
    left_quotient, right_quotient,
    AbelianGroup, Carrier, CommutativeRing, DivisionRing, Field, Group,
    ClosedAdd, ClosedMul, FiniteDimInnerSpace, FiniteDimVectorSpace, InnerSpace, Loop, Magma,
    Module, Monoid, NormedSpace, Quasigroup, Real, Ring, Semigroup, Semiring, VectorSpace,
};
use vstd::multiset::Multiset;
use vstd::prelude::*;

verus! {

broadcast use group_closed;

/// The model of a quaternion: its four components' models `(w, x, y, z)`.
pub type Quad<T> = (
    <T as Carrier>::Model,
    <T as Carrier>::Model,
    <T as Carrier>::Model,
    <T as Carrier>::Model,
);

/// All four components are in the set.
pub open spec fn quad_contained<T: Carrier>(q: Quad<T>) -> bool {
    T::contains(q.0) && T::contains(q.1) && T::contains(q.2) && T::contains(q.3)
}

/// Component-wise addition on models.
pub open spec fn quad_plus<T: Ring<Additive, Multiplicative>>(p: Quad<T>, q: Quad<T>) -> Quad<T> {
    (plus::<T>(p.0, q.0), plus::<T>(p.1, q.1), plus::<T>(p.2, q.2), plus::<T>(p.3, q.3))
}


/// The Hamilton product on models:
/// `w = w₁w₂ − (x₁x₂ + y₁y₂ + z₁z₂)`, `x = (w₁x₂ + x₁w₂) + (y₁z₂ − z₁y₂)`,
/// `y = (w₁y₂ − x₁z₂) + (y₁w₂ + z₁x₂)`, `z = (w₁z₂ + x₁y₂) + (−y₁x₂ + z₁w₂)`.
pub open spec fn hamilton<T: Ring<Additive, Multiplicative>>(p: Quad<T>, q: Quad<T>) -> Quad<T> {
    (
        plus::<T>(
            times::<T>(p.0, q.0),
            neg::<T>(
                plus::<T>(plus::<T>(times::<T>(p.1, q.1), times::<T>(p.2, q.2)), times::<T>(p.3, q.3)),
            ),
        ),
        plus::<T>(
            plus::<T>(times::<T>(p.0, q.1), times::<T>(p.1, q.0)),
            plus::<T>(times::<T>(p.2, q.3), neg::<T>(times::<T>(p.3, q.2))),
        ),
        plus::<T>(
            plus::<T>(times::<T>(p.0, q.2), neg::<T>(times::<T>(p.1, q.3))),
            plus::<T>(times::<T>(p.2, q.0), times::<T>(p.3, q.1)),
        ),
        plus::<T>(
            plus::<T>(times::<T>(p.0, q.3), times::<T>(p.1, q.2)),
            plus::<T>(neg::<T>(times::<T>(p.2, q.1)), times::<T>(p.3, q.0)),
        ),
    )
}

/// Each component of the Hamilton product as a signed sum of four products.
proof fn lemma_hamilton_sum4<T: Ring<Additive, Multiplicative>>(p: Quad<T>, q: Quad<T>)
    requires
        quad_contained::<T>(p),
        quad_contained::<T>(q),
    ensures
        hamilton::<T>(p, q).0 == sum4::<T>(
            times::<T>(p.0, q.0),
            neg::<T>(times::<T>(p.1, q.1)),
            neg::<T>(times::<T>(p.2, q.2)),
            neg::<T>(times::<T>(p.3, q.3)),
        ),
        hamilton::<T>(p, q).1 == sum4::<T>(
            times::<T>(p.0, q.1),
            times::<T>(p.1, q.0),
            times::<T>(p.2, q.3),
            neg::<T>(times::<T>(p.3, q.2)),
        ),
        hamilton::<T>(p, q).2 == sum4::<T>(
            times::<T>(p.0, q.2),
            neg::<T>(times::<T>(p.1, q.3)),
            times::<T>(p.2, q.0),
            times::<T>(p.3, q.1),
        ),
        hamilton::<T>(p, q).3 == sum4::<T>(
            times::<T>(p.0, q.3),
            times::<T>(p.1, q.2),
            neg::<T>(times::<T>(p.2, q.1)),
            times::<T>(p.3, q.0),
        ),
{
    let b = times::<T>(p.1, q.1);
    let c = times::<T>(p.2, q.2);
    let d = times::<T>(p.3, q.3);
    lemma_neg::<T>(plus::<T>(b, c), d);
    lemma_neg::<T>(b, c);
    lemma_assoc::<T>(times::<T>(p.0, q.0), plus::<T>(neg::<T>(b), neg::<T>(c)), neg::<T>(d));
    lemma_assoc::<T>(times::<T>(p.0, q.0), neg::<T>(b), neg::<T>(c));
    lemma_assoc::<T>(plus::<T>(times::<T>(p.0, q.0), neg::<T>(b)), neg::<T>(c), neg::<T>(d));
}

/// Component 0 of `(pq)r == p(qr)`.
proof fn lemma_hamilton_assoc_0<T: Ring<Additive, Multiplicative>>(p: Quad<T>, q: Quad<T>, r: Quad<T>)
    requires
        quad_contained::<T>(p),
        quad_contained::<T>(q),
        quad_contained::<T>(r),
    ensures
        hamilton::<T>(hamilton::<T>(p, q), r).0 == hamilton::<T>(p, hamilton::<T>(q, r)).0,
{
    broadcast use vstd::seq_lib::group_to_multiset_ensures;

    lemma_normal_forms::<T>();
    let pq = hamilton::<T>(p, q);
    let qr = hamilton::<T>(q, r);
    lemma_hamilton_sum4::<T>(p, q);
    lemma_hamilton_sum4::<T>(q, r);
    lemma_hamilton_sum4::<T>(pq, r);
    lemma_hamilton_sum4::<T>(p, qr);
    lemma_sum4_distrib::<T>(times::<T>(p.0, q.0), neg::<T>(times::<T>(p.1, q.1)), neg::<T>(times::<T>(p.2, q.2)), neg::<T>(times::<T>(p.3, q.3)), r.0);
    lemma_sum4_distrib::<T>(times::<T>(p.0, q.1), times::<T>(p.1, q.0), times::<T>(p.2, q.3), neg::<T>(times::<T>(p.3, q.2)), r.1);
    lemma_sum4_distrib::<T>(times::<T>(times::<T>(p.0, q.1), r.1), times::<T>(times::<T>(p.1, q.0), r.1), times::<T>(times::<T>(p.2, q.3), r.1), times::<T>(neg::<T>(times::<T>(p.3, q.2)), r.1), r.1);
    lemma_sum4_distrib::<T>(times::<T>(p.0, q.2), neg::<T>(times::<T>(p.1, q.3)), times::<T>(p.2, q.0), times::<T>(p.3, q.1), r.2);
    lemma_sum4_distrib::<T>(times::<T>(times::<T>(p.0, q.2), r.2), times::<T>(neg::<T>(times::<T>(p.1, q.3)), r.2), times::<T>(times::<T>(p.2, q.0), r.2), times::<T>(times::<T>(p.3, q.1), r.2), r.2);
    lemma_sum4_distrib::<T>(times::<T>(p.0, q.3), times::<T>(p.1, q.2), neg::<T>(times::<T>(p.2, q.1)), times::<T>(p.3, q.0), r.3);
    lemma_sum4_distrib::<T>(times::<T>(times::<T>(p.0, q.3), r.3), times::<T>(times::<T>(p.1, q.2), r.3), times::<T>(neg::<T>(times::<T>(p.2, q.1)), r.3), times::<T>(times::<T>(p.3, q.0), r.3), r.3);
    lemma_sum4_distrib::<T>(times::<T>(q.0, r.0), neg::<T>(times::<T>(q.1, r.1)), neg::<T>(times::<T>(q.2, r.2)), neg::<T>(times::<T>(q.3, r.3)), p.0);
    lemma_sum4_distrib::<T>(times::<T>(q.0, r.1), times::<T>(q.1, r.0), times::<T>(q.2, r.3), neg::<T>(times::<T>(q.3, r.2)), p.1);
    lemma_sum4_distrib::<T>(times::<T>(p.1, times::<T>(q.0, r.1)), times::<T>(p.1, times::<T>(q.1, r.0)), times::<T>(p.1, times::<T>(q.2, r.3)), times::<T>(p.1, neg::<T>(times::<T>(q.3, r.2))), p.1);
    lemma_sum4_distrib::<T>(times::<T>(q.0, r.2), neg::<T>(times::<T>(q.1, r.3)), times::<T>(q.2, r.0), times::<T>(q.3, r.1), p.2);
    lemma_sum4_distrib::<T>(times::<T>(p.2, times::<T>(q.0, r.2)), times::<T>(p.2, neg::<T>(times::<T>(q.1, r.3))), times::<T>(p.2, times::<T>(q.2, r.0)), times::<T>(p.2, times::<T>(q.3, r.1)), p.2);
    lemma_sum4_distrib::<T>(times::<T>(q.0, r.3), times::<T>(q.1, r.2), neg::<T>(times::<T>(q.2, r.1)), times::<T>(q.3, r.0), p.3);
    lemma_sum4_distrib::<T>(times::<T>(p.3, times::<T>(q.0, r.3)), times::<T>(p.3, times::<T>(q.1, r.2)), times::<T>(p.3, neg::<T>(times::<T>(q.2, r.1))), times::<T>(p.3, times::<T>(q.3, r.0)), p.3);
    let lhs = Seq::<T::Model>::empty()
            .push(times::<T>(p.0, times::<T>(q.0, r.0)))
            .push(neg::<T>(times::<T>(p.1, times::<T>(q.1, r.0))))
            .push(neg::<T>(times::<T>(p.2, times::<T>(q.2, r.0))))
            .push(neg::<T>(times::<T>(p.3, times::<T>(q.3, r.0))))
            .push(neg::<T>(times::<T>(p.0, times::<T>(q.1, r.1))))
            .push(neg::<T>(times::<T>(p.1, times::<T>(q.0, r.1))))
            .push(neg::<T>(times::<T>(p.2, times::<T>(q.3, r.1))))
            .push(times::<T>(p.3, times::<T>(q.2, r.1)))
            .push(neg::<T>(times::<T>(p.0, times::<T>(q.2, r.2))))
            .push(times::<T>(p.1, times::<T>(q.3, r.2)))
            .push(neg::<T>(times::<T>(p.2, times::<T>(q.0, r.2))))
            .push(neg::<T>(times::<T>(p.3, times::<T>(q.1, r.2))))
            .push(neg::<T>(times::<T>(p.0, times::<T>(q.3, r.3))))
            .push(neg::<T>(times::<T>(p.1, times::<T>(q.2, r.3))))
            .push(times::<T>(p.2, times::<T>(q.1, r.3)))
            .push(neg::<T>(times::<T>(p.3, times::<T>(q.0, r.3))));
    let rhs = Seq::<T::Model>::empty()
            .push(times::<T>(p.0, times::<T>(q.0, r.0)))
            .push(neg::<T>(times::<T>(p.0, times::<T>(q.1, r.1))))
            .push(neg::<T>(times::<T>(p.0, times::<T>(q.2, r.2))))
            .push(neg::<T>(times::<T>(p.0, times::<T>(q.3, r.3))))
            .push(neg::<T>(times::<T>(p.1, times::<T>(q.0, r.1))))
            .push(neg::<T>(times::<T>(p.1, times::<T>(q.1, r.0))))
            .push(neg::<T>(times::<T>(p.1, times::<T>(q.2, r.3))))
            .push(times::<T>(p.1, times::<T>(q.3, r.2)))
            .push(neg::<T>(times::<T>(p.2, times::<T>(q.0, r.2))))
            .push(times::<T>(p.2, times::<T>(q.1, r.3)))
            .push(neg::<T>(times::<T>(p.2, times::<T>(q.2, r.0))))
            .push(neg::<T>(times::<T>(p.2, times::<T>(q.3, r.1))))
            .push(neg::<T>(times::<T>(p.3, times::<T>(q.0, r.3))))
            .push(neg::<T>(times::<T>(p.3, times::<T>(q.1, r.2))))
            .push(times::<T>(p.3, times::<T>(q.2, r.1)))
            .push(neg::<T>(times::<T>(p.3, times::<T>(q.3, r.0))));
    lemma_sum16::<T>(lhs);
    lemma_sum16::<T>(rhs);
    assert(Seq::<T::Model>::empty().to_multiset() =~= Multiset::empty());
    assert(lhs.to_multiset() =~= rhs.to_multiset());
    lemma_sum_permutation::<T>(lhs, rhs);
}

/// Component 1 of `(pq)r == p(qr)`.
proof fn lemma_hamilton_assoc_1<T: Ring<Additive, Multiplicative>>(p: Quad<T>, q: Quad<T>, r: Quad<T>)
    requires
        quad_contained::<T>(p),
        quad_contained::<T>(q),
        quad_contained::<T>(r),
    ensures
        hamilton::<T>(hamilton::<T>(p, q), r).1 == hamilton::<T>(p, hamilton::<T>(q, r)).1,
{
    broadcast use vstd::seq_lib::group_to_multiset_ensures;

    lemma_normal_forms::<T>();
    let pq = hamilton::<T>(p, q);
    let qr = hamilton::<T>(q, r);
    lemma_hamilton_sum4::<T>(p, q);
    lemma_hamilton_sum4::<T>(q, r);
    lemma_hamilton_sum4::<T>(pq, r);
    lemma_hamilton_sum4::<T>(p, qr);
    lemma_sum4_distrib::<T>(times::<T>(p.0, q.0), neg::<T>(times::<T>(p.1, q.1)), neg::<T>(times::<T>(p.2, q.2)), neg::<T>(times::<T>(p.3, q.3)), r.1);
    lemma_sum4_distrib::<T>(times::<T>(p.0, q.1), times::<T>(p.1, q.0), times::<T>(p.2, q.3), neg::<T>(times::<T>(p.3, q.2)), r.0);
    lemma_sum4_distrib::<T>(times::<T>(p.0, q.2), neg::<T>(times::<T>(p.1, q.3)), times::<T>(p.2, q.0), times::<T>(p.3, q.1), r.3);
    lemma_sum4_distrib::<T>(times::<T>(p.0, q.3), times::<T>(p.1, q.2), neg::<T>(times::<T>(p.2, q.1)), times::<T>(p.3, q.0), r.2);
    lemma_sum4_distrib::<T>(times::<T>(times::<T>(p.0, q.3), r.2), times::<T>(times::<T>(p.1, q.2), r.2), times::<T>(neg::<T>(times::<T>(p.2, q.1)), r.2), times::<T>(times::<T>(p.3, q.0), r.2), r.2);
    lemma_sum4_distrib::<T>(times::<T>(q.0, r.1), times::<T>(q.1, r.0), times::<T>(q.2, r.3), neg::<T>(times::<T>(q.3, r.2)), p.0);
    lemma_sum4_distrib::<T>(times::<T>(q.0, r.0), neg::<T>(times::<T>(q.1, r.1)), neg::<T>(times::<T>(q.2, r.2)), neg::<T>(times::<T>(q.3, r.3)), p.1);
    lemma_sum4_distrib::<T>(times::<T>(q.0, r.3), times::<T>(q.1, r.2), neg::<T>(times::<T>(q.2, r.1)), times::<T>(q.3, r.0), p.2);
    lemma_sum4_distrib::<T>(times::<T>(q.0, r.2), neg::<T>(times::<T>(q.1, r.3)), times::<T>(q.2, r.0), times::<T>(q.3, r.1), p.3);
    lemma_sum4_distrib::<T>(times::<T>(p.3, times::<T>(q.0, r.2)), times::<T>(p.3, neg::<T>(times::<T>(q.1, r.3))), times::<T>(p.3, times::<T>(q.2, r.0)), times::<T>(p.3, times::<T>(q.3, r.1)), p.3);
    let lhs = Seq::<T::Model>::empty()
            .push(times::<T>(p.0, times::<T>(q.0, r.1)))
            .push(neg::<T>(times::<T>(p.1, times::<T>(q.1, r.1))))
            .push(neg::<T>(times::<T>(p.2, times::<T>(q.2, r.1))))
            .push(neg::<T>(times::<T>(p.3, times::<T>(q.3, r.1))))
            .push(times::<T>(p.0, times::<T>(q.1, r.0)))
            .push(times::<T>(p.1, times::<T>(q.0, r.0)))
            .push(times::<T>(p.2, times::<T>(q.3, r.0)))
            .push(neg::<T>(times::<T>(p.3, times::<T>(q.2, r.0))))
            .push(times::<T>(p.0, times::<T>(q.2, r.3)))
            .push(neg::<T>(times::<T>(p.1, times::<T>(q.3, r.3))))
            .push(times::<T>(p.2, times::<T>(q.0, r.3)))
            .push(times::<T>(p.3, times::<T>(q.1, r.3)))
            .push(neg::<T>(times::<T>(p.0, times::<T>(q.3, r.2))))
            .push(neg::<T>(times::<T>(p.1, times::<T>(q.2, r.2))))
            .push(times::<T>(p.2, times::<T>(q.1, r.2)))
            .push(neg::<T>(times::<T>(p.3, times::<T>(q.0, r.2))));
    let rhs = Seq::<T::Model>::empty()
            .push(times::<T>(p.0, times::<T>(q.0, r.1)))
            .push(times::<T>(p.0, times::<T>(q.1, r.0)))
            .push(times::<T>(p.0, times::<T>(q.2, r.3)))
            .push(neg::<T>(times::<T>(p.0, times::<T>(q.3, r.2))))
            .push(times::<T>(p.1, times::<T>(q.0, r.0)))
            .push(neg::<T>(times::<T>(p.1, times::<T>(q.1, r.1))))
            .push(neg::<T>(times::<T>(p.1, times::<T>(q.2, r.2))))
            .push(neg::<T>(times::<T>(p.1, times::<T>(q.3, r.3))))
            .push(times::<T>(p.2, times::<T>(q.0, r.3)))
            .push(times::<T>(p.2, times::<T>(q.1, r.2)))
            .push(neg::<T>(times::<T>(p.2, times::<T>(q.2, r.1))))
            .push(times::<T>(p.2, times::<T>(q.3, r.0)))
            .push(neg::<T>(times::<T>(p.3, times::<T>(q.0, r.2))))
            .push(times::<T>(p.3, times::<T>(q.1, r.3)))
            .push(neg::<T>(times::<T>(p.3, times::<T>(q.2, r.0))))
            .push(neg::<T>(times::<T>(p.3, times::<T>(q.3, r.1))));
    lemma_sum16::<T>(lhs);
    lemma_sum16::<T>(rhs);
    assert(Seq::<T::Model>::empty().to_multiset() =~= Multiset::empty());
    assert(lhs.to_multiset() =~= rhs.to_multiset());
    lemma_sum_permutation::<T>(lhs, rhs);
}

/// Component 2 of `(pq)r == p(qr)`.
proof fn lemma_hamilton_assoc_2<T: Ring<Additive, Multiplicative>>(p: Quad<T>, q: Quad<T>, r: Quad<T>)
    requires
        quad_contained::<T>(p),
        quad_contained::<T>(q),
        quad_contained::<T>(r),
    ensures
        hamilton::<T>(hamilton::<T>(p, q), r).2 == hamilton::<T>(p, hamilton::<T>(q, r)).2,
{
    broadcast use vstd::seq_lib::group_to_multiset_ensures;

    lemma_normal_forms::<T>();
    let pq = hamilton::<T>(p, q);
    let qr = hamilton::<T>(q, r);
    lemma_hamilton_sum4::<T>(p, q);
    lemma_hamilton_sum4::<T>(q, r);
    lemma_hamilton_sum4::<T>(pq, r);
    lemma_hamilton_sum4::<T>(p, qr);
    lemma_sum4_distrib::<T>(times::<T>(p.0, q.0), neg::<T>(times::<T>(p.1, q.1)), neg::<T>(times::<T>(p.2, q.2)), neg::<T>(times::<T>(p.3, q.3)), r.2);
    lemma_sum4_distrib::<T>(times::<T>(p.0, q.1), times::<T>(p.1, q.0), times::<T>(p.2, q.3), neg::<T>(times::<T>(p.3, q.2)), r.3);
    lemma_sum4_distrib::<T>(times::<T>(times::<T>(p.0, q.1), r.3), times::<T>(times::<T>(p.1, q.0), r.3), times::<T>(times::<T>(p.2, q.3), r.3), times::<T>(neg::<T>(times::<T>(p.3, q.2)), r.3), r.3);
    lemma_sum4_distrib::<T>(times::<T>(p.0, q.2), neg::<T>(times::<T>(p.1, q.3)), times::<T>(p.2, q.0), times::<T>(p.3, q.1), r.0);
    lemma_sum4_distrib::<T>(times::<T>(p.0, q.3), times::<T>(p.1, q.2), neg::<T>(times::<T>(p.2, q.1)), times::<T>(p.3, q.0), r.1);
    lemma_sum4_distrib::<T>(times::<T>(q.0, r.2), neg::<T>(times::<T>(q.1, r.3)), times::<T>(q.2, r.0), times::<T>(q.3, r.1), p.0);
    lemma_sum4_distrib::<T>(times::<T>(q.0, r.3), times::<T>(q.1, r.2), neg::<T>(times::<T>(q.2, r.1)), times::<T>(q.3, r.0), p.1);
    lemma_sum4_distrib::<T>(times::<T>(p.1, times::<T>(q.0, r.3)), times::<T>(p.1, times::<T>(q.1, r.2)), times::<T>(p.1, neg::<T>(times::<T>(q.2, r.1))), times::<T>(p.1, times::<T>(q.3, r.0)), p.1);
    lemma_sum4_distrib::<T>(times::<T>(q.0, r.0), neg::<T>(times::<T>(q.1, r.1)), neg::<T>(times::<T>(q.2, r.2)), neg::<T>(times::<T>(q.3, r.3)), p.2);
    lemma_sum4_distrib::<T>(times::<T>(q.0, r.1), times::<T>(q.1, r.0), times::<T>(q.2, r.3), neg::<T>(times::<T>(q.3, r.2)), p.3);
    let lhs = Seq::<T::Model>::empty()
            .push(times::<T>(p.0, times::<T>(q.0, r.2)))
            .push(neg::<T>(times::<T>(p.1, times::<T>(q.1, r.2))))
            .push(neg::<T>(times::<T>(p.2, times::<T>(q.2, r.2))))
            .push(neg::<T>(times::<T>(p.3, times::<T>(q.3, r.2))))
            .push(neg::<T>(times::<T>(p.0, times::<T>(q.1, r.3))))
            .push(neg::<T>(times::<T>(p.1, times::<T>(q.0, r.3))))
            .push(neg::<T>(times::<T>(p.2, times::<T>(q.3, r.3))))
            .push(times::<T>(p.3, times::<T>(q.2, r.3)))
            .push(times::<T>(p.0, times::<T>(q.2, r.0)))
            .push(neg::<T>(times::<T>(p.1, times::<T>(q.3, r.0))))
            .push(times::<T>(p.2, times::<T>(q.0, r.0)))
            .push(times::<T>(p.3, times::<T>(q.1, r.0)))
            .push(times::<T>(p.0, times::<T>(q.3, r.1)))
            .push(times::<T>(p.1, times::<T>(q.2, r.1)))
            .push(neg::<T>(times::<T>(p.2, times::<T>(q.1, r.1))))
            .push(times::<T>(p.3, times::<T>(q.0, r.1)));
    let rhs = Seq::<T::Model>::empty()
            .push(times::<T>(p.0, times::<T>(q.0, r.2)))
            .push(neg::<T>(times::<T>(p.0, times::<T>(q.1, r.3))))
            .push(times::<T>(p.0, times::<T>(q.2, r.0)))
            .push(times::<T>(p.0, times::<T>(q.3, r.1)))
            .push(neg::<T>(times::<T>(p.1, times::<T>(q.0, r.3))))
            .push(neg::<T>(times::<T>(p.1, times::<T>(q.1, r.2))))
            .push(times::<T>(p.1, times::<T>(q.2, r.1)))
            .push(neg::<T>(times::<T>(p.1, times::<T>(q.3, r.0))))
            .push(times::<T>(p.2, times::<T>(q.0, r.0)))
            .push(neg::<T>(times::<T>(p.2, times::<T>(q.1, r.1))))
            .push(neg::<T>(times::<T>(p.2, times::<T>(q.2, r.2))))
            .push(neg::<T>(times::<T>(p.2, times::<T>(q.3, r.3))))
            .push(times::<T>(p.3, times::<T>(q.0, r.1)))
            .push(times::<T>(p.3, times::<T>(q.1, r.0)))
            .push(times::<T>(p.3, times::<T>(q.2, r.3)))
            .push(neg::<T>(times::<T>(p.3, times::<T>(q.3, r.2))));
    lemma_sum16::<T>(lhs);
    lemma_sum16::<T>(rhs);
    assert(Seq::<T::Model>::empty().to_multiset() =~= Multiset::empty());
    assert(lhs.to_multiset() =~= rhs.to_multiset());
    lemma_sum_permutation::<T>(lhs, rhs);
}

/// Component 3 of `(pq)r == p(qr)`.
proof fn lemma_hamilton_assoc_3<T: Ring<Additive, Multiplicative>>(p: Quad<T>, q: Quad<T>, r: Quad<T>)
    requires
        quad_contained::<T>(p),
        quad_contained::<T>(q),
        quad_contained::<T>(r),
    ensures
        hamilton::<T>(hamilton::<T>(p, q), r).3 == hamilton::<T>(p, hamilton::<T>(q, r)).3,
{
    broadcast use vstd::seq_lib::group_to_multiset_ensures;

    lemma_normal_forms::<T>();
    let pq = hamilton::<T>(p, q);
    let qr = hamilton::<T>(q, r);
    lemma_hamilton_sum4::<T>(p, q);
    lemma_hamilton_sum4::<T>(q, r);
    lemma_hamilton_sum4::<T>(pq, r);
    lemma_hamilton_sum4::<T>(p, qr);
    lemma_sum4_distrib::<T>(times::<T>(p.0, q.0), neg::<T>(times::<T>(p.1, q.1)), neg::<T>(times::<T>(p.2, q.2)), neg::<T>(times::<T>(p.3, q.3)), r.3);
    lemma_sum4_distrib::<T>(times::<T>(p.0, q.1), times::<T>(p.1, q.0), times::<T>(p.2, q.3), neg::<T>(times::<T>(p.3, q.2)), r.2);
    lemma_sum4_distrib::<T>(times::<T>(p.0, q.2), neg::<T>(times::<T>(p.1, q.3)), times::<T>(p.2, q.0), times::<T>(p.3, q.1), r.1);
    lemma_sum4_distrib::<T>(times::<T>(times::<T>(p.0, q.2), r.1), times::<T>(neg::<T>(times::<T>(p.1, q.3)), r.1), times::<T>(times::<T>(p.2, q.0), r.1), times::<T>(times::<T>(p.3, q.1), r.1), r.1);
    lemma_sum4_distrib::<T>(times::<T>(p.0, q.3), times::<T>(p.1, q.2), neg::<T>(times::<T>(p.2, q.1)), times::<T>(p.3, q.0), r.0);
    lemma_sum4_distrib::<T>(times::<T>(q.0, r.3), times::<T>(q.1, r.2), neg::<T>(times::<T>(q.2, r.1)), times::<T>(q.3, r.0), p.0);
    lemma_sum4_distrib::<T>(times::<T>(q.0, r.2), neg::<T>(times::<T>(q.1, r.3)), times::<T>(q.2, r.0), times::<T>(q.3, r.1), p.1);
    lemma_sum4_distrib::<T>(times::<T>(q.0, r.1), times::<T>(q.1, r.0), times::<T>(q.2, r.3), neg::<T>(times::<T>(q.3, r.2)), p.2);
    lemma_sum4_distrib::<T>(times::<T>(p.2, times::<T>(q.0, r.1)), times::<T>(p.2, times::<T>(q.1, r.0)), times::<T>(p.2, times::<T>(q.2, r.3)), times::<T>(p.2, neg::<T>(times::<T>(q.3, r.2))), p.2);
    lemma_sum4_distrib::<T>(times::<T>(q.0, r.0), neg::<T>(times::<T>(q.1, r.1)), neg::<T>(times::<T>(q.2, r.2)), neg::<T>(times::<T>(q.3, r.3)), p.3);
    let lhs = Seq::<T::Model>::empty()
            .push(times::<T>(p.0, times::<T>(q.0, r.3)))
            .push(neg::<T>(times::<T>(p.1, times::<T>(q.1, r.3))))
            .push(neg::<T>(times::<T>(p.2, times::<T>(q.2, r.3))))
            .push(neg::<T>(times::<T>(p.3, times::<T>(q.3, r.3))))
            .push(times::<T>(p.0, times::<T>(q.1, r.2)))
            .push(times::<T>(p.1, times::<T>(q.0, r.2)))
            .push(times::<T>(p.2, times::<T>(q.3, r.2)))
            .push(neg::<T>(times::<T>(p.3, times::<T>(q.2, r.2))))
            .push(neg::<T>(times::<T>(p.0, times::<T>(q.2, r.1))))
            .push(times::<T>(p.1, times::<T>(q.3, r.1)))
            .push(neg::<T>(times::<T>(p.2, times::<T>(q.0, r.1))))
            .push(neg::<T>(times::<T>(p.3, times::<T>(q.1, r.1))))
            .push(times::<T>(p.0, times::<T>(q.3, r.0)))
            .push(times::<T>(p.1, times::<T>(q.2, r.0)))
            .push(neg::<T>(times::<T>(p.2, times::<T>(q.1, r.0))))
            .push(times::<T>(p.3, times::<T>(q.0, r.0)));
    let rhs = Seq::<T::Model>::empty()
            .push(times::<T>(p.0, times::<T>(q.0, r.3)))
            .push(times::<T>(p.0, times::<T>(q.1, r.2)))
            .push(neg::<T>(times::<T>(p.0, times::<T>(q.2, r.1))))
            .push(times::<T>(p.0, times::<T>(q.3, r.0)))
            .push(times::<T>(p.1, times::<T>(q.0, r.2)))
            .push(neg::<T>(times::<T>(p.1, times::<T>(q.1, r.3))))
            .push(times::<T>(p.1, times::<T>(q.2, r.0)))
            .push(times::<T>(p.1, times::<T>(q.3, r.1)))
            .push(neg::<T>(times::<T>(p.2, times::<T>(q.0, r.1))))
            .push(neg::<T>(times::<T>(p.2, times::<T>(q.1, r.0))))
            .push(neg::<T>(times::<T>(p.2, times::<T>(q.2, r.3))))
            .push(times::<T>(p.2, times::<T>(q.3, r.2)))
            .push(times::<T>(p.3, times::<T>(q.0, r.0)))
            .push(neg::<T>(times::<T>(p.3, times::<T>(q.1, r.1))))
            .push(neg::<T>(times::<T>(p.3, times::<T>(q.2, r.2))))
            .push(neg::<T>(times::<T>(p.3, times::<T>(q.3, r.3))));
    lemma_sum16::<T>(lhs);
    lemma_sum16::<T>(rhs);
    assert(Seq::<T::Model>::empty().to_multiset() =~= Multiset::empty());
    assert(lhs.to_multiset() =~= rhs.to_multiset());
    lemma_sum_permutation::<T>(lhs, rhs);
}

/// Both distributive laws of the Hamilton product.
proof fn lemma_hamilton_distrib<T: Ring<Additive, Multiplicative>>(q: Quad<T>, r: Quad<T>, s: Quad<T>)
    requires
        quad_contained::<T>(q),
        quad_contained::<T>(r),
        quad_contained::<T>(s),
    ensures
        hamilton::<T>(q, quad_plus::<T>(r, s)) == quad_plus::<T>(hamilton::<T>(q, r), hamilton::<T>(q, s)),
        hamilton::<T>(quad_plus::<T>(r, s), q) == quad_plus::<T>(hamilton::<T>(r, q), hamilton::<T>(s, q)),
{
    let rs = quad_plus::<T>(r, s);
    lemma_hamilton_sum4::<T>(q, rs);
    lemma_hamilton_sum4::<T>(q, r);
    lemma_hamilton_sum4::<T>(q, s);
    lemma_hamilton_sum4::<T>(rs, q);
    lemma_hamilton_sum4::<T>(r, q);
    lemma_hamilton_sum4::<T>(s, q);
    lemma_distrib::<T>(q.0, r.0, s.0);
    lemma_distrib::<T>(q.0, r.0, s.0);
    lemma_distrib::<T>(q.1, r.1, s.1);
    lemma_distrib::<T>(q.1, r.1, s.1);
    lemma_neg::<T>(times::<T>(q.1, r.1), times::<T>(q.1, s.1));
    lemma_neg::<T>(times::<T>(r.1, q.1), times::<T>(s.1, q.1));
    lemma_distrib::<T>(q.2, r.2, s.2);
    lemma_distrib::<T>(q.2, r.2, s.2);
    lemma_neg::<T>(times::<T>(q.2, r.2), times::<T>(q.2, s.2));
    lemma_neg::<T>(times::<T>(r.2, q.2), times::<T>(s.2, q.2));
    lemma_distrib::<T>(q.3, r.3, s.3);
    lemma_distrib::<T>(q.3, r.3, s.3);
    lemma_neg::<T>(times::<T>(q.3, r.3), times::<T>(q.3, s.3));
    lemma_neg::<T>(times::<T>(r.3, q.3), times::<T>(s.3, q.3));
    lemma_sum4_of_sums::<T>(times::<T>(q.0, r.0), neg::<T>(times::<T>(q.1, r.1)), neg::<T>(times::<T>(q.2, r.2)), neg::<T>(times::<T>(q.3, r.3)), times::<T>(q.0, s.0), neg::<T>(times::<T>(q.1, s.1)), neg::<T>(times::<T>(q.2, s.2)), neg::<T>(times::<T>(q.3, s.3)));
    lemma_sum4_of_sums::<T>(times::<T>(r.0, q.0), neg::<T>(times::<T>(r.1, q.1)), neg::<T>(times::<T>(r.2, q.2)), neg::<T>(times::<T>(r.3, q.3)), times::<T>(s.0, q.0), neg::<T>(times::<T>(s.1, q.1)), neg::<T>(times::<T>(s.2, q.2)), neg::<T>(times::<T>(s.3, q.3)));
    lemma_distrib::<T>(q.0, r.1, s.1);
    lemma_distrib::<T>(q.1, r.0, s.0);
    lemma_distrib::<T>(q.1, r.0, s.0);
    lemma_distrib::<T>(q.0, r.1, s.1);
    lemma_distrib::<T>(q.2, r.3, s.3);
    lemma_distrib::<T>(q.3, r.2, s.2);
    lemma_distrib::<T>(q.3, r.2, s.2);
    lemma_distrib::<T>(q.2, r.3, s.3);
    lemma_neg::<T>(times::<T>(q.3, r.2), times::<T>(q.3, s.2));
    lemma_neg::<T>(times::<T>(r.3, q.2), times::<T>(s.3, q.2));
    lemma_sum4_of_sums::<T>(times::<T>(q.0, r.1), times::<T>(q.1, r.0), times::<T>(q.2, r.3), neg::<T>(times::<T>(q.3, r.2)), times::<T>(q.0, s.1), times::<T>(q.1, s.0), times::<T>(q.2, s.3), neg::<T>(times::<T>(q.3, s.2)));
    lemma_sum4_of_sums::<T>(times::<T>(r.0, q.1), times::<T>(r.1, q.0), times::<T>(r.2, q.3), neg::<T>(times::<T>(r.3, q.2)), times::<T>(s.0, q.1), times::<T>(s.1, q.0), times::<T>(s.2, q.3), neg::<T>(times::<T>(s.3, q.2)));
    lemma_distrib::<T>(q.0, r.2, s.2);
    lemma_distrib::<T>(q.2, r.0, s.0);
    lemma_distrib::<T>(q.1, r.3, s.3);
    lemma_distrib::<T>(q.3, r.1, s.1);
    lemma_neg::<T>(times::<T>(q.1, r.3), times::<T>(q.1, s.3));
    lemma_neg::<T>(times::<T>(r.1, q.3), times::<T>(s.1, q.3));
    lemma_distrib::<T>(q.2, r.0, s.0);
    lemma_distrib::<T>(q.0, r.2, s.2);
    lemma_distrib::<T>(q.3, r.1, s.1);
    lemma_distrib::<T>(q.1, r.3, s.3);
    lemma_sum4_of_sums::<T>(times::<T>(q.0, r.2), neg::<T>(times::<T>(q.1, r.3)), times::<T>(q.2, r.0), times::<T>(q.3, r.1), times::<T>(q.0, s.2), neg::<T>(times::<T>(q.1, s.3)), times::<T>(q.2, s.0), times::<T>(q.3, s.1));
    lemma_sum4_of_sums::<T>(times::<T>(r.0, q.2), neg::<T>(times::<T>(r.1, q.3)), times::<T>(r.2, q.0), times::<T>(r.3, q.1), times::<T>(s.0, q.2), neg::<T>(times::<T>(s.1, q.3)), times::<T>(s.2, q.0), times::<T>(s.3, q.1));
    lemma_distrib::<T>(q.0, r.3, s.3);
    lemma_distrib::<T>(q.3, r.0, s.0);
    lemma_distrib::<T>(q.1, r.2, s.2);
    lemma_distrib::<T>(q.2, r.1, s.1);
    lemma_distrib::<T>(q.2, r.1, s.1);
    lemma_distrib::<T>(q.1, r.2, s.2);
    lemma_neg::<T>(times::<T>(q.2, r.1), times::<T>(q.2, s.1));
    lemma_neg::<T>(times::<T>(r.2, q.1), times::<T>(s.2, q.1));
    lemma_distrib::<T>(q.3, r.0, s.0);
    lemma_distrib::<T>(q.0, r.3, s.3);
    lemma_sum4_of_sums::<T>(times::<T>(q.0, r.3), times::<T>(q.1, r.2), neg::<T>(times::<T>(q.2, r.1)), times::<T>(q.3, r.0), times::<T>(q.0, s.3), times::<T>(q.1, s.2), neg::<T>(times::<T>(q.2, s.1)), times::<T>(q.3, s.0));
    lemma_sum4_of_sums::<T>(times::<T>(r.0, q.3), times::<T>(r.1, q.2), neg::<T>(times::<T>(r.2, q.1)), times::<T>(r.3, q.0), times::<T>(s.0, q.3), times::<T>(s.1, q.2), neg::<T>(times::<T>(s.2, q.1)), times::<T>(s.3, q.0));
}

impl<T: Carrier> Carrier for Quaternion<T> {
    type Model = Quad<T>;

    open spec fn model(self) -> Quad<T> {
        let (w, x, y, z) = self.components();
        (w.model(), x.model(), y.model(), z.model())
    }

    open spec fn contains(m: Quad<T>) -> bool {
        quad_contained::<T>(m)
    }

    proof fn lemma_model_contained(q: &Self) {
        let (w, x, y, z) = q.components();
        T::lemma_model_contained(&w);
        T::lemma_model_contained(&x);
        T::lemma_model_contained(&y);
        T::lemma_model_contained(&z);
    }
}

impl<T: Magma<Additive>> Magma<Additive> for Quaternion<T> {
    open spec fn spec_combine(a: Quad<T>, b: Quad<T>) -> Quad<T> {
        (
            T::spec_combine(a.0, b.0),
            T::spec_combine(a.1, b.1),
            T::spec_combine(a.2, b.2),
            T::spec_combine(a.3, b.3),
        )
    }

    proof fn lemma_closed(a: Quad<T>, b: Quad<T>) {
        T::lemma_closed(a.0, b.0);
        T::lemma_closed(a.1, b.1);
        T::lemma_closed(a.2, b.2);
        T::lemma_closed(a.3, b.3);
    }

    fn combine(&self, rhs: &Self) -> (r: Self) {
        Quaternion::new(
            self.w().combine(rhs.w()),
            self.x().combine(rhs.x()),
            self.y().combine(rhs.y()),
            self.z().combine(rhs.z()),
        )
    }
}

impl<T: Semigroup<Additive>> Semigroup<Additive> for Quaternion<T> {
    proof fn lemma_associative(a: Quad<T>, b: Quad<T>, c: Quad<T>) {
        T::lemma_associative(a.0, b.0, c.0);
        T::lemma_associative(a.1, b.1, c.1);
        T::lemma_associative(a.2, b.2, c.2);
        T::lemma_associative(a.3, b.3, c.3);
    }
}

impl<T: Monoid<Additive>> Monoid<Additive> for Quaternion<T> {
    open spec fn spec_identity() -> Quad<T> {
        (T::spec_identity(), T::spec_identity(), T::spec_identity(), T::spec_identity())
    }

    proof fn lemma_identity(a: Quad<T>) {
        T::lemma_identity(a.0);
        T::lemma_identity(a.1);
        T::lemma_identity(a.2);
        T::lemma_identity(a.3);
    }

    fn identity() -> (r: Self) {
        Quaternion::new(T::identity(), T::identity(), T::identity(), T::identity())
    }
}

impl<T: Quasigroup<Additive>> Quasigroup<Additive> for Quaternion<T> {
    proof fn lemma_latin_square(a: Quad<T>, b: Quad<T>) {
        T::lemma_latin_square(a.0, b.0);
        T::lemma_latin_square(a.1, b.1);
        T::lemma_latin_square(a.2, b.2);
        T::lemma_latin_square(a.3, b.3);
        let x = (left_quotient::<Additive, T>(a.0, b.0), left_quotient::<Additive, T>(a.1, b.1), left_quotient::<Additive, T>(a.2, b.2), left_quotient::<Additive, T>(a.3, b.3));
        let y = (right_quotient::<Additive, T>(a.0, b.0), right_quotient::<Additive, T>(a.1, b.1), right_quotient::<Additive, T>(a.2, b.2), right_quotient::<Additive, T>(a.3, b.3));
        assert(Self::contains(x) && Self::spec_combine(a, x) == b);
        assert(Self::contains(y) && Self::spec_combine(y, a) == b);
        assert forall|x1: Quad<T>, x2: Quad<T>|
            Self::contains(x1) && Self::contains(x2) && #[trigger] Self::spec_combine(a, x1)
                == #[trigger] Self::spec_combine(a, x2) implies x1 == x2 by {
            assert(T::spec_combine(a.0, x1.0) == T::spec_combine(a.0, x2.0));
            assert(T::spec_combine(a.1, x1.1) == T::spec_combine(a.1, x2.1));
            assert(T::spec_combine(a.2, x1.2) == T::spec_combine(a.2, x2.2));
            assert(T::spec_combine(a.3, x1.3) == T::spec_combine(a.3, x2.3));
        }
        assert forall|y1: Quad<T>, y2: Quad<T>|
            Self::contains(y1) && Self::contains(y2) && #[trigger] Self::spec_combine(y1, a)
                == #[trigger] Self::spec_combine(y2, a) implies y1 == y2 by {
            assert(T::spec_combine(y1.0, a.0) == T::spec_combine(y2.0, a.0));
            assert(T::spec_combine(y1.1, a.1) == T::spec_combine(y2.1, a.1));
            assert(T::spec_combine(y1.2, a.2) == T::spec_combine(y2.2, a.2));
            assert(T::spec_combine(y1.3, a.3) == T::spec_combine(y2.3, a.3));
        }
    }
}

impl<T: Loop<Additive>> Loop<Additive> for Quaternion<T> {

}

impl<T: Group<Additive>> Group<Additive> for Quaternion<T> {
    open spec fn spec_inverse(a: Quad<T>) -> Quad<T> {
        (T::spec_inverse(a.0), T::spec_inverse(a.1), T::spec_inverse(a.2), T::spec_inverse(a.3))
    }

    proof fn lemma_inverse(a: Quad<T>) {
        T::lemma_inverse(a.0);
        T::lemma_inverse(a.1);
        T::lemma_inverse(a.2);
        T::lemma_inverse(a.3);
    }

    fn inverse(&self) -> (r: Self) {
        Quaternion::new(
            self.w().inverse(),
            self.x().inverse(),
            self.y().inverse(),
            self.z().inverse(),
        )
    }
}

impl<T: AbelianGroup<Additive>> AbelianGroup<Additive> for Quaternion<T> {
    proof fn lemma_commutative(a: Quad<T>, b: Quad<T>) {
        T::lemma_commutative(a.0, b.0);
        T::lemma_commutative(a.1, b.1);
        T::lemma_commutative(a.2, b.2);
        T::lemma_commutative(a.3, b.3);
    }
}

impl<T: Ring<Additive, Multiplicative>> Magma<Multiplicative> for Quaternion<T> {
    open spec fn spec_combine(a: Quad<T>, b: Quad<T>) -> Quad<T> {
        hamilton::<T>(a, b)
    }

    proof fn lemma_closed(a: Quad<T>, b: Quad<T>) {
    }

    fn combine(&self, rhs: &Self) -> (r: Self) {
        // w1w2 − (x1x2 + y1y2 + z1z2)
        let w = <T as Magma<Additive>>::combine(
            &<T as Magma<Multiplicative>>::combine(self.w(), rhs.w()),
            &<T as Group<Additive>>::inverse(
                &<T as Magma<Additive>>::combine(
                    &<T as Magma<Additive>>::combine(
                        &<T as Magma<Multiplicative>>::combine(self.x(), rhs.x()),
                        &<T as Magma<Multiplicative>>::combine(self.y(), rhs.y()),
                    ),
                    &<T as Magma<Multiplicative>>::combine(self.z(), rhs.z()),
                ),
            ),
        );
        // w1x2 + x1w2 + y1z2 − z1y2
        let x = <T as Magma<Additive>>::combine(
            &<T as Magma<Additive>>::combine(
                &<T as Magma<Multiplicative>>::combine(self.w(), rhs.x()),
                &<T as Magma<Multiplicative>>::combine(self.x(), rhs.w()),
            ),
            &<T as Magma<Additive>>::combine(
                &<T as Magma<Multiplicative>>::combine(self.y(), rhs.z()),
                &<T as Group<Additive>>::inverse(
                    &<T as Magma<Multiplicative>>::combine(self.z(), rhs.y()),
                ),
            ),
        );
        // w1y2 − x1z2 + y1w2 + z1x2
        let y = <T as Magma<Additive>>::combine(
            &<T as Magma<Additive>>::combine(
                &<T as Magma<Multiplicative>>::combine(self.w(), rhs.y()),
                &<T as Group<Additive>>::inverse(
                    &<T as Magma<Multiplicative>>::combine(self.x(), rhs.z()),
                ),
            ),
            &<T as Magma<Additive>>::combine(
                &<T as Magma<Multiplicative>>::combine(self.y(), rhs.w()),
                &<T as Magma<Multiplicative>>::combine(self.z(), rhs.x()),
            ),
        );
        // w1z2 + x1y2 − y1x2 + z1w2
        let z = <T as Magma<Additive>>::combine(
            &<T as Magma<Additive>>::combine(
                &<T as Magma<Multiplicative>>::combine(self.w(), rhs.z()),
                &<T as Magma<Multiplicative>>::combine(self.x(), rhs.y()),
            ),
            &<T as Magma<Additive>>::combine(
                &<T as Group<Additive>>::inverse(
                    &<T as Magma<Multiplicative>>::combine(self.y(), rhs.x()),
                ),
                &<T as Magma<Multiplicative>>::combine(self.z(), rhs.w()),
            ),
        );
        Quaternion::new(w, x, y, z)
    }
}

impl<T: Ring<Additive, Multiplicative>> Semigroup<Multiplicative> for Quaternion<T> {
    proof fn lemma_associative(p: Quad<T>, q: Quad<T>, r: Quad<T>) {
        lemma_hamilton_assoc_0::<T>(p, q, r);
        lemma_hamilton_assoc_1::<T>(p, q, r);
        lemma_hamilton_assoc_2::<T>(p, q, r);
        lemma_hamilton_assoc_3::<T>(p, q, r);
    }
}

impl<T: Ring<Additive, Multiplicative>> Monoid<Multiplicative> for Quaternion<T> {
    open spec fn spec_identity() -> Quad<T> {
        (one::<T>(), zero::<T>(), zero::<T>(), zero::<T>())
    }

    proof fn lemma_identity(q: Quad<T>) {
        lemma_constants::<T>();
        let e = <Self as Monoid<Multiplicative>>::spec_identity();
        let z = zero::<T>();
        lemma_units::<T>(z);
        lemma_neg::<T>(z, z);
        if Self::contains(q) {
            lemma_hamilton_sum4::<T>(e, q);
            lemma_hamilton_sum4::<T>(q, e);
            lemma_units::<T>(q.0);
            lemma_units::<T>(q.1);
            lemma_units::<T>(q.2);
            lemma_units::<T>(q.3);
        }
    }

    fn identity() -> (r: Self) {
        Quaternion::new(
            <T as Monoid<Multiplicative>>::identity(),
            <T as Monoid<Additive>>::identity(),
            <T as Monoid<Additive>>::identity(),
            <T as Monoid<Additive>>::identity(),
        )
    }
}

impl<T: Ring<Additive, Multiplicative>> Semiring<Additive, Multiplicative> for Quaternion<T> {
    proof fn lemma_distributive(a: Quad<T>, b: Quad<T>, c: Quad<T>) {
        lemma_hamilton_distrib::<T>(a, b, c);
    }
}

impl<T: Ring<Additive, Multiplicative>> Ring<Additive, Multiplicative> for Quaternion<T> {

}

impl<T: Field<Additive, Multiplicative>> Module<Additive, Multiplicative> for Quaternion<T> {
    type Scalar = T;

    open spec fn spec_scale(s: T::Model, v: Quad<T>) -> Quad<T> {
        (times::<T>(s, v.0), times::<T>(s, v.1), times::<T>(s, v.2), times::<T>(s, v.3))
    }

    proof fn lemma_module(s: T::Model, t: T::Model, u: Quad<T>, v: Quad<T>) {
        lemma_distrib::<T>(s, u.0, v.0);
        lemma_distrib::<T>(s, u.1, v.1);
        lemma_distrib::<T>(s, u.2, v.2);
        lemma_distrib::<T>(s, u.3, v.3);
        lemma_distrib::<T>(v.0, s, t);
        lemma_distrib::<T>(v.1, s, t);
        lemma_distrib::<T>(v.2, s, t);
        lemma_distrib::<T>(v.3, s, t);
        lemma_assoc::<T>(s, t, v.0);
        lemma_assoc::<T>(s, t, v.1);
        lemma_assoc::<T>(s, t, v.2);
        lemma_assoc::<T>(s, t, v.3);
        lemma_units::<T>(v.0);
        lemma_units::<T>(v.1);
        lemma_units::<T>(v.2);
        lemma_units::<T>(v.3);
    }

    fn scale(s: &T, v: Self) -> (r: Self) {
        Quaternion::new(
            <T as Magma<Multiplicative>>::combine(s, v.w()),
            <T as Magma<Multiplicative>>::combine(s, v.x()),
            <T as Magma<Multiplicative>>::combine(s, v.y()),
            <T as Magma<Multiplicative>>::combine(s, v.z()),
        )
    }
}

impl<T: Field<Additive, Multiplicative>> VectorSpace<Additive, Multiplicative> for Quaternion<T> {

}

/// `w² + x² + y² + z²` on models: the squared norm of a quaternion.
pub open spec fn norm_squared<T: Ring<Additive, Multiplicative>>(q: Quad<T>) -> T::Model {
    sum4::<T>(times::<T>(q.0, q.0), times::<T>(q.1, q.1), times::<T>(q.2, q.2), times::<T>(q.3, q.3))
}

/// The conjugate `w − x·i − y·j − z·k` on models.
pub open spec fn conjugate<T: Ring<Additive, Multiplicative>>(q: Quad<T>) -> Quad<T> {
    (q.0, neg::<T>(q.1), neg::<T>(q.2), neg::<T>(q.3))
}

/// The real quaternion `s + 0i + 0j + 0k` on models.
pub open spec fn real_quad<T: Ring<Additive, Multiplicative>>(s: T::Model) -> Quad<T> {
    (s, zero::<T>(), zero::<T>(), zero::<T>())
}

/// Whether `a² + b² + c² + d² == 0` only for `a == b == c == d == 0` — the
/// condition under which the quaternions over a field `T` form a division
/// ring (it holds over the reals and fails over every finite field).
pub open spec fn four_squares_nondegenerate<T: Ring<Additive, Multiplicative>>() -> bool {
    forall|q: Quad<T>|
        quad_contained::<T>(q) && #[trigger] norm_squared::<T>(q) == zero::<T>() ==> q == real_quad::<
            T,
        >(zero::<T>())
}

/// `q·q̄ == ‖q‖²` over a commutative ring.
proof fn lemma_times_conjugate_right<T: CommutativeRing<Additive, Multiplicative>>(q: Quad<T>)
    requires
        quad_contained::<T>(q),
    ensures
        hamilton::<T>(q, conjugate::<T>(q)) == real_quad::<T>(norm_squared::<T>(q)),
{
    let (a, b, d, e) = q;
    let c = conjugate::<T>(q);
    lemma_hamilton_sum4::<T>(q, c);
    let ab = times::<T>(a, b);
    let ad = times::<T>(a, d);
    let ae = times::<T>(a, e);
    let bd = times::<T>(b, d);
    let be = times::<T>(b, e);
    let de = times::<T>(d, e);
    lemma_neg_times::<T>(b, b);
    lemma_neg_times::<T>(d, d);
    lemma_neg_times::<T>(e, e);
    lemma_neg::<T>(times::<T>(b, b), times::<T>(d, d));
    lemma_neg::<T>(times::<T>(d, d), times::<T>(d, d));
    lemma_neg::<T>(times::<T>(e, e), times::<T>(e, e));
    assert(hamilton::<T>(q, c).0 == norm_squared::<T>(q));
    lemma_neg_times::<T>(a, b);
    lemma_neg_times::<T>(d, e);
    lemma_neg_times::<T>(e, d);
    lemma_times_commutes::<T>(b, a);
    lemma_times_commutes::<T>(e, d);
    lemma_neg::<T>(de, de);
    lemma_units::<T>(ab);
    lemma_units::<T>(de);
    lemma_constants::<T>();
    lemma_units::<T>(zero::<T>());
    assert(hamilton::<T>(q, c).1 == zero::<T>());
    lemma_neg_times::<T>(a, d);
    lemma_neg_times::<T>(b, e);
    lemma_neg_times::<T>(e, b);
    lemma_times_commutes::<T>(d, a);
    lemma_times_commutes::<T>(e, b);
    lemma_neg::<T>(be, be);
    lemma_units::<T>(ad);
    lemma_units::<T>(be);
    lemma_swap_middle::<T>(neg::<T>(ad), be, ad, neg::<T>(be));
    assert(hamilton::<T>(q, c).2 == zero::<T>());
    lemma_neg_times::<T>(a, e);
    lemma_neg_times::<T>(b, d);
    lemma_neg_times::<T>(d, b);
    lemma_times_commutes::<T>(d, b);
    lemma_times_commutes::<T>(e, a);
    lemma_neg::<T>(bd, bd);
    lemma_units::<T>(ae);
    lemma_units::<T>(bd);
    lemma_assoc::<T>(bd, ae, bd);
    lemma_swap_middle::<T>(neg::<T>(ae), neg::<T>(bd), ae, bd);
    assert(hamilton::<T>(q, c).3 == zero::<T>());
}

/// `q̄·q == ‖q‖²` over a commutative ring.
proof fn lemma_times_conjugate_left<T: CommutativeRing<Additive, Multiplicative>>(q: Quad<T>)
    requires
        quad_contained::<T>(q),
    ensures
        hamilton::<T>(conjugate::<T>(q), q) == real_quad::<T>(norm_squared::<T>(q)),
{
    let (a, b, d, e) = q;
    let c = conjugate::<T>(q);
    lemma_hamilton_sum4::<T>(c, q);
    let ab = times::<T>(a, b);
    let ad = times::<T>(a, d);
    let ae = times::<T>(a, e);
    let bd = times::<T>(b, d);
    let be = times::<T>(b, e);
    let de = times::<T>(d, e);
    lemma_neg_times::<T>(b, b);
    lemma_neg_times::<T>(d, d);
    lemma_neg_times::<T>(e, e);
    lemma_neg::<T>(times::<T>(b, b), times::<T>(d, d));
    lemma_neg::<T>(times::<T>(d, d), times::<T>(d, d));
    lemma_neg::<T>(times::<T>(e, e), times::<T>(e, e));
    assert(hamilton::<T>(c, q).0 == norm_squared::<T>(q));
    lemma_neg_times::<T>(b, a);
    lemma_neg_times::<T>(d, e);
    lemma_neg_times::<T>(e, d);
    lemma_times_commutes::<T>(b, a);
    lemma_times_commutes::<T>(e, d);
    lemma_neg::<T>(de, de);
    lemma_units::<T>(ab);
    lemma_units::<T>(de);
    lemma_constants::<T>();
    lemma_units::<T>(zero::<T>());
    assert(hamilton::<T>(c, q).1 == zero::<T>());
    lemma_neg_times::<T>(b, e);
    lemma_neg_times::<T>(d, a);
    lemma_neg_times::<T>(e, b);
    lemma_times_commutes::<T>(d, a);
    lemma_times_commutes::<T>(e, b);
    lemma_neg::<T>(be, be);
    lemma_units::<T>(ad);
    lemma_units::<T>(be);
    lemma_swap_middle::<T>(ad, be, neg::<T>(ad), neg::<T>(be));
    assert(hamilton::<T>(c, q).2 == zero::<T>());
    lemma_neg_times::<T>(b, d);
    lemma_neg_times::<T>(d, b);
    lemma_neg_times::<T>(e, a);
    lemma_times_commutes::<T>(d, b);
    lemma_times_commutes::<T>(e, a);
    lemma_neg::<T>(bd, bd);
    lemma_units::<T>(ae);
    lemma_units::<T>(bd);
    lemma_assoc::<T>(bd, neg::<T>(ae), bd);
    lemma_swap_middle::<T>(ae, neg::<T>(bd), neg::<T>(ae), bd);
    assert(hamilton::<T>(c, q).3 == zero::<T>());
}

/// A real quaternion commutes with every quaternion, over a commutative
/// ring: `s·q == q·s == (s·w, s·x, s·y, s·z)`.
proof fn lemma_real_central<T: CommutativeRing<Additive, Multiplicative>>(s: T::Model, q: Quad<T>)
    requires
        T::contains(s),
        quad_contained::<T>(q),
    ensures
        hamilton::<T>(real_quad::<T>(s), q) == hamilton::<T>(q, real_quad::<T>(s)),
{
    let r = real_quad::<T>(s);
    lemma_constants::<T>();
    lemma_hamilton_sum4::<T>(r, q);
    lemma_hamilton_sum4::<T>(q, r);
    let z = zero::<T>();
    lemma_units::<T>(z);
    lemma_neg::<T>(z, z);
    lemma_units::<T>(q.0);
    lemma_units::<T>(q.1);
    lemma_units::<T>(q.2);
    lemma_units::<T>(q.3);
    lemma_times_commutes::<T>(s, q.0);
    lemma_times_commutes::<T>(s, q.1);
    lemma_times_commutes::<T>(s, q.2);
    lemma_times_commutes::<T>(s, q.3);
    lemma_units::<T>(times::<T>(s, q.0));
    lemma_units::<T>(times::<T>(s, q.1));
    lemma_units::<T>(times::<T>(s, q.2));
    lemma_units::<T>(times::<T>(s, q.3));
}

/// Real quaternions multiply as their real parts.
proof fn lemma_real_times<T: Ring<Additive, Multiplicative>>(s: T::Model, t: T::Model)
    requires
        T::contains(s),
        T::contains(t),
    ensures
        hamilton::<T>(real_quad::<T>(s), real_quad::<T>(t)) == real_quad::<T>(times::<T>(s, t)),
{
    lemma_constants::<T>();
    lemma_hamilton_sum4::<T>(real_quad::<T>(s), real_quad::<T>(t));
    let z = zero::<T>();
    lemma_units::<T>(z);
    lemma_neg::<T>(z, z);
    lemma_units::<T>(s);
    lemma_units::<T>(t);
    lemma_units::<T>(times::<T>(s, t));
}

/// `(-a)·b == -(b·a)`, `a·(-b) == -(b·a)` and `(-a)·(-b) == b·a` over a
/// commutative ring.
proof fn lemma_signed_swap<T: CommutativeRing<Additive, Multiplicative>>(a: T::Model, b: T::Model)
    requires
        T::contains(a),
        T::contains(b),
    ensures
        times::<T>(neg::<T>(a), b) == neg::<T>(times::<T>(b, a)),
        times::<T>(a, neg::<T>(b)) == neg::<T>(times::<T>(b, a)),
        times::<T>(neg::<T>(a), neg::<T>(b)) == times::<T>(b, a),
{
    lemma_closed::<T>(a, b);
    lemma_neg_times::<T>(a, b);
    lemma_neg_times::<T>(a, neg::<T>(b));
    lemma_times_commutes::<T>(a, b);
    lemma_closed::<T>(b, a);
    lemma_neg::<T>(times::<T>(b, a), times::<T>(b, a));
}

/// `x + y == y + x`.
proof fn lemma_plus_commutes<T: Ring<Additive, Multiplicative>>(x: T::Model, y: T::Model)
    requires
        T::contains(x),
        T::contains(y),
    ensures
        plus::<T>(x, y) == plus::<T>(y, x),
{
    <T as AbelianGroup<Additive>>::lemma_commutative(x, y);
}

/// `-((a + b) + (c + d)) == (-a + -b) + (-c + -d)`.
proof fn lemma_neg_sum4<T: Ring<Additive, Multiplicative>>(
    a: T::Model,
    b: T::Model,
    c: T::Model,
    d: T::Model,
)
    requires
        T::contains(a),
        T::contains(b),
        T::contains(c),
        T::contains(d),
    ensures
        neg::<T>(sum4::<T>(a, b, c, d)) == sum4::<T>(neg::<T>(a), neg::<T>(b), neg::<T>(c), neg::<T>(d)),
{
    lemma_closed::<T>(a, b);
    lemma_closed::<T>(c, d);
    lemma_neg::<T>(plus::<T>(a, b), plus::<T>(c, d));
    lemma_neg::<T>(a, b);
    lemma_neg::<T>(c, d);
}

/// The conjugate of a product is the product of the conjugates in the other
/// order, over a commutative ring: `(p·q)‾ == q̄·p̄`.
proof fn lemma_conjugate_product<T: CommutativeRing<Additive, Multiplicative>>(p: Quad<T>, q: Quad<T>)
    requires
        quad_contained::<T>(p),
        quad_contained::<T>(q),
    ensures
        conjugate::<T>(hamilton::<T>(p, q)) == hamilton::<T>(conjugate::<T>(q), conjugate::<T>(p)),
{
    let cp = conjugate::<T>(p);
    let cq = conjugate::<T>(q);
    lemma_closed::<T>(p.1, p.2);
    lemma_closed::<T>(p.3, p.0);
    lemma_closed::<T>(q.1, q.2);
    lemma_closed::<T>(q.3, q.0);
    lemma_hamilton_sum4::<T>(p, q);
    lemma_hamilton_sum4::<T>(cq, cp);
    // The sixteen products, each with its sign settled.
    lemma_times_commutes::<T>(q.0, p.0);
    lemma_signed_swap::<T>(q.1, p.1);
    lemma_signed_swap::<T>(q.2, p.2);
    lemma_signed_swap::<T>(q.3, p.3);
    lemma_signed_swap::<T>(q.0, p.1);
    lemma_signed_swap::<T>(q.1, p.0);
    lemma_signed_swap::<T>(q.2, p.3);
    lemma_signed_swap::<T>(q.3, p.2);
    lemma_signed_swap::<T>(q.0, p.2);
    lemma_signed_swap::<T>(q.1, p.3);
    lemma_signed_swap::<T>(q.2, p.0);
    lemma_signed_swap::<T>(q.3, p.1);
    lemma_signed_swap::<T>(q.0, p.3);
    lemma_signed_swap::<T>(q.1, p.2);
    lemma_signed_swap::<T>(q.2, p.1);
    lemma_signed_swap::<T>(q.3, p.0);
    lemma_times_commutes::<T>(q.0, p.1);
    lemma_times_commutes::<T>(q.0, p.2);
    lemma_times_commutes::<T>(q.0, p.3);
    let (p0, p1, p2, p3) = p;
    let (q0, q1, q2, q3) = q;
    lemma_closed::<T>(p0, q0); lemma_closed::<T>(p0, q1); lemma_closed::<T>(p0, q2); lemma_closed::<T>(p0, q3);
    lemma_closed::<T>(p1, q0); lemma_closed::<T>(p1, q1); lemma_closed::<T>(p1, q2); lemma_closed::<T>(p1, q3);
    lemma_closed::<T>(p2, q0); lemma_closed::<T>(p2, q1); lemma_closed::<T>(p2, q2); lemma_closed::<T>(p2, q3);
    lemma_closed::<T>(p3, q0); lemma_closed::<T>(p3, q1); lemma_closed::<T>(p3, q2); lemma_closed::<T>(p3, q3);
    // Component 1: (A, B, C, D) against (B, A, D, C).
    lemma_closed::<T>(times::<T>(p3, q2), times::<T>(p3, q2));
    lemma_neg_sum4::<T>(times::<T>(p0, q1), times::<T>(p1, q0), times::<T>(p2, q3), neg::<T>(times::<T>(p3, q2)));
    lemma_neg::<T>(times::<T>(p3, q2), times::<T>(p3, q2));
    lemma_closed::<T>(neg::<T>(times::<T>(p0, q1)), neg::<T>(times::<T>(p1, q0)));
    lemma_closed::<T>(neg::<T>(times::<T>(p2, q3)), times::<T>(p3, q2));
    lemma_plus_commutes::<T>(neg::<T>(times::<T>(p0, q1)), neg::<T>(times::<T>(p1, q0)));
    lemma_plus_commutes::<T>(neg::<T>(times::<T>(p2, q3)), times::<T>(p3, q2));
    // Component 2: (A, B, C, D) against (C, D, A, B).
    lemma_neg_sum4::<T>(times::<T>(p0, q2), neg::<T>(times::<T>(p1, q3)), times::<T>(p2, q0), times::<T>(p3, q1));
    lemma_neg::<T>(times::<T>(p1, q3), times::<T>(p1, q3));
    lemma_closed::<T>(neg::<T>(times::<T>(p0, q2)), times::<T>(p1, q3));
    lemma_closed::<T>(neg::<T>(times::<T>(p2, q0)), neg::<T>(times::<T>(p3, q1)));
    lemma_plus_commutes::<T>(
        plus::<T>(neg::<T>(times::<T>(p0, q2)), times::<T>(p1, q3)),
        plus::<T>(neg::<T>(times::<T>(p2, q0)), neg::<T>(times::<T>(p3, q1))),
    );
    // Component 3: (A, B, C, D) against (D, C, B, A).
    lemma_neg_sum4::<T>(times::<T>(p0, q3), times::<T>(p1, q2), neg::<T>(times::<T>(p2, q1)), times::<T>(p3, q0));
    lemma_neg::<T>(times::<T>(p2, q1), times::<T>(p2, q1));
    lemma_closed::<T>(neg::<T>(times::<T>(p0, q3)), neg::<T>(times::<T>(p1, q2)));
    lemma_closed::<T>(times::<T>(p2, q1), neg::<T>(times::<T>(p3, q0)));
    lemma_plus_commutes::<T>(neg::<T>(times::<T>(p0, q3)), neg::<T>(times::<T>(p1, q2)));
    lemma_plus_commutes::<T>(times::<T>(p2, q1), neg::<T>(times::<T>(p3, q0)));
    lemma_plus_commutes::<T>(
        plus::<T>(neg::<T>(times::<T>(p1, q2)), neg::<T>(times::<T>(p0, q3))),
        plus::<T>(neg::<T>(times::<T>(p3, q0)), times::<T>(p2, q1)),
    );
}

/// `(pq)r == p(qr)` on models.
proof fn lemma_hamilton_assoc<T: Ring<Additive, Multiplicative>>(p: Quad<T>, q: Quad<T>, r: Quad<T>)
    requires
        quad_contained::<T>(p),
        quad_contained::<T>(q),
        quad_contained::<T>(r),
    ensures
        hamilton::<T>(hamilton::<T>(p, q), r) == hamilton::<T>(p, hamilton::<T>(q, r)),
{
    lemma_hamilton_assoc_0::<T>(p, q, r);
    lemma_hamilton_assoc_1::<T>(p, q, r);
    lemma_hamilton_assoc_2::<T>(p, q, r);
    lemma_hamilton_assoc_3::<T>(p, q, r);
}

/// The conjugate, the product and the squared norm stay in the set.
proof fn lemma_quad_closed<T: Ring<Additive, Multiplicative>>(p: Quad<T>, q: Quad<T>)
    requires
        quad_contained::<T>(p),
        quad_contained::<T>(q),
    ensures
        quad_contained::<T>(conjugate::<T>(p)),
        quad_contained::<T>(hamilton::<T>(p, q)),
        T::contains(norm_squared::<T>(p)),
{
    lemma_closed::<T>(p.1, p.1);
    lemma_closed::<T>(p.2, p.2);
    lemma_closed::<T>(p.3, p.3);
    lemma_closed::<T>(p.0, p.0);
    <Quaternion<T> as Magma<Multiplicative>>::lemma_closed(p, q);
    lemma_closed::<T>(times::<T>(p.0, p.0), times::<T>(p.1, p.1));
    lemma_closed::<T>(times::<T>(p.2, p.2), times::<T>(p.3, p.3));
    lemma_closed::<T>(
        plus::<T>(times::<T>(p.0, p.0), times::<T>(p.1, p.1)),
        plus::<T>(times::<T>(p.2, p.2), times::<T>(p.3, p.3)),
    );
}

/// The squared norm of quaternions is multiplicative over a commutative
/// ring (Euler's four-square identity): `‖p·q‖² == ‖p‖²·‖q‖²`.
pub(crate) proof fn lemma_norm_multiplicative<T: CommutativeRing<Additive, Multiplicative>>(
    p: Quad<T>,
    q: Quad<T>,
)
    requires
        quad_contained::<T>(p),
        quad_contained::<T>(q),
    ensures
        norm_squared::<T>(hamilton::<T>(p, q)) == times::<T>(norm_squared::<T>(p), norm_squared::<T>(q)),
{
    let pq = hamilton::<T>(p, q);
    let cp = conjugate::<T>(p);
    let cq = conjugate::<T>(q);
    lemma_quad_closed::<T>(p, q);
    lemma_quad_closed::<T>(q, cp);
    lemma_quad_closed::<T>(cq, cp);
    lemma_quad_closed::<T>(pq, p);
    let np = norm_squared::<T>(p);
    let nq = norm_squared::<T>(q);
    let rq = real_quad::<T>(nq);
    lemma_constants::<T>();
    assert(quad_contained::<T>(rq));
    let cqcp = hamilton::<T>(cq, cp);
    lemma_quad_closed::<T>(cq, cp);
    // pq·(pq)‾ == ‖pq‖²
    lemma_times_conjugate_right::<T>(pq);
    lemma_conjugate_product::<T>(p, q);
    // pq·(q̄p̄) == p·(q·(q̄p̄)) == p·((qq̄)·p̄) == p·(‖q‖²·p̄)
    lemma_hamilton_assoc::<T>(p, q, cqcp);
    lemma_hamilton_assoc::<T>(q, cq, cp);
    lemma_times_conjugate_right::<T>(q);
    // ‖q‖²·p̄ == p̄·‖q‖², then p·(p̄·‖q‖²) == (pp̄)·‖q‖² == ‖p‖²·‖q‖²
    lemma_real_central::<T>(nq, cp);
    lemma_hamilton_assoc::<T>(p, cp, rq);
    lemma_times_conjugate_right::<T>(p);
    lemma_real_times::<T>(np, nq);
}

impl<T: Field<Additive, Multiplicative> + Copy> DivisionRing<Additive, Multiplicative> for Quaternion<
    T,
> {
    open spec fn inverses_exist() -> bool {
        T::inverses_exist() && four_squares_nondegenerate::<T>()
    }

    open spec fn spec_inv(q: Quad<T>) -> Quad<T> {
        hamilton::<T>(conjugate::<T>(q), real_quad::<T>(T::spec_inv(norm_squared::<T>(q))))
    }

    proof fn lemma_inv_closed(q: Quad<T>) {
        lemma_constants::<T>();
        T::lemma_inv_closed(norm_squared::<T>(q));
    }

    proof fn lemma_inv(q: Quad<T>) {
        let n = norm_squared::<T>(q);
        let i = T::spec_inv(n);
        let c = conjugate::<T>(q);
        let s = real_quad::<T>(i);
        lemma_constants::<T>();
        assert(q != real_quad::<T>(zero::<T>()));
        assert(n != zero::<T>());
        T::lemma_inv_closed(n);
        T::lemma_inv(n);
        lemma_times_conjugate_right::<T>(q);
        lemma_times_conjugate_left::<T>(q);
        lemma_real_times::<T>(n, i);
        // q·(q̄·s) == (q·q̄)·s == n·s == 1
        <Self as Semigroup<Multiplicative>>::lemma_associative(q, c, s);
        // (q̄·s)·q == q̄·(s·q) == q̄·(q·s) == (q̄·q)·s == 1
        <Self as Semigroup<Multiplicative>>::lemma_associative(c, s, q);
        lemma_real_central::<T>(i, q);
        <Self as Semigroup<Multiplicative>>::lemma_associative(c, q, s);
    }

    fn inv(&self) -> (r: Self) {
        let conj = Quaternion::new(
            *self.w(),
            <T as Group<Additive>>::inverse(self.x()),
            <T as Group<Additive>>::inverse(self.y()),
            <T as Group<Additive>>::inverse(self.z()),
        );
        let norm2 = <T as Magma<Additive>>::combine(
            &<T as Magma<Additive>>::combine(
                &<T as Magma<Multiplicative>>::combine(self.w(), self.w()),
                &<T as Magma<Multiplicative>>::combine(self.x(), self.x()),
            ),
            &<T as Magma<Additive>>::combine(
                &<T as Magma<Multiplicative>>::combine(self.y(), self.y()),
                &<T as Magma<Multiplicative>>::combine(self.z(), self.z()),
            ),
        );
        let inv_norm2 = <T as DivisionRing<Additive, Multiplicative>>::inv(&norm2);
        // q⁻¹ = q̄ / ‖q‖²
        <Quaternion<T> as Magma<Multiplicative>>::combine(
            &conj,
            &Quaternion::new(
                inv_norm2,
                <T as Monoid<Additive>>::identity(),
                <T as Monoid<Additive>>::identity(),
                <T as Monoid<Additive>>::identity(),
            ),
        )
    }
}

/// `⟨p, q⟩ == ((w·w' + x·x') + y·y') + z·z'` on models.
pub open spec fn quad_inner<T: Ring<Additive, Multiplicative>>(p: Quad<T>, q: Quad<T>) -> T::Model {
    plus::<T>(
        plus::<T>(plus::<T>(times::<T>(p.0, q.0), times::<T>(p.1, q.1)), times::<T>(p.2, q.2)),
        times::<T>(p.3, q.3),
    )
}

/// The real quaternions scaled component-wise: `(w·r, x·r, y·r, z·r)`.
pub open spec fn quad_scale_real<T: Ring<Additive, Multiplicative>>(q: Quad<T>, r: T::Model) -> Quad<T> {
    (times::<T>(q.0, r), times::<T>(q.1, r), times::<T>(q.2, r), times::<T>(q.3, r))
}

/// The `i`-th unit quaternion `1, i, j, k` on models.
pub open spec fn quad_basis<T: Ring<Additive, Multiplicative>>(i: usize) -> Quad<T> {
    let (o, z) = (one::<T>(), zero::<T>());
    if i == 0 {
        (o, z, z, z)
    } else if i == 1 {
        (z, o, z, z)
    } else if i == 2 {
        (z, z, o, z)
    } else {
        (z, z, z, o)
    }
}

/// `(−a)·(−a) == a·a`.
proof fn lemma_neg_square<T: Ring<Additive, Multiplicative>>(a: T::Model)
    requires
        T::contains(a),
    ensures
        times::<T>(neg::<T>(a), neg::<T>(a)) == times::<T>(a, a),
{
    lemma_closed::<T>(a, a);
    lemma_neg_times::<T>(a, neg::<T>(a));
    lemma_neg_times::<T>(a, a);
    lemma_closed::<T>(a, neg::<T>(a));
    lemma_neg::<T>(times::<T>(a, a), times::<T>(a, a));
}

impl<T: Real + ClosedAdd + ClosedMul + Copy> NormedSpace<Additive, Multiplicative> for Quaternion<T> {
    type RealField = T;

    open spec fn spec_norm_squared(q: Quad<T>) -> T::Model {
        quad_inner::<T>(q, q)
    }

    open spec fn spec_scale_real(q: Quad<T>, r: T::Model) -> Quad<T> {
        quad_scale_real::<T>(q, r)
    }

    proof fn lemma_norm_of_zero() {
        lemma_constants::<T>();
        let z = zero::<T>();
        lemma_units::<T>(z);
        lemma_closed::<T>(z, z);
    }

    proof fn lemma_norm_of_inverse(q: Quad<T>) {
        lemma_neg_square::<T>(q.0);
        lemma_neg_square::<T>(q.1);
        lemma_neg_square::<T>(q.2);
        lemma_neg_square::<T>(q.3);
    }

    fn norm_squared(&self) -> (r: T) {
        let r = self.inner_product(self);
        assert(r.model() == quad_inner::<T>(self.model(), self.model()));
        assert(<Self as NormedSpace<Additive, Multiplicative>>::spec_norm_squared(self.model())
            == quad_inner::<T>(self.model(), self.model()));
        r
    }

    fn scale_real(&self, r: T) -> (s: Self) {
        let s = Quaternion::new(
            <T as Magma<Multiplicative>>::combine(self.w(), &r),
            <T as Magma<Multiplicative>>::combine(self.x(), &r),
            <T as Magma<Multiplicative>>::combine(self.y(), &r),
            <T as Magma<Multiplicative>>::combine(self.z(), &r),
        );
        assert(s.model() == quad_scale_real::<T>(self.model(), r.model()));
        assert(<Self as NormedSpace<Additive, Multiplicative>>::spec_scale_real(
            self.model(),
            r.model(),
        ) == quad_scale_real::<T>(self.model(), r.model()));
        s
    }
}

impl<T: Real + ClosedAdd + ClosedMul + Copy> InnerSpace<Additive, Multiplicative> for Quaternion<T> {
    open spec fn spec_inner_product(p: Quad<T>, q: Quad<T>) -> T::Model {
        quad_inner::<T>(p, q)
    }

    proof fn lemma_inner_product_norm(q: Quad<T>) {
    }

    fn inner_product(&self, other: &Self) -> (r: T) {
        let r = <T as Magma<Additive>>::combine(
            &<T as Magma<Additive>>::combine(
                &<T as Magma<Additive>>::combine(
                    &<T as Magma<Multiplicative>>::combine(self.w(), other.w()),
                    &<T as Magma<Multiplicative>>::combine(self.x(), other.x()),
                ),
                &<T as Magma<Multiplicative>>::combine(self.y(), other.y()),
            ),
            &<T as Magma<Multiplicative>>::combine(self.z(), other.z()),
        );
        assert(r.model() == quad_inner::<T>(self.model(), other.model()));
        assert(<Self as InnerSpace<Additive, Multiplicative>>::spec_inner_product(
            self.model(),
            other.model(),
        ) == quad_inner::<T>(self.model(), other.model()));
        r
    }
}

impl<T: Real + ClosedAdd + ClosedMul + Copy> FiniteDimVectorSpace<
    Additive,
    Multiplicative,
> for Quaternion<T> {
    open spec fn spec_dimension() -> usize {
        4
    }

    open spec fn spec_canonical_basis_element(i: usize) -> Quad<T> {
        quad_basis::<T>(i)
    }

    open spec fn spec_dot(p: Quad<T>, q: Quad<T>) -> T::Model {
        quad_inner::<T>(p, q)
    }

    fn dimension() -> (r: usize) {
        assert(<Self as FiniteDimVectorSpace<Additive, Multiplicative>>::spec_dimension() == 4);
        4
    }

    fn canonical_basis_element(i: usize) -> (r: Self) {
        let o = <T as Monoid<Multiplicative>>::identity();
        let z = <T as Monoid<Additive>>::identity();
        let r = if i == 0 {
            Quaternion::new(o, z, z, z)
        } else if i == 1 {
            Quaternion::new(z, o, z, z)
        } else if i == 2 {
            Quaternion::new(z, z, o, z)
        } else {
            Quaternion::new(z, z, z, o)
        };
        assert(r.model() == quad_basis::<T>(i));
        assert(<Self as FiniteDimVectorSpace<Additive, Multiplicative>>::spec_canonical_basis_element(i)
            == quad_basis::<T>(i));
        r
    }

    fn dot(&self, other: &Self) -> (r: T) {
        self.inner_product(other)
    }
}

impl<T: Real + ClosedAdd + ClosedMul + Copy> FiniteDimInnerSpace<
    Additive,
    Multiplicative,
> for Quaternion<T> {

}

} // verus!
