//! Lattices: meet/join semilattices and the full lattice.
//!
//! Unlike the tower traits, these are not operator-parameterized: meet and
//! join form a single partially-ordered operation (`min`/`max` on the
//! numerics), so one impl covers a type.
use super::Carrier;
use vstd::prelude::*;
use vstd::std_specs::cmp::PartialOrdIs;
use vstd::std_specs::cmp::PartialOrdSpec;

verus! {

/// A meet-semilattice: a [`PartialOrd`] set with a greatest-lower-bound
/// operation.
pub trait MeetSemilattice: Carrier + PartialOrd {
    /// The meet on models.
    spec fn spec_meet(a: Self::Model, b: Self::Model) -> Self::Model;

    /// The semilattice laws: closure, idempotence, commutativity and
    /// associativity of the meet.
    proof fn lemma_meet_semilattice(a: Self::Model, b: Self::Model, c: Self::Model)
        requires
            Self::contains(a),
            Self::contains(b),
            Self::contains(c),
        ensures
            Self::contains(Self::spec_meet(a, b)),
            Self::spec_meet(a, a) == a,
            Self::spec_meet(a, b) == Self::spec_meet(b, a),
            Self::spec_meet(Self::spec_meet(a, b), c) == Self::spec_meet(a, Self::spec_meet(b, c)),
    ;

    /// Whether the `PartialOrd` order is known to be the lattice order
    /// (`a ≤ b` exactly when `a ∧ b == a`). True for the integers; not for
    /// tuples, whose `PartialOrd` is lexicographic while their meet is
    /// component-wise.
    spec fn meet_follows_order() -> bool;

    /// Where the order is the lattice order, `a ≤ b` exactly when
    /// `a ∧ b == a`.
    proof fn lemma_meet_follows_order(a: Self, b: Self)
        ensures
            Self::meet_follows_order() && Self::obeys_partial_cmp_spec() ==> (a.is_le(&b) <==> Self::spec_meet(
                a.model(),
                b.model(),
            ) == a.model()),
    ;

    /// The meet (greatest lower bound) of `self` and `other`.
    fn meet(&self, other: &Self) -> (r: Self)
        ensures
            r.model() == Self::spec_meet(self.model(), other.model()),
    ;
}

/// A join-semilattice: a [`PartialOrd`] set with a least-upper-bound
/// operation.
pub trait JoinSemilattice: Carrier + PartialOrd {
    /// The join on models.
    spec fn spec_join(a: Self::Model, b: Self::Model) -> Self::Model;

    /// The semilattice laws: closure, idempotence, commutativity and
    /// associativity of the join.
    proof fn lemma_join_semilattice(a: Self::Model, b: Self::Model, c: Self::Model)
        requires
            Self::contains(a),
            Self::contains(b),
            Self::contains(c),
        ensures
            Self::contains(Self::spec_join(a, b)),
            Self::spec_join(a, a) == a,
            Self::spec_join(a, b) == Self::spec_join(b, a),
            Self::spec_join(Self::spec_join(a, b), c) == Self::spec_join(a, Self::spec_join(b, c)),
    ;

    /// Whether the `PartialOrd` order is known to be the lattice order
    /// (`a ≥ b` exactly when `a ∨ b == a`). True for the integers; not for
    /// tuples.
    spec fn join_follows_order() -> bool;

    /// Where the order is the lattice order, `a ≥ b` exactly when
    /// `a ∨ b == a`.
    proof fn lemma_join_follows_order(a: Self, b: Self)
        ensures
            Self::join_follows_order() && Self::obeys_partial_cmp_spec() ==> (a.is_ge(&b) <==> Self::spec_join(
                a.model(),
                b.model(),
            ) == a.model()),
    ;

    /// The join (least upper bound) of `self` and `other`.
    fn join(&self, other: &Self) -> (r: Self)
        ensures
            r.model() == Self::spec_join(self.model(), other.model()),
    ;
}

/// In the order the meet defines (`x ≤ y` when `x ∧ y == x`), `a ∧ b` is
/// the greatest lower bound of `a` and `b`: below both, and above every
/// common lower bound. For tuples this is the component-wise order.
pub proof fn lemma_meet_is_greatest_lower_bound<T: MeetSemilattice>(
    a: T::Model,
    b: T::Model,
    c: T::Model,
)
    requires
        T::contains(a),
        T::contains(b),
        T::contains(c),
    ensures
        T::spec_meet(T::spec_meet(a, b), a) == T::spec_meet(a, b),
        T::spec_meet(T::spec_meet(a, b), b) == T::spec_meet(a, b),
        T::spec_meet(c, a) == c && T::spec_meet(c, b) == c ==> T::spec_meet(c, T::spec_meet(a, b))
            == c,
{
    T::lemma_meet_semilattice(a, b, a);
    T::lemma_meet_semilattice(b, a, a);
    T::lemma_meet_semilattice(a, b, b);
    T::lemma_meet_semilattice(b, b, a);
    T::lemma_meet_semilattice(c, a, b);
}

/// In the order the join defines (`x ≤ y` when `x ∨ y == y`), `a ∨ b` is
/// the least upper bound of `a` and `b`: above both, and below every common
/// upper bound.
pub proof fn lemma_join_is_least_upper_bound<T: JoinSemilattice>(
    a: T::Model,
    b: T::Model,
    c: T::Model,
)
    requires
        T::contains(a),
        T::contains(b),
        T::contains(c),
    ensures
        T::spec_join(a, T::spec_join(a, b)) == T::spec_join(a, b),
        T::spec_join(b, T::spec_join(a, b)) == T::spec_join(a, b),
        T::spec_join(a, c) == c && T::spec_join(b, c) == c ==> T::spec_join(T::spec_join(a, b), c)
            == c,
{
    T::lemma_join_semilattice(a, a, b);
    T::lemma_join_semilattice(a, b, a);
    T::lemma_join_semilattice(b, a, b);
    T::lemma_join_semilattice(b, b, a);
    T::lemma_join_semilattice(a, b, c);
}

/// A lattice: both semilattices, linked by the absorption laws
/// (`a ∧ (a ∨ b) == a`, `a ∨ (a ∧ b) == a`).
pub trait Lattice: MeetSemilattice + JoinSemilattice {
    /// Absorption.
    proof fn lemma_absorption(a: Self::Model, b: Self::Model)
        requires
            Self::contains(a),
            Self::contains(b),
        ensures
            Self::spec_meet(a, Self::spec_join(a, b)) == a,
            Self::spec_join(a, Self::spec_meet(a, b)) == a,
    ;

    /// `(meet, join)` of `self` and `other` in one pass.
    fn meet_join(&self, other: &Self) -> (r: (Self, Self))
        ensures
            r.0.model() == Self::spec_meet(self.model(), other.model()),
            r.1.model() == Self::spec_join(self.model(), other.model()),
    {
        (self.meet(other), self.join(other))
    }

    /// The smaller of the two, when comparable.
    fn partial_min<'a>(&'a self, other: &'a Self) -> (r: Option<&'a Self>)
        ensures
            Self::obeys_partial_cmp_spec() ==> r == (if self.is_le(other) {
                Some(self)
            } else if other.is_le(self) {
                Some(other)
            } else {
                None
            }),
            Self::meet_follows_order() && Self::obeys_partial_cmp_spec() ==> match r {
                Some(m) => m.model() == Self::spec_meet(self.model(), other.model()),
                None => Self::spec_meet(self.model(), other.model()) != self.model()
                    && Self::spec_meet(self.model(), other.model()) != other.model(),
            },
    {
        proof {
            Self::lemma_meet_follows_order(*self, *other);
            Self::lemma_meet_follows_order(*other, *self);
            Self::lemma_model_contained(self);
            Self::lemma_model_contained(other);
            Self::lemma_meet_semilattice(self.model(), other.model(), other.model());
        }
        if self <= other {
            Some(self)
        } else if other <= self {
            Some(other)
        } else {
            None
        }
    }

    /// The larger of the two, when comparable.
    fn partial_max<'a>(&'a self, other: &'a Self) -> (r: Option<&'a Self>)
        ensures
            Self::obeys_partial_cmp_spec() ==> r == (if self.is_ge(other) {
                Some(self)
            } else if other.is_ge(self) {
                Some(other)
            } else {
                None
            }),
            Self::join_follows_order() && Self::obeys_partial_cmp_spec() ==> match r {
                Some(m) => m.model() == Self::spec_join(self.model(), other.model()),
                None => Self::spec_join(self.model(), other.model()) != self.model()
                    && Self::spec_join(self.model(), other.model()) != other.model(),
            },
    {
        proof {
            Self::lemma_join_follows_order(*self, *other);
            Self::lemma_join_follows_order(*other, *self);
            Self::lemma_model_contained(self);
            Self::lemma_model_contained(other);
            Self::lemma_join_semilattice(self.model(), other.model(), other.model());
        }
        if self >= other {
            Some(self)
        } else if other >= self {
            Some(other)
        } else {
            None
        }
    }
}

/// A bounded lattice: a [`Lattice`] with top and bottom elements.
pub trait BoundedLattice: Lattice {
    /// The greatest element's model.
    spec fn spec_top() -> Self::Model;

    /// The least element's model.
    spec fn spec_bottom() -> Self::Model;

    /// Bounds: `a ∧ ⊤ == a` and `a ∨ ⊥ == a`, with both bounds in the set.
    proof fn lemma_bounds(a: Self::Model)
        requires
            Self::contains(a),
        ensures
            Self::contains(Self::spec_top()),
            Self::contains(Self::spec_bottom()),
            Self::spec_meet(a, Self::spec_top()) == a,
            Self::spec_join(a, Self::spec_bottom()) == a,
    ;

    /// The greatest element.
    fn top() -> (r: Self)
        ensures
            r.model() == Self::spec_top(),
    ;

    /// The least element.
    fn bottom() -> (r: Self)
        ensures
            r.model() == Self::spec_bottom(),
    ;
}

/// A distributive lattice: meet distributes over join and vice versa.
pub trait DistributiveLattice: Lattice {
    /// Distributivity: `a ∧ (b ∨ c) == (a ∧ b) ∨ (a ∧ c)` and
    /// `a ∨ (b ∧ c) == (a ∨ b) ∧ (a ∨ c)`.
    proof fn lemma_distributive(a: Self::Model, b: Self::Model, c: Self::Model)
        requires
            Self::contains(a),
            Self::contains(b),
            Self::contains(c),
        ensures
            Self::spec_meet(a, Self::spec_join(b, c)) == Self::spec_join(
                Self::spec_meet(a, b),
                Self::spec_meet(a, c),
            ),
            Self::spec_join(a, Self::spec_meet(b, c)) == Self::spec_meet(
                Self::spec_join(a, b),
                Self::spec_join(a, c),
            ),
    ;
}

/// A complemented lattice: every element has a complement.
pub trait ComplementedLattice: BoundedLattice {
    /// The complement on models.
    spec fn spec_complement(a: Self::Model) -> Self::Model;

    /// Complement: `a ∨ ¬a == ⊤` and `a ∧ ¬a == ⊥`.
    proof fn lemma_complement(a: Self::Model)
        requires
            Self::contains(a),
        ensures
            Self::contains(Self::spec_complement(a)),
            Self::spec_join(a, Self::spec_complement(a)) == Self::spec_top(),
            Self::spec_meet(a, Self::spec_complement(a)) == Self::spec_bottom(),
    ;

    /// The complement `¬a`.
    fn complement(&self) -> (r: Self)
        ensures
            r.model() == Self::spec_complement(self.model()),
    ;
}

/// A boolean algebra: a distributive complemented lattice.
pub trait BooleanAlgebra: DistributiveLattice + ComplementedLattice {

}

} // verus!
