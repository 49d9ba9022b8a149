//! Tuple impls: component-wise tower impls for `(A0, ..., An)`, arities
//! 1 to 16 (the lattice levels stop at 12, where std's `PartialOrd` for
//! tuples stops). Tuples form rings when their components do, and a tuple
//! of modules over one scalar ring is a module over it.
use crate::op::{Additive, Multiplicative, Operator};
use crate::tower::{left_quotient, right_quotient};
use crate::tower::{
    AbelianGroup, Carrier, CommutativeRing, Field, Group, JoinSemilattice, Lattice, Loop, Magma,
    MeetSemilattice, Module, Monoid, Quasigroup, Ring, Semigroup, Semiring, VectorSpace,
};
use vstd::prelude::*;

verus! {

// ---- arity 1 ----

impl<A0: Carrier> Carrier for (A0,) {
    type Model = (A0::Model,);

    open spec fn model(self) -> (A0::Model,) {
        (self.0.model(),)
    }

    open spec fn contains(m: (A0::Model,)) -> bool {
        A0::contains(m.0)
    }

    proof fn lemma_model_contained(x: &Self) {
        A0::lemma_model_contained(&x.0);
    }
}

impl<Op: Operator, A0: Magma<Op>> Magma<Op> for (A0,) {
    open spec fn spec_combine(a: (A0::Model,), b: (A0::Model,)) -> (A0::Model,) {
        (A0::spec_combine(a.0, b.0),)
    }

    proof fn lemma_closed(a: (A0::Model,), b: (A0::Model,)) {
        A0::lemma_closed(a.0, b.0);
    }

    fn combine(&self, rhs: &Self) -> (r: Self) {
        (self.0.combine(&rhs.0),)
    }
}

impl<Op: Operator, A0: Semigroup<Op>> Semigroup<Op> for (A0,) {
    proof fn lemma_associative(a: (A0::Model,), b: (A0::Model,), c: (A0::Model,)) {
        A0::lemma_associative(a.0, b.0, c.0);
    }
}

impl<Op: Operator, A0: Monoid<Op>> Monoid<Op> for (A0,) {
    open spec fn spec_identity() -> (A0::Model,) {
        (A0::spec_identity(),)
    }

    proof fn lemma_identity(a: (A0::Model,)) {
        A0::lemma_identity(a.0);
    }

    fn identity() -> (r: Self) {
        (A0::identity(),)
    }
}

impl<A0: Quasigroup<Additive>> Quasigroup<Additive> for (A0,) {
    proof fn lemma_latin_square(a: (A0::Model,), b: (A0::Model,)) {
        A0::lemma_latin_square(a.0, b.0);
        let x = (left_quotient::<Additive, A0>(a.0, b.0),);
        let y = (right_quotient::<Additive, A0>(a.0, b.0),);
        assert(Self::contains(x) && Self::spec_combine(a, x) == b);
        assert(Self::contains(y) && Self::spec_combine(y, a) == b);
        assert forall|x1: (A0::Model,), x2: (A0::Model,)|
            Self::contains(x1) && Self::contains(x2) && #[trigger] Self::spec_combine(a, x1)
                == #[trigger] Self::spec_combine(a, x2) implies x1 == x2 by {
            assert(A0::spec_combine(a.0, x1.0) == A0::spec_combine(a.0, x2.0));
        }
        assert forall|y1: (A0::Model,), y2: (A0::Model,)|
            Self::contains(y1) && Self::contains(y2) && #[trigger] Self::spec_combine(y1, a)
                == #[trigger] Self::spec_combine(y2, a) implies y1 == y2 by {
            assert(A0::spec_combine(y1.0, a.0) == A0::spec_combine(y2.0, a.0));
        }
    }
}

impl<A0: Loop<Additive>> Loop<Additive> for (A0,) {

}

impl<A0: Group<Additive>> Group<Additive> for (A0,) {
    open spec fn spec_inverse(a: (A0::Model,)) -> (A0::Model,) {
        (A0::spec_inverse(a.0),)
    }

    proof fn lemma_inverse(a: (A0::Model,)) {
        A0::lemma_inverse(a.0);
    }

    fn inverse(&self) -> (r: Self) {
        (self.0.inverse(),)
    }
}

impl<A0: AbelianGroup<Additive>> AbelianGroup<Additive> for (A0,) {
    proof fn lemma_commutative(a: (A0::Model,), b: (A0::Model,)) {
        A0::lemma_commutative(a.0, b.0);
    }
}

impl<A0: Semiring<Additive, Multiplicative>> Semiring<Additive, Multiplicative> for (A0,) {
    proof fn lemma_distributive(a: (A0::Model,), b: (A0::Model,), c: (A0::Model,)) {
        A0::lemma_distributive(a.0, b.0, c.0);
    }
}

impl<A0: Ring<Additive, Multiplicative>> Ring<Additive, Multiplicative> for (A0,) {

}

impl<A0: CommutativeRing<Additive, Multiplicative>> CommutativeRing<Additive, Multiplicative> for (A0,) {
    proof fn lemma_multiplication_commutes(a: (A0::Model,), b: (A0::Model,)) {
        A0::lemma_multiplication_commutes(a.0, b.0);
    }
}

impl<A0: Module<Additive, Multiplicative>> Module<Additive, Multiplicative> for (A0,) {
    type Scalar = A0::Scalar;

    open spec fn spec_scale(s: <A0::Scalar as Carrier>::Model, v: (A0::Model,)) -> (A0::Model,) {
        (A0::spec_scale(s, v.0),)
    }

    proof fn lemma_module(
        s: <A0::Scalar as Carrier>::Model,
        t: <A0::Scalar as Carrier>::Model,
        u: (A0::Model,),
        v: (A0::Model,),
    ) {
        A0::lemma_module(s, t, u.0, v.0);
    }

    fn scale(s: &A0::Scalar, v: Self) -> (r: Self) {
        (A0::scale(s, v.0),)
    }
}

impl<A0: VectorSpace<Additive, Multiplicative>> VectorSpace<Additive, Multiplicative> for (A0,) where
    A0::Scalar: Field<Additive, Multiplicative>,
 {

}

impl<A0: MeetSemilattice> MeetSemilattice for (A0,) {
    open spec fn meet_follows_order() -> bool {
        false
    }

    proof fn lemma_meet_follows_order(a: Self, b: Self) {
    }

    open spec fn spec_meet(a: (A0::Model,), b: (A0::Model,)) -> (A0::Model,) {
        (A0::spec_meet(a.0, b.0),)
    }

    proof fn lemma_meet_semilattice(a: (A0::Model,), b: (A0::Model,), c: (A0::Model,)) {
        A0::lemma_meet_semilattice(a.0, b.0, c.0);
    }

    fn meet(&self, other: &Self) -> (r: Self) {
        (self.0.meet(&other.0),)
    }
}

impl<A0: JoinSemilattice> JoinSemilattice for (A0,) {
    open spec fn join_follows_order() -> bool {
        false
    }

    proof fn lemma_join_follows_order(a: Self, b: Self) {
    }

    open spec fn spec_join(a: (A0::Model,), b: (A0::Model,)) -> (A0::Model,) {
        (A0::spec_join(a.0, b.0),)
    }

    proof fn lemma_join_semilattice(a: (A0::Model,), b: (A0::Model,), c: (A0::Model,)) {
        A0::lemma_join_semilattice(a.0, b.0, c.0);
    }

    fn join(&self, other: &Self) -> (r: Self) {
        (self.0.join(&other.0),)
    }
}

impl<A0: Lattice> Lattice for (A0,) {
    proof fn lemma_absorption(a: (A0::Model,), b: (A0::Model,)) {
        A0::lemma_absorption(a.0, b.0);
    }
}

// ---- arity 2 ----

impl<A0: Carrier, A1: Carrier> Carrier for (A0, A1) {
    type Model = (A0::Model, A1::Model);

    open spec fn model(self) -> (A0::Model, A1::Model) {
        (self.0.model(), self.1.model())
    }

    open spec fn contains(m: (A0::Model, A1::Model)) -> bool {
        A0::contains(m.0)
            && A1::contains(m.1)
    }

    proof fn lemma_model_contained(x: &Self) {
        A0::lemma_model_contained(&x.0);
        A1::lemma_model_contained(&x.1);
    }
}

impl<Op: Operator, A0: Magma<Op>, A1: Magma<Op>> Magma<Op> for (A0, A1) {
    open spec fn spec_combine(a: (A0::Model, A1::Model), b: (A0::Model, A1::Model)) -> (A0::Model, A1::Model) {
        (A0::spec_combine(a.0, b.0), A1::spec_combine(a.1, b.1))
    }

    proof fn lemma_closed(a: (A0::Model, A1::Model), b: (A0::Model, A1::Model)) {
        A0::lemma_closed(a.0, b.0);
        A1::lemma_closed(a.1, b.1);
    }

    fn combine(&self, rhs: &Self) -> (r: Self) {
        (self.0.combine(&rhs.0), self.1.combine(&rhs.1))
    }
}

impl<Op: Operator, A0: Semigroup<Op>, A1: Semigroup<Op>> Semigroup<Op> for (A0, A1) {
    proof fn lemma_associative(a: (A0::Model, A1::Model), b: (A0::Model, A1::Model), c: (A0::Model, A1::Model)) {
        A0::lemma_associative(a.0, b.0, c.0);
        A1::lemma_associative(a.1, b.1, c.1);
    }
}

impl<Op: Operator, A0: Monoid<Op>, A1: Monoid<Op>> Monoid<Op> for (A0, A1) {
    open spec fn spec_identity() -> (A0::Model, A1::Model) {
        (A0::spec_identity(), A1::spec_identity())
    }

    proof fn lemma_identity(a: (A0::Model, A1::Model)) {
        A0::lemma_identity(a.0);
        A1::lemma_identity(a.1);
    }

    fn identity() -> (r: Self) {
        (A0::identity(), A1::identity())
    }
}

impl<A0: Quasigroup<Additive>, A1: Quasigroup<Additive>> Quasigroup<Additive> for (A0, A1) {
    proof fn lemma_latin_square(a: (A0::Model, A1::Model), b: (A0::Model, A1::Model)) {
        A0::lemma_latin_square(a.0, b.0);
        A1::lemma_latin_square(a.1, b.1);
        let x = (left_quotient::<Additive, A0>(a.0, b.0), left_quotient::<Additive, A1>(a.1, b.1));
        let y = (right_quotient::<Additive, A0>(a.0, b.0), right_quotient::<Additive, A1>(a.1, b.1));
        assert(Self::contains(x) && Self::spec_combine(a, x) == b);
        assert(Self::contains(y) && Self::spec_combine(y, a) == b);
        assert forall|x1: (A0::Model, A1::Model), x2: (A0::Model, A1::Model)|
            Self::contains(x1) && Self::contains(x2) && #[trigger] Self::spec_combine(a, x1)
                == #[trigger] Self::spec_combine(a, x2) implies x1 == x2 by {
            assert(A0::spec_combine(a.0, x1.0) == A0::spec_combine(a.0, x2.0));
            assert(A1::spec_combine(a.1, x1.1) == A1::spec_combine(a.1, x2.1));
        }
        assert forall|y1: (A0::Model, A1::Model), y2: (A0::Model, A1::Model)|
            Self::contains(y1) && Self::contains(y2) && #[trigger] Self::spec_combine(y1, a)
                == #[trigger] Self::spec_combine(y2, a) implies y1 == y2 by {
            assert(A0::spec_combine(y1.0, a.0) == A0::spec_combine(y2.0, a.0));
            assert(A1::spec_combine(y1.1, a.1) == A1::spec_combine(y2.1, a.1));
        }
    }
}

impl<A0: Loop<Additive>, A1: Loop<Additive>> Loop<Additive> for (A0, A1) {

}

impl<A0: Group<Additive>, A1: Group<Additive>> Group<Additive> for (A0, A1) {
    open spec fn spec_inverse(a: (A0::Model, A1::Model)) -> (A0::Model, A1::Model) {
        (A0::spec_inverse(a.0), A1::spec_inverse(a.1))
    }

    proof fn lemma_inverse(a: (A0::Model, A1::Model)) {
        A0::lemma_inverse(a.0);
        A1::lemma_inverse(a.1);
    }

    fn inverse(&self) -> (r: Self) {
        (self.0.inverse(), self.1.inverse())
    }
}

impl<A0: AbelianGroup<Additive>, A1: AbelianGroup<Additive>> AbelianGroup<Additive> for (A0, A1) {
    proof fn lemma_commutative(a: (A0::Model, A1::Model), b: (A0::Model, A1::Model)) {
        A0::lemma_commutative(a.0, b.0);
        A1::lemma_commutative(a.1, b.1);
    }
}

impl<A0: Semiring<Additive, Multiplicative>, A1: Semiring<Additive, Multiplicative>> Semiring<Additive, Multiplicative> for (A0, A1) {
    proof fn lemma_distributive(a: (A0::Model, A1::Model), b: (A0::Model, A1::Model), c: (A0::Model, A1::Model)) {
        A0::lemma_distributive(a.0, b.0, c.0);
        A1::lemma_distributive(a.1, b.1, c.1);
    }
}

impl<A0: Ring<Additive, Multiplicative>, A1: Ring<Additive, Multiplicative>> Ring<Additive, Multiplicative> for (A0, A1) {

}

impl<A0: CommutativeRing<Additive, Multiplicative>, A1: CommutativeRing<Additive, Multiplicative>> CommutativeRing<Additive, Multiplicative> for (A0, A1) {
    proof fn lemma_multiplication_commutes(a: (A0::Model, A1::Model), b: (A0::Model, A1::Model)) {
        A0::lemma_multiplication_commutes(a.0, b.0);
        A1::lemma_multiplication_commutes(a.1, b.1);
    }
}

impl<A0: Module<Additive, Multiplicative>, A1: Module<Additive, Multiplicative, Scalar = A0::Scalar>> Module<Additive, Multiplicative> for (A0, A1) {
    type Scalar = A0::Scalar;

    open spec fn spec_scale(s: <A0::Scalar as Carrier>::Model, v: (A0::Model, A1::Model)) -> (A0::Model, A1::Model) {
        (A0::spec_scale(s, v.0), A1::spec_scale(s, v.1))
    }

    proof fn lemma_module(
        s: <A0::Scalar as Carrier>::Model,
        t: <A0::Scalar as Carrier>::Model,
        u: (A0::Model, A1::Model),
        v: (A0::Model, A1::Model),
    ) {
        A0::lemma_module(s, t, u.0, v.0);
        A1::lemma_module(s, t, u.1, v.1);
    }

    fn scale(s: &A0::Scalar, v: Self) -> (r: Self) {
        (A0::scale(s, v.0), A1::scale(s, v.1))
    }
}

impl<A0: VectorSpace<Additive, Multiplicative>, A1: VectorSpace<Additive, Multiplicative, Scalar = A0::Scalar>> VectorSpace<Additive, Multiplicative> for (A0, A1) where
    A0::Scalar: Field<Additive, Multiplicative>,
 {

}

impl<A0: MeetSemilattice, A1: MeetSemilattice> MeetSemilattice for (A0, A1) {
    open spec fn meet_follows_order() -> bool {
        false
    }

    proof fn lemma_meet_follows_order(a: Self, b: Self) {
    }

    open spec fn spec_meet(a: (A0::Model, A1::Model), b: (A0::Model, A1::Model)) -> (A0::Model, A1::Model) {
        (A0::spec_meet(a.0, b.0), A1::spec_meet(a.1, b.1))
    }

    proof fn lemma_meet_semilattice(a: (A0::Model, A1::Model), b: (A0::Model, A1::Model), c: (A0::Model, A1::Model)) {
        A0::lemma_meet_semilattice(a.0, b.0, c.0);
        A1::lemma_meet_semilattice(a.1, b.1, c.1);
    }

    fn meet(&self, other: &Self) -> (r: Self) {
        (self.0.meet(&other.0), self.1.meet(&other.1))
    }
}

impl<A0: JoinSemilattice, A1: JoinSemilattice> JoinSemilattice for (A0, A1) {
    open spec fn join_follows_order() -> bool {
        false
    }

    proof fn lemma_join_follows_order(a: Self, b: Self) {
    }

    open spec fn spec_join(a: (A0::Model, A1::Model), b: (A0::Model, A1::Model)) -> (A0::Model, A1::Model) {
        (A0::spec_join(a.0, b.0), A1::spec_join(a.1, b.1))
    }

    proof fn lemma_join_semilattice(a: (A0::Model, A1::Model), b: (A0::Model, A1::Model), c: (A0::Model, A1::Model)) {
        A0::lemma_join_semilattice(a.0, b.0, c.0);
        A1::lemma_join_semilattice(a.1, b.1, c.1);
    }

    fn join(&self, other: &Self) -> (r: Self) {
        (self.0.join(&other.0), self.1.join(&other.1))
    }
}

impl<A0: Lattice, A1: Lattice> Lattice for (A0, A1) {
    proof fn lemma_absorption(a: (A0::Model, A1::Model), b: (A0::Model, A1::Model)) {
        A0::lemma_absorption(a.0, b.0);
        A1::lemma_absorption(a.1, b.1);
    }
}

// ---- arity 3 ----

impl<A0: Carrier, A1: Carrier, A2: Carrier> Carrier for (A0, A1, A2) {
    type Model = (A0::Model, A1::Model, A2::Model);

    open spec fn model(self) -> (A0::Model, A1::Model, A2::Model) {
        (self.0.model(), self.1.model(), self.2.model())
    }

    open spec fn contains(m: (A0::Model, A1::Model, A2::Model)) -> bool {
        A0::contains(m.0)
            && A1::contains(m.1)
            && A2::contains(m.2)
    }

    proof fn lemma_model_contained(x: &Self) {
        A0::lemma_model_contained(&x.0);
        A1::lemma_model_contained(&x.1);
        A2::lemma_model_contained(&x.2);
    }
}

impl<Op: Operator, A0: Magma<Op>, A1: Magma<Op>, A2: Magma<Op>> Magma<Op> for (A0, A1, A2) {
    open spec fn spec_combine(a: (A0::Model, A1::Model, A2::Model), b: (A0::Model, A1::Model, A2::Model)) -> (A0::Model, A1::Model, A2::Model) {
        (A0::spec_combine(a.0, b.0), A1::spec_combine(a.1, b.1), A2::spec_combine(a.2, b.2))
    }

    proof fn lemma_closed(a: (A0::Model, A1::Model, A2::Model), b: (A0::Model, A1::Model, A2::Model)) {
        A0::lemma_closed(a.0, b.0);
        A1::lemma_closed(a.1, b.1);
        A2::lemma_closed(a.2, b.2);
    }

    fn combine(&self, rhs: &Self) -> (r: Self) {
        (self.0.combine(&rhs.0), self.1.combine(&rhs.1), self.2.combine(&rhs.2))
    }
}

impl<Op: Operator, A0: Semigroup<Op>, A1: Semigroup<Op>, A2: Semigroup<Op>> Semigroup<Op> for (A0, A1, A2) {
    proof fn lemma_associative(a: (A0::Model, A1::Model, A2::Model), b: (A0::Model, A1::Model, A2::Model), c: (A0::Model, A1::Model, A2::Model)) {
        A0::lemma_associative(a.0, b.0, c.0);
        A1::lemma_associative(a.1, b.1, c.1);
        A2::lemma_associative(a.2, b.2, c.2);
    }
}

impl<Op: Operator, A0: Monoid<Op>, A1: Monoid<Op>, A2: Monoid<Op>> Monoid<Op> for (A0, A1, A2) {
    open spec fn spec_identity() -> (A0::Model, A1::Model, A2::Model) {
        (A0::spec_identity(), A1::spec_identity(), A2::spec_identity())
    }

    proof fn lemma_identity(a: (A0::Model, A1::Model, A2::Model)) {
        A0::lemma_identity(a.0);
        A1::lemma_identity(a.1);
        A2::lemma_identity(a.2);
    }

    fn identity() -> (r: Self) {
        (A0::identity(), A1::identity(), A2::identity())
    }
}

impl<A0: Quasigroup<Additive>, A1: Quasigroup<Additive>, A2: Quasigroup<Additive>> Quasigroup<Additive> for (A0, A1, A2) {
    proof fn lemma_latin_square(a: (A0::Model, A1::Model, A2::Model), b: (A0::Model, A1::Model, A2::Model)) {
        A0::lemma_latin_square(a.0, b.0);
        A1::lemma_latin_square(a.1, b.1);
        A2::lemma_latin_square(a.2, b.2);
        let x = (left_quotient::<Additive, A0>(a.0, b.0), left_quotient::<Additive, A1>(a.1, b.1), left_quotient::<Additive, A2>(a.2, b.2));
        let y = (right_quotient::<Additive, A0>(a.0, b.0), right_quotient::<Additive, A1>(a.1, b.1), right_quotient::<Additive, A2>(a.2, b.2));
        assert(Self::contains(x) && Self::spec_combine(a, x) == b);
        assert(Self::contains(y) && Self::spec_combine(y, a) == b);
        assert forall|x1: (A0::Model, A1::Model, A2::Model), x2: (A0::Model, A1::Model, A2::Model)|
            Self::contains(x1) && Self::contains(x2) && #[trigger] Self::spec_combine(a, x1)
                == #[trigger] Self::spec_combine(a, x2) implies x1 == x2 by {
            assert(A0::spec_combine(a.0, x1.0) == A0::spec_combine(a.0, x2.0));
            assert(A1::spec_combine(a.1, x1.1) == A1::spec_combine(a.1, x2.1));
            assert(A2::spec_combine(a.2, x1.2) == A2::spec_combine(a.2, x2.2));
        }
        assert forall|y1: (A0::Model, A1::Model, A2::Model), y2: (A0::Model, A1::Model, A2::Model)|
            Self::contains(y1) && Self::contains(y2) && #[trigger] Self::spec_combine(y1, a)
                == #[trigger] Self::spec_combine(y2, a) implies y1 == y2 by {
            assert(A0::spec_combine(y1.0, a.0) == A0::spec_combine(y2.0, a.0));
            assert(A1::spec_combine(y1.1, a.1) == A1::spec_combine(y2.1, a.1));
            assert(A2::spec_combine(y1.2, a.2) == A2::spec_combine(y2.2, a.2));
        }
    }
}

impl<A0: Loop<Additive>, A1: Loop<Additive>, A2: Loop<Additive>> Loop<Additive> for (A0, A1, A2) {

}

impl<A0: Group<Additive>, A1: Group<Additive>, A2: Group<Additive>> Group<Additive> for (A0, A1, A2) {
    open spec fn spec_inverse(a: (A0::Model, A1::Model, A2::Model)) -> (A0::Model, A1::Model, A2::Model) {
        (A0::spec_inverse(a.0), A1::spec_inverse(a.1), A2::spec_inverse(a.2))
    }

    proof fn lemma_inverse(a: (A0::Model, A1::Model, A2::Model)) {
        A0::lemma_inverse(a.0);
        A1::lemma_inverse(a.1);
        A2::lemma_inverse(a.2);
    }

    fn inverse(&self) -> (r: Self) {
        (self.0.inverse(), self.1.inverse(), self.2.inverse())
    }
}

impl<A0: AbelianGroup<Additive>, A1: AbelianGroup<Additive>, A2: AbelianGroup<Additive>> AbelianGroup<Additive> for (A0, A1, A2) {
    proof fn lemma_commutative(a: (A0::Model, A1::Model, A2::Model), b: (A0::Model, A1::Model, A2::Model)) {
        A0::lemma_commutative(a.0, b.0);
        A1::lemma_commutative(a.1, b.1);
        A2::lemma_commutative(a.2, b.2);
    }
}

impl<A0: Semiring<Additive, Multiplicative>, A1: Semiring<Additive, Multiplicative>, A2: Semiring<Additive, Multiplicative>> Semiring<Additive, Multiplicative> for (A0, A1, A2) {
    proof fn lemma_distributive(a: (A0::Model, A1::Model, A2::Model), b: (A0::Model, A1::Model, A2::Model), c: (A0::Model, A1::Model, A2::Model)) {
        A0::lemma_distributive(a.0, b.0, c.0);
        A1::lemma_distributive(a.1, b.1, c.1);
        A2::lemma_distributive(a.2, b.2, c.2);
    }
}

impl<A0: Ring<Additive, Multiplicative>, A1: Ring<Additive, Multiplicative>, A2: Ring<Additive, Multiplicative>> Ring<Additive, Multiplicative> for (A0, A1, A2) {

}

impl<A0: CommutativeRing<Additive, Multiplicative>, A1: CommutativeRing<Additive, Multiplicative>, A2: CommutativeRing<Additive, Multiplicative>> CommutativeRing<Additive, Multiplicative> for (A0, A1, A2) {
    proof fn lemma_multiplication_commutes(a: (A0::Model, A1::Model, A2::Model), b: (A0::Model, A1::Model, A2::Model)) {
        A0::lemma_multiplication_commutes(a.0, b.0);
        A1::lemma_multiplication_commutes(a.1, b.1);
        A2::lemma_multiplication_commutes(a.2, b.2);
    }
}

impl<A0: Module<Additive, Multiplicative>, A1: Module<Additive, Multiplicative, Scalar = A0::Scalar>, A2: Module<Additive, Multiplicative, Scalar = A0::Scalar>> Module<Additive, Multiplicative> for (A0, A1, A2) {
    type Scalar = A0::Scalar;

    open spec fn spec_scale(s: <A0::Scalar as Carrier>::Model, v: (A0::Model, A1::Model, A2::Model)) -> (A0::Model, A1::Model, A2::Model) {
        (A0::spec_scale(s, v.0), A1::spec_scale(s, v.1), A2::spec_scale(s, v.2))
    }

    proof fn lemma_module(
        s: <A0::Scalar as Carrier>::Model,
        t: <A0::Scalar as Carrier>::Model,
        u: (A0::Model, A1::Model, A2::Model),
        v: (A0::Model, A1::Model, A2::Model),
    ) {
        A0::lemma_module(s, t, u.0, v.0);
        A1::lemma_module(s, t, u.1, v.1);
        A2::lemma_module(s, t, u.2, v.2);
    }

    fn scale(s: &A0::Scalar, v: Self) -> (r: Self) {
        (A0::scale(s, v.0), A1::scale(s, v.1), A2::scale(s, v.2))
    }
}

impl<A0: VectorSpace<Additive, Multiplicative>, A1: VectorSpace<Additive, Multiplicative, Scalar = A0::Scalar>, A2: VectorSpace<Additive, Multiplicative, Scalar = A0::Scalar>> VectorSpace<Additive, Multiplicative> for (A0, A1, A2) where
    A0::Scalar: Field<Additive, Multiplicative>,
 {

}

impl<A0: MeetSemilattice, A1: MeetSemilattice, A2: MeetSemilattice> MeetSemilattice for (A0, A1, A2) {
    open spec fn meet_follows_order() -> bool {
        false
    }

    proof fn lemma_meet_follows_order(a: Self, b: Self) {
    }

    open spec fn spec_meet(a: (A0::Model, A1::Model, A2::Model), b: (A0::Model, A1::Model, A2::Model)) -> (A0::Model, A1::Model, A2::Model) {
        (A0::spec_meet(a.0, b.0), A1::spec_meet(a.1, b.1), A2::spec_meet(a.2, b.2))
    }

    proof fn lemma_meet_semilattice(a: (A0::Model, A1::Model, A2::Model), b: (A0::Model, A1::Model, A2::Model), c: (A0::Model, A1::Model, A2::Model)) {
        A0::lemma_meet_semilattice(a.0, b.0, c.0);
        A1::lemma_meet_semilattice(a.1, b.1, c.1);
        A2::lemma_meet_semilattice(a.2, b.2, c.2);
    }

    fn meet(&self, other: &Self) -> (r: Self) {
        (self.0.meet(&other.0), self.1.meet(&other.1), self.2.meet(&other.2))
    }
}

impl<A0: JoinSemilattice, A1: JoinSemilattice, A2: JoinSemilattice> JoinSemilattice for (A0, A1, A2) {
    open spec fn join_follows_order() -> bool {
        false
    }

    proof fn lemma_join_follows_order(a: Self, b: Self) {
    }

    open spec fn spec_join(a: (A0::Model, A1::Model, A2::Model), b: (A0::Model, A1::Model, A2::Model)) -> (A0::Model, A1::Model, A2::Model) {
        (A0::spec_join(a.0, b.0), A1::spec_join(a.1, b.1), A2::spec_join(a.2, b.2))
    }

    proof fn lemma_join_semilattice(a: (A0::Model, A1::Model, A2::Model), b: (A0::Model, A1::Model, A2::Model), c: (A0::Model, A1::Model, A2::Model)) {
        A0::lemma_join_semilattice(a.0, b.0, c.0);
        A1::lemma_join_semilattice(a.1, b.1, c.1);
        A2::lemma_join_semilattice(a.2, b.2, c.2);
    }

    fn join(&self, other: &Self) -> (r: Self) {
        (self.0.join(&other.0), self.1.join(&other.1), self.2.join(&other.2))
    }
}

impl<A0: Lattice, A1: Lattice, A2: Lattice> Lattice for (A0, A1, A2) {
    proof fn lemma_absorption(a: (A0::Model, A1::Model, A2::Model), b: (A0::Model, A1::Model, A2::Model)) {
        A0::lemma_absorption(a.0, b.0);
        A1::lemma_absorption(a.1, b.1);
        A2::lemma_absorption(a.2, b.2);
    }
}

// ---- arity 4 ----

impl<A0: Carrier, A1: Carrier, A2: Carrier, A3: Carrier> Carrier for (A0, A1, A2, A3) {
    type Model = (A0::Model, A1::Model, A2::Model, A3::Model);

    open spec fn model(self) -> (A0::Model, A1::Model, A2::Model, A3::Model) {
        (self.0.model(), self.1.model(), self.2.model(), self.3.model())
    }

    open spec fn contains(m: (A0::Model, A1::Model, A2::Model, A3::Model)) -> bool {
        A0::contains(m.0)
            && A1::contains(m.1)
            && A2::contains(m.2)
            && A3::contains(m.3)
    }

    proof fn lemma_model_contained(x: &Self) {
        A0::lemma_model_contained(&x.0);
        A1::lemma_model_contained(&x.1);
        A2::lemma_model_contained(&x.2);
        A3::lemma_model_contained(&x.3);
    }
}

impl<Op: Operator, A0: Magma<Op>, A1: Magma<Op>, A2: Magma<Op>, A3: Magma<Op>> Magma<Op> for (A0, A1, A2, A3) {
    open spec fn spec_combine(a: (A0::Model, A1::Model, A2::Model, A3::Model), b: (A0::Model, A1::Model, A2::Model, A3::Model)) -> (A0::Model, A1::Model, A2::Model, A3::Model) {
        (A0::spec_combine(a.0, b.0), A1::spec_combine(a.1, b.1), A2::spec_combine(a.2, b.2), A3::spec_combine(a.3, b.3))
    }

    proof fn lemma_closed(a: (A0::Model, A1::Model, A2::Model, A3::Model), b: (A0::Model, A1::Model, A2::Model, A3::Model)) {
        A0::lemma_closed(a.0, b.0);
        A1::lemma_closed(a.1, b.1);
        A2::lemma_closed(a.2, b.2);
        A3::lemma_closed(a.3, b.3);
    }

    fn combine(&self, rhs: &Self) -> (r: Self) {
        (self.0.combine(&rhs.0), self.1.combine(&rhs.1), self.2.combine(&rhs.2), self.3.combine(&rhs.3))
    }
}

impl<Op: Operator, A0: Semigroup<Op>, A1: Semigroup<Op>, A2: Semigroup<Op>, A3: Semigroup<Op>> Semigroup<Op> for (A0, A1, A2, A3) {
    proof fn lemma_associative(a: (A0::Model, A1::Model, A2::Model, A3::Model), b: (A0::Model, A1::Model, A2::Model, A3::Model), c: (A0::Model, A1::Model, A2::Model, A3::Model)) {
        A0::lemma_associative(a.0, b.0, c.0);
        A1::lemma_associative(a.1, b.1, c.1);
        A2::lemma_associative(a.2, b.2, c.2);
        A3::lemma_associative(a.3, b.3, c.3);
    }
}

impl<Op: Operator, A0: Monoid<Op>, A1: Monoid<Op>, A2: Monoid<Op>, A3: Monoid<Op>> Monoid<Op> for (A0, A1, A2, A3) {
    open spec fn spec_identity() -> (A0::Model, A1::Model, A2::Model, A3::Model) {
        (A0::spec_identity(), A1::spec_identity(), A2::spec_identity(), A3::spec_identity())
    }

    proof fn lemma_identity(a: (A0::Model, A1::Model, A2::Model, A3::Model)) {
        A0::lemma_identity(a.0);
        A1::lemma_identity(a.1);
        A2::lemma_identity(a.2);
        A3::lemma_identity(a.3);
    }

    fn identity() -> (r: Self) {
        (A0::identity(), A1::identity(), A2::identity(), A3::identity())
    }
}

impl<A0: Quasigroup<Additive>, A1: Quasigroup<Additive>, A2: Quasigroup<Additive>, A3: Quasigroup<Additive>> Quasigroup<Additive> for (A0, A1, A2, A3) {
    proof fn lemma_latin_square(a: (A0::Model, A1::Model, A2::Model, A3::Model), b: (A0::Model, A1::Model, A2::Model, A3::Model)) {
        A0::lemma_latin_square(a.0, b.0);
        A1::lemma_latin_square(a.1, b.1);
        A2::lemma_latin_square(a.2, b.2);
        A3::lemma_latin_square(a.3, b.3);
        let x = (left_quotient::<Additive, A0>(a.0, b.0), left_quotient::<Additive, A1>(a.1, b.1), left_quotient::<Additive, A2>(a.2, b.2), left_quotient::<Additive, A3>(a.3, b.3));
        let y = (right_quotient::<Additive, A0>(a.0, b.0), right_quotient::<Additive, A1>(a.1, b.1), right_quotient::<Additive, A2>(a.2, b.2), right_quotient::<Additive, A3>(a.3, b.3));
        assert(Self::contains(x) && Self::spec_combine(a, x) == b);
        assert(Self::contains(y) && Self::spec_combine(y, a) == b);
        assert forall|x1: (A0::Model, A1::Model, A2::Model, A3::Model), x2: (A0::Model, A1::Model, A2::Model, A3::Model)|
            Self::contains(x1) && Self::contains(x2) && #[trigger] Self::spec_combine(a, x1)
                == #[trigger] Self::spec_combine(a, x2) implies x1 == x2 by {
            assert(A0::spec_combine(a.0, x1.0) == A0::spec_combine(a.0, x2.0));
            assert(A1::spec_combine(a.1, x1.1) == A1::spec_combine(a.1, x2.1));
            assert(A2::spec_combine(a.2, x1.2) == A2::spec_combine(a.2, x2.2));
            assert(A3::spec_combine(a.3, x1.3) == A3::spec_combine(a.3, x2.3));
        }
        assert forall|y1: (A0::Model, A1::Model, A2::Model, A3::Model), y2: (A0::Model, A1::Model, A2::Model, A3::Model)|
            Self::contains(y1) && Self::contains(y2) && #[trigger] Self::spec_combine(y1, a)
                == #[trigger] Self::spec_combine(y2, a) implies y1 == y2 by {
            assert(A0::spec_combine(y1.0, a.0) == A0::spec_combine(y2.0, a.0));
            assert(A1::spec_combine(y1.1, a.1) == A1::spec_combine(y2.1, a.1));
            assert(A2::spec_combine(y1.2, a.2) == A2::spec_combine(y2.2, a.2));
            assert(A3::spec_combine(y1.3, a.3) == A3::spec_combine(y2.3, a.3));
        }
    }
}

impl<A0: Loop<Additive>, A1: Loop<Additive>, A2: Loop<Additive>, A3: Loop<Additive>> Loop<Additive> for (A0, A1, A2, A3) {

}

impl<A0: Group<Additive>, A1: Group<Additive>, A2: Group<Additive>, A3: Group<Additive>> Group<Additive> for (A0, A1, A2, A3) {
    open spec fn spec_inverse(a: (A0::Model, A1::Model, A2::Model, A3::Model)) -> (A0::Model, A1::Model, A2::Model, A3::Model) {
        (A0::spec_inverse(a.0), A1::spec_inverse(a.1), A2::spec_inverse(a.2), A3::spec_inverse(a.3))
    }

    proof fn lemma_inverse(a: (A0::Model, A1::Model, A2::Model, A3::Model)) {
        A0::lemma_inverse(a.0);
        A1::lemma_inverse(a.1);
        A2::lemma_inverse(a.2);
        A3::lemma_inverse(a.3);
    }

    fn inverse(&self) -> (r: Self) {
        (self.0.inverse(), self.1.inverse(), self.2.inverse(), self.3.inverse())
    }
}

impl<A0: AbelianGroup<Additive>, A1: AbelianGroup<Additive>, A2: AbelianGroup<Additive>, A3: AbelianGroup<Additive>> AbelianGroup<Additive> for (A0, A1, A2, A3) {
    proof fn lemma_commutative(a: (A0::Model, A1::Model, A2::Model, A3::Model), b: (A0::Model, A1::Model, A2::Model, A3::Model)) {
        A0::lemma_commutative(a.0, b.0);
        A1::lemma_commutative(a.1, b.1);
        A2::lemma_commutative(a.2, b.2);
        A3::lemma_commutative(a.3, b.3);
    }
}

impl<A0: Semiring<Additive, Multiplicative>, A1: Semiring<Additive, Multiplicative>, A2: Semiring<Additive, Multiplicative>, A3: Semiring<Additive, Multiplicative>> Semiring<Additive, Multiplicative> for (A0, A1, A2, A3) {
    proof fn lemma_distributive(a: (A0::Model, A1::Model, A2::Model, A3::Model), b: (A0::Model, A1::Model, A2::Model, A3::Model), c: (A0::Model, A1::Model, A2::Model, A3::Model)) {
        A0::lemma_distributive(a.0, b.0, c.0);
        A1::lemma_distributive(a.1, b.1, c.1);
        A2::lemma_distributive(a.2, b.2, c.2);
        A3::lemma_distributive(a.3, b.3, c.3);
    }
}

impl<A0: Ring<Additive, Multiplicative>, A1: Ring<Additive, Multiplicative>, A2: Ring<Additive, Multiplicative>, A3: Ring<Additive, Multiplicative>> Ring<Additive, Multiplicative> for (A0, A1, A2, A3) {

}

impl<A0: CommutativeRing<Additive, Multiplicative>, A1: CommutativeRing<Additive, Multiplicative>, A2: CommutativeRing<Additive, Multiplicative>, A3: CommutativeRing<Additive, Multiplicative>> CommutativeRing<Additive, Multiplicative> for (A0, A1, A2, A3) {
    proof fn lemma_multiplication_commutes(a: (A0::Model, A1::Model, A2::Model, A3::Model), b: (A0::Model, A1::Model, A2::Model, A3::Model)) {
        A0::lemma_multiplication_commutes(a.0, b.0);
        A1::lemma_multiplication_commutes(a.1, b.1);
        A2::lemma_multiplication_commutes(a.2, b.2);
        A3::lemma_multiplication_commutes(a.3, b.3);
    }
}

impl<A0: Module<Additive, Multiplicative>, A1: Module<Additive, Multiplicative, Scalar = A0::Scalar>, A2: Module<Additive, Multiplicative, Scalar = A0::Scalar>, A3: Module<Additive, Multiplicative, Scalar = A0::Scalar>> Module<Additive, Multiplicative> for (A0, A1, A2, A3) {
    type Scalar = A0::Scalar;

    open spec fn spec_scale(s: <A0::Scalar as Carrier>::Model, v: (A0::Model, A1::Model, A2::Model, A3::Model)) -> (A0::Model, A1::Model, A2::Model, A3::Model) {
        (A0::spec_scale(s, v.0), A1::spec_scale(s, v.1), A2::spec_scale(s, v.2), A3::spec_scale(s, v.3))
    }

    proof fn lemma_module(
        s: <A0::Scalar as Carrier>::Model,
        t: <A0::Scalar as Carrier>::Model,
        u: (A0::Model, A1::Model, A2::Model, A3::Model),
        v: (A0::Model, A1::Model, A2::Model, A3::Model),
    ) {
        A0::lemma_module(s, t, u.0, v.0);
        A1::lemma_module(s, t, u.1, v.1);
        A2::lemma_module(s, t, u.2, v.2);
        A3::lemma_module(s, t, u.3, v.3);
    }

    fn scale(s: &A0::Scalar, v: Self) -> (r: Self) {
        (A0::scale(s, v.0), A1::scale(s, v.1), A2::scale(s, v.2), A3::scale(s, v.3))
    }
}

impl<A0: VectorSpace<Additive, Multiplicative>, A1: VectorSpace<Additive, Multiplicative, Scalar = A0::Scalar>, A2: VectorSpace<Additive, Multiplicative, Scalar = A0::Scalar>, A3: VectorSpace<Additive, Multiplicative, Scalar = A0::Scalar>> VectorSpace<Additive, Multiplicative> for (A0, A1, A2, A3) where
    A0::Scalar: Field<Additive, Multiplicative>,
 {

}

impl<A0: MeetSemilattice, A1: MeetSemilattice, A2: MeetSemilattice, A3: MeetSemilattice> MeetSemilattice for (A0, A1, A2, A3) {
    open spec fn meet_follows_order() -> bool {
        false
    }

    proof fn lemma_meet_follows_order(a: Self, b: Self) {
    }

    open spec fn spec_meet(a: (A0::Model, A1::Model, A2::Model, A3::Model), b: (A0::Model, A1::Model, A2::Model, A3::Model)) -> (A0::Model, A1::Model, A2::Model, A3::Model) {
        (A0::spec_meet(a.0, b.0), A1::spec_meet(a.1, b.1), A2::spec_meet(a.2, b.2), A3::spec_meet(a.3, b.3))
    }

    proof fn lemma_meet_semilattice(a: (A0::Model, A1::Model, A2::Model, A3::Model), b: (A0::Model, A1::Model, A2::Model, A3::Model), c: (A0::Model, A1::Model, A2::Model, A3::Model)) {
        A0::lemma_meet_semilattice(a.0, b.0, c.0);
        A1::lemma_meet_semilattice(a.1, b.1, c.1);
        A2::lemma_meet_semilattice(a.2, b.2, c.2);
        A3::lemma_meet_semilattice(a.3, b.3, c.3);
    }

    fn meet(&self, other: &Self) -> (r: Self) {
        (self.0.meet(&other.0), self.1.meet(&other.1), self.2.meet(&other.2), self.3.meet(&other.3))
    }
}

impl<A0: JoinSemilattice, A1: JoinSemilattice, A2: JoinSemilattice, A3: JoinSemilattice> JoinSemilattice for (A0, A1, A2, A3) {
    open spec fn join_follows_order() -> bool {
        false
    }

    proof fn lemma_join_follows_order(a: Self, b: Self) {
    }

    open spec fn spec_join(a: (A0::Model, A1::Model, A2::Model, A3::Model), b: (A0::Model, A1::Model, A2::Model, A3::Model)) -> (A0::Model, A1::Model, A2::Model, A3::Model) {
        (A0::spec_join(a.0, b.0), A1::spec_join(a.1, b.1), A2::spec_join(a.2, b.2), A3::spec_join(a.3, b.3))
    }

    proof fn lemma_join_semilattice(a: (A0::Model, A1::Model, A2::Model, A3::Model), b: (A0::Model, A1::Model, A2::Model, A3::Model), c: (A0::Model, A1::Model, A2::Model, A3::Model)) {
        A0::lemma_join_semilattice(a.0, b.0, c.0);
        A1::lemma_join_semilattice(a.1, b.1, c.1);
        A2::lemma_join_semilattice(a.2, b.2, c.2);
        A3::lemma_join_semilattice(a.3, b.3, c.3);
    }

    fn join(&self, other: &Self) -> (r: Self) {
        (self.0.join(&other.0), self.1.join(&other.1), self.2.join(&other.2), self.3.join(&other.3))
    }
}

impl<A0: Lattice, A1: Lattice, A2: Lattice, A3: Lattice> Lattice for (A0, A1, A2, A3) {
    proof fn lemma_absorption(a: (A0::Model, A1::Model, A2::Model, A3::Model), b: (A0::Model, A1::Model, A2::Model, A3::Model)) {
        A0::lemma_absorption(a.0, b.0);
        A1::lemma_absorption(a.1, b.1);
        A2::lemma_absorption(a.2, b.2);
        A3::lemma_absorption(a.3, b.3);
    }
}

// ---- arity 5 ----

impl<A0: Carrier, A1: Carrier, A2: Carrier, A3: Carrier, A4: Carrier> Carrier for (A0, A1, A2, A3, A4) {
    type Model = (A0::Model, A1::Model, A2::Model, A3::Model, A4::Model);

    open spec fn model(self) -> (A0::Model, A1::Model, A2::Model, A3::Model, A4::Model) {
        (self.0.model(), self.1.model(), self.2.model(), self.3.model(), self.4.model())
    }

    open spec fn contains(m: (A0::Model, A1::Model, A2::Model, A3::Model, A4::Model)) -> bool {
        A0::contains(m.0)
            && A1::contains(m.1)
            && A2::contains(m.2)
            && A3::contains(m.3)
            && A4::contains(m.4)
    }

    proof fn lemma_model_contained(x: &Self) {
        A0::lemma_model_contained(&x.0);
        A1::lemma_model_contained(&x.1);
        A2::lemma_model_contained(&x.2);
        A3::lemma_model_contained(&x.3);
        A4::lemma_model_contained(&x.4);
    }
}

impl<Op: Operator, A0: Magma<Op>, A1: Magma<Op>, A2: Magma<Op>, A3: Magma<Op>, A4: Magma<Op>> Magma<Op> for (A0, A1, A2, A3, A4) {
    open spec fn spec_combine(a: (A0::Model, A1::Model, A2::Model, A3::Model, A4::Model), b: (A0::Model, A1::Model, A2::Model, A3::Model, A4::Model)) -> (A0::Model, A1::Model, A2::Model, A3::Model, A4::Model) {
        (A0::spec_combine(a.0, b.0), A1::spec_combine(a.1, b.1), A2::spec_combine(a.2, b.2), A3::spec_combine(a.3, b.3), A4::spec_combine(a.4, b.4))
    }

    proof fn lemma_closed(a: (A0::Model, A1::Model, A2::Model, A3::Model, A4::Model), b: (A0::Model, A1::Model, A2::Model, A3::Model, A4::Model)) {
        A0::lemma_closed(a.0, b.0);
        A1::lemma_closed(a.1, b.1);
        A2::lemma_closed(a.2, b.2);
        A3::lemma_closed(a.3, b.3);
        A4::lemma_closed(a.4, b.4);
    }

    fn combine(&self, rhs: &Self) -> (r: Self) {
        (self.0.combine(&rhs.0), self.1.combine(&rhs.1), self.2.combine(&rhs.2), self.3.combine(&rhs.3), self.4.combine(&rhs.4))
    }
}

impl<Op: Operator, A0: Semigroup<Op>, A1: Semigroup<Op>, A2: Semigroup<Op>, A3: Semigroup<Op>, A4: Semigroup<Op>> Semigroup<Op> for (A0, A1, A2, A3, A4) {
    proof fn lemma_associative(a: (A0::Model, A1::Model, A2::Model, A3::Model, A4::Model), b: (A0::Model, A1::Model, A2::Model, A3::Model, A4::Model), c: (A0::Model, A1::Model, A2::Model, A3::Model, A4::Model)) {
        A0::lemma_associative(a.0, b.0, c.0);
        A1::lemma_associative(a.1, b.1, c.1);
        A2::lemma_associative(a.2, b.2, c.2);
        A3::lemma_associative(a.3, b.3, c.3);
        A4::lemma_associative(a.4, b.4, c.4);
    }
}

impl<Op: Operator, A0: Monoid<Op>, A1: Monoid<Op>, A2: Monoid<Op>, A3: Monoid<Op>, A4: Monoid<Op>> Monoid<Op> for (A0, A1, A2, A3, A4) {
    open spec fn spec_identity() -> (A0::Model, A1::Model, A2::Model, A3::Model, A4::Model) {
        (A0::spec_identity(), A1::spec_identity(), A2::spec_identity(), A3::spec_identity(), A4::spec_identity())
    }

    proof fn lemma_identity(a: (A0::Model, A1::Model, A2::Model, A3::Model, A4::Model)) {
        A0::lemma_identity(a.0);
        A1::lemma_identity(a.1);
        A2::lemma_identity(a.2);
        A3::lemma_identity(a.3);
        A4::lemma_identity(a.4);
    }

    fn identity() -> (r: Self) {
        (A0::identity(), A1::identity(), A2::identity(), A3::identity(), A4::identity())
    }
}

impl<A0: Quasigroup<Additive>, A1: Quasigroup<Additive>, A2: Quasigroup<Additive>, A3: Quasigroup<Additive>, A4: Quasigroup<Additive>> Quasigroup<Additive> for (A0, A1, A2, A3, A4) {
    proof fn lemma_latin_square(a: (A0::Model, A1::Model, A2::Model, A3::Model, A4::Model), b: (A0::Model, A1::Model, A2::Model, A3::Model, A4::Model)) {
        A0::lemma_latin_square(a.0, b.0);
        A1::lemma_latin_square(a.1, b.1);
        A2::lemma_latin_square(a.2, b.2);
        A3::lemma_latin_square(a.3, b.3);
        A4::lemma_latin_square(a.4, b.4);
        let x = (left_quotient::<Additive, A0>(a.0, b.0), left_quotient::<Additive, A1>(a.1, b.1), left_quotient::<Additive, A2>(a.2, b.2), left_quotient::<Additive, A3>(a.3, b.3), left_quotient::<Additive, A4>(a.4, b.4));
        let y = (right_quotient::<Additive, A0>(a.0, b.0), right_quotient::<Additive, A1>(a.1, b.1), right_quotient::<Additive, A2>(a.2, b.2), right_quotient::<Additive, A3>(a.3, b.3), right_quotient::<Additive, A4>(a.4, b.4));
        assert(Self::contains(x) && Self::spec_combine(a, x) == b);
        assert(Self::contains(y) && Self::spec_combine(y, a) == b);
        assert forall|x1: (A0::Model, A1::Model, A2::Model, A3::Model, A4::Model), x2: (A0::Model, A1::Model, A2::Model, A3::Model, A4::Model)|
            Self::contains(x1) && Self::contains(x2) && #[trigger] Self::spec_combine(a, x1)
                == #[trigger] Self::spec_combine(a, x2) implies x1 == x2 by {
            assert(A0::spec_combine(a.0, x1.0) == A0::spec_combine(a.0, x2.0));
            assert(A1::spec_combine(a.1, x1.1) == A1::spec_combine(a.1, x2.1));
            assert(A2::spec_combine(a.2, x1.2) == A2::spec_combine(a.2, x2.2));
            assert(A3::spec_combine(a.3, x1.3) == A3::spec_combine(a.3, x2.3));
            assert(A4::spec_combine(a.4, x1.4) == A4::spec_combine(a.4, x2.4));
        }
        assert forall|y1: (A0::Model, A1::Model, A2::Model, A3::Model, A4::Model), y2: (A0::Model, A1::Model, A2::Model, A3::Model, A4::Model)|
            Self::contains(y1) && Self::contains(y2) && #[trigger] Self::spec_combine(y1, a)
                == #[trigger] Self::spec_combine(y2, a) implies y1 == y2 by {
            assert(A0::spec_combine(y1.0, a.0) == A0::spec_combine(y2.0, a.0));
            assert(A1::spec_combine(y1.1, a.1) == A1::spec_combine(y2.1, a.1));
            assert(A2::spec_combine(y1.2, a.2) == A2::spec_combine(y2.2, a.2));
            assert(A3::spec_combine(y1.3, a.3) == A3::spec_combine(y2.3, a.3));
            assert(A4::spec_combine(y1.4, a.4) == A4::spec_combine(y2.4, a.4));
        }
    }
}

impl<A0: Loop<Additive>, A1: Loop<Additive>, A2: Loop<Additive>, A3: Loop<Additive>, A4: Loop<Additive>> Loop<Additive> for (A0, A1, A2, A3, A4) {

}

impl<A0: Group<Additive>, A1: Group<Additive>, A2: Group<Additive>, A3: Group<Additive>, A4: Group<Additive>> Group<Additive> for (A0, A1, A2, A3, A4) {
    open spec fn spec_inverse(a: (A0::Model, A1::Model, A2::Model, A3::Model, A4::Model)) -> (A0::Model, A1::Model, A2::Model, A3::Model, A4::Model) {
        (A0::spec_inverse(a.0), A1::spec_inverse(a.1), A2::spec_inverse(a.2), A3::spec_inverse(a.3), A4::spec_inverse(a.4))
    }

    proof fn lemma_inverse(a: (A0::Model, A1::Model, A2::Model, A3::Model, A4::Model)) {
        A0::lemma_inverse(a.0);
        A1::lemma_inverse(a.1);
        A2::lemma_inverse(a.2);
        A3::lemma_inverse(a.3);
        A4::lemma_inverse(a.4);
    }

    fn inverse(&self) -> (r: Self) {
        (self.0.inverse(), self.1.inverse(), self.2.inverse(), self.3.inverse(), self.4.inverse())
    }
}

impl<A0: AbelianGroup<Additive>, A1: AbelianGroup<Additive>, A2: AbelianGroup<Additive>, A3: AbelianGroup<Additive>, A4: AbelianGroup<Additive>> AbelianGroup<Additive> for (A0, A1, A2, A3, A4) {
    proof fn lemma_commutative(a: (A0::Model, A1::Model, A2::Model, A3::Model, A4::Model), b: (A0::Model, A1::Model, A2::Model, A3::Model, A4::Model)) {
        A0::lemma_commutative(a.0, b.0);
        A1::lemma_commutative(a.1, b.1);
        A2::lemma_commutative(a.2, b.2);
        A3::lemma_commutative(a.3, b.3);
        A4::lemma_commutative(a.4, b.4);
    }
}

impl<A0: Semiring<Additive, Multiplicative>, A1: Semiring<Additive, Multiplicative>, A2: Semiring<Additive, Multiplicative>, A3: Semiring<Additive, Multiplicative>, A4: Semiring<Additive, Multiplicative>> Semiring<Additive, Multiplicative> for (A0, A1, A2, A3, A4) {
    proof fn lemma_distributive(a: (A0::Model, A1::Model, A2::Model, A3::Model, A4::Model), b: (A0::Model, A1::Model, A2::Model, A3::Model, A4::Model), c: (A0::Model, A1::Model, A2::Model, A3::Model, A4::Model)) {
        A0::lemma_distributive(a.0, b.0, c.0);
        A1::lemma_distributive(a.1, b.1, c.1);
        A2::lemma_distributive(a.2, b.2, c.2);
        A3::lemma_distributive(a.3, b.3, c.3);
        A4::lemma_distributive(a.4, b.4, c.4);
    }
}

impl<A0: Ring<Additive, Multiplicative>, A1: Ring<Additive, Multiplicative>, A2: Ring<Additive, Multiplicative>, A3: Ring<Additive, Multiplicative>, A4: Ring<Additive, Multiplicative>> Ring<Additive, Multiplicative> for (A0, A1, A2, A3, A4) {

}

impl<A0: CommutativeRing<Additive, Multiplicative>, A1: CommutativeRing<Additive, Multiplicative>, A2: CommutativeRing<Additive, Multiplicative>, A3: CommutativeRing<Additive, Multiplicative>, A4: CommutativeRing<Additive, Multiplicative>> CommutativeRing<Additive, Multiplicative> for (A0, A1, A2, A3, A4) {
    proof fn lemma_multiplication_commutes(a: (A0::Model, A1::Model, A2::Model, A3::Model, A4::Model), b: (A0::Model, A1::Model, A2::Model, A3::Model, A4::Model)) {
        A0::lemma_multiplication_commutes(a.0, b.0);
        A1::lemma_multiplication_commutes(a.1, b.1);
        A2::lemma_multiplication_commutes(a.2, b.2);
        A3::lemma_multiplication_commutes(a.3, b.3);
        A4::lemma_multiplication_commutes(a.4, b.4);
    }
}

impl<A0: Module<Additive, Multiplicative>, A1: Module<Additive, Multiplicative, Scalar = A0::Scalar>, A2: Module<Additive, Multiplicative, Scalar = A0::Scalar>, A3: Module<Additive, Multiplicative, Scalar = A0::Scalar>, A4: Module<Additive, Multiplicative, Scalar = A0::Scalar>> Module<Additive, Multiplicative> for (A0, A1, A2, A3, A4) {
    type Scalar = A0::Scalar;

    open spec fn spec_scale(s: <A0::Scalar as Carrier>::Model, v: (A0::Model, A1::Model, A2::Model, A3::Model, A4::Model)) -> (A0::Model, A1::Model, A2::Model, A3::Model, A4::Model) {
        (A0::spec_scale(s, v.0), A1::spec_scale(s, v.1), A2::spec_scale(s, v.2), A3::spec_scale(s, v.3), A4::spec_scale(s, v.4))
    }

    proof fn lemma_module(
        s: <A0::Scalar as Carrier>::Model,
        t: <A0::Scalar as Carrier>::Model,
        u: (A0::Model, A1::Model, A2::Model, A3::Model, A4::Model),
        v: (A0::Model, A1::Model, A2::Model, A3::Model, A4::Model),
    ) {
        A0::lemma_module(s, t, u.0, v.0);
        A1::lemma_module(s, t, u.1, v.1);
        A2::lemma_module(s, t, u.2, v.2);
        A3::lemma_module(s, t, u.3, v.3);
        A4::lemma_module(s, t, u.4, v.4);
    }

    fn scale(s: &A0::Scalar, v: Self) -> (r: Self) {
        (A0::scale(s, v.0), A1::scale(s, v.1), A2::scale(s, v.2), A3::scale(s, v.3), A4::scale(s, v.4))
    }
}

impl<A0: VectorSpace<Additive, Multiplicative>, A1: VectorSpace<Additive, Multiplicative, Scalar = A0::Scalar>, A2: VectorSpace<Additive, Multiplicative, Scalar = A0::Scalar>, A3: VectorSpace<Additive, Multiplicative, Scalar = A0::Scalar>, A4: VectorSpace<Additive, Multiplicative, Scalar = A0::Scalar>> VectorSpace<Additive, Multiplicative> for (A0, A1, A2, A3, A4) where
    A0::Scalar: Field<Additive, Multiplicative>,
 {

}

impl<A0: MeetSemilattice, A1: MeetSemilattice, A2: MeetSemilattice, A3: MeetSemilattice, A4: MeetSemilattice> MeetSemilattice for (A0, A1, A2, A3, A4) {
    open spec fn meet_follows_order() -> bool {
        false
    }

    proof fn lemma_meet_follows_order(a: Self, b: Self) {
    }

    open spec fn spec_meet(a: (A0::Model, A1::Model, A2::Model, A3::Model, A4::Model), b: (A0::Model, A1::Model, A2::Model, A3::Model, A4::Model)) -> (A0::Model, A1::Model, A2::Model, A3::Model, A4::Model) {
        (A0::spec_meet(a.0, b.0), A1::spec_meet(a.1, b.1), A2::spec_meet(a.2, b.2), A3::spec_meet(a.3, b.3), A4::spec_meet(a.4, b.4))
    }

    proof fn lemma_meet_semilattice(a: (A0::Model, A1::Model, A2::Model, A3::Model, A4::Model), b: (A0::Model, A1::Model, A2::Model, A3::Model, A4::Model), c: (A0::Model, A1::Model, A2::Model, A3::Model, A4::Model)) {
        A0::lemma_meet_semilattice(a.0, b.0, c.0);
        A1::lemma_meet_semilattice(a.1, b.1, c.1);
        A2::lemma_meet_semilattice(a.2, b.2, c.2);
        A3::lemma_meet_semilattice(a.3, b.3, c.3);
        A4::lemma_meet_semilattice(a.4, b.4, c.4);
    }

    fn meet(&self, other: &Self) -> (r: Self) {
        (self.0.meet(&other.0), self.1.meet(&other.1), self.2.meet(&other.2), self.3.meet(&other.3), self.4.meet(&other.4))
    }
}

impl<A0: JoinSemilattice, A1: JoinSemilattice, A2: JoinSemilattice, A3: JoinSemilattice, A4: JoinSemilattice> JoinSemilattice for (A0, A1, A2, A3, A4) {
    open spec fn join_follows_order() -> bool {
        false
    }

    proof fn lemma_join_follows_order(a: Self, b: Self) {
    }

    open spec fn spec_join(a: (A0::Model, A1::Model, A2::Model, A3::Model, A4::Model), b: (A0::Model, A1::Model, A2::Model, A3::Model, A4::Model)) -> (A0::Model, A1::Model, A2::Model, A3::Model, A4::Model) {
        (A0::spec_join(a.0, b.0), A1::spec_join(a.1, b.1), A2::spec_join(a.2, b.2), A3::spec_join(a.3, b.3), A4::spec_join(a.4, b.4))
    }

    proof fn lemma_join_semilattice(a: (A0::Model, A1::Model, A2::Model, A3::Model, A4::Model), b: (A0::Model, A1::Model, A2::Model, A3::Model, A4::Model), c: (A0::Model, A1::Model, A2::Model, A3::Model, A4::Model)) {
        A0::lemma_join_semilattice(a.0, b.0, c.0);
        A1::lemma_join_semilattice(a.1, b.1, c.1);
        A2::lemma_join_semilattice(a.2, b.2, c.2);
        A3::lemma_join_semilattice(a.3, b.3, c.3);
        A4::lemma_join_semilattice(a.4, b.4, c.4);
    }

    fn join(&self, other: &Self) -> (r: Self) {
        (self.0.join(&other.0), self.1.join(&other.1), self.2.join(&other.2), self.3.join(&other.3), self.4.join(&other.4))
    }
}

impl<A0: Lattice, A1: Lattice, A2: Lattice, A3: Lattice, A4: Lattice> Lattice for (A0, A1, A2, A3, A4) {
    proof fn lemma_absorption(a: (A0::Model, A1::Model, A2::Model, A3::Model, A4::Model), b: (A0::Model, A1::Model, A2::Model, A3::Model, A4::Model)) {
        A0::lemma_absorption(a.0, b.0);
        A1::lemma_absorption(a.1, b.1);
        A2::lemma_absorption(a.2, b.2);
        A3::lemma_absorption(a.3, b.3);
        A4::lemma_absorption(a.4, b.4);
    }
}

// ---- arity 6 ----

impl<A0: Carrier, A1: Carrier, A2: Carrier, A3: Carrier, A4: Carrier, A5: Carrier> Carrier for (A0, A1, A2, A3, A4, A5) {
    type Model = (A0::Model, A1::Model, A2::Model, A3::Model, A4::Model, A5::Model);

    open spec fn model(self) -> (A0::Model, A1::Model, A2::Model, A3::Model, A4::Model, A5::Model) {
        (self.0.model(), self.1.model(), self.2.model(), self.3.model(), self.4.model(), self.5.model())
    }

    open spec fn contains(m: (A0::Model, A1::Model, A2::Model, A3::Model, A4::Model, A5::Model)) -> bool {
        A0::contains(m.0)
            && A1::contains(m.1)
            && A2::contains(m.2)
            && A3::contains(m.3)
            && A4::contains(m.4)
            && A5::contains(m.5)
    }

    proof fn lemma_model_contained(x: &Self) {
        A0::lemma_model_contained(&x.0);
        A1::lemma_model_contained(&x.1);
        A2::lemma_model_contained(&x.2);
        A3::lemma_model_contained(&x.3);
        A4::lemma_model_contained(&x.4);
        A5::lemma_model_contained(&x.5);
    }
}

impl<Op: Operator, A0: Magma<Op>, A1: Magma<Op>, A2: Magma<Op>, A3: Magma<Op>, A4: Magma<Op>, A5: Magma<Op>> Magma<Op> for (A0, A1, A2, A3, A4, A5) {
    open spec fn spec_combine(a: (A0::Model, A1::Model, A2::Model, A3::Model, A4::Model, A5::Model), b: (A0::Model, A1::Model, A2::Model, A3::Model, A4::Model, A5::Model)) -> (A0::Model, A1::Model, A2::Model, A3::Model, A4::Model, A5::Model) {
        (A0::spec_combine(a.0, b.0), A1::spec_combine(a.1, b.1), A2::spec_combine(a.2, b.2), A3::spec_combine(a.3, b.3), A4::spec_combine(a.4, b.4), A5::spec_combine(a.5, b.5))
    }

    proof fn lemma_closed(a: (A0::Model, A1::Model, A2::Model, A3::Model, A4::Model, A5::Model), b: (A0::Model, A1::Model, A2::Model, A3::Model, A4::Model, A5::Model)) {
        A0::lemma_closed(a.0, b.0);
        A1::lemma_closed(a.1, b.1);
        A2::lemma_closed(a.2, b.2);
        A3::lemma_closed(a.3, b.3);
        A4::lemma_closed(a.4, b.4);
        A5::lemma_closed(a.5, b.5);
    }

    fn combine(&self, rhs: &Self) -> (r: Self) {
        (self.0.combine(&rhs.0), self.1.combine(&rhs.1), self.2.combine(&rhs.2), self.3.combine(&rhs.3), self.4.combine(&rhs.4), self.5.combine(&rhs.5))
    }
}

impl<Op: Operator, A0: Semigroup<Op>, A1: Semigroup<Op>, A2: Semigroup<Op>, A3: Semigroup<Op>, A4: Semigroup<Op>, A5: Semigroup<Op>> Semigroup<Op> for (A0, A1, A2, A3, A4, A5) {
    proof fn lemma_associative(a: (A0::Model, A1::Model, A2::Model, A3::Model, A4::Model, A5::Model), b: (A0::Model, A1::Model, A2::Model, A3::Model, A4::Model, A5::Model), c: (A0::Model, A1::Model, A2::Model, A3::Model, A4::Model, A5::Model)) {
        A0::lemma_associative(a.0, b.0, c.0);
        A1::lemma_associative(a.1, b.1, c.1);
        A2::lemma_associative(a.2, b.2, c.2);
        A3::lemma_associative(a.3, b.3, c.3);
        A4::lemma_associative(a.4, b.4, c.4);
        A5::lemma_associative(a.5, b.5, c.5);
    }
}

impl<Op: Operator, A0: Monoid<Op>, A1: Monoid<Op>, A2: Monoid<Op>, A3: Monoid<Op>, A4: Monoid<Op>, A5: Monoid<Op>> Monoid<Op> for (A0, A1, A2, A3, A4, A5) {
    open spec fn spec_identity() -> (A0::Model, A1::Model, A2::Model, A3::Model, A4::Model, A5::Model) {
        (A0::spec_identity(), A1::spec_identity(), A2::spec_identity(), A3::spec_identity(), A4::spec_identity(), A5::spec_identity())
    }

    proof fn lemma_identity(a: (A0::Model, A1::Model, A2::Model, A3::Model, A4::Model, A5::Model)) {
        A0::lemma_identity(a.0);
        A1::lemma_identity(a.1);
        A2::lemma_identity(a.2);
        A3::lemma_identity(a.3);
        A4::lemma_identity(a.4);
        A5::lemma_identity(a.5);
    }

    fn identity() -> (r: Self) {
        (A0::identity(), A1::identity(), A2::identity(), A3::identity(), A4::identity(), A5::identity())
    }
}

impl<A0: Quasigroup<Additive>, A1: Quasigroup<Additive>, A2: Quasigroup<Additive>, A3: Quasigroup<Additive>, A4: Quasigroup<Additive>, A5: Quasigroup<Additive>> Quasigroup<Additive> for (A0, A1, A2, A3, A4, A5) {
    proof fn lemma_latin_square(a: (A0::Model, A1::Model, A2::Model, A3::Model, A4::Model, A5::Model), b: (A0::Model, A1::Model, A2::Model, A3::Model, A4::Model, A5::Model)) {
        A0::lemma_latin_square(a.0, b.0);
        A1::lemma_latin_square(a.1, b.1);
        A2::lemma_latin_square(a.2, b.2);
        A3::lemma_latin_square(a.3, b.3);
        A4::lemma_latin_square(a.4, b.4);
        A5::lemma_latin_square(a.5, b.5);
        let x = (left_quotient::<Additive, A0>(a.0, b.0), left_quotient::<Additive, A1>(a.1, b.1), left_quotient::<Additive, A2>(a.2, b.2), left_quotient::<Additive, A3>(a.3, b.3), left_quotient::<Additive, A4>(a.4, b.4), left_quotient::<Additive, A5>(a.5, b.5));
        let y = (right_quotient::<Additive, A0>(a.0, b.0), right_quotient::<Additive, A1>(a.1, b.1), right_quotient::<Additive, A2>(a.2, b.2), right_quotient::<Additive, A3>(a.3, b.3), right_quotient::<Additive, A4>(a.4, b.4), right_quotient::<Additive, A5>(a.5, b.5));
        assert(Self::contains(x) && Self::spec_combine(a, x) == b);
        assert(Self::contains(y) && Self::spec_combine(y, a) == b);
        assert forall|x1: (A0::Model, A1::Model, A2::Model, A3::Model, A4::Model, A5::Model), x2: (A0::Model, A1::Model, A2::Model, A3::Model, A4::Model, A5::Model)|
            Self::contains(x1) && Self::contains(x2) && #[trigger] Self::spec_combine(a, x1)
                == #[trigger] Self::spec_combine(a, x2) implies x1 == x2 by {
            assert(A0::spec_combine(a.0, x1.0) == A0::spec_combine(a.0, x2.0));
            assert(A1::spec_combine(a.1, x1.1) == A1::spec_combine(a.1, x2.1));
            assert(A2::spec_combine(a.2, x1.2) == A2::spec_combine(a.2, x2.2));
            assert(A3::spec_combine(a.3, x1.3) == A3::spec_combine(a.3, x2.3));
            assert(A4::spec_combine(a.4, x1.4) == A4::spec_combine(a.4, x2.4));
            assert(A5::spec_combine(a.5, x1.5) == A5::spec_combine(a.5, x2.5));
        }
        assert forall|y1: (A0::Model, A1::Model, A2::Model, A3::Model, A4::Model, A5::Model), y2: (A0::Model, A1::Model, A2::Model, A3::Model, A4::Model, A5::Model)|
            Self::contains(y1) && Self::contains(y2) && #[trigger] Self::spec_combine(y1, a)
                == #[trigger] Self::spec_combine(y2, a) implies y1 == y2 by {
            assert(A0::spec_combine(y1.0, a.0) == A0::spec_combine(y2.0, a.0));
            assert(A1::spec_combine(y1.1, a.1) == A1::spec_combine(y2.1, a.1));
            assert(A2::spec_combine(y1.2, a.2) == A2::spec_combine(y2.2, a.2));
            assert(A3::spec_combine(y1.3, a.3) == A3::spec_combine(y2.3, a.3));
            assert(A4::spec_combine(y1.4, a.4) == A4::spec_combine(y2.4, a.4));
            assert(A5::spec_combine(y1.5, a.5) == A5::spec_combine(y2.5, a.5));
        }
    }
}

impl<A0: Loop<Additive>, A1: Loop<Additive>, A2: Loop<Additive>, A3: Loop<Additive>, A4: Loop<Additive>, A5: Loop<Additive>> Loop<Additive> for (A0, A1, A2, A3, A4, A5) {

}

impl<A0: Group<Additive>, A1: Group<Additive>, A2: Group<Additive>, A3: Group<Additive>, A4: Group<Additive>, A5: Group<Additive>> Group<Additive> for (A0, A1, A2, A3, A4, A5) {
    open spec fn spec_inverse(a: (A0::Model, A1::Model, A2::Model, A3::Model, A4::Model, A5::Model)) -> (A0::Model, A1::Model, A2::Model, A3::Model, A4::Model, A5::Model) {
        (A0::spec_inverse(a.0), A1::spec_inverse(a.1), A2::spec_inverse(a.2), A3::spec_inverse(a.3), A4::spec_inverse(a.4), A5::spec_inverse(a.5))
    }

    proof fn lemma_inverse(a: (A0::Model, A1::Model, A2::Model, A3::Model, A4::Model, A5::Model)) {
        A0::lemma_inverse(a.0);
        A1::lemma_inverse(a.1);
        A2::lemma_inverse(a.2);
        A3::lemma_inverse(a.3);
        A4::lemma_inverse(a.4);
        A5::lemma_inverse(a.5);
    }

    fn inverse(&self) -> (r: Self) {
        (self.0.inverse(), self.1.inverse(), self.2.inverse(), self.3.inverse(), self.4.inverse(), self.5.inverse())
    }
}

impl<A0: AbelianGroup<Additive>, A1: AbelianGroup<Additive>, A2: AbelianGroup<Additive>, A3: AbelianGroup<Additive>, A4: AbelianGroup<Additive>, A5: AbelianGroup<Additive>> AbelianGroup<Additive> for (A0, A1, A2, A3, A4, A5) {
    proof fn lemma_commutative(a: (A0::Model, A1::Model, A2::Model, A3::Model, A4::Model, A5::Model), b: (A0::Model, A1::Model, A2::Model, A3::Model, A4::Model, A5::Model)) {
        A0::lemma_commutative(a.0, b.0);
        A1::lemma_commutative(a.1, b.1);
        A2::lemma_commutative(a.2, b.2);
        A3::lemma_commutative(a.3, b.3);
        A4::lemma_commutative(a.4, b.4);
        A5::lemma_commutative(a.5, b.5);
    }
}

impl<A0: Semiring<Additive, Multiplicative>, A1: Semiring<Additive, Multiplicative>, A2: Semiring<Additive, Multiplicative>, A3: Semiring<Additive, Multiplicative>, A4: Semiring<Additive, Multiplicative>, A5: Semiring<Additive, Multiplicative>> Semiring<Additive, Multiplicative> for (A0, A1, A2, A3, A4, A5) {
    proof fn lemma_distributive(a: (A0::Model, A1::Model, A2::Model, A3::Model, A4::Model, A5::Model), b: (A0::Model, A1::Model, A2::Model, A3::Model, A4::Model, A5::Model), c: (A0::Model, A1::Model, A2::Model, A3::Model, A4::Model, A5::Model)) {
        A0::lemma_distributive(a.0, b.0, c.0);
        A1::lemma_distributive(a.1, b.1, c.1);
        A2::lemma_distributive(a.2, b.2, c.2);
        A3::lemma_distributive(a.3, b.3, c.3);
        A4::lemma_distributive(a.4, b.4, c.4);
        A5::lemma_distributive(a.5, b.5, c.5);
    }
}

impl<A0: Ring<Additive, Multiplicative>, A1: Ring<Additive, Multiplicative>, A2: Ring<Additive, Multiplicative>, A3: Ring<Additive, Multiplicative>, A4: Ring<Additive, Multiplicative>, A5: Ring<Additive, Multiplicative>> Ring<Additive, Multiplicative> for (A0, A1, A2, A3, A4, A5) {

}

impl<A0: CommutativeRing<Additive, Multiplicative>, A1: CommutativeRing<Additive, Multiplicative>, A2: CommutativeRing<Additive, Multiplicative>, A3: CommutativeRing<Additive, Multiplicative>, A4: CommutativeRing<Additive, Multiplicative>, A5: CommutativeRing<Additive, Multiplicative>> CommutativeRing<Additive, Multiplicative> for (A0, A1, A2, A3, A4, A5) {
    proof fn lemma_multiplication_commutes(a: (A0::Model, A1::Model, A2::Model, A3::Model, A4::Model, A5::Model), b: (A0::Model, A1::Model, A2::Model, A3::Model, A4::Model, A5::Model)) {
        A0::lemma_multiplication_commutes(a.0, b.0);
        A1::lemma_multiplication_commutes(a.1, b.1);
        A2::lemma_multiplication_commutes(a.2, b.2);
        A3::lemma_multiplication_commutes(a.3, b.3);
        A4::lemma_multiplication_commutes(a.4, b.4);
        A5::lemma_multiplication_commutes(a.5, b.5);
    }
}

impl<A0: Module<Additive, Multiplicative>, A1: Module<Additive, Multiplicative, Scalar = A0::Scalar>, A2: Module<Additive, Multiplicative, Scalar = A0::Scalar>, A3: Module<Additive, Multiplicative, Scalar = A0::Scalar>, A4: Module<Additive, Multiplicative, Scalar = A0::Scalar>, A5: Module<Additive, Multiplicative, Scalar = A0::Scalar>> Module<Additive, Multiplicative> for (A0, A1, A2, A3, A4, A5) {
    type Scalar = A0::Scalar;

    open spec fn spec_scale(s: <A0::Scalar as Carrier>::Model, v: (A0::Model, A1::Model, A2::Model, A3::Model, A4::Model, A5::Model)) -> (A0::Model, A1::Model, A2::Model, A3::Model, A4::Model, A5::Model) {
        (A0::spec_scale(s, v.0), A1::spec_scale(s, v.1), A2::spec_scale(s, v.2), A3::spec_scale(s, v.3), A4::spec_scale(s, v.4), A5::spec_scale(s, v.5))
    }

    proof fn lemma_module(
        s: <A0::Scalar as Carrier>::Model,
        t: <A0::Scalar as Carrier>::Model,
        u: (A0::Model, A1::Model, A2::Model, A3::Model, A4::Model, A5::Model),
        v: (A0::Model, A1::Model, A2::Model, A3::Model, A4::Model, A5::Model),
    ) {
        A0::lemma_module(s, t, u.0, v.0);
        A1::lemma_module(s, t, u.1, v.1);
        A2::lemma_module(s, t, u.2, v.2);
        A3::lemma_module(s, t, u.3, v.3);
        A4::lemma_module(s, t, u.4, v.4);
        A5::lemma_module(s, t, u.5, v.5);
    }

    fn scale(s: &A0::Scalar, v: Self) -> (r: Self) {
        (A0::scale(s, v.0), A1::scale(s, v.1), A2::scale(s, v.2), A3::scale(s, v.3), A4::scale(s, v.4), A5::scale(s, v.5))
    }
}

impl<A0: VectorSpace<Additive, Multiplicative>, A1: VectorSpace<Additive, Multiplicative, Scalar = A0::Scalar>, A2: VectorSpace<Additive, Multiplicative, Scalar = A0::Scalar>, A3: VectorSpace<Additive, Multiplicative, Scalar = A0::Scalar>, A4: VectorSpace<Additive, Multiplicative, Scalar = A0::Scalar>, A5: VectorSpace<Additive, Multiplicative, Scalar = A0::Scalar>> VectorSpace<Additive, Multiplicative> for (A0, A1, A2, A3, A4, A5) where
    A0::Scalar: Field<Additive, Multiplicative>,
 {

}

impl<A0: MeetSemilattice, A1: MeetSemilattice, A2: MeetSemilattice, A3: MeetSemilattice, A4: MeetSemilattice, A5: MeetSemilattice> MeetSemilattice for (A0, A1, A2, A3, A4, A5) {
    open spec fn meet_follows_order() -> bool {
        false
    }

    proof fn lemma_meet_follows_order(a: Self, b: Self) {
    }

    open spec fn spec_meet(a: (A0::Model, A1::Model, A2::Model, A3::Model, A4::Model, A5::Model), b: (A0::Model, A1::Model, A2::Model, A3::Model, A4::Model, A5::Model)) -> (A0::Model, A1::Model, A2::Model, A3::Model, A4::Model, A5::Model) {
        (A0::spec_meet(a.0, b.0), A1::spec_meet(a.1, b.1), A2::spec_meet(a.2, b.2), A3::spec_meet(a.3, b.3), A4::spec_meet(a.4, b.4), A5::spec_meet(a.5, b.5))
    }

    proof fn lemma_meet_semilattice(a: (A0::Model, A1::Model, A2::Model, A3::Model, A4::Model, A5::Model), b: (A0::Model, A1::Model, A2::Model, A3::Model, A4::Model, A5::Model), c: (A0::Model, A1::Model, A2::Model, A3::Model, A4::Model, A5::Model)) {
        A0::lemma_meet_semilattice(a.0, b.0, c.0);
        A1::lemma_meet_semilattice(a.1, b.1, c.1);
        A2::lemma_meet_semilattice(a.2, b.2, c.2);
        A3::lemma_meet_semilattice(a.3, b.3, c.3);
        A4::lemma_meet_semilattice(a.4, b.4, c.4);
        A5::lemma_meet_semilattice(a.5, b.5, c.5);
    }

    fn meet(&self, other: &Self) -> (r: Self) {
        (self.0.meet(&other.0), self.1.meet(&other.1), self.2.meet(&other.2), self.3.meet(&other.3), self.4.meet(&other.4), self.5.meet(&other.5))
    }
}

impl<A0: JoinSemilattice, A1: JoinSemilattice, A2: JoinSemilattice, A3: JoinSemilattice, A4: JoinSemilattice, A5: JoinSemilattice> JoinSemilattice for (A0, A1, A2, A3, A4, A5) {
    open spec fn join_follows_order() -> bool {
        false
    }

    proof fn lemma_join_follows_order(a: Self, b: Self) {
    }

    open spec fn spec_join(a: (A0::Model, A1::Model, A2::Model, A3::Model, A4::Model, A5::Model), b: (A0::Model, A1::Model, A2::Model, A3::Model, A4::Model, A5::Model)) -> (A0::Model, A1::Model, A2::Model, A3::Model, A4::Model, A5::Model) {
        (A0::spec_join(a.0, b.0), A1::spec_join(a.1, b.1), A2::spec_join(a.2, b.2), A3::spec_join(a.3, b.3), A4::spec_join(a.4, b.4), A5::spec_join(a.5, b.5))
    }

    proof fn lemma_join_semilattice(a: (A0::Model, A1::Model, A2::Model, A3::Model, A4::Model, A5::Model), b: (A0::Model, A1::Model, A2::Model, A3::Model, A4::Model, A5::Model), c: (A0::Model, A1::Model, A2::Model, A3::Model, A4::Model, A5::Model)) {
        A0::lemma_join_semilattice(a.0, b.0, c.0);
        A1::lemma_join_semilattice(a.1, b.1, c.1);
        A2::lemma_join_semilattice(a.2, b.2, c.2);
        A3::lemma_join_semilattice(a.3, b.3, c.3);
        A4::lemma_join_semilattice(a.4, b.4, c.4);
        A5::lemma_join_semilattice(a.5, b.5, c.5);
    }

    fn join(&self, other: &Self) -> (r: Self) {
        (self.0.join(&other.0), self.1.join(&other.1), self.2.join(&other.2), self.3.join(&other.3), self.4.join(&other.4), self.5.join(&other.5))
    }
}

impl<A0: Lattice, A1: Lattice, A2: Lattice, A3: Lattice, A4: Lattice, A5: Lattice> Lattice for (A0, A1, A2, A3, A4, A5) {
    proof fn lemma_absorption(a: (A0::Model, A1::Model, A2::Model, A3::Model, A4::Model, A5::Model), b: (A0::Model, A1::Model, A2::Model, A3::Model, A4::Model, A5::Model)) {
        A0::lemma_absorption(a.0, b.0);
        A1::lemma_absorption(a.1, b.1);
        A2::lemma_absorption(a.2, b.2);
        A3::lemma_absorption(a.3, b.3);
        A4::lemma_absorption(a.4, b.4);
        A5::lemma_absorption(a.5, b.5);
    }
}

// ---- arity 7 ----

impl<A0: Carrier, A1: Carrier, A2: Carrier, A3: Carrier, A4: Carrier, A5: Carrier, A6: Carrier> Carrier for (A0, A1, A2, A3, A4, A5, A6) {
    type Model = (A0::Model, A1::Model, A2::Model, A3::Model, A4::Model, A5::Model, A6::Model);

    open spec fn model(self) -> (A0::Model, A1::Model, A2::Model, A3::Model, A4::Model, A5::Model, A6::Model) {
        (self.0.model(), self.1.model(), self.2.model(), self.3.model(), self.4.model(), self.5.model(), self.6.model())
    }

    open spec fn contains(m: (A0::Model, A1::Model, A2::Model, A3::Model, A4::Model, A5::Model, A6::Model)) -> bool {
        A0::contains(m.0)
            && A1::contains(m.1)
            && A2::contains(m.2)
            && A3::contains(m.3)
            && A4::contains(m.4)
            && A5::contains(m.5)
            && A6::contains(m.6)
    }

    proof fn lemma_model_contained(x: &Self) {
        A0::lemma_model_contained(&x.0);
        A1::lemma_model_contained(&x.1);
        A2::lemma_model_contained(&x.2);
        A3::lemma_model_contained(&x.3);
        A4::lemma_model_contained(&x.4);
        A5::lemma_model_contained(&x.5);
        A6::lemma_model_contained(&x.6);
    }
}

impl<Op: Operator, A0: Magma<Op>, A1: Magma<Op>, A2: Magma<Op>, A3: Magma<Op>, A4: Magma<Op>, A5: Magma<Op>, A6: Magma<Op>> Magma<Op> for (A0, A1, A2, A3, A4, A5, A6) {
    open spec fn spec_combine(a: (A0::Model, A1::Model, A2::Model, A3::Model, A4::Model, A5::Model, A6::Model), b: (A0::Model, A1::Model, A2::Model, A3::Model, A4::Model, A5::Model, A6::Model)) -> (A0::Model, A1::Model, A2::Model, A3::Model, A4::Model, A5::Model, A6::Model) {
        (A0::spec_combine(a.0, b.0), A1::spec_combine(a.1, b.1), A2::spec_combine(a.2, b.2), A3::spec_combine(a.3, b.3), A4::spec_combine(a.4, b.4), A5::spec_combine(a.5, b.5), A6::spec_combine(a.6, b.6))
    }

    proof fn lemma_closed(a: (A0::Model, A1::Model, A2::Model, A3::Model, A4::Model, A5::Model, A6::Model), b: (A0::Model, A1::Model, A2::Model, A3::Model, A4::Model, A5::Model, A6::Model)) {
        A0::lemma_closed(a.0, b.0);
        A1::lemma_closed(a.1, b.1);
        A2::lemma_closed(a.2, b.2);
        A3::lemma_closed(a.3, b.3);
        A4::lemma_closed(a.4, b.4);
        A5::lemma_closed(a.5, b.5);
        A6::lemma_closed(a.6, b.6);
    }

    fn combine(&self, rhs: &Self) -> (r: Self) {
        (self.0.combine(&rhs.0), self.1.combine(&rhs.1), self.2.combine(&rhs.2), self.3.combine(&rhs.3), self.4.combine(&rhs.4), self.5.combine(&rhs.5), self.6.combine(&rhs.6))
    }
}

impl<Op: Operator, A0: Semigroup<Op>, A1: Semigroup<Op>, A2: Semigroup<Op>, A3: Semigroup<Op>, A4: Semigroup<Op>, A5: Semigroup<Op>, A6: Semigroup<Op>> Semigroup<Op> for (A0, A1, A2, A3, A4, A5, A6) {
    proof fn lemma_associative(a: (A0::Model, A1::Model, A2::Model, A3::Model, A4::Model, A5::Model, A6::Model), b: (A0::Model, A1::Model, A2::Model, A3::Model, A4::Model, A5::Model, A6::Model), c: (A0::Model, A1::Model, A2::Model, A3::Model, A4::Model, A5::Model, A6::Model)) {
        A0::lemma_associative(a.0, b.0, c.0);
        A1::lemma_associative(a.1, b.1, c.1);
        A2::lemma_associative(a.2, b.2, c.2);
        A3::lemma_associative(a.3, b.3, c.3);
        A4::lemma_associative(a.4, b.4, c.4);
        A5::lemma_associative(a.5, b.5, c.5);
        A6::lemma_associative(a.6, b.6, c.6);
    }
}

impl<Op: Operator, A0: Monoid<Op>, A1: Monoid<Op>, A2: Monoid<Op>, A3: Monoid<Op>, A4: Monoid<Op>, A5: Monoid<Op>, A6: Monoid<Op>> Monoid<Op> for (A0, A1, A2, A3, A4, A5, A6) {
    open spec fn spec_identity() -> (A0::Model, A1::Model, A2::Model, A3::Model, A4::Model, A5::Model, A6::Model) {
        (A0::spec_identity(), A1::spec_identity(), A2::spec_identity(), A3::spec_identity(), A4::spec_identity(), A5::spec_identity(), A6::spec_identity())
    }

    proof fn lemma_identity(a: (A0::Model, A1::Model, A2::Model, A3::Model, A4::Model, A5::Model, A6::Model)) {
        A0::lemma_identity(a.0);
        A1::lemma_identity(a.1);
        A2::lemma_identity(a.2);
        A3::lemma_identity(a.3);
        A4::lemma_identity(a.4);
        A5::lemma_identity(a.5);
        A6::lemma_identity(a.6);
    }

    fn identity() -> (r: Self) {
        (A0::identity(), A1::identity(), A2::identity(), A3::identity(), A4::identity(), A5::identity(), A6::identity())
    }
}

impl<A0: Quasigroup<Additive>, A1: Quasigroup<Additive>, A2: Quasigroup<Additive>, A3: Quasigroup<Additive>, A4: Quasigroup<Additive>, A5: Quasigroup<Additive>, A6: Quasigroup<Additive>> Quasigroup<Additive> for (A0, A1, A2, A3, A4, A5, A6) {
    proof fn lemma_latin_square(a: (A0::Model, A1::Model, A2::Model, A3::Model, A4::Model, A5::Model, A6::Model), b: (A0::Model, A1::Model, A2::Model, A3::Model, A4::Model, A5::Model, A6::Model)) {
        A0::lemma_latin_square(a.0, b.0);
        A1::lemma_latin_square(a.1, b.1);
        A2::lemma_latin_square(a.2, b.2);
        A3::lemma_latin_square(a.3, b.3);
        A4::lemma_latin_square(a.4, b.4);
        A5::lemma_latin_square(a.5, b.5);
        A6::lemma_latin_square(a.6, b.6);
        let x = (left_quotient::<Additive, A0>(a.0, b.0), left_quotient::<Additive, A1>(a.1, b.1), left_quotient::<Additive, A2>(a.2, b.2), left_quotient::<Additive, A3>(a.3, b.3), left_quotient::<Additive, A4>(a.4, b.4), left_quotient::<Additive, A5>(a.5, b.5), left_quotient::<Additive, A6>(a.6, b.6));
        let y = (right_quotient::<Additive, A0>(a.0, b.0), right_quotient::<Additive, A1>(a.1, b.1), right_quotient::<Additive, A2>(a.2, b.2), right_quotient::<Additive, A3>(a.3, b.3), right_quotient::<Additive, A4>(a.4, b.4), right_quotient::<Additive, A5>(a.5, b.5), right_quotient::<Additive, A6>(a.6, b.6));
        assert(Self::contains(x) && Self::spec_combine(a, x) == b);
        assert(Self::contains(y) && Self::spec_combine(y, a) == b);
        assert forall|x1: (A0::Model, A1::Model, A2::Model, A3::Model, A4::Model, A5::Model, A6::Model), x2: (A0::Model, A1::Model, A2::Model, A3::Model, A4::Model, A5::Model, A6::Model)|
            Self::contains(x1) && Self::contains(x2) && #[trigger] Self::spec_combine(a, x1)
                == #[trigger] Self::spec_combine(a, x2) implies x1 == x2 by {
            assert(A0::spec_combine(a.0, x1.0) == A0::spec_combine(a.0, x2.0));
            assert(A1::spec_combine(a.1, x1.1) == A1::spec_combine(a.1, x2.1));
            assert(A2::spec_combine(a.2, x1.2) == A2::spec_combine(a.2, x2.2));
            assert(A3::spec_combine(a.3, x1.3) == A3::spec_combine(a.3, x2.3));
            assert(A4::spec_combine(a.4, x1.4) == A4::spec_combine(a.4, x2.4));
            assert(A5::spec_combine(a.5, x1.5) == A5::spec_combine(a.5, x2.5));
            assert(A6::spec_combine(a.6, x1.6) == A6::spec_combine(a.6, x2.6));
        }
        assert forall|y1: (A0::Model, A1::Model, A2::Model, A3::Model, A4::Model, A5::Model, A6::Model), y2: (A0::Model, A1::Model, A2::Model, A3::Model, A4::Model, A5::Model, A6::Model)|
            Self::contains(y1) && Self::contains(y2) && #[trigger] Self::spec_combine(y1, a)
                == #[trigger] Self::spec_combine(y2, a) implies y1 == y2 by {
            assert(A0::spec_combine(y1.0, a.0) == A0::spec_combine(y2.0, a.0));
            assert(A1::spec_combine(y1.1, a.1) == A1::spec_combine(y2.1, a.1));
            assert(A2::spec_combine(y1.2, a.2) == A2::spec_combine(y2.2, a.2));
            assert(A3::spec_combine(y1.3, a.3) == A3::spec_combine(y2.3, a.3));
            assert(A4::spec_combine(y1.4, a.4) == A4::spec_combine(y2.4, a.4));
            assert(A5::spec_combine(y1.5, a.5) == A5::spec_combine(y2.5, a.5));
            assert(A6::spec_combine(y1.6, a.6) == A6::spec_combine(y2.6, a.6));
        }
    }
}

impl<A0: Loop<Additive>, A1: Loop<Additive>, A2: Loop<Additive>, A3: Loop<Additive>, A4: Loop<Additive>, A5: Loop<Additive>, A6: Loop<Additive>> Loop<Additive> for (A0, A1, A2, A3, A4, A5, A6) {

}

impl<A0: Group<Additive>, A1: Group<Additive>, A2: Group<Additive>, A3: Group<Additive>, A4: Group<Additive>, A5: Group<Additive>, A6: Group<Additive>> Group<Additive> for (A0, A1, A2, A3, A4, A5, A6) {
    open spec fn spec_inverse(a: (A0::Model, A1::Model, A2::Model, A3::Model, A4::Model, A5::Model, A6::Model)) -> (A0::Model, A1::Model, A2::Model, A3::Model, A4::Model, A5::Model, A6::Model) {
        (A0::spec_inverse(a.0), A1::spec_inverse(a.1), A2::spec_inverse(a.2), A3::spec_inverse(a.3), A4::spec_inverse(a.4), A5::spec_inverse(a.5), A6::spec_inverse(a.6))
    }

    proof fn lemma_inverse(a: (A0::Model, A1::Model, A2::Model, A3::Model, A4::Model, A5::Model, A6::Model)) {
        A0::lemma_inverse(a.0);
        A1::lemma_inverse(a.1);
        A2::lemma_inverse(a.2);
        A3::lemma_inverse(a.3);
        A4::lemma_inverse(a.4);
        A5::lemma_inverse(a.5);
        A6::lemma_inverse(a.6);
    }

    fn inverse(&self) -> (r: Self) {
        (self.0.inverse(), self.1.inverse(), self.2.inverse(), self.3.inverse(), self.4.inverse(), self.5.inverse(), self.6.inverse())
    }
}

impl<A0: AbelianGroup<Additive>, A1: AbelianGroup<Additive>, A2: AbelianGroup<Additive>, A3: AbelianGroup<Additive>, A4: AbelianGroup<Additive>, A5: AbelianGroup<Additive>, A6: AbelianGroup<Additive>> AbelianGroup<Additive> for (A0, A1, A2, A3, A4, A5, A6) {
    proof fn lemma_commutative(a: (A0::Model, A1::Model, A2::Model, A3::Model, A4::Model, A5::Model, A6::Model), b: (A0::Model, A1::Model, A2::Model, A3::Model, A4::Model, A5::Model, A6::Model)) {
        A0::lemma_commutative(a.0, b.0);
        A1::lemma_commutative(a.1, b.1);
        A2::lemma_commutative(a.2, b.2);
        A3::lemma_commutative(a.3, b.3);
        A4::lemma_commutative(a.4, b.4);
        A5::lemma_commutative(a.5, b.5);
        A6::lemma_commutative(a.6, b.6);
    }
}

impl<A0: Semiring<Additive, Multiplicative>, A1: Semiring<Additive, Multiplicative>, A2: Semiring<Additive, Multiplicative>, A3: Semiring<Additive, Multiplicative>, A4: Semiring<Additive, Multiplicative>, A5: Semiring<Additive, Multiplicative>, A6: Semiring<Additive, Multiplicative>> Semiring<Additive, Multiplicative> for (A0, A1, A2, A3, A4, A5, A6) {
    proof fn lemma_distributive(a: (A0::Model, A1::Model, A2::Model, A3::Model, A4::Model, A5::Model, A6::Model), b: (A0::Model, A1::Model, A2::Model, A3::Model, A4::Model, A5::Model, A6::Model), c: (A0::Model, A1::Model, A2::Model, A3::Model, A4::Model, A5::Model, A6::Model)) {
        A0::lemma_distributive(a.0, b.0, c.0);
        A1::lemma_distributive(a.1, b.1, c.1);
        A2::lemma_distributive(a.2, b.2, c.2);
        A3::lemma_distributive(a.3, b.3, c.3);
        A4::lemma_distributive(a.4, b.4, c.4);
        A5::lemma_distributive(a.5, b.5, c.5);
        A6::lemma_distributive(a.6, b.6, c.6);
    }
}

impl<A0: Ring<Additive, Multiplicative>, A1: Ring<Additive, Multiplicative>, A2: Ring<Additive, Multiplicative>, A3: Ring<Additive, Multiplicative>, A4: Ring<Additive, Multiplicative>, A5: Ring<Additive, Multiplicative>, A6: Ring<Additive, Multiplicative>> Ring<Additive, Multiplicative> for (A0, A1, A2, A3, A4, A5, A6) {

}

impl<A0: CommutativeRing<Additive, Multiplicative>, A1: CommutativeRing<Additive, Multiplicative>, A2: CommutativeRing<Additive, Multiplicative>, A3: CommutativeRing<Additive, Multiplicative>, A4: CommutativeRing<Additive, Multiplicative>, A5: CommutativeRing<Additive, Multiplicative>, A6: CommutativeRing<Additive, Multiplicative>> CommutativeRing<Additive, Multiplicative> for (A0, A1, A2, A3, A4, A5, A6) {
    proof fn lemma_multiplication_commutes(a: (A0::Model, A1::Model, A2::Model, A3::Model, A4::Model, A5::Model, A6::Model), b: (A0::Model, A1::Model, A2::Model, A3::Model, A4::Model, A5::Model, A6::Model)) {
        A0::lemma_multiplication_commutes(a.0, b.0);
        A1::lemma_multiplication_commutes(a.1, b.1);
        A2::lemma_multiplication_commutes(a.2, b.2);
        A3::lemma_multiplication_commutes(a.3, b.3);
        A4::lemma_multiplication_commutes(a.4, b.4);
        A5::lemma_multiplication_commutes(a.5, b.5);
        A6::lemma_multiplication_commutes(a.6, b.6);
    }
}

impl<A0: Module<Additive, Multiplicative>, A1: Module<Additive, Multiplicative, Scalar = A0::Scalar>, A2: Module<Additive, Multiplicative, Scalar = A0::Scalar>, A3: Module<Additive, Multiplicative, Scalar = A0::Scalar>, A4: Module<Additive, Multiplicative, Scalar = A0::Scalar>, A5: Module<Additive, Multiplicative, Scalar = A0::Scalar>, A6: Module<Additive, Multiplicative, Scalar = A0::Scalar>> Module<Additive, Multiplicative> for (A0, A1, A2, A3, A4, A5, A6) {
    type Scalar = A0::Scalar;

    open spec fn spec_scale(s: <A0::Scalar as Carrier>::Model, v: (A0::Model, A1::Model, A2::Model, A3::Model, A4::Model, A5::Model, A6::Model)) -> (A0::Model, A1::Model, A2::Model, A3::Model, A4::Model, A5::Model, A6::Model) {
        (A0::spec_scale(s, v.0), A1::spec_scale(s, v.1), A2::spec_scale(s, v.2), A3::spec_scale(s, v.3), A4::spec_scale(s, v.4), A5::spec_scale(s, v.5), A6::spec_scale(s, v.6))
    }

    proof fn lemma_module(
        s: <A0::Scalar as Carrier>::Model,
        t: <A0::Scalar as Carrier>::Model,
        u: (A0::Model, A1::Model, A2::Model, A3::Model, A4::Model, A5::Model, A6::Model),
        v: (A0::Model, A1::Model, A2::Model, A3::Model, A4::Model, A5::Model, A6::Model),
    ) {
        A0::lemma_module(s, t, u.0, v.0);
        A1::lemma_module(s, t, u.1, v.1);
        A2::lemma_module(s, t, u.2, v.2);
        A3::lemma_module(s, t, u.3, v.3);
        A4::lemma_module(s, t, u.4, v.4);
        A5::lemma_module(s, t, u.5, v.5);
        A6::lemma_module(s, t, u.6, v.6);
    }

    fn scale(s: &A0::Scalar, v: Self) -> (r: Self) {
        (A0::scale(s, v.0), A1::scale(s, v.1), A2::scale(s, v.2), A3::scale(s, v.3), A4::scale(s, v.4), A5::scale(s, v.5), A6::scale(s, v.6))
    }
}

impl<A0: VectorSpace<Additive, Multiplicative>, A1: VectorSpace<Additive, Multiplicative, Scalar = A0::Scalar>, A2: VectorSpace<Additive, Multiplicative, Scalar = A0::Scalar>, A3: VectorSpace<Additive, Multiplicative, Scalar = A0::Scalar>, A4: VectorSpace<Additive, Multiplicative, Scalar = A0::Scalar>, A5: VectorSpace<Additive, Multiplicative, Scalar = A0::Scalar>, A6: VectorSpace<Additive, Multiplicative, Scalar = A0::Scalar>> VectorSpace<Additive, Multiplicative> for (A0, A1, A2, A3, A4, A5, A6) where
    A0::Scalar: Field<Additive, Multiplicative>,
 {

}

impl<A0: MeetSemilattice, A1: MeetSemilattice, A2: MeetSemilattice, A3: MeetSemilattice, A4: MeetSemilattice, A5: MeetSemilattice, A6: MeetSemilattice> MeetSemilattice for (A0, A1, A2, A3, A4, A5, A6) {
    open spec fn meet_follows_order() -> bool {
        false
    }

    proof fn lemma_meet_follows_order(a: Self, b: Self) {
    }

    open spec fn spec_meet(a: (A0::Model, A1::Model, A2::Model, A3::Model, A4::Model, A5::Model, A6::Model), b: (A0::Model, A1::Model, A2::Model, A3::Model, A4::Model, A5::Model, A6::Model)) -> (A0::Model, A1::Model, A2::Model, A3::Model, A4::Model, A5::Model, A6::Model) {
        (A0::spec_meet(a.0, b.0), A1::spec_meet(a.1, b.1), A2::spec_meet(a.2, b.2), A3::spec_meet(a.3, b.3), A4::spec_meet(a.4, b.4), A5::spec_meet(a.5, b.5), A6::spec_meet(a.6, b.6))
    }

    proof fn lemma_meet_semilattice(a: (A0::Model, A1::Model, A2::Model, A3::Model, A4::Model, A5::Model, A6::Model), b: (A0::Model, A1::Model, A2::Model, A3::Model, A4::Model, A5::Model, A6::Model), c: (A0::Model, A1::Model, A2::Model, A3::Model, A4::Model, A5::Model, A6::Model)) {
        A0::lemma_meet_semilattice(a.0, b.0, c.0);
        A1::lemma_meet_semilattice(a.1, b.1, c.1);
        A2::lemma_meet_semilattice(a.2, b.2, c.2);
        A3::lemma_meet_semilattice(a.3, b.3, c.3);
        A4::lemma_meet_semilattice(a.4, b.4, c.4);
        A5::lemma_meet_semilattice(a.5, b.5, c.5);
        A6::lemma_meet_semilattice(a.6, b.6, c.6);
    }

    fn meet(&self, other: &Self) -> (r: Self) {
        (self.0.meet(&other.0), self.1.meet(&other.1), self.2.meet(&other.2), self.3.meet(&other.3), self.4.meet(&other.4), self.5.meet(&other.5), self.6.meet(&other.6))
    }
}

impl<A0: JoinSemilattice, A1: JoinSemilattice, A2: JoinSemilattice, A3: JoinSemilattice, A4: JoinSemilattice, A5: JoinSemilattice, A6: JoinSemilattice> JoinSemilattice for (A0, A1, A2, A3, A4, A5, A6) {
    open spec fn join_follows_order() -> bool {
        false
    }

    proof fn lemma_join_follows_order(a: Self, b: Self) {
    }

    open spec fn spec_join(a: (A0::Model, A1::Model, A2::Model, A3::Model, A4::Model, A5::Model, A6::Model), b: (A0::Model, A1::Model, A2::Model, A3::Model, A4::Model, A5::Model, A6::Model)) -> (A0::Model, A1::Model, A2::Model, A3::Model, A4::Model, A5::Model, A6::Model) {
        (A0::spec_join(a.0, b.0), A1::spec_join(a.1, b.1), A2::spec_join(a.2, b.2), A3::spec_join(a.3, b.3), A4::spec_join(a.4, b.4), A5::spec_join(a.5, b.5), A6::spec_join(a.6, b.6))
    }

    proof fn lemma_join_semilattice(a: (A0::Model, A1::Model, A2::Model, A3::Model, A4::Model, A5::Model, A6::Model), b: (A0::Model, A1::Model, A2::Model, A3::Model, A4::Model, A5::Model, A6::Model), c: (A0::Model, A1::Model, A2::Model, A3::Model, A4::Model, A5::Model, A6::Model)) {
        A0::lemma_join_semilattice(a.0, b.0, c.0);
        A1::lemma_join_semilattice(a.1, b.1, c.1);
        A2::lemma_join_semilattice(a.2, b.2, c.2);
        A3::lemma_join_semilattice(a.3, b.3, c.3);
        A4::lemma_join_semilattice(a.4, b.4, c.4);
        A5::lemma_join_semilattice(a.5, b.5, c.5);
        A6::lemma_join_semilattice(a.6, b.6, c.6);
    }

    fn join(&self, other: &Self) -> (r: Self) {
        (self.0.join(&other.0), self.1.join(&other.1), self.2.join(&other.2), self.3.join(&other.3), self.4.join(&other.4), self.5.join(&other.5), self.6.join(&other.6))
    }
}

impl<A0: Lattice, A1: Lattice, A2: Lattice, A3: Lattice, A4: Lattice, A5: Lattice, A6: Lattice> Lattice for (A0, A1, A2, A3, A4, A5, A6) {
    proof fn lemma_absorption(a: (A0::Model, A1::Model, A2::Model, A3::Model, A4::Model, A5::Model, A6::Model), b: (A0::Model, A1::Model, A2::Model, A3::Model, A4::Model, A5::Model, A6::Model)) {
        A0::lemma_absorption(a.0, b.0);
        A1::lemma_absorption(a.1, b.1);
        A2::lemma_absorption(a.2, b.2);
        A3::lemma_absorption(a.3, b.3);
        A4::lemma_absorption(a.4, b.4);
        A5::lemma_absorption(a.5, b.5);
        A6::lemma_absorption(a.6, b.6);
    }
}

// ---- arity 8 ----

impl<A0: Carrier, A1: Carrier, A2: Carrier, A3: Carrier, A4: Carrier, A5: Carrier, A6: Carrier, A7: Carrier> Carrier for (A0, A1, A2, A3, A4, A5, A6, A7) {
    type Model = (A0::Model, A1::Model, A2::Model, A3::Model, A4::Model, A5::Model, A6::Model, A7::Model);

    open spec fn model(self) -> (A0::Model, A1::Model, A2::Model, A3::Model, A4::Model, A5::Model, A6::Model, A7::Model) {
        (self.0.model(), self.1.model(), self.2.model(), self.3.model(), self.4.model(), self.5.model(), self.6.model(), self.7.model())
    }

    open spec fn contains(m: (A0::Model, A1::Model, A2::Model, A3::Model, A4::Model, A5::Model, A6::Model, A7::Model)) -> bool {
        A0::contains(m.0)
            && A1::contains(m.1)
            && A2::contains(m.2)
            && A3::contains(m.3)
            && A4::contains(m.4)
            && A5::contains(m.5)
            && A6::contains(m.6)
            && A7::contains(m.7)
    }

    proof fn lemma_model_contained(x: &Self) {
        A0::lemma_model_contained(&x.0);
        A1::lemma_model_contained(&x.1);
        A2::lemma_model_contained(&x.2);
        A3::lemma_model_contained(&x.3);
        A4::lemma_model_contained(&x.4);
        A5::lemma_model_contained(&x.5);
        A6::lemma_model_contained(&x.6);
        A7::lemma_model_contained(&x.7);
    }
}

impl<Op: Operator, A0: Magma<Op>, A1: Magma<Op>, A2: Magma<Op>, A3: Magma<Op>, A4: Magma<Op>, A5: Magma<Op>, A6: Magma<Op>, A7: Magma<Op>> Magma<Op> for (A0, A1, A2, A3, A4, A5, A6, A7) {
    open spec fn spec_combine(a: (A0::Model, A1::Model, A2::Model, A3::Model, A4::Model, A5::Model, A6::Model, A7::Model), b: (A0::Model, A1::Model, A2::Model, A3::Model, A4::Model, A5::Model, A6::Model, A7::Model)) -> (A0::Model, A1::Model, A2::Model, A3::Model, A4::Model, A5::Model, A6::Model, A7::Model) {
        (A0::spec_combine(a.0, b.0), A1::spec_combine(a.1, b.1), A2::spec_combine(a.2, b.2), A3::spec_combine(a.3, b.3), A4::spec_combine(a.4, b.4), A5::spec_combine(a.5, b.5), A6::spec_combine(a.6, b.6), A7::spec_combine(a.7, b.7))
    }

    proof fn lemma_closed(a: (A0::Model, A1::Model, A2::Model, A3::Model, A4::Model, A5::Model, A6::Model, A7::Model), b: (A0::Model, A1::Model, A2::Model, A3::Model, A4::Model, A5::Model, A6::Model, A7::Model)) {
        A0::lemma_closed(a.0, b.0);
        A1::lemma_closed(a.1, b.1);
        A2::lemma_closed(a.2, b.2);
        A3::lemma_closed(a.3, b.3);
        A4::lemma_closed(a.4, b.4);
        A5::lemma_closed(a.5, b.5);
        A6::lemma_closed(a.6, b.6);
        A7::lemma_closed(a.7, b.7);
    }

    fn combine(&self, rhs: &Self) -> (r: Self) {
        (self.0.combine(&rhs.0), self.1.combine(&rhs.1), self.2.combine(&rhs.2), self.3.combine(&rhs.3), self.4.combine(&rhs.4), self.5.combine(&rhs.5), self.6.combine(&rhs.6), self.7.combine(&rhs.7))
    }
}

impl<Op: Operator, A0: Semigroup<Op>, A1: Semigroup<Op>, A2: Semigroup<Op>, A3: Semigroup<Op>, A4: Semigroup<Op>, A5: Semigroup<Op>, A6: Semigroup<Op>, A7: Semigroup<Op>> Semigroup<Op> for (A0, A1, A2, A3, A4, A5, A6, A7) {
    proof fn lemma_associative(a: (A0::Model, A1::Model, A2::Model, A3::Model, A4::Model, A5::Model, A6::Model, A7::Model), b: (A0::Model, A1::Model, A2::Model, A3::Model, A4::Model, A5::Model, A6::Model, A7::Model), c: (A0::Model, A1::Model, A2::Model, A3::Model, A4::Model, A5::Model, A6::Model, A7::Model)) {
        A0::lemma_associative(a.0, b.0, c.0);
        A1::lemma_associative(a.1, b.1, c.1);
        A2::lemma_associative(a.2, b.2, c.2);
        A3::lemma_associative(a.3, b.3, c.3);
        A4::lemma_associative(a.4, b.4, c.4);
        A5::lemma_associative(a.5, b.5, c.5);
        A6::lemma_associative(a.6, b.6, c.6);
        A7::lemma_associative(a.7, b.7, c.7);
    }
}

impl<Op: Operator, A0: Monoid<Op>, A1: Monoid<Op>, A2: Monoid<Op>, A3: Monoid<Op>, A4: Monoid<Op>, A5: Monoid<Op>, A6: Monoid<Op>, A7: Monoid<Op>> Monoid<Op> for (A0, A1, A2, A3, A4, A5, A6, A7) {
    open spec fn spec_identity() -> (A0::Model, A1::Model, A2::Model, A3::Model, A4::Model, A5::Model, A6::Model, A7::Model) {
        (A0::spec_identity(), A1::spec_identity(), A2::spec_identity(), A3::spec_identity(), A4::spec_identity(), A5::spec_identity(), A6::spec_identity(), A7::spec_identity())
    }

    proof fn lemma_identity(a: (A0::Model, A1::Model, A2::Model, A3::Model, A4::Model, A5::Model, A6::Model, A7::Model)) {
        A0::lemma_identity(a.0);
        A1::lemma_identity(a.1);
        A2::lemma_identity(a.2);
        A3::lemma_identity(a.3);
        A4::lemma_identity(a.4);
        A5::lemma_identity(a.5);
        A6::lemma_identity(a.6);
        A7::lemma_identity(a.7);
    }

    fn identity() -> (r: Self) {
        (A0::identity(), A1::identity(), A2::identity(), A3::identity(), A4::identity(), A5::identity(), A6::identity(), A7::identity())
    }
}

impl<A0: Quasigroup<Additive>, A1: Quasigroup<Additive>, A2: Quasigroup<Additive>, A3: Quasigroup<Additive>, A4: Quasigroup<Additive>, A5: Quasigroup<Additive>, A6: Quasigroup<Additive>, A7: Quasigroup<Additive>> Quasigroup<Additive> for (A0, A1, A2, A3, A4, A5, A6, A7) {
    proof fn lemma_latin_square(a: (A0::Model, A1::Model, A2::Model, A3::Model, A4::Model, A5::Model, A6::Model, A7::Model), b: (A0::Model, A1::Model, A2::Model, A3::Model, A4::Model, A5::Model, A6::Model, A7::Model)) {
        A0::lemma_latin_square(a.0, b.0);
        A1::lemma_latin_square(a.1, b.1);
        A2::lemma_latin_square(a.2, b.2);
        A3::lemma_latin_square(a.3, b.3);
        A4::lemma_latin_square(a.4, b.4);
        A5::lemma_latin_square(a.5, b.5);
        A6::lemma_latin_square(a.6, b.6);
        A7::lemma_latin_square(a.7, b.7);
        let x = (left_quotient::<Additive, A0>(a.0, b.0), left_quotient::<Additive, A1>(a.1, b.1), left_quotient::<Additive, A2>(a.2, b.2), left_quotient::<Additive, A3>(a.3, b.3), left_quotient::<Additive, A4>(a.4, b.4), left_quotient::<Additive, A5>(a.5, b.5), left_quotient::<Additive, A6>(a.6, b.6), left_quotient::<Additive, A7>(a.7, b.7));
        let y = (right_quotient::<Additive, A0>(a.0, b.0), right_quotient::<Additive, A1>(a.1, b.1), right_quotient::<Additive, A2>(a.2, b.2), right_quotient::<Additive, A3>(a.3, b.3), right_quotient::<Additive, A4>(a.4, b.4), right_quotient::<Additive, A5>(a.5, b.5), right_quotient::<Additive, A6>(a.6, b.6), right_quotient::<Additive, A7>(a.7, b.7));
        assert(Self::contains(x) && Self::spec_combine(a, x) == b);
        assert(Self::contains(y) && Self::spec_combine(y, a) == b);
        assert forall|x1: (A0::Model, A1::Model, A2::Model, A3::Model, A4::Model, A5::Model, A6::Model, A7::Model), x2: (A0::Model, A1::Model, A2::Model, A3::Model, A4::Model, A5::Model, A6::Model, A7::Model)|
            Self::contains(x1) && Self::contains(x2) && #[trigger] Self::spec_combine(a, x1)
                == #[trigger] Self::spec_combine(a, x2) implies x1 == x2 by {
            assert(A0::spec_combine(a.0, x1.0) == A0::spec_combine(a.0, x2.0));
            assert(A1::spec_combine(a.1, x1.1) == A1::spec_combine(a.1, x2.1));
            assert(A2::spec_combine(a.2, x1.2) == A2::spec_combine(a.2, x2.2));
            assert(A3::spec_combine(a.3, x1.3) == A3::spec_combine(a.3, x2.3));
            assert(A4::spec_combine(a.4, x1.4) == A4::spec_combine(a.4, x2.4));
            assert(A5::spec_combine(a.5, x1.5) == A5::spec_combine(a.5, x2.5));
            assert(A6::spec_combine(a.6, x1.6) == A6::spec_combine(a.6, x2.6));
            assert(A7::spec_combine(a.7, x1.7) == A7::spec_combine(a.7, x2.7));
        }
        assert forall|y1: (A0::Model, A1::Model, A2::Model, A3::Model, A4::Model, A5::Model, A6::Model, A7::Model), y2: (A0::Model, A1::Model, A2::Model, A3::Model, A4::Model, A5::Model, A6::Model, A7::Model)|
            Self::contains(y1) && Self::contains(y2) && #[trigger] Self::spec_combine(y1, a)
                == #[trigger] Self::spec_combine(y2, a) implies y1 == y2 by {
            assert(A0::spec_combine(y1.0, a.0) == A0::spec_combine(y2.0, a.0));
            assert(A1::spec_combine(y1.1, a.1) == A1::spec_combine(y2.1, a.1));
            assert(A2::spec_combine(y1.2, a.2) == A2::spec_combine(y2.2, a.2));
            assert(A3::spec_combine(y1.3, a.3) == A3::spec_combine(y2.3, a.3));
            assert(A4::spec_combine(y1.4, a.4) == A4::spec_combine(y2.4, a.4));
            assert(A5::spec_combine(y1.5, a.5) == A5::spec_combine(y2.5, a.5));
            assert(A6::spec_combine(y1.6, a.6) == A6::spec_combine(y2.6, a.6));
            assert(A7::spec_combine(y1.7, a.7) == A7::spec_combine(y2.7, a.7));
        }
    }
}

impl<A0: Loop<Additive>, A1: Loop<Additive>, A2: Loop<Additive>, A3: Loop<Additive>, A4: Loop<Additive>, A5: Loop<Additive>, A6: Loop<Additive>, A7: Loop<Additive>> Loop<Additive> for (A0, A1, A2, A3, A4, A5, A6, A7) {

}

impl<A0: Group<Additive>, A1: Group<Additive>, A2: Group<Additive>, A3: Group<Additive>, A4: Group<Additive>, A5: Group<Additive>, A6: Group<Additive>, A7: Group<Additive>> Group<Additive> for (A0, A1, A2, A3, A4, A5, A6, A7) {
    open spec fn spec_inverse(a: (A0::Model, A1::Model, A2::Model, A3::Model, A4::Model, A5::Model, A6::Model, A7::Model)) -> (A0::Model, A1::Model, A2::Model, A3::Model, A4::Model, A5::Model, A6::Model, A7::Model) {
        (A0::spec_inverse(a.0), A1::spec_inverse(a.1), A2::spec_inverse(a.2), A3::spec_inverse(a.3), A4::spec_inverse(a.4), A5::spec_inverse(a.5), A6::spec_inverse(a.6), A7::spec_inverse(a.7))
    }

    proof fn lemma_inverse(a: (A0::Model, A1::Model, A2::Model, A3::Model, A4::Model, A5::Model, A6::Model, A7::Model)) {
        A0::lemma_inverse(a.0);
        A1::lemma_inverse(a.1);
        A2::lemma_inverse(a.2);
        A3::lemma_inverse(a.3);
        A4::lemma_inverse(a.4);
        A5::lemma_inverse(a.5);
        A6::lemma_inverse(a.6);
        A7::lemma_inverse(a.7);
    }

    fn inverse(&self) -> (r: Self) {
        (self.0.inverse(), self.1.inverse(), self.2.inverse(), self.3.inverse(), self.4.inverse(), self.5.inverse(), self.6.inverse(), self.7.inverse())
    }
}

impl<A0: AbelianGroup<Additive>, A1: AbelianGroup<Additive>, A2: AbelianGroup<Additive>, A3: AbelianGroup<Additive>, A4: AbelianGroup<Additive>, A5: AbelianGroup<Additive>, A6: AbelianGroup<Additive>, A7: AbelianGroup<Additive>> AbelianGroup<Additive> for (A0, A1, A2, A3, A4, A5, A6, A7) {
    proof fn lemma_commutative(a: (A0::Model, A1::Model, A2::Model, A3::Model, A4::Model, A5::Model, A6::Model, A7::Model), b: (A0::Model, A1::Model, A2::Model, A3::Model, A4::Model, A5::Model, A6::Model, A7::Model)) {
        A0::lemma_commutative(a.0, b.0);
        A1::lemma_commutative(a.1, b.1);
        A2::lemma_commutative(a.2, b.2);
        A3::lemma_commutative(a.3, b.3);
        A4::lemma_commutative(a.4, b.4);
        A5::lemma_commutative(a.5, b.5);
        A6::lemma_commutative(a.6, b.6);
        A7::lemma_commutative(a.7, b.7);
    }
}

impl<A0: Semiring<Additive, Multiplicative>, A1: Semiring<Additive, Multiplicative>, A2: Semiring<Additive, Multiplicative>, A3: Semiring<Additive, Multiplicative>, A4: Semiring<Additive, Multiplicative>, A5: Semiring<Additive, Multiplicative>, A6: Semiring<Additive, Multiplicative>, A7: Semiring<Additive, Multiplicative>> Semiring<Additive, Multiplicative> for (A0, A1, A2, A3, A4, A5, A6, A7) {
    proof fn lemma_distributive(a: (A0::Model, A1::Model, A2::Model, A3::Model, A4::Model, A5::Model, A6::Model, A7::Model), b: (A0::Model, A1::Model, A2::Model, A3::Model, A4::Model, A5::Model, A6::Model, A7::Model), c: (A0::Model, A1::Model, A2::Model, A3::Model, A4::Model, A5::Model, A6::Model, A7::Model)) {
        A0::lemma_distributive(a.0, b.0, c.0);
        A1::lemma_distributive(a.1, b.1, c.1);
        A2::lemma_distributive(a.2, b.2, c.2);
        A3::lemma_distributive(a.3, b.3, c.3);
        A4::lemma_distributive(a.4, b.4, c.4);
        A5::lemma_distributive(a.5, b.5, c.5);
        A6::lemma_distributive(a.6, b.6, c.6);
        A7::lemma_distributive(a.7, b.7, c.7);
    }
}

impl<A0: Ring<Additive, Multiplicative>, A1: Ring<Additive, Multiplicative>, A2: Ring<Additive, Multiplicative>, A3: Ring<Additive, Multiplicative>, A4: Ring<Additive, Multiplicative>, A5: Ring<Additive, Multiplicative>, A6: Ring<Additive, Multiplicative>, A7: Ring<Additive, Multiplicative>> Ring<Additive, Multiplicative> for (A0, A1, A2, A3, A4, A5, A6, A7) {

}

impl<A0: CommutativeRing<Additive, Multiplicative>, A1: CommutativeRing<Additive, Multiplicative>, A2: CommutativeRing<Additive, Multiplicative>, A3: CommutativeRing<Additive, Multiplicative>, A4: CommutativeRing<Additive, Multiplicative>, A5: CommutativeRing<Additive, Multiplicative>, A6: CommutativeRing<Additive, Multiplicative>, A7: CommutativeRing<Additive, Multiplicative>> CommutativeRing<Additive, Multiplicative> for (A0, A1, A2, A3, A4, A5, A6, A7) {
    proof fn lemma_multiplication_commutes(a: (A0::Model, A1::Model, A2::Model, A3::Model, A4::Model, A5::Model, A6::Model, A7::Model), b: (A0::Model, A1::Model, A2::Model, A3::Model, A4::Model, A5::Model, A6::Model, A7::Model)) {
        A0::lemma_multiplication_commutes(a.0, b.0);
        A1::lemma_multiplication_commutes(a.1, b.1);
        A2::lemma_multiplication_commutes(a.2, b.2);
        A3::lemma_multiplication_commutes(a.3, b.3);
        A4::lemma_multiplication_commutes(a.4, b.4);
        A5::lemma_multiplication_commutes(a.5, b.5);
        A6::lemma_multiplication_commutes(a.6, b.6);
        A7::lemma_multiplication_commutes(a.7, b.7);
    }
}

impl<A0: Module<Additive, Multiplicative>, A1: Module<Additive, Multiplicative, Scalar = A0::Scalar>, A2: Module<Additive, Multiplicative, Scalar = A0::Scalar>, A3: Module<Additive, Multiplicative, Scalar = A0::Scalar>, A4: Module<Additive, Multiplicative, Scalar = A0::Scalar>, A5: Module<Additive, Multiplicative, Scalar = A0::Scalar>, A6: Module<Additive, Multiplicative, Scalar = A0::Scalar>, A7: Module<Additive, Multiplicative, Scalar = A0::Scalar>> Module<Additive, Multiplicative> for (A0, A1, A2, A3, A4, A5, A6, A7) {
    type Scalar = A0::Scalar;

    open spec fn spec_scale(s: <A0::Scalar as Carrier>::Model, v: (A0::Model, A1::Model, A2::Model, A3::Model, A4::Model, A5::Model, A6::Model, A7::Model)) -> (A0::Model, A1::Model, A2::Model, A3::Model, A4::Model, A5::Model, A6::Model, A7::Model) {
        (A0::spec_scale(s, v.0), A1::spec_scale(s, v.1), A2::spec_scale(s, v.2), A3::spec_scale(s, v.3), A4::spec_scale(s, v.4), A5::spec_scale(s, v.5), A6::spec_scale(s, v.6), A7::spec_scale(s, v.7))
    }

    proof fn lemma_module(
        s: <A0::Scalar as Carrier>::Model,
        t: <A0::Scalar as Carrier>::Model,
        u: (A0::Model, A1::Model, A2::Model, A3::Model, A4::Model, A5::Model, A6::Model, A7::Model),
        v: (A0::Model, A1::Model, A2::Model, A3::Model, A4::Model, A5::Model, A6::Model, A7::Model),
    ) {
        A0::lemma_module(s, t, u.0, v.0);
        A1::lemma_module(s, t, u.1, v.1);
        A2::lemma_module(s, t, u.2, v.2);
        A3::lemma_module(s, t, u.3, v.3);
        A4::lemma_module(s, t, u.4, v.4);
        A5::lemma_module(s, t, u.5, v.5);
        A6::lemma_module(s, t, u.6, v.6);
        A7::lemma_module(s, t, u.7, v.7);
    }

    fn scale(s: &A0::Scalar, v: Self) -> (r: Self) {
        (A0::scale(s, v.0), A1::scale(s, v.1), A2::scale(s, v.2), A3::scale(s, v.3), A4::scale(s, v.4), A5::scale(s, v.5), A6::scale(s, v.6), A7::scale(s, v.7))
    }
}

impl<A0: VectorSpace<Additive, Multiplicative>, A1: VectorSpace<Additive, Multiplicative, Scalar = A0::Scalar>, A2: VectorSpace<Additive, Multiplicative, Scalar = A0::Scalar>, A3: VectorSpace<Additive, Multiplicative, Scalar = A0::Scalar>, A4: VectorSpace<Additive, Multiplicative, Scalar = A0::Scalar>, A5: VectorSpace<Additive, Multiplicative, Scalar = A0::Scalar>, A6: VectorSpace<Additive, Multiplicative, Scalar = A0::Scalar>, A7: VectorSpace<Additive, Multiplicative, Scalar = A0::Scalar>> VectorSpace<Additive, Multiplicative> for (A0, A1, A2, A3, A4, A5, A6, A7) where
    A0::Scalar: Field<Additive, Multiplicative>,
 {

}

impl<A0: MeetSemilattice, A1: MeetSemilattice, A2: MeetSemilattice, A3: MeetSemilattice, A4: MeetSemilattice, A5: MeetSemilattice, A6: MeetSemilattice, A7: MeetSemilattice> MeetSemilattice for (A0, A1, A2, A3, A4, A5, A6, A7) {
    open spec fn meet_follows_order() -> bool {
        false
    }

    proof fn lemma_meet_follows_order(a: Self, b: Self) {
    }

    open spec fn spec_meet(a: (A0::Model, A1::Model, A2::Model, A3::Model, A4::Model, A5::Model, A6::Model, A7::Model), b: (A0::Model, A1::Model, A2::Model, A3::Model, A4::Model, A5::Model, A6::Model, A7::Model)) -> (A0::Model, A1::Model, A2::Model, A3::Model, A4::Model, A5::Model, A6::Model, A7::Model) {
        (A0::spec_meet(a.0, b.0), A1::spec_meet(a.1, b.1), A2::spec_meet(a.2, b.2), A3::spec_meet(a.3, b.3), A4::spec_meet(a.4, b.4), A5::spec_meet(a.5, b.5), A6::spec_meet(a.6, b.6), A7::spec_meet(a.7, b.7))
    }

    proof fn lemma_meet_semilattice(a: (A0::Model, A1::Model, A2::Model, A3::Model, A4::Model, A5::Model, A6::Model, A7::Model), b: (A0::Model, A1::Model, A2::Model, A3::Model, A4::Model, A5::Model, A6::Model, A7::Model), c: (A0::Model, A1::Model, A2::Model, A3::Model, A4::Model, A5::Model, A6::Model, A7::Model)) {
        A0::lemma_meet_semilattice(a.0, b.0, c.0);
        A1::lemma_meet_semilattice(a.1, b.1, c.1);
        A2::lemma_meet_semilattice(a.2, b.2, c.2);
        A3::lemma_meet_semilattice(a.3, b.3, c.3);
        A4::lemma_meet_semilattice(a.4, b.4, c.4);
        A5::lemma_meet_semilattice(a.5, b.5, c.5);
        A6::lemma_meet_semilattice(a.6, b.6, c.6);
        A7::lemma_meet_semilattice(a.7, b.7, c.7);
    }

    fn meet(&self, other: &Self) -> (r: Self) {
        (self.0.meet(&other.0), self.1.meet(&other.1), self.2.meet(&other.2), self.3.meet(&other.3), self.4.meet(&other.4), self.5.meet(&other.5), self.6.meet(&other.6), self.7.meet(&other.7))
    }
}

impl<A0: JoinSemilattice, A1: JoinSemilattice, A2: JoinSemilattice, A3: JoinSemilattice, A4: JoinSemilattice, A5: JoinSemilattice, A6: JoinSemilattice, A7: JoinSemilattice> JoinSemilattice for (A0, A1, A2, A3, A4, A5, A6, A7) {
    open spec fn join_follows_order() -> bool {
        false
    }

    proof fn lemma_join_follows_order(a: Self, b: Self) {
    }

    open spec fn spec_join(a: (A0::Model, A1::Model, A2::Model, A3::Model, A4::Model, A5::Model, A6::Model, A7::Model), b: (A0::Model, A1::Model, A2::Model, A3::Model, A4::Model, A5::Model, A6::Model, A7::Model)) -> (A0::Model, A1::Model, A2::Model, A3::Model, A4::Model, A5::Model, A6::Model, A7::Model) {
        (A0::spec_join(a.0, b.0), A1::spec_join(a.1, b.1), A2::spec_join(a.2, b.2), A3::spec_join(a.3, b.3), A4::spec_join(a.4, b.4), A5::spec_join(a.5, b.5), A6::spec_join(a.6, b.6), A7::spec_join(a.7, b.7))
    }

    proof fn lemma_join_semilattice(a: (A0::Model, A1::Model, A2::Model, A3::Model, A4::Model, A5::Model, A6::Model, A7::Model), b: (A0::Model, A1::Model, A2::Model, A3::Model, A4::Model, A5::Model, A6::Model, A7::Model), c: (A0::Model, A1::Model, A2::Model, A3::Model, A4::Model, A5::Model, A6::Model, A7::Model)) {
        A0::lemma_join_semilattice(a.0, b.0, c.0);
        A1::lemma_join_semilattice(a.1, b.1, c.1);
        A2::lemma_join_semilattice(a.2, b.2, c.2);
        A3::lemma_join_semilattice(a.3, b.3, c.3);
        A4::lemma_join_semilattice(a.4, b.4, c.4);
        A5::lemma_join_semilattice(a.5, b.5, c.5);
        A6::lemma_join_semilattice(a.6, b.6, c.6);
        A7::lemma_join_semilattice(a.7, b.7, c.7);
    }

    fn join(&self, other: &Self) -> (r: Self) {
        (self.0.join(&other.0), self.1.join(&other.1), self.2.join(&other.2), self.3.join(&other.3), self.4.join(&other.4), self.5.join(&other.5), self.6.join(&other.6), self.7.join(&other.7))
    }
}

impl<A0: Lattice, A1: Lattice, A2: Lattice, A3: Lattice, A4: Lattice, A5: Lattice, A6: Lattice, A7: Lattice> Lattice for (A0, A1, A2, A3, A4, A5, A6, A7) {
    proof fn lemma_absorption(a: (A0::Model, A1::Model, A2::Model, A3::Model, A4::Model, A5::Model, A6::Model, A7::Model), b: (A0::Model, A1::Model, A2::Model, A3::Model, A4::Model, A5::Model, A6::Model, A7::Model)) {
        A0::lemma_absorption(a.0, b.0);
        A1::lemma_absorption(a.1, b.1);
        A2::lemma_absorption(a.2, b.2);
        A3::lemma_absorption(a.3, b.3);
        A4::lemma_absorption(a.4, b.4);
        A5::lemma_absorption(a.5, b.5);
        A6::lemma_absorption(a.6, b.6);
        A7::lemma_absorption(a.7, b.7);
    }
}

// ---- arity 9 ----

impl<A0: Carrier, A1: Carrier, A2: Carrier, A3: Carrier, A4: Carrier, A5: Carrier, A6: Carrier, A7: Carrier, A8: Carrier> Carrier for (A0, A1, A2, A3, A4, A5, A6, A7, A8) {
    type Model = (A0::Model, A1::Model, A2::Model, A3::Model, A4::Model, A5::Model, A6::Model, A7::Model, A8::Model);

    open spec fn model(self) -> (A0::Model, A1::Model, A2::Model, A3::Model, A4::Model, A5::Model, A6::Model, A7::Model, A8::Model) {
        (self.0.model(), self.1.model(), self.2.model(), self.3.model(), self.4.model(), self.5.model(), self.6.model(), self.7.model(), self.8.model())
    }

    open spec fn contains(m: (A0::Model, A1::Model, A2::Model, A3::Model, A4::Model, A5::Model, A6::Model, A7::Model, A8::Model)) -> bool {
        A0::contains(m.0)
            && A1::contains(m.1)
            && A2::contains(m.2)
            && A3::contains(m.3)
            && A4::contains(m.4)
            && A5::contains(m.5)
            && A6::contains(m.6)
            && A7::contains(m.7)
            && A8::contains(m.8)
    }

    proof fn lemma_model_contained(x: &Self) {
        A0::lemma_model_contained(&x.0);
        A1::lemma_model_contained(&x.1);
        A2::lemma_model_contained(&x.2);
        A3::lemma_model_contained(&x.3);
        A4::lemma_model_contained(&x.4);
        A5::lemma_model_contained(&x.5);
        A6::lemma_model_contained(&x.6);
        A7::lemma_model_contained(&x.7);
        A8::lemma_model_contained(&x.8);
    }
}

impl<Op: Operator, A0: Magma<Op>, A1: Magma<Op>, A2: Magma<Op>, A3: Magma<Op>, A4: Magma<Op>, A5: Magma<Op>, A6: Magma<Op>, A7: Magma<Op>, A8: Magma<Op>> Magma<Op> for (A0, A1, A2, A3, A4, A5, A6, A7, A8) {
    open spec fn spec_combine(a: (A0::Model, A1::Model, A2::Model, A3::Model, A4::Model, A5::Model, A6::Model, A7::Model, A8::Model), b: (A0::Model, A1::Model, A2::Model, A3::Model, A4::Model, A5::Model, A6::Model, A7::Model, A8::Model)) -> (A0::Model, A1::Model, A2::Model, A3::Model, A4::Model, A5::Model, A6::Model, A7::Model, A8::Model) {
        (A0::spec_combine(a.0, b.0), A1::spec_combine(a.1, b.1), A2::spec_combine(a.2, b.2), A3::spec_combine(a.3, b.3), A4::spec_combine(a.4, b.4), A5::spec_combine(a.5, b.5), A6::spec_combine(a.6, b.6), A7::spec_combine(a.7, b.7), A8::spec_combine(a.8, b.8))
    }

    proof fn lemma_closed(a: (A0::Model, A1::Model, A2::Model, A3::Model, A4::Model, A5::Model, A6::Model, A7::Model, A8::Model), b: (A0::Model, A1::Model, A2::Model, A3::Model, A4::Model, A5::Model, A6::Model, A7::Model, A8::Model)) {
        A0::lemma_closed(a.0, b.0);
        A1::lemma_closed(a.1, b.1);
        A2::lemma_closed(a.2, b.2);
        A3::lemma_closed(a.3, b.3);
        A4::lemma_closed(a.4, b.4);
        A5::lemma_closed(a.5, b.5);
        A6::lemma_closed(a.6, b.6);
        A7::lemma_closed(a.7, b.7);
        A8::lemma_closed(a.8, b.8);
    }

    fn combine(&self, rhs: &Self) -> (r: Self) {
        (self.0.combine(&rhs.0), self.1.combine(&rhs.1), self.2.combine(&rhs.2), self.3.combine(&rhs.3), self.4.combine(&rhs.4), self.5.combine(&rhs.5), self.6.combine(&rhs.6), self.7.combine(&rhs.7), self.8.combine(&rhs.8))
    }
}

impl<Op: Operator, A0: Semigroup<Op>, A1: Semigroup<Op>, A2: Semigroup<Op>, A3: Semigroup<Op>, A4: Semigroup<Op>, A5: Semigroup<Op>, A6: Semigroup<Op>, A7: Semigroup<Op>, A8: Semigroup<Op>> Semigroup<Op> for (A0, A1, A2, A3, A4, A5, A6, A7, A8) {
    proof fn lemma_associative(a: (A0::Model, A1::Model, A2::Model, A3::Model, A4::Model, A5::Model, A6::Model, A7::Model, A8::Model), b: (A0::Model, A1::Model, A2::Model, A3::Model, A4::Model, A5::Model, A6::Model, A7::Model, A8::Model), c: (A0::Model, A1::Model, A2::Model, A3::Model, A4::Model, A5::Model, A6::Model, A7::Model, A8::Model)) {
        A0::lemma_associative(a.0, b.0, c.0);
        A1::lemma_associative(a.1, b.1, c.1);
        A2::lemma_associative(a.2, b.2, c.2);
        A3::lemma_associative(a.3, b.3, c.3);
        A4::lemma_associative(a.4, b.4, c.4);
        A5::lemma_associative(a.5, b.5, c.5);
        A6::lemma_associative(a.6, b.6, c.6);
        A7::lemma_associative(a.7, b.7, c.7);
        A8::lemma_associative(a.8, b.8, c.8);
    }
}

impl<Op: Operator, A0: Monoid<Op>, A1: Monoid<Op>, A2: Monoid<Op>, A3: Monoid<Op>, A4: Monoid<Op>, A5: Monoid<Op>, A6: Monoid<Op>, A7: Monoid<Op>, A8: Monoid<Op>> Monoid<Op> for (A0, A1, A2, A3, A4, A5, A6, A7, A8) {
    open spec fn spec_identity() -> (A0::Model, A1::Model, A2::Model, A3::Model, A4::Model, A5::Model, A6::Model, A7::Model, A8::Model) {
        (A0::spec_identity(), A1::spec_identity(), A2::spec_identity(), A3::spec_identity(), A4::spec_identity(), A5::spec_identity(), A6::spec_identity(), A7::spec_identity(), A8::spec_identity())
    }

    proof fn lemma_identity(a: (A0::Model, A1::Model, A2::Model, A3::Model, A4::Model, A5::Model, A6::Model, A7::Model, A8::Model)) {
        A0::lemma_identity(a.0);
        A1::lemma_identity(a.1);
        A2::lemma_identity(a.2);
        A3::lemma_identity(a.3);
        A4::lemma_identity(a.4);
        A5::lemma_identity(a.5);
        A6::lemma_identity(a.6);
        A7::lemma_identity(a.7);
        A8::lemma_identity(a.8);
    }

    fn identity() -> (r: Self) {
        (A0::identity(), A1::identity(), A2::identity(), A3::identity(), A4::identity(), A5::identity(), A6::identity(), A7::identity(), A8::identity())
    }
}

impl<A0: Quasigroup<Additive>, A1: Quasigroup<Additive>, A2: Quasigroup<Additive>, A3: Quasigroup<Additive>, A4: Quasigroup<Additive>, A5: Quasigroup<Additive>, A6: Quasigroup<Additive>, A7: Quasigroup<Additive>, A8: Quasigroup<Additive>> Quasigroup<Additive> for (A0, A1, A2, A3, A4, A5, A6, A7, A8) {
    proof fn lemma_latin_square(a: (A0::Model, A1::Model, A2::Model, A3::Model, A4::Model, A5::Model, A6::Model, A7::Model, A8::Model), b: (A0::Model, A1::Model, A2::Model, A3::Model, A4::Model, A5::Model, A6::Model, A7::Model, A8::Model)) {
        A0::lemma_latin_square(a.0, b.0);
        A1::lemma_latin_square(a.1, b.1);
        A2::lemma_latin_square(a.2, b.2);
        A3::lemma_latin_square(a.3, b.3);
        A4::lemma_latin_square(a.4, b.4);
        A5::lemma_latin_square(a.5, b.5);
        A6::lemma_latin_square(a.6, b.6);
        A7::lemma_latin_square(a.7, b.7);
        A8::lemma_latin_square(a.8, b.8);
        let x = (left_quotient::<Additive, A0>(a.0, b.0), left_quotient::<Additive, A1>(a.1, b.1), left_quotient::<Additive, A2>(a.2, b.2), left_quotient::<Additive, A3>(a.3, b.3), left_quotient::<Additive, A4>(a.4, b.4), left_quotient::<Additive, A5>(a.5, b.5), left_quotient::<Additive, A6>(a.6, b.6), left_quotient::<Additive, A7>(a.7, b.7), left_quotient::<Additive, A8>(a.8, b.8));
        let y = (right_quotient::<Additive, A0>(a.0, b.0), right_quotient::<Additive, A1>(a.1, b.1), right_quotient::<Additive, A2>(a.2, b.2), right_quotient::<Additive, A3>(a.3, b.3), right_quotient::<Additive, A4>(a.4, b.4), right_quotient::<Additive, A5>(a.5, b.5), right_quotient::<Additive, A6>(a.6, b.6), right_quotient::<Additive, A7>(a.7, b.7), right_quotient::<Additive, A8>(a.8, b.8));
        assert(Self::contains(x) && Self::spec_combine(a, x) == b);
        assert(Self::contains(y) && Self::spec_combine(y, a) == b);
        assert forall|x1: (A0::Model, A1::Model, A2::Model, A3::Model, A4::Model, A5::Model, A6::Model, A7::Model, A8::Model), x2: (A0::Model, A1::Model, A2::Model, A3::Model, A4::Model, A5::Model, A6::Model, A7::Model, A8::Model)|
            Self::contains(x1) && Self::contains(x2) && #[trigger] Self::spec_combine(a, x1)
                == #[trigger] Self::spec_combine(a, x2) implies x1 == x2 by {
            assert(A0::spec_combine(a.0, x1.0) == A0::spec_combine(a.0, x2.0));
            assert(A1::spec_combine(a.1, x1.1) == A1::spec_combine(a.1, x2.1));
            assert(A2::spec_combine(a.2, x1.2) == A2::spec_combine(a.2, x2.2));
            assert(A3::spec_combine(a.3, x1.3) == A3::spec_combine(a.3, x2.3));
            assert(A4::spec_combine(a.4, x1.4) == A4::spec_combine(a.4, x2.4));
            assert(A5::spec_combine(a.5, x1.5) == A5::spec_combine(a.5, x2.5));
            assert(A6::spec_combine(a.6, x1.6) == A6::spec_combine(a.6, x2.6));
            assert(A7::spec_combine(a.7, x1.7) == A7::spec_combine(a.7, x2.7));
            assert(A8::spec_combine(a.8, x1.8) == A8::spec_combine(a.8, x2.8));
        }
        assert forall|y1: (A0::Model, A1::Model, A2::Model, A3::Model, A4::Model, A5::Model, A6::Model, A7::Model, A8::Model), y2: (A0::Model, A1::Model, A2::Model, A3::Model, A4::Model, A5::Model, A6::Model, A7::Model, A8::Model)|
            Self::contains(y1) && Self::contains(y2) && #[trigger] Self::spec_combine(y1, a)
                == #[trigger] Self::spec_combine(y2, a) implies y1 == y2 by {
            assert(A0::spec_combine(y1.0, a.0) == A0::spec_combine(y2.0, a.0));
            assert(A1::spec_combine(y1.1, a.1) == A1::spec_combine(y2.1, a.1));
            assert(A2::spec_combine(y1.2, a.2) == A2::spec_combine(y2.2, a.2));
            assert(A3::spec_combine(y1.3, a.3) == A3::spec_combine(y2.3, a.3));
            assert(A4::spec_combine(y1.4, a.4) == A4::spec_combine(y2.4, a.4));
            assert(A5::spec_combine(y1.5, a.5) == A5::spec_combine(y2.5, a.5));
            assert(A6::spec_combine(y1.6, a.6) == A6::spec_combine(y2.6, a.6));
            assert(A7::spec_combine(y1.7, a.7) == A7::spec_combine(y2.7, a.7));
            assert(A8::spec_combine(y1.8, a.8) == A8::spec_combine(y2.8, a.8));
        }
    }
}

impl<A0: Loop<Additive>, A1: Loop<Additive>, A2: Loop<Additive>, A3: Loop<Additive>, A4: Loop<Additive>, A5: Loop<Additive>, A6: Loop<Additive>, A7: Loop<Additive>, A8: Loop<Additive>> Loop<Additive> for (A0, A1, A2, A3, A4, A5, A6, A7, A8) {

}

impl<A0: Group<Additive>, A1: Group<Additive>, A2: Group<Additive>, A3: Group<Additive>, A4: Group<Additive>, A5: Group<Additive>, A6: Group<Additive>, A7: Group<Additive>, A8: Group<Additive>> Group<Additive> for (A0, A1, A2, A3, A4, A5, A6, A7, A8) {
    open spec fn spec_inverse(a: (A0::Model, A1::Model, A2::Model, A3::Model, A4::Model, A5::Model, A6::Model, A7::Model, A8::Model)) -> (A0::Model, A1::Model, A2::Model, A3::Model, A4::Model, A5::Model, A6::Model, A7::Model, A8::Model) {
        (A0::spec_inverse(a.0), A1::spec_inverse(a.1), A2::spec_inverse(a.2), A3::spec_inverse(a.3), A4::spec_inverse(a.4), A5::spec_inverse(a.5), A6::spec_inverse(a.6), A7::spec_inverse(a.7), A8::spec_inverse(a.8))
    }

    proof fn lemma_inverse(a: (A0::Model, A1::Model, A2::Model, A3::Model, A4::Model, A5::Model, A6::Model, A7::Model, A8::Model)) {
        A0::lemma_inverse(a.0);
        A1::lemma_inverse(a.1);
        A2::lemma_inverse(a.2);
        A3::lemma_inverse(a.3);
        A4::lemma_inverse(a.4);
        A5::lemma_inverse(a.5);
        A6::lemma_inverse(a.6);
        A7::lemma_inverse(a.7);
        A8::lemma_inverse(a.8);
    }

    fn inverse(&self) -> (r: Self) {
        (self.0.inverse(), self.1.inverse(), self.2.inverse(), self.3.inverse(), self.4.inverse(), self.5.inverse(), self.6.inverse(), self.7.inverse(), self.8.inverse())
    }
}

impl<A0: AbelianGroup<Additive>, A1: AbelianGroup<Additive>, A2: AbelianGroup<Additive>, A3: AbelianGroup<Additive>, A4: AbelianGroup<Additive>, A5: AbelianGroup<Additive>, A6: AbelianGroup<Additive>, A7: AbelianGroup<Additive>, A8: AbelianGroup<Additive>> AbelianGroup<Additive> for (A0, A1, A2, A3, A4, A5, A6, A7, A8) {
    proof fn lemma_commutative(a: (A0::Model, A1::Model, A2::Model, A3::Model, A4::Model, A5::Model, A6::Model, A7::Model, A8::Model), b: (A0::Model, A1::Model, A2::Model, A3::Model, A4::Model, A5::Model, A6::Model, A7::Model, A8::Model)) {
        A0::lemma_commutative(a.0, b.0);
        A1::lemma_commutative(a.1, b.1);
        A2::lemma_commutative(a.2, b.2);
        A3::lemma_commutative(a.3, b.3);
        A4::lemma_commutative(a.4, b.4);
        A5::lemma_commutative(a.5, b.5);
        A6::lemma_commutative(a.6, b.6);
        A7::lemma_commutative(a.7, b.7);
        A8::lemma_commutative(a.8, b.8);
    }
}

impl<A0: Semiring<Additive, Multiplicative>, A1: Semiring<Additive, Multiplicative>, A2: Semiring<Additive, Multiplicative>, A3: Semiring<Additive, Multiplicative>, A4: Semiring<Additive, Multiplicative>, A5: Semiring<Additive, Multiplicative>, A6: Semiring<Additive, Multiplicative>, A7: Semiring<Additive, Multiplicative>, A8: Semiring<Additive, Multiplicative>> Semiring<Additive, Multiplicative> for (A0, A1, A2, A3, A4, A5, A6, A7, A8) {
    proof fn lemma_distributive(a: (A0::Model, A1::Model, A2::Model, A3::Model, A4::Model, A5::Model, A6::Model, A7::Model, A8::Model), b: (A0::Model, A1::Model, A2::Model, A3::Model, A4::Model, A5::Model, A6::Model, A7::Model, A8::Model), c: (A0::Model, A1::Model, A2::Model, A3::Model, A4::Model, A5::Model, A6::Model, A7::Model, A8::Model)) {
        A0::lemma_distributive(a.0, b.0, c.0);
        A1::lemma_distributive(a.1, b.1, c.1);
        A2::lemma_distributive(a.2, b.2, c.2);
        A3::lemma_distributive(a.3, b.3, c.3);
        A4::lemma_distributive(a.4, b.4, c.4);
        A5::lemma_distributive(a.5, b.5, c.5);
        A6::lemma_distributive(a.6, b.6, c.6);
        A7::lemma_distributive(a.7, b.7, c.7);
        A8::lemma_distributive(a.8, b.8, c.8);
    }
}

impl<A0: Ring<Additive, Multiplicative>, A1: Ring<Additive, Multiplicative>, A2: Ring<Additive, Multiplicative>, A3: Ring<Additive, Multiplicative>, A4: Ring<Additive, Multiplicative>, A5: Ring<Additive, Multiplicative>, A6: Ring<Additive, Multiplicative>, A7: Ring<Additive, Multiplicative>, A8: Ring<Additive, Multiplicative>> Ring<Additive, Multiplicative> for (A0, A1, A2, A3, A4, A5, A6, A7, A8) {

}

impl<A0: CommutativeRing<Additive, Multiplicative>, A1: CommutativeRing<Additive, Multiplicative>, A2: CommutativeRing<Additive, Multiplicative>, A3: CommutativeRing<Additive, Multiplicative>, A4: CommutativeRing<Additive, Multiplicative>, A5: CommutativeRing<Additive, Multiplicative>, A6: CommutativeRing<Additive, Multiplicative>, A7: CommutativeRing<Additive, Multiplicative>, A8: CommutativeRing<Additive, Multiplicative>> CommutativeRing<Additive, Multiplicative> for (A0, A1, A2, A3, A4, A5, A6, A7, A8) {
    proof fn lemma_multiplication_commutes(a: (A0::Model, A1::Model, A2::Model, A3::Model, A4::Model, A5::Model, A6::Model, A7::Model, A8::Model), b: (A0::Model, A1::Model, A2::Model, A3::Model, A4::Model, A5::Model, A6::Model, A7::Model, A8::Model)) {
        A0::lemma_multiplication_commutes(a.0, b.0);
        A1::lemma_multiplication_commutes(a.1, b.1);
        A2::lemma_multiplication_commutes(a.2, b.2);
        A3::lemma_multiplication_commutes(a.3, b.3);
        A4::lemma_multiplication_commutes(a.4, b.4);
        A5::lemma_multiplication_commutes(a.5, b.5);
        A6::lemma_multiplication_commutes(a.6, b.6);
        A7::lemma_multiplication_commutes(a.7, b.7);
        A8::lemma_multiplication_commutes(a.8, b.8);
    }
}

impl<A0: Module<Additive, Multiplicative>, A1: Module<Additive, Multiplicative, Scalar = A0::Scalar>, A2: Module<Additive, Multiplicative, Scalar = A0::Scalar>, A3: Module<Additive, Multiplicative, Scalar = A0::Scalar>, A4: Module<Additive, Multiplicative, Scalar = A0::Scalar>, A5: Module<Additive, Multiplicative, Scalar = A0::Scalar>, A6: Module<Additive, Multiplicative, Scalar = A0::Scalar>, A7: Module<Additive, Multiplicative, Scalar = A0::Scalar>, A8: Module<Additive, Multiplicative, Scalar = A0::Scalar>> Module<Additive, Multiplicative> for (A0, A1, A2, A3, A4, A5, A6, A7, A8) {
    type Scalar = A0::Scalar;

    open spec fn spec_scale(s: <A0::Scalar as Carrier>::Model, v: (A0::Model, A1::Model, A2::Model, A3::Model, A4::Model, A5::Model, A6::Model, A7::Model, A8::Model)) -> (A0::Model, A1::Model, A2::Model, A3::Model, A4::Model, A5::Model, A6::Model, A7::Model, A8::Model) {
        (A0::spec_scale(s, v.0), A1::spec_scale(s, v.1), A2::spec_scale(s, v.2), A3::spec_scale(s, v.3), A4::spec_scale(s, v.4), A5::spec_scale(s, v.5), A6::spec_scale(s, v.6), A7::spec_scale(s, v.7), A8::spec_scale(s, v.8))
    }

    proof fn lemma_module(
        s: <A0::Scalar as Carrier>::Model,
        t: <A0::Scalar as Carrier>::Model,
        u: (A0::Model, A1::Model, A2::Model, A3::Model, A4::Model, A5::Model, A6::Model, A7::Model, A8::Model),
        v: (A0::Model, A1::Model, A2::Model, A3::Model, A4::Model, A5::Model, A6::Model, A7::Model, A8::Model),
    ) {
        A0::lemma_module(s, t, u.0, v.0);
        A1::lemma_module(s, t, u.1, v.1);
        A2::lemma_module(s, t, u.2, v.2);
        A3::lemma_module(s, t, u.3, v.3);
        A4::lemma_module(s, t, u.4, v.4);
        A5::lemma_module(s, t, u.5, v.5);
        A6::lemma_module(s, t, u.6, v.6);
        A7::lemma_module(s, t, u.7, v.7);
        A8::lemma_module(s, t, u.8, v.8);
    }

    fn scale(s: &A0::Scalar, v: Self) -> (r: Self) {
        (A0::scale(s, v.0), A1::scale(s, v.1), A2::scale(s, v.2), A3::scale(s, v.3), A4::scale(s, v.4), A5::scale(s, v.5), A6::scale(s, v.6), A7::scale(s, v.7), A8::scale(s, v.8))
    }
}

impl<A0: VectorSpace<Additive, Multiplicative>, A1: VectorSpace<Additive, Multiplicative, Scalar = A0::Scalar>, A2: VectorSpace<Additive, Multiplicative, Scalar = A0::Scalar>, A3: VectorSpace<Additive, Multiplicative, Scalar = A0::Scalar>, A4: VectorSpace<Additive, Multiplicative, Scalar = A0::Scalar>, A5: VectorSpace<Additive, Multiplicative, Scalar = A0::Scalar>, A6: VectorSpace<Additive, Multiplicative, Scalar = A0::Scalar>, A7: VectorSpace<Additive, Multiplicative, Scalar = A0::Scalar>, A8: VectorSpace<Additive, Multiplicative, Scalar = A0::Scalar>> VectorSpace<Additive, Multiplicative> for (A0, A1, A2, A3, A4, A5, A6, A7, A8) where
    A0::Scalar: Field<Additive, Multiplicative>,
 {

}

impl<A0: MeetSemilattice, A1: MeetSemilattice, A2: MeetSemilattice, A3: MeetSemilattice, A4: MeetSemilattice, A5: MeetSemilattice, A6: MeetSemilattice, A7: MeetSemilattice, A8: MeetSemilattice> MeetSemilattice for (A0, A1, A2, A3, A4, A5, A6, A7, A8) {
    open spec fn meet_follows_order() -> bool {
        false
    }

    proof fn lemma_meet_follows_order(a: Self, b: Self) {
    }

    open spec fn spec_meet(a: (A0::Model, A1::Model, A2::Model, A3::Model, A4::Model, A5::Model, A6::Model, A7::Model, A8::Model), b: (A0::Model, A1::Model, A2::Model, A3::Model, A4::Model, A5::Model, A6::Model, A7::Model, A8::Model)) -> (A0::Model, A1::Model, A2::Model, A3::Model, A4::Model, A5::Model, A6::Model, A7::Model, A8::Model) {
        (A0::spec_meet(a.0, b.0), A1::spec_meet(a.1, b.1), A2::spec_meet(a.2, b.2), A3::spec_meet(a.3, b.3), A4::spec_meet(a.4, b.4), A5::spec_meet(a.5, b.5), A6::spec_meet(a.6, b.6), A7::spec_meet(a.7, b.7), A8::spec_meet(a.8, b.8))
    }

    proof fn lemma_meet_semilattice(a: (A0::Model, A1::Model, A2::Model, A3::Model, A4::Model, A5::Model, A6::Model, A7::Model, A8::Model), b: (A0::Model, A1::Model, A2::Model, A3::Model, A4::Model, A5::Model, A6::Model, A7::Model, A8::Model), c: (A0::Model, A1::Model, A2::Model, A3::Model, A4::Model, A5::Model, A6::Model, A7::Model, A8::Model)) {
        A0::lemma_meet_semilattice(a.0, b.0, c.0);
        A1::lemma_meet_semilattice(a.1, b.1, c.1);
        A2::lemma_meet_semilattice(a.2, b.2, c.2);
        A3::lemma_meet_semilattice(a.3, b.3, c.3);
        A4::lemma_meet_semilattice(a.4, b.4, c.4);
        A5::lemma_meet_semilattice(a.5, b.5, c.5);
        A6::lemma_meet_semilattice(a.6, b.6, c.6);
        A7::lemma_meet_semilattice(a.7, b.7, c.7);
        A8::lemma_meet_semilattice(a.8, b.8, c.8);
    }

    fn meet(&self, other: &Self) -> (r: Self) {
        (self.0.meet(&other.0), self.1.meet(&other.1), self.2.meet(&other.2), self.3.meet(&other.3), self.4.meet(&other.4), self.5.meet(&other.5), self.6.meet(&other.6), self.7.meet(&other.7), self.8.meet(&other.8))
    }
}

impl<A0: JoinSemilattice, A1: JoinSemilattice, A2: JoinSemilattice, A3: JoinSemilattice, A4: JoinSemilattice, A5: JoinSemilattice, A6: JoinSemilattice, A7: JoinSemilattice, A8: JoinSemilattice> JoinSemilattice for (A0, A1, A2, A3, A4, A5, A6, A7, A8) {
    open spec fn join_follows_order() -> bool {
        false
    }

    proof fn lemma_join_follows_order(a: Self, b: Self) {
    }

    open spec fn spec_join(a: (A0::Model, A1::Model, A2::Model, A3::Model, A4::Model, A5::Model, A6::Model, A7::Model, A8::Model), b: (A0::Model, A1::Model, A2::Model, A3::Model, A4::Model, A5::Model, A6::Model, A7::Model, A8::Model)) -> (A0::Model, A1::Model, A2::Model, A3::Model, A4::Model, A5::Model, A6::Model, A7::Model, A8::Model) {
        (A0::spec_join(a.0, b.0), A1::spec_join(a.1, b.1), A2::spec_join(a.2, b.2), A3::spec_join(a.3, b.3), A4::spec_join(a.4, b.4), A5::spec_join(a.5, b.5), A6::spec_join(a.6, b.6), A7::spec_join(a.7, b.7), A8::spec_join(a.8, b.8))
    }

    proof fn lemma_join_semilattice(a: (A0::Model, A1::Model, A2::Model, A3::Model, A4::Model, A5::Model, A6::Model, A7::Model, A8::Model), b: (A0::Model, A1::Model, A2::Model, A3::Model, A4::Model, A5::Model, A6::Model, A7::Model, A8::Model), c: (A0::Model, A1::Model, A2::Model, A3::Model, A4::Model, A5::Model, A6::Model, A7::Model, A8::Model)) {
        A0::lemma_join_semilattice(a.0, b.0, c.0);
        A1::lemma_join_semilattice(a.1, b.1, c.1);
        A2::lemma_join_semilattice(a.2, b.2, c.2);
        A3::lemma_join_semilattice(a.3, b.3, c.3);
        A4::lemma_join_semilattice(a.4, b.4, c.4);
        A5::lemma_join_semilattice(a.5, b.5, c.5);
        A6::lemma_join_semilattice(a.6, b.6, c.6);
        A7::lemma_join_semilattice(a.7, b.7, c.7);
        A8::lemma_join_semilattice(a.8, b.8, c.8);
    }

    fn join(&self, other: &Self) -> (r: Self) {
        (self.0.join(&other.0), self.1.join(&other.1), self.2.join(&other.2), self.3.join(&other.3), self.4.join(&other.4), self.5.join(&other.5), self.6.join(&other.6), self.7.join(&other.7), self.8.join(&other.8))
    }
}

impl<A0: Lattice, A1: Lattice, A2: Lattice, A3: Lattice, A4: Lattice, A5: Lattice, A6: Lattice, A7: Lattice, A8: Lattice> Lattice for (A0, A1, A2, A3, A4, A5, A6, A7, A8) {
    proof fn lemma_absorption(a: (A0::Model, A1::Model, A2::Model, A3::Model, A4::Model, A5::Model, A6::Model, A7::Model, A8::Model), b: (A0::Model, A1::Model, A2::Model, A3::Model, A4::Model, A5::Model, A6::Model, A7::Model, A8::Model)) {
        A0::lemma_absorption(a.0, b.0);
        A1::lemma_absorption(a.1, b.1);
        A2::lemma_absorption(a.2, b.2);
        A3::lemma_absorption(a.3, b.3);
        A4::lemma_absorption(a.4, b.4);
        A5::lemma_absorption(a.5, b.5);
        A6::lemma_absorption(a.6, b.6);
        A7::lemma_absorption(a.7, b.7);
        A8::lemma_absorption(a.8, b.8);
    }
}

// ---- arity 10 ----

impl<A0: Carrier, A1: Carrier, A2: Carrier, A3: Carrier, A4: Carrier, A5: Carrier, A6: Carrier, A7: Carrier, A8: Carrier, A9: Carrier> Carrier for (A0, A1, A2, A3, A4, A5, A6, A7, A8, A9) {
    type Model = (A0::Model, A1::Model, A2::Model, A3::Model, A4::Model, A5::Model, A6::Model, A7::Model, A8::Model, A9::Model);

    open spec fn model(self) -> (A0::Model, A1::Model, A2::Model, A3::Model, A4::Model, A5::Model, A6::Model, A7::Model, A8::Model, A9::Model) {
        (self.0.model(), self.1.model(), self.2.model(), self.3.model(), self.4.model(), self.5.model(), self.6.model(), self.7.model(), self.8.model(), self.9.model())
    }

    open spec fn contains(m: (A0::Model, A1::Model, A2::Model, A3::Model, A4::Model, A5::Model, A6::Model, A7::Model, A8::Model, A9::Model)) -> bool {
        A0::contains(m.0)
            && A1::contains(m.1)
            && A2::contains(m.2)
            && A3::contains(m.3)
            && A4::contains(m.4)
            && A5::contains(m.5)
            && A6::contains(m.6)
            && A7::contains(m.7)
            && A8::contains(m.8)
            && A9::contains(m.9)
    }

    proof fn lemma_model_contained(x: &Self) {
        A0::lemma_model_contained(&x.0);
        A1::lemma_model_contained(&x.1);
        A2::lemma_model_contained(&x.2);
        A3::lemma_model_contained(&x.3);
        A4::lemma_model_contained(&x.4);
        A5::lemma_model_contained(&x.5);
        A6::lemma_model_contained(&x.6);
        A7::lemma_model_contained(&x.7);
        A8::lemma_model_contained(&x.8);
        A9::lemma_model_contained(&x.9);
    }
}

impl<Op: Operator, A0: Magma<Op>, A1: Magma<Op>, A2: Magma<Op>, A3: Magma<Op>, A4: Magma<Op>, A5: Magma<Op>, A6: Magma<Op>, A7: Magma<Op>, A8: Magma<Op>, A9: Magma<Op>> Magma<Op> for (A0, A1, A2, A3, A4, A5, A6, A7, A8, A9) {
    open spec fn spec_combine(a: (A0::Model, A1::Model, A2::Model, A3::Model, A4::Model, A5::Model, A6::Model, A7::Model, A8::Model, A9::Model), b: (A0::Model, A1::Model, A2::Model, A3::Model, A4::Model, A5::Model, A6::Model, A7::Model, A8::Model, A9::Model)) -> (A0::Model, A1::Model, A2::Model, A3::Model, A4::Model, A5::Model, A6::Model, A7::Model, A8::Model, A9::Model) {
        (A0::spec_combine(a.0, b.0), A1::spec_combine(a.1, b.1), A2::spec_combine(a.2, b.2), A3::spec_combine(a.3, b.3), A4::spec_combine(a.4, b.4), A5::spec_combine(a.5, b.5), A6::spec_combine(a.6, b.6), A7::spec_combine(a.7, b.7), A8::spec_combine(a.8, b.8), A9::spec_combine(a.9, b.9))
    }

    proof fn lemma_closed(a: (A0::Model, A1::Model, A2::Model, A3::Model, A4::Model, A5::Model, A6::Model, A7::Model, A8::Model, A9::Model), b: (A0::Model, A1::Model, A2::Model, A3::Model, A4::Model, A5::Model, A6::Model, A7::Model, A8::Model, A9::Model)) {
        A0::lemma_closed(a.0, b.0);
        A1::lemma_closed(a.1, b.1);
        A2::lemma_closed(a.2, b.2);
        A3::lemma_closed(a.3, b.3);
        A4::lemma_closed(a.4, b.4);
        A5::lemma_closed(a.5, b.5);
        A6::lemma_closed(a.6, b.6);
        A7::lemma_closed(a.7, b.7);
        A8::lemma_closed(a.8, b.8);
        A9::lemma_closed(a.9, b.9);
    }

    fn combine(&self, rhs: &Self) -> (r: Self) {
        (self.0.combine(&rhs.0), self.1.combine(&rhs.1), self.2.combine(&rhs.2), self.3.combine(&rhs.3), self.4.combine(&rhs.4), self.5.combine(&rhs.5), self.6.combine(&rhs.6), self.7.combine(&rhs.7), self.8.combine(&rhs.8), self.9.combine(&rhs.9))
    }
}

impl<Op: Operator, A0: Semigroup<Op>, A1: Semigroup<Op>, A2: Semigroup<Op>, A3: Semigroup<Op>, A4: Semigroup<Op>, A5: Semigroup<Op>, A6: Semigroup<Op>, A7: Semigroup<Op>, A8: Semigroup<Op>, A9: Semigroup<Op>> Semigroup<Op> for (A0, A1, A2, A3, A4, A5, A6, A7, A8, A9) {
    proof fn lemma_associative(a: (A0::Model, A1::Model, A2::Model, A3::Model, A4::Model, A5::Model, A6::Model, A7::Model, A8::Model, A9::Model), b: (A0::Model, A1::Model, A2::Model, A3::Model, A4::Model, A5::Model, A6::Model, A7::Model, A8::Model, A9::Model), c: (A0::Model, A1::Model, A2::Model, A3::Model, A4::Model, A5::Model, A6::Model, A7::Model, A8::Model, A9::Model)) {
        A0::lemma_associative(a.0, b.0, c.0);
        A1::lemma_associative(a.1, b.1, c.1);
        A2::lemma_associative(a.2, b.2, c.2);
        A3::lemma_associative(a.3, b.3, c.3);
        A4::lemma_associative(a.4, b.4, c.4);
        A5::lemma_associative(a.5, b.5, c.5);
        A6::lemma_associative(a.6, b.6, c.6);
        A7::lemma_associative(a.7, b.7, c.7);
        A8::lemma_associative(a.8, b.8, c.8);
        A9::lemma_associative(a.9, b.9, c.9);
    }
}

impl<Op: Operator, A0: Monoid<Op>, A1: Monoid<Op>, A2: Monoid<Op>, A3: Monoid<Op>, A4: Monoid<Op>, A5: Monoid<Op>, A6: Monoid<Op>, A7: Monoid<Op>, A8: Monoid<Op>, A9: Monoid<Op>> Monoid<Op> for (A0, A1, A2, A3, A4, A5, A6, A7, A8, A9) {
    open spec fn spec_identity() -> (A0::Model, A1::Model, A2::Model, A3::Model, A4::Model, A5::Model, A6::Model, A7::Model, A8::Model, A9::Model) {
        (A0::spec_identity(), A1::spec_identity(), A2::spec_identity(), A3::spec_identity(), A4::spec_identity(), A5::spec_identity(), A6::spec_identity(), A7::spec_identity(), A8::spec_identity(), A9::spec_identity())
    }

    proof fn lemma_identity(a: (A0::Model, A1::Model, A2::Model, A3::Model, A4::Model, A5::Model, A6::Model, A7::Model, A8::Model, A9::Model)) {
        A0::lemma_identity(a.0);
        A1::lemma_identity(a.1);
        A2::lemma_identity(a.2);
        A3::lemma_identity(a.3);
        A4::lemma_identity(a.4);
        A5::lemma_identity(a.5);
        A6::lemma_identity(a.6);
        A7::lemma_identity(a.7);
        A8::lemma_identity(a.8);
        A9::lemma_identity(a.9);
    }

    fn identity() -> (r: Self) {
        (A0::identity(), A1::identity(), A2::identity(), A3::identity(), A4::identity(), A5::identity(), A6::identity(), A7::identity(), A8::identity(), A9::identity())
    }
}

impl<A0: Quasigroup<Additive>, A1: Quasigroup<Additive>, A2: Quasigroup<Additive>, A3: Quasigroup<Additive>, A4: Quasigroup<Additive>, A5: Quasigroup<Additive>, A6: Quasigroup<Additive>, A7: Quasigroup<Additive>, A8: Quasigroup<Additive>, A9: Quasigroup<Additive>> Quasigroup<Additive> for (A0, A1, A2, A3, A4, A5, A6, A7, A8, A9) {
    proof fn lemma_latin_square(a: (A0::Model, A1::Model, A2::Model, A3::Model, A4::Model, A5::Model, A6::Model, A7::Model, A8::Model, A9::Model), b: (A0::Model, A1::Model, A2::Model, A3::Model, A4::Model, A5::Model, A6::Model, A7::Model, A8::Model, A9::Model)) {
        A0::lemma_latin_square(a.0, b.0);
        A1::lemma_latin_square(a.1, b.1);
        A2::lemma_latin_square(a.2, b.2);
        A3::lemma_latin_square(a.3, b.3);
        A4::lemma_latin_square(a.4, b.4);
        A5::lemma_latin_square(a.5, b.5);
        A6::lemma_latin_square(a.6, b.6);
        A7::lemma_latin_square(a.7, b.7);
        A8::lemma_latin_square(a.8, b.8);
        A9::lemma_latin_square(a.9, b.9);
        let x = (left_quotient::<Additive, A0>(a.0, b.0), left_quotient::<Additive, A1>(a.1, b.1), left_quotient::<Additive, A2>(a.2, b.2), left_quotient::<Additive, A3>(a.3, b.3), left_quotient::<Additive, A4>(a.4, b.4), left_quotient::<Additive, A5>(a.5, b.5), left_quotient::<Additive, A6>(a.6, b.6), left_quotient::<Additive, A7>(a.7, b.7), left_quotient::<Additive, A8>(a.8, b.8), left_quotient::<Additive, A9>(a.9, b.9));
        let y = (right_quotient::<Additive, A0>(a.0, b.0), right_quotient::<Additive, A1>(a.1, b.1), right_quotient::<Additive, A2>(a.2, b.2), right_quotient::<Additive, A3>(a.3, b.3), right_quotient::<Additive, A4>(a.4, b.4), right_quotient::<Additive, A5>(a.5, b.5), right_quotient::<Additive, A6>(a.6, b.6), right_quotient::<Additive, A7>(a.7, b.7), right_quotient::<Additive, A8>(a.8, b.8), right_quotient::<Additive, A9>(a.9, b.9));
        assert(Self::contains(x) && Self::spec_combine(a, x) == b);
        assert(Self::contains(y) && Self::spec_combine(y, a) == b);
        assert forall|x1: (A0::Model, A1::Model, A2::Model, A3::Model, A4::Model, A5::Model, A6::Model, A7::Model, A8::Model, A9::Model), x2: (A0::Model, A1::Model, A2::Model, A3::Model, A4::Model, A5::Model, A6::Model, A7::Model, A8::Model, A9::Model)|
            Self::contains(x1) && Self::contains(x2) && #[trigger] Self::spec_combine(a, x1)
                == #[trigger] Self::spec_combine(a, x2) implies x1 == x2 by {
            assert(A0::spec_combine(a.0, x1.0) == A0::spec_combine(a.0, x2.0));
            assert(A1::spec_combine(a.1, x1.1) == A1::spec_combine(a.1, x2.1));
            assert(A2::spec_combine(a.2, x1.2) == A2::spec_combine(a.2, x2.2));
            assert(A3::spec_combine(a.3, x1.3) == A3::spec_combine(a.3, x2.3));
            assert(A4::spec_combine(a.4, x1.4) == A4::spec_combine(a.4, x2.4));
            assert(A5::spec_combine(a.5, x1.5) == A5::spec_combine(a.5, x2.5));
            assert(A6::spec_combine(a.6, x1.6) == A6::spec_combine(a.6, x2.6));
            assert(A7::spec_combine(a.7, x1.7) == A7::spec_combine(a.7, x2.7));
            assert(A8::spec_combine(a.8, x1.8) == A8::spec_combine(a.8, x2.8));
            assert(A9::spec_combine(a.9, x1.9) == A9::spec_combine(a.9, x2.9));
        }
        assert forall|y1: (A0::Model, A1::Model, A2::Model, A3::Model, A4::Model, A5::Model, A6::Model, A7::Model, A8::Model, A9::Model), y2: (A0::Model, A1::Model, A2::Model, A3::Model, A4::Model, A5::Model, A6::Model, A7::Model, A8::Model, A9::Model)|
            Self::contains(y1) && Self::contains(y2) && #[trigger] Self::spec_combine(y1, a)
                == #[trigger] Self::spec_combine(y2, a) implies y1 == y2 by {
            assert(A0::spec_combine(y1.0, a.0) == A0::spec_combine(y2.0, a.0));
            assert(A1::spec_combine(y1.1, a.1) == A1::spec_combine(y2.1, a.1));
            assert(A2::spec_combine(y1.2, a.2) == A2::spec_combine(y2.2, a.2));
            assert(A3::spec_combine(y1.3, a.3) == A3::spec_combine(y2.3, a.3));
            assert(A4::spec_combine(y1.4, a.4) == A4::spec_combine(y2.4, a.4));
            assert(A5::spec_combine(y1.5, a.5) == A5::spec_combine(y2.5, a.5));
            assert(A6::spec_combine(y1.6, a.6) == A6::spec_combine(y2.6, a.6));
            assert(A7::spec_combine(y1.7, a.7) == A7::spec_combine(y2.7, a.7));
            assert(A8::spec_combine(y1.8, a.8) == A8::spec_combine(y2.8, a.8));
            assert(A9::spec_combine(y1.9, a.9) == A9::spec_combine(y2.9, a.9));
        }
    }
}

impl<A0: Loop<Additive>, A1: Loop<Additive>, A2: Loop<Additive>, A3: Loop<Additive>, A4: Loop<Additive>, A5: Loop<Additive>, A6: Loop<Additive>, A7: Loop<Additive>, A8: Loop<Additive>, A9: Loop<Additive>> Loop<Additive> for (A0, A1, A2, A3, A4, A5, A6, A7, A8, A9) {

}

impl<A0: Group<Additive>, A1: Group<Additive>, A2: Group<Additive>, A3: Group<Additive>, A4: Group<Additive>, A5: Group<Additive>, A6: Group<Additive>, A7: Group<Additive>, A8: Group<Additive>, A9: Group<Additive>> Group<Additive> for (A0, A1, A2, A3, A4, A5, A6, A7, A8, A9) {
    open spec fn spec_inverse(a: (A0::Model, A1::Model, A2::Model, A3::Model, A4::Model, A5::Model, A6::Model, A7::Model, A8::Model, A9::Model)) -> (A0::Model, A1::Model, A2::Model, A3::Model, A4::Model, A5::Model, A6::Model, A7::Model, A8::Model, A9::Model) {
        (A0::spec_inverse(a.0), A1::spec_inverse(a.1), A2::spec_inverse(a.2), A3::spec_inverse(a.3), A4::spec_inverse(a.4), A5::spec_inverse(a.5), A6::spec_inverse(a.6), A7::spec_inverse(a.7), A8::spec_inverse(a.8), A9::spec_inverse(a.9))
    }

    proof fn lemma_inverse(a: (A0::Model, A1::Model, A2::Model, A3::Model, A4::Model, A5::Model, A6::Model, A7::Model, A8::Model, A9::Model)) {
        A0::lemma_inverse(a.0);
        A1::lemma_inverse(a.1);
        A2::lemma_inverse(a.2);
        A3::lemma_inverse(a.3);
        A4::lemma_inverse(a.4);
        A5::lemma_inverse(a.5);
        A6::lemma_inverse(a.6);
        A7::lemma_inverse(a.7);
        A8::lemma_inverse(a.8);
        A9::lemma_inverse(a.9);
    }

    fn inverse(&self) -> (r: Self) {
        (self.0.inverse(), self.1.inverse(), self.2.inverse(), self.3.inverse(), self.4.inverse(), self.5.inverse(), self.6.inverse(), self.7.inverse(), self.8.inverse(), self.9.inverse())
    }
}

impl<A0: AbelianGroup<Additive>, A1: AbelianGroup<Additive>, A2: AbelianGroup<Additive>, A3: AbelianGroup<Additive>, A4: AbelianGroup<Additive>, A5: AbelianGroup<Additive>, A6: AbelianGroup<Additive>, A7: AbelianGroup<Additive>, A8: AbelianGroup<Additive>, A9: AbelianGroup<Additive>> AbelianGroup<Additive> for (A0, A1, A2, A3, A4, A5, A6, A7, A8, A9) {
    proof fn lemma_commutative(a: (A0::Model, A1::Model, A2::Model, A3::Model, A4::Model, A5::Model, A6::Model, A7::Model, A8::Model, A9::Model), b: (A0::Model, A1::Model, A2::Model, A3::Model, A4::Model, A5::Model, A6::Model, A7::Model, A8::Model, A9::Model)) {
        A0::lemma_commutative(a.0, b.0);
        A1::lemma_commutative(a.1, b.1);
        A2::lemma_commutative(a.2, b.2);
        A3::lemma_commutative(a.3, b.3);
        A4::lemma_commutative(a.4, b.4);
        A5::lemma_commutative(a.5, b.5);
        A6::lemma_commutative(a.6, b.6);
        A7::lemma_commutative(a.7, b.7);
        A8::lemma_commutative(a.8, b.8);
        A9::lemma_commutative(a.9, b.9);
    }
}

impl<A0: Semiring<Additive, Multiplicative>, A1: Semiring<Additive, Multiplicative>, A2: Semiring<Additive, Multiplicative>, A3: Semiring<Additive, Multiplicative>, A4: Semiring<Additive, Multiplicative>, A5: Semiring<Additive, Multiplicative>, A6: Semiring<Additive, Multiplicative>, A7: Semiring<Additive, Multiplicative>, A8: Semiring<Additive, Multiplicative>, A9: Semiring<Additive, Multiplicative>> Semiring<Additive, Multiplicative> for (A0, A1, A2, A3, A4, A5, A6, A7, A8, A9) {
    proof fn lemma_distributive(a: (A0::Model, A1::Model, A2::Model, A3::Model, A4::Model, A5::Model, A6::Model, A7::Model, A8::Model, A9::Model), b: (A0::Model, A1::Model, A2::Model, A3::Model, A4::Model, A5::Model, A6::Model, A7::Model, A8::Model, A9::Model), c: (A0::Model, A1::Model, A2::Model, A3::Model, A4::Model, A5::Model, A6::Model, A7::Model, A8::Model, A9::Model)) {
        A0::lemma_distributive(a.0, b.0, c.0);
        A1::lemma_distributive(a.1, b.1, c.1);
        A2::lemma_distributive(a.2, b.2, c.2);
        A3::lemma_distributive(a.3, b.3, c.3);
        A4::lemma_distributive(a.4, b.4, c.4);
        A5::lemma_distributive(a.5, b.5, c.5);
        A6::lemma_distributive(a.6, b.6, c.6);
        A7::lemma_distributive(a.7, b.7, c.7);
        A8::lemma_distributive(a.8, b.8, c.8);
        A9::lemma_distributive(a.9, b.9, c.9);
    }
}

impl<A0: Ring<Additive, Multiplicative>, A1: Ring<Additive, Multiplicative>, A2: Ring<Additive, Multiplicative>, A3: Ring<Additive, Multiplicative>, A4: Ring<Additive, Multiplicative>, A5: Ring<Additive, Multiplicative>, A6: Ring<Additive, Multiplicative>, A7: Ring<Additive, Multiplicative>, A8: Ring<Additive, Multiplicative>, A9: Ring<Additive, Multiplicative>> Ring<Additive, Multiplicative> for (A0, A1, A2, A3, A4, A5, A6, A7, A8, A9) {

}

impl<A0: CommutativeRing<Additive, Multiplicative>, A1: CommutativeRing<Additive, Multiplicative>, A2: CommutativeRing<Additive, Multiplicative>, A3: CommutativeRing<Additive, Multiplicative>, A4: CommutativeRing<Additive, Multiplicative>, A5: CommutativeRing<Additive, Multiplicative>, A6: CommutativeRing<Additive, Multiplicative>, A7: CommutativeRing<Additive, Multiplicative>, A8: CommutativeRing<Additive, Multiplicative>, A9: CommutativeRing<Additive, Multiplicative>> CommutativeRing<Additive, Multiplicative> for (A0, A1, A2, A3, A4, A5, A6, A7, A8, A9) {
    proof fn lemma_multiplication_commutes(a: (A0::Model, A1::Model, A2::Model, A3::Model, A4::Model, A5::Model, A6::Model, A7::Model, A8::Model, A9::Model), b: (A0::Model, A1::Model, A2::Model, A3::Model, A4::Model, A5::Model, A6::Model, A7::Model, A8::Model, A9::Model)) {
        A0::lemma_multiplication_commutes(a.0, b.0);
        A1::lemma_multiplication_commutes(a.1, b.1);
        A2::lemma_multiplication_commutes(a.2, b.2);
        A3::lemma_multiplication_commutes(a.3, b.3);
        A4::lemma_multiplication_commutes(a.4, b.4);
        A5::lemma_multiplication_commutes(a.5, b.5);
        A6::lemma_multiplication_commutes(a.6, b.6);
        A7::lemma_multiplication_commutes(a.7, b.7);
        A8::lemma_multiplication_commutes(a.8, b.8);
        A9::lemma_multiplication_commutes(a.9, b.9);
    }
}

impl<A0: Module<Additive, Multiplicative>, A1: Module<Additive, Multiplicative, Scalar = A0::Scalar>, A2: Module<Additive, Multiplicative, Scalar = A0::Scalar>, A3: Module<Additive, Multiplicative, Scalar = A0::Scalar>, A4: Module<Additive, Multiplicative, Scalar = A0::Scalar>, A5: Module<Additive, Multiplicative, Scalar = A0::Scalar>, A6: Module<Additive, Multiplicative, Scalar = A0::Scalar>, A7: Module<Additive, Multiplicative, Scalar = A0::Scalar>, A8: Module<Additive, Multiplicative, Scalar = A0::Scalar>, A9: Module<Additive, Multiplicative, Scalar = A0::Scalar>> Module<Additive, Multiplicative> for (A0, A1, A2, A3, A4, A5, A6, A7, A8, A9) {
    type Scalar = A0::Scalar;

    open spec fn spec_scale(s: <A0::Scalar as Carrier>::Model, v: (A0::Model, A1::Model, A2::Model, A3::Model, A4::Model, A5::Model, A6::Model, A7::Model, A8::Model, A9::Model)) -> (A0::Model, A1::Model, A2::Model, A3::Model, A4::Model, A5::Model, A6::Model, A7::Model, A8::Model, A9::Model) {
        (A0::spec_scale(s, v.0), A1::spec_scale(s, v.1), A2::spec_scale(s, v.2), A3::spec_scale(s, v.3), A4::spec_scale(s, v.4), A5::spec_scale(s, v.5), A6::spec_scale(s, v.6), A7::spec_scale(s, v.7), A8::spec_scale(s, v.8), A9::spec_scale(s, v.9))
    }

    proof fn lemma_module(
        s: <A0::Scalar as Carrier>::Model,
        t: <A0::Scalar as Carrier>::Model,
        u: (A0::Model, A1::Model, A2::Model, A3::Model, A4::Model, A5::Model, A6::Model, A7::Model, A8::Model, A9::Model),
        v: (A0::Model, A1::Model, A2::Model, A3::Model, A4::Model, A5::Model, A6::Model, A7::Model, A8::Model, A9::Model),
    ) {
        A0::lemma_module(s, t, u.0, v.0);
        A1::lemma_module(s, t, u.1, v.1);
        A2::lemma_module(s, t, u.2, v.2);
        A3::lemma_module(s, t, u.3, v.3);
        A4::lemma_module(s, t, u.4, v.4);
        A5::lemma_module(s, t, u.5, v.5);
        A6::lemma_module(s, t, u.6, v.6);
        A7::lemma_module(s, t, u.7, v.7);
        A8::lemma_module(s, t, u.8, v.8);
        A9::lemma_module(s, t, u.9, v.9);
    }

    fn scale(s: &A0::Scalar, v: Self) -> (r: Self) {
        (A0::scale(s, v.0), A1::scale(s, v.1), A2::scale(s, v.2), A3::scale(s, v.3), A4::scale(s, v.4), A5::scale(s, v.5), A6::scale(s, v.6), A7::scale(s, v.7), A8::scale(s, v.8), A9::scale(s, v.9))
    }
}

impl<A0: VectorSpace<Additive, Multiplicative>, A1: VectorSpace<Additive, Multiplicative, Scalar = A0::Scalar>, A2: VectorSpace<Additive, Multiplicative, Scalar = A0::Scalar>, A3: VectorSpace<Additive, Multiplicative, Scalar = A0::Scalar>, A4: VectorSpace<Additive, Multiplicative, Scalar = A0::Scalar>, A5: VectorSpace<Additive, Multiplicative, Scalar = A0::Scalar>, A6: VectorSpace<Additive, Multiplicative, Scalar = A0::Scalar>, A7: VectorSpace<Additive, Multiplicative, Scalar = A0::Scalar>, A8: VectorSpace<Additive, Multiplicative, Scalar = A0::Scalar>, A9: VectorSpace<Additive, Multiplicative, Scalar = A0::Scalar>> VectorSpace<Additive, Multiplicative> for (A0, A1, A2, A3, A4, A5, A6, A7, A8, A9) where
    A0::Scalar: Field<Additive, Multiplicative>,
 {

}

impl<A0: MeetSemilattice, A1: MeetSemilattice, A2: MeetSemilattice, A3: MeetSemilattice, A4: MeetSemilattice, A5: MeetSemilattice, A6: MeetSemilattice, A7: MeetSemilattice, A8: MeetSemilattice, A9: MeetSemilattice> MeetSemilattice for (A0, A1, A2, A3, A4, A5, A6, A7, A8, A9) {
    open spec fn meet_follows_order() -> bool {
        false
    }

    proof fn lemma_meet_follows_order(a: Self, b: Self) {
    }

    open spec fn spec_meet(a: (A0::Model, A1::Model, A2::Model, A3::Model, A4::Model, A5::Model, A6::Model, A7::Model, A8::Model, A9::Model), b: (A0::Model, A1::Model, A2::Model, A3::Model, A4::Model, A5::Model, A6::Model, A7::Model, A8::Model, A9::Model)) -> (A0::Model, A1::Model, A2::Model, A3::Model, A4::Model, A5::Model, A6::Model, A7::Model, A8::Model, A9::Model) {
        (A0::spec_meet(a.0, b.0), A1::spec_meet(a.1, b.1), A2::spec_meet(a.2, b.2), A3::spec_meet(a.3, b.3), A4::spec_meet(a.4, b.4), A5::spec_meet(a.5, b.5), A6::spec_meet(a.6, b.6), A7::spec_meet(a.7, b.7), A8::spec_meet(a.8, b.8), A9::spec_meet(a.9, b.9))
    }

    proof fn lemma_meet_semilattice(a: (A0::Model, A1::Model, A2::Model, A3::Model, A4::Model, A5::Model, A6::Model, A7::Model, A8::Model, A9::Model), b: (A0::Model, A1::Model, A2::Model, A3::Model, A4::Model, A5::Model, A6::Model, A7::Model, A8::Model, A9::Model), c: (A0::Model, A1::Model, A2::Model, A3::Model, A4::Model, A5::Model, A6::Model, A7::Model, A8::Model, A9::Model)) {
        A0::lemma_meet_semilattice(a.0, b.0, c.0);
        A1::lemma_meet_semilattice(a.1, b.1, c.1);
        A2::lemma_meet_semilattice(a.2, b.2, c.2);
        A3::lemma_meet_semilattice(a.3, b.3, c.3);
        A4::lemma_meet_semilattice(a.4, b.4, c.4);
        A5::lemma_meet_semilattice(a.5, b.5, c.5);
        A6::lemma_meet_semilattice(a.6, b.6, c.6);
        A7::lemma_meet_semilattice(a.7, b.7, c.7);
        A8::lemma_meet_semilattice(a.8, b.8, c.8);
        A9::lemma_meet_semilattice(a.9, b.9, c.9);
    }

    fn meet(&self, other: &Self) -> (r: Self) {
        (self.0.meet(&other.0), self.1.meet(&other.1), self.2.meet(&other.2), self.3.meet(&other.3), self.4.meet(&other.4), self.5.meet(&other.5), self.6.meet(&other.6), self.7.meet(&other.7), self.8.meet(&other.8), self.9.meet(&other.9))
    }
}

impl<A0: JoinSemilattice, A1: JoinSemilattice, A2: JoinSemilattice, A3: JoinSemilattice, A4: JoinSemilattice, A5: JoinSemilattice, A6: JoinSemilattice, A7: JoinSemilattice, A8: JoinSemilattice, A9: JoinSemilattice> JoinSemilattice for (A0, A1, A2, A3, A4, A5, A6, A7, A8, A9) {
    open spec fn join_follows_order() -> bool {
        false
    }

    proof fn lemma_join_follows_order(a: Self, b: Self) {
    }

    open spec fn spec_join(a: (A0::Model, A1::Model, A2::Model, A3::Model, A4::Model, A5::Model, A6::Model, A7::Model, A8::Model, A9::Model), b: (A0::Model, A1::Model, A2::Model, A3::Model, A4::Model, A5::Model, A6::Model, A7::Model, A8::Model, A9::Model)) -> (A0::Model, A1::Model, A2::Model, A3::Model, A4::Model, A5::Model, A6::Model, A7::Model, A8::Model, A9::Model) {
        (A0::spec_join(a.0, b.0), A1::spec_join(a.1, b.1), A2::spec_join(a.2, b.2), A3::spec_join(a.3, b.3), A4::spec_join(a.4, b.4), A5::spec_join(a.5, b.5), A6::spec_join(a.6, b.6), A7::spec_join(a.7, b.7), A8::spec_join(a.8, b.8), A9::spec_join(a.9, b.9))
    }

    proof fn lemma_join_semilattice(a: (A0::Model, A1::Model, A2::Model, A3::Model, A4::Model, A5::Model, A6::Model, A7::Model, A8::Model, A9::Model), b: (A0::Model, A1::Model, A2::Model, A3::Model, A4::Model, A5::Model, A6::Model, A7::Model, A8::Model, A9::Model), c: (A0::Model, A1::Model, A2::Model, A3::Model, A4::Model, A5::Model, A6::Model, A7::Model, A8::Model, A9::Model)) {
        A0::lemma_join_semilattice(a.0, b.0, c.0);
        A1::lemma_join_semilattice(a.1, b.1, c.1);
        A2::lemma_join_semilattice(a.2, b.2, c.2);
        A3::lemma_join_semilattice(a.3, b.3, c.3);
        A4::lemma_join_semilattice(a.4, b.4, c.4);
        A5::lemma_join_semilattice(a.5, b.5, c.5);
        A6::lemma_join_semilattice(a.6, b.6, c.6);
        A7::lemma_join_semilattice(a.7, b.7, c.7);
        A8::lemma_join_semilattice(a.8, b.8, c.8);
        A9::lemma_join_semilattice(a.9, b.9, c.9);
    }

    fn join(&self, other: &Self) -> (r: Self) {
        (self.0.join(&other.0), self.1.join(&other.1), self.2.join(&other.2), self.3.join(&other.3), self.4.join(&other.4), self.5.join(&other.5), self.6.join(&other.6), self.7.join(&other.7), self.8.join(&other.8), self.9.join(&other.9))
    }
}

impl<A0: Lattice, A1: Lattice, A2: Lattice, A3: Lattice, A4: Lattice, A5: Lattice, A6: Lattice, A7: Lattice, A8: Lattice, A9: Lattice> Lattice for (A0, A1, A2, A3, A4, A5, A6, A7, A8, A9) {
    proof fn lemma_absorption(a: (A0::Model, A1::Model, A2::Model, A3::Model, A4::Model, A5::Model, A6::Model, A7::Model, A8::Model, A9::Model), b: (A0::Model, A1::Model, A2::Model, A3::Model, A4::Model, A5::Model, A6::Model, A7::Model, A8::Model, A9::Model)) {
        A0::lemma_absorption(a.0, b.0);
        A1::lemma_absorption(a.1, b.1);
        A2::lemma_absorption(a.2, b.2);
        A3::lemma_absorption(a.3, b.3);
        A4::lemma_absorption(a.4, b.4);
        A5::lemma_absorption(a.5, b.5);
        A6::lemma_absorption(a.6, b.6);
        A7::lemma_absorption(a.7, b.7);
        A8::lemma_absorption(a.8, b.8);
        A9::lemma_absorption(a.9, b.9);
    }
}

// ---- arity 11 ----

impl<A0: Carrier, A1: Carrier, A2: Carrier, A3: Carrier, A4: Carrier, A5: Carrier, A6: Carrier, A7: Carrier, A8: Carrier, A9: Carrier, A10: Carrier> Carrier for (A0, A1, A2, A3, A4, A5, A6, A7, A8, A9, A10) {
    type Model = (A0::Model, A1::Model, A2::Model, A3::Model, A4::Model, A5::Model, A6::Model, A7::Model, A8::Model, A9::Model, A10::Model);

    open spec fn model(self) -> (A0::Model, A1::Model, A2::Model, A3::Model, A4::Model, A5::Model, A6::Model, A7::Model, A8::Model, A9::Model, A10::Model) {
        (self.0.model(), self.1.model(), self.2.model(), self.3.model(), self.4.model(), self.5.model(), self.6.model(), self.7.model(), self.8.model(), self.9.model(), self.10.model())
    }

    open spec fn contains(m: (A0::Model, A1::Model, A2::Model, A3::Model, A4::Model, A5::Model, A6::Model, A7::Model, A8::Model, A9::Model, A10::Model)) -> bool {
        A0::contains(m.0)
            && A1::contains(m.1)
            && A2::contains(m.2)
            && A3::contains(m.3)
            && A4::contains(m.4)
            && A5::contains(m.5)
            && A6::contains(m.6)
            && A7::contains(m.7)
            && A8::contains(m.8)
            && A9::contains(m.9)
            && A10::contains(m.10)
    }

    proof fn lemma_model_contained(x: &Self) {
        A0::lemma_model_contained(&x.0);
        A1::lemma_model_contained(&x.1);
        A2::lemma_model_contained(&x.2);
        A3::lemma_model_contained(&x.3);
        A4::lemma_model_contained(&x.4);
        A5::lemma_model_contained(&x.5);
        A6::lemma_model_contained(&x.6);
        A7::lemma_model_contained(&x.7);
        A8::lemma_model_contained(&x.8);
        A9::lemma_model_contained(&x.9);
        A10::lemma_model_contained(&x.10);
    }
}

impl<Op: Operator, A0: Magma<Op>, A1: Magma<Op>, A2: Magma<Op>, A3: Magma<Op>, A4: Magma<Op>, A5: Magma<Op>, A6: Magma<Op>, A7: Magma<Op>, A8: Magma<Op>, A9: Magma<Op>, A10: Magma<Op>> Magma<Op> for (A0, A1, A2, A3, A4, A5, A6, A7, A8, A9, A10) {
    open spec fn spec_combine(a: (A0::Model, A1::Model, A2::Model, A3::Model, A4::Model, A5::Model, A6::Model, A7::Model, A8::Model, A9::Model, A10::Model), b: (A0::Model, A1::Model, A2::Model, A3::Model, A4::Model, A5::Model, A6::Model, A7::Model, A8::Model, A9::Model, A10::Model)) -> (A0::Model, A1::Model, A2::Model, A3::Model, A4::Model, A5::Model, A6::Model, A7::Model, A8::Model, A9::Model, A10::Model) {
        (A0::spec_combine(a.0, b.0), A1::spec_combine(a.1, b.1), A2::spec_combine(a.2, b.2), A3::spec_combine(a.3, b.3), A4::spec_combine(a.4, b.4), A5::spec_combine(a.5, b.5), A6::spec_combine(a.6, b.6), A7::spec_combine(a.7, b.7), A8::spec_combine(a.8, b.8), A9::spec_combine(a.9, b.9), A10::spec_combine(a.10, b.10))
    }

    proof fn lemma_closed(a: (A0::Model, A1::Model, A2::Model, A3::Model, A4::Model, A5::Model, A6::Model, A7::Model, A8::Model, A9::Model, A10::Model), b: (A0::Model, A1::Model, A2::Model, A3::Model, A4::Model, A5::Model, A6::Model, A7::Model, A8::Model, A9::Model, A10::Model)) {
        A0::lemma_closed(a.0, b.0);
        A1::lemma_closed(a.1, b.1);
        A2::lemma_closed(a.2, b.2);
        A3::lemma_closed(a.3, b.3);
        A4::lemma_closed(a.4, b.4);
        A5::lemma_closed(a.5, b.5);
        A6::lemma_closed(a.6, b.6);
        A7::lemma_closed(a.7, b.7);
        A8::lemma_closed(a.8, b.8);
        A9::lemma_closed(a.9, b.9);
        A10::lemma_closed(a.10, b.10);
    }

    fn combine(&self, rhs: &Self) -> (r: Self) {
        (self.0.combine(&rhs.0), self.1.combine(&rhs.1), self.2.combine(&rhs.2), self.3.combine(&rhs.3), self.4.combine(&rhs.4), self.5.combine(&rhs.5), self.6.combine(&rhs.6), self.7.combine(&rhs.7), self.8.combine(&rhs.8), self.9.combine(&rhs.9), self.10.combine(&rhs.10))
    }
}

impl<Op: Operator, A0: Semigroup<Op>, A1: Semigroup<Op>, A2: Semigroup<Op>, A3: Semigroup<Op>, A4: Semigroup<Op>, A5: Semigroup<Op>, A6: Semigroup<Op>, A7: Semigroup<Op>, A8: Semigroup<Op>, A9: Semigroup<Op>, A10: Semigroup<Op>> Semigroup<Op> for (A0, A1, A2, A3, A4, A5, A6, A7, A8, A9, A10) {
    proof fn lemma_associative(a: (A0::Model, A1::Model, A2::Model, A3::Model, A4::Model, A5::Model, A6::Model, A7::Model, A8::Model, A9::Model, A10::Model), b: (A0::Model, A1::Model, A2::Model, A3::Model, A4::Model, A5::Model, A6::Model, A7::Model, A8::Model, A9::Model, A10::Model), c: (A0::Model, A1::Model, A2::Model, A3::Model, A4::Model, A5::Model, A6::Model, A7::Model, A8::Model, A9::Model, A10::Model)) {
        A0::lemma_associative(a.0, b.0, c.0);
        A1::lemma_associative(a.1, b.1, c.1);
        A2::lemma_associative(a.2, b.2, c.2);
        A3::lemma_associative(a.3, b.3, c.3);
        A4::lemma_associative(a.4, b.4, c.4);
        A5::lemma_associative(a.5, b.5, c.5);
        A6::lemma_associative(a.6, b.6, c.6);
        A7::lemma_associative(a.7, b.7, c.7);
        A8::lemma_associative(a.8, b.8, c.8);
        A9::lemma_associative(a.9, b.9, c.9);
        A10::lemma_associative(a.10, b.10, c.10);
    }
}

impl<Op: Operator, A0: Monoid<Op>, A1: Monoid<Op>, A2: Monoid<Op>, A3: Monoid<Op>, A4: Monoid<Op>, A5: Monoid<Op>, A6: Monoid<Op>, A7: Monoid<Op>, A8: Monoid<Op>, A9: Monoid<Op>, A10: Monoid<Op>> Monoid<Op> for (A0, A1, A2, A3, A4, A5, A6, A7, A8, A9, A10) {
    open spec fn spec_identity() -> (A0::Model, A1::Model, A2::Model, A3::Model, A4::Model, A5::Model, A6::Model, A7::Model, A8::Model, A9::Model, A10::Model) {
        (A0::spec_identity(), A1::spec_identity(), A2::spec_identity(), A3::spec_identity(), A4::spec_identity(), A5::spec_identity(), A6::spec_identity(), A7::spec_identity(), A8::spec_identity(), A9::spec_identity(), A10::spec_identity())
    }

    proof fn lemma_identity(a: (A0::Model, A1::Model, A2::Model, A3::Model, A4::Model, A5::Model, A6::Model, A7::Model, A8::Model, A9::Model, A10::Model)) {
        A0::lemma_identity(a.0);
        A1::lemma_identity(a.1);
        A2::lemma_identity(a.2);
        A3::lemma_identity(a.3);
        A4::lemma_identity(a.4);
        A5::lemma_identity(a.5);
        A6::lemma_identity(a.6);
        A7::lemma_identity(a.7);
        A8::lemma_identity(a.8);
        A9::lemma_identity(a.9);
        A10::lemma_identity(a.10);
    }

    fn identity() -> (r: Self) {
        (A0::identity(), A1::identity(), A2::identity(), A3::identity(), A4::identity(), A5::identity(), A6::identity(), A7::identity(), A8::identity(), A9::identity(), A10::identity())
    }
}

impl<A0: Quasigroup<Additive>, A1: Quasigroup<Additive>, A2: Quasigroup<Additive>, A3: Quasigroup<Additive>, A4: Quasigroup<Additive>, A5: Quasigroup<Additive>, A6: Quasigroup<Additive>, A7: Quasigroup<Additive>, A8: Quasigroup<Additive>, A9: Quasigroup<Additive>, A10: Quasigroup<Additive>> Quasigroup<Additive> for (A0, A1, A2, A3, A4, A5, A6, A7, A8, A9, A10) {
    proof fn lemma_latin_square(a: (A0::Model, A1::Model, A2::Model, A3::Model, A4::Model, A5::Model, A6::Model, A7::Model, A8::Model, A9::Model, A10::Model), b: (A0::Model, A1::Model, A2::Model, A3::Model, A4::Model, A5::Model, A6::Model, A7::Model, A8::Model, A9::Model, A10::Model)) {
        A0::lemma_latin_square(a.0, b.0);
        A1::lemma_latin_square(a.1, b.1);
        A2::lemma_latin_square(a.2, b.2);
        A3::lemma_latin_square(a.3, b.3);
        A4::lemma_latin_square(a.4, b.4);
        A5::lemma_latin_square(a.5, b.5);
        A6::lemma_latin_square(a.6, b.6);
        A7::lemma_latin_square(a.7, b.7);
        A8::lemma_latin_square(a.8, b.8);
        A9::lemma_latin_square(a.9, b.9);
        A10::lemma_latin_square(a.10, b.10);
        let x = (left_quotient::<Additive, A0>(a.0, b.0), left_quotient::<Additive, A1>(a.1, b.1), left_quotient::<Additive, A2>(a.2, b.2), left_quotient::<Additive, A3>(a.3, b.3), left_quotient::<Additive, A4>(a.4, b.4), left_quotient::<Additive, A5>(a.5, b.5), left_quotient::<Additive, A6>(a.6, b.6), left_quotient::<Additive, A7>(a.7, b.7), left_quotient::<Additive, A8>(a.8, b.8), left_quotient::<Additive, A9>(a.9, b.9), left_quotient::<Additive, A10>(a.10, b.10));
        let y = (right_quotient::<Additive, A0>(a.0, b.0), right_quotient::<Additive, A1>(a.1, b.1), right_quotient::<Additive, A2>(a.2, b.2), right_quotient::<Additive, A3>(a.3, b.3), right_quotient::<Additive, A4>(a.4, b.4), right_quotient::<Additive, A5>(a.5, b.5), right_quotient::<Additive, A6>(a.6, b.6), right_quotient::<Additive, A7>(a.7, b.7), right_quotient::<Additive, A8>(a.8, b.8), right_quotient::<Additive, A9>(a.9, b.9), right_quotient::<Additive, A10>(a.10, b.10));
        assert(Self::contains(x) && Self::spec_combine(a, x) == b);
        assert(Self::contains(y) && Self::spec_combine(y, a) == b);
        assert forall|x1: (A0::Model, A1::Model, A2::Model, A3::Model, A4::Model, A5::Model, A6::Model, A7::Model, A8::Model, A9::Model, A10::Model), x2: (A0::Model, A1::Model, A2::Model, A3::Model, A4::Model, A5::Model, A6::Model, A7::Model, A8::Model, A9::Model, A10::Model)|
            Self::contains(x1) && Self::contains(x2) && #[trigger] Self::spec_combine(a, x1)
                == #[trigger] Self::spec_combine(a, x2) implies x1 == x2 by {
            assert(A0::spec_combine(a.0, x1.0) == A0::spec_combine(a.0, x2.0));
            assert(A1::spec_combine(a.1, x1.1) == A1::spec_combine(a.1, x2.1));
            assert(A2::spec_combine(a.2, x1.2) == A2::spec_combine(a.2, x2.2));
            assert(A3::spec_combine(a.3, x1.3) == A3::spec_combine(a.3, x2.3));
            assert(A4::spec_combine(a.4, x1.4) == A4::spec_combine(a.4, x2.4));
            assert(A5::spec_combine(a.5, x1.5) == A5::spec_combine(a.5, x2.5));
            assert(A6::spec_combine(a.6, x1.6) == A6::spec_combine(a.6, x2.6));
            assert(A7::spec_combine(a.7, x1.7) == A7::spec_combine(a.7, x2.7));
            assert(A8::spec_combine(a.8, x1.8) == A8::spec_combine(a.8, x2.8));
            assert(A9::spec_combine(a.9, x1.9) == A9::spec_combine(a.9, x2.9));
            assert(A10::spec_combine(a.10, x1.10) == A10::spec_combine(a.10, x2.10));
        }
        assert forall|y1: (A0::Model, A1::Model, A2::Model, A3::Model, A4::Model, A5::Model, A6::Model, A7::Model, A8::Model, A9::Model, A10::Model), y2: (A0::Model, A1::Model, A2::Model, A3::Model, A4::Model, A5::Model, A6::Model, A7::Model, A8::Model, A9::Model, A10::Model)|
            Self::contains(y1) && Self::contains(y2) && #[trigger] Self::spec_combine(y1, a)
                == #[trigger] Self::spec_combine(y2, a) implies y1 == y2 by {
            assert(A0::spec_combine(y1.0, a.0) == A0::spec_combine(y2.0, a.0));
            assert(A1::spec_combine(y1.1, a.1) == A1::spec_combine(y2.1, a.1));
            assert(A2::spec_combine(y1.2, a.2) == A2::spec_combine(y2.2, a.2));
            assert(A3::spec_combine(y1.3, a.3) == A3::spec_combine(y2.3, a.3));
            assert(A4::spec_combine(y1.4, a.4) == A4::spec_combine(y2.4, a.4));
            assert(A5::spec_combine(y1.5, a.5) == A5::spec_combine(y2.5, a.5));
            assert(A6::spec_combine(y1.6, a.6) == A6::spec_combine(y2.6, a.6));
            assert(A7::spec_combine(y1.7, a.7) == A7::spec_combine(y2.7, a.7));
            assert(A8::spec_combine(y1.8, a.8) == A8::spec_combine(y2.8, a.8));
            assert(A9::spec_combine(y1.9, a.9) == A9::spec_combine(y2.9, a.9));
            assert(A10::spec_combine(y1.10, a.10) == A10::spec_combine(y2.10, a.10));
        }
    }
}

impl<A0: Loop<Additive>, A1: Loop<Additive>, A2: Loop<Additive>, A3: Loop<Additive>, A4: Loop<Additive>, A5: Loop<Additive>, A6: Loop<Additive>, A7: Loop<Additive>, A8: Loop<Additive>, A9: Loop<Additive>, A10: Loop<Additive>> Loop<Additive> for (A0, A1, A2, A3, A4, A5, A6, A7, A8, A9, A10) {

}

impl<A0: Group<Additive>, A1: Group<Additive>, A2: Group<Additive>, A3: Group<Additive>, A4: Group<Additive>, A5: Group<Additive>, A6: Group<Additive>, A7: Group<Additive>, A8: Group<Additive>, A9: Group<Additive>, A10: Group<Additive>> Group<Additive> for (A0, A1, A2, A3, A4, A5, A6, A7, A8, A9, A10) {
    open spec fn spec_inverse(a: (A0::Model, A1::Model, A2::Model, A3::Model, A4::Model, A5::Model, A6::Model, A7::Model, A8::Model, A9::Model, A10::Model)) -> (A0::Model, A1::Model, A2::Model, A3::Model, A4::Model, A5::Model, A6::Model, A7::Model, A8::Model, A9::Model, A10::Model) {
        (A0::spec_inverse(a.0), A1::spec_inverse(a.1), A2::spec_inverse(a.2), A3::spec_inverse(a.3), A4::spec_inverse(a.4), A5::spec_inverse(a.5), A6::spec_inverse(a.6), A7::spec_inverse(a.7), A8::spec_inverse(a.8), A9::spec_inverse(a.9), A10::spec_inverse(a.10))
    }

    proof fn lemma_inverse(a: (A0::Model, A1::Model, A2::Model, A3::Model, A4::Model, A5::Model, A6::Model, A7::Model, A8::Model, A9::Model, A10::Model)) {
        A0::lemma_inverse(a.0);
        A1::lemma_inverse(a.1);
        A2::lemma_inverse(a.2);
        A3::lemma_inverse(a.3);
        A4::lemma_inverse(a.4);
        A5::lemma_inverse(a.5);
        A6::lemma_inverse(a.6);
        A7::lemma_inverse(a.7);
        A8::lemma_inverse(a.8);
        A9::lemma_inverse(a.9);
        A10::lemma_inverse(a.10);
    }

    fn inverse(&self) -> (r: Self) {
        (self.0.inverse(), self.1.inverse(), self.2.inverse(), self.3.inverse(), self.4.inverse(), self.5.inverse(), self.6.inverse(), self.7.inverse(), self.8.inverse(), self.9.inverse(), self.10.inverse())
    }
}

impl<A0: AbelianGroup<Additive>, A1: AbelianGroup<Additive>, A2: AbelianGroup<Additive>, A3: AbelianGroup<Additive>, A4: AbelianGroup<Additive>, A5: AbelianGroup<Additive>, A6: AbelianGroup<Additive>, A7: AbelianGroup<Additive>, A8: AbelianGroup<Additive>, A9: AbelianGroup<Additive>, A10: AbelianGroup<Additive>> AbelianGroup<Additive> for (A0, A1, A2, A3, A4, A5, A6, A7, A8, A9, A10) {
    proof fn lemma_commutative(a: (A0::Model, A1::Model, A2::Model, A3::Model, A4::Model, A5::Model, A6::Model, A7::Model, A8::Model, A9::Model, A10::Model), b: (A0::Model, A1::Model, A2::Model, A3::Model, A4::Model, A5::Model, A6::Model, A7::Model, A8::Model, A9::Model, A10::Model)) {
        A0::lemma_commutative(a.0, b.0);
        A1::lemma_commutative(a.1, b.1);
        A2::lemma_commutative(a.2, b.2);
        A3::lemma_commutative(a.3, b.3);
        A4::lemma_commutative(a.4, b.4);
        A5::lemma_commutative(a.5, b.5);
        A6::lemma_commutative(a.6, b.6);
        A7::lemma_commutative(a.7, b.7);
        A8::lemma_commutative(a.8, b.8);
        A9::lemma_commutative(a.9, b.9);
        A10::lemma_commutative(a.10, b.10);
    }
}

impl<A0: Semiring<Additive, Multiplicative>, A1: Semiring<Additive, Multiplicative>, A2: Semiring<Additive, Multiplicative>, A3: Semiring<Additive, Multiplicative>, A4: Semiring<Additive, Multiplicative>, A5: Semiring<Additive, Multiplicative>, A6: Semiring<Additive, Multiplicative>, A7: Semiring<Additive, Multiplicative>, A8: Semiring<Additive, Multiplicative>, A9: Semiring<Additive, Multiplicative>, A10: Semiring<Additive, Multiplicative>> Semiring<Additive, Multiplicative> for (A0, A1, A2, A3, A4, A5, A6, A7, A8, A9, A10) {
    proof fn lemma_distributive(a: (A0::Model, A1::Model, A2::Model, A3::Model, A4::Model, A5::Model, A6::Model, A7::Model, A8::Model, A9::Model, A10::Model), b: (A0::Model, A1::Model, A2::Model, A3::Model, A4::Model, A5::Model, A6::Model, A7::Model, A8::Model, A9::Model, A10::Model), c: (A0::Model, A1::Model, A2::Model, A3::Model, A4::Model, A5::Model, A6::Model, A7::Model, A8::Model, A9::Model, A10::Model)) {
        A0::lemma_distributive(a.0, b.0, c.0);
        A1::lemma_distributive(a.1, b.1, c.1);
        A2::lemma_distributive(a.2, b.2, c.2);
        A3::lemma_distributive(a.3, b.3, c.3);
        A4::lemma_distributive(a.4, b.4, c.4);
        A5::lemma_distributive(a.5, b.5, c.5);
        A6::lemma_distributive(a.6, b.6, c.6);
        A7::lemma_distributive(a.7, b.7, c.7);
        A8::lemma_distributive(a.8, b.8, c.8);
        A9::lemma_distributive(a.9, b.9, c.9);
        A10::lemma_distributive(a.10, b.10, c.10);
    }
}

impl<A0: Ring<Additive, Multiplicative>, A1: Ring<Additive, Multiplicative>, A2: Ring<Additive, Multiplicative>, A3: Ring<Additive, Multiplicative>, A4: Ring<Additive, Multiplicative>, A5: Ring<Additive, Multiplicative>, A6: Ring<Additive, Multiplicative>, A7: Ring<Additive, Multiplicative>, A8: Ring<Additive, Multiplicative>, A9: Ring<Additive, Multiplicative>, A10: Ring<Additive, Multiplicative>> Ring<Additive, Multiplicative> for (A0, A1, A2, A3, A4, A5, A6, A7, A8, A9, A10) {

}

impl<A0: CommutativeRing<Additive, Multiplicative>, A1: CommutativeRing<Additive, Multiplicative>, A2: CommutativeRing<Additive, Multiplicative>, A3: CommutativeRing<Additive, Multiplicative>, A4: CommutativeRing<Additive, Multiplicative>, A5: CommutativeRing<Additive, Multiplicative>, A6: CommutativeRing<Additive, Multiplicative>, A7: CommutativeRing<Additive, Multiplicative>, A8: CommutativeRing<Additive, Multiplicative>, A9: CommutativeRing<Additive, Multiplicative>, A10: CommutativeRing<Additive, Multiplicative>> CommutativeRing<Additive, Multiplicative> for (A0, A1, A2, A3, A4, A5, A6, A7, A8, A9, A10) {
    proof fn lemma_multiplication_commutes(a: (A0::Model, A1::Model, A2::Model, A3::Model, A4::Model, A5::Model, A6::Model, A7::Model, A8::Model, A9::Model, A10::Model), b: (A0::Model, A1::Model, A2::Model, A3::Model, A4::Model, A5::Model, A6::Model, A7::Model, A8::Model, A9::Model, A10::Model)) {
        A0::lemma_multiplication_commutes(a.0, b.0);
        A1::lemma_multiplication_commutes(a.1, b.1);
        A2::lemma_multiplication_commutes(a.2, b.2);
        A3::lemma_multiplication_commutes(a.3, b.3);
        A4::lemma_multiplication_commutes(a.4, b.4);
        A5::lemma_multiplication_commutes(a.5, b.5);
        A6::lemma_multiplication_commutes(a.6, b.6);
        A7::lemma_multiplication_commutes(a.7, b.7);
        A8::lemma_multiplication_commutes(a.8, b.8);
        A9::lemma_multiplication_commutes(a.9, b.9);
        A10::lemma_multiplication_commutes(a.10, b.10);
    }
}

impl<A0: Module<Additive, Multiplicative>, A1: Module<Additive, Multiplicative, Scalar = A0::Scalar>, A2: Module<Additive, Multiplicative, Scalar = A0::Scalar>, A3: Module<Additive, Multiplicative, Scalar = A0::Scalar>, A4: Module<Additive, Multiplicative, Scalar = A0::Scalar>, A5: Module<Additive, Multiplicative, Scalar = A0::Scalar>, A6: Module<Additive, Multiplicative, Scalar = A0::Scalar>, A7: Module<Additive, Multiplicative, Scalar = A0::Scalar>, A8: Module<Additive, Multiplicative, Scalar = A0::Scalar>, A9: Module<Additive, Multiplicative, Scalar = A0::Scalar>, A10: Module<Additive, Multiplicative, Scalar = A0::Scalar>> Module<Additive, Multiplicative> for (A0, A1, A2, A3, A4, A5, A6, A7, A8, A9, A10) {
    type Scalar = A0::Scalar;

    open spec fn spec_scale(s: <A0::Scalar as Carrier>::Model, v: (A0::Model, A1::Model, A2::Model, A3::Model, A4::Model, A5::Model, A6::Model, A7::Model, A8::Model, A9::Model, A10::Model)) -> (A0::Model, A1::Model, A2::Model, A3::Model, A4::Model, A5::Model, A6::Model, A7::Model, A8::Model, A9::Model, A10::Model) {
        (A0::spec_scale(s, v.0), A1::spec_scale(s, v.1), A2::spec_scale(s, v.2), A3::spec_scale(s, v.3), A4::spec_scale(s, v.4), A5::spec_scale(s, v.5), A6::spec_scale(s, v.6), A7::spec_scale(s, v.7), A8::spec_scale(s, v.8), A9::spec_scale(s, v.9), A10::spec_scale(s, v.10))
    }

    proof fn lemma_module(
        s: <A0::Scalar as Carrier>::Model,
        t: <A0::Scalar as Carrier>::Model,
        u: (A0::Model, A1::Model, A2::Model, A3::Model, A4::Model, A5::Model, A6::Model, A7::Model, A8::Model, A9::Model, A10::Model),
        v: (A0::Model, A1::Model, A2::Model, A3::Model, A4::Model, A5::Model, A6::Model, A7::Model, A8::Model, A9::Model, A10::Model),
    ) {
        A0::lemma_module(s, t, u.0, v.0);
        A1::lemma_module(s, t, u.1, v.1);
        A2::lemma_module(s, t, u.2, v.2);
        A3::lemma_module(s, t, u.3, v.3);
        A4::lemma_module(s, t, u.4, v.4);
        A5::lemma_module(s, t, u.5, v.5);
        A6::lemma_module(s, t, u.6, v.6);
        A7::lemma_module(s, t, u.7, v.7);
        A8::lemma_module(s, t, u.8, v.8);
        A9::lemma_module(s, t, u.9, v.9);
        A10::lemma_module(s, t, u.10, v.10);
    }

    fn scale(s: &A0::Scalar, v: Self) -> (r: Self) {
        (A0::scale(s, v.0), A1::scale(s, v.1), A2::scale(s, v.2), A3::scale(s, v.3), A4::scale(s, v.4), A5::scale(s, v.5), A6::scale(s, v.6), A7::scale(s, v.7), A8::scale(s, v.8), A9::scale(s, v.9), A10::scale(s, v.10))
    }
}

impl<A0: VectorSpace<Additive, Multiplicative>, A1: VectorSpace<Additive, Multiplicative, Scalar = A0::Scalar>, A2: VectorSpace<Additive, Multiplicative, Scalar = A0::Scalar>, A3: VectorSpace<Additive, Multiplicative, Scalar = A0::Scalar>, A4: VectorSpace<Additive, Multiplicative, Scalar = A0::Scalar>, A5: VectorSpace<Additive, Multiplicative, Scalar = A0::Scalar>, A6: VectorSpace<Additive, Multiplicative, Scalar = A0::Scalar>, A7: VectorSpace<Additive, Multiplicative, Scalar = A0::Scalar>, A8: VectorSpace<Additive, Multiplicative, Scalar = A0::Scalar>, A9: VectorSpace<Additive, Multiplicative, Scalar = A0::Scalar>, A10: VectorSpace<Additive, Multiplicative, Scalar = A0::Scalar>> VectorSpace<Additive, Multiplicative> for (A0, A1, A2, A3, A4, A5, A6, A7, A8, A9, A10) where
    A0::Scalar: Field<Additive, Multiplicative>,
 {

}

impl<A0: MeetSemilattice, A1: MeetSemilattice, A2: MeetSemilattice, A3: MeetSemilattice, A4: MeetSemilattice, A5: MeetSemilattice, A6: MeetSemilattice, A7: MeetSemilattice, A8: MeetSemilattice, A9: MeetSemilattice, A10: MeetSemilattice> MeetSemilattice for (A0, A1, A2, A3, A4, A5, A6, A7, A8, A9, A10) {
    open spec fn meet_follows_order() -> bool {
        false
    }

    proof fn lemma_meet_follows_order(a: Self, b: Self) {
    }

    open spec fn spec_meet(a: (A0::Model, A1::Model, A2::Model, A3::Model, A4::Model, A5::Model, A6::Model, A7::Model, A8::Model, A9::Model, A10::Model), b: (A0::Model, A1::Model, A2::Model, A3::Model, A4::Model, A5::Model, A6::Model, A7::Model, A8::Model, A9::Model, A10::Model)) -> (A0::Model, A1::Model, A2::Model, A3::Model, A4::Model, A5::Model, A6::Model, A7::Model, A8::Model, A9::Model, A10::Model) {
        (A0::spec_meet(a.0, b.0), A1::spec_meet(a.1, b.1), A2::spec_meet(a.2, b.2), A3::spec_meet(a.3, b.3), A4::spec_meet(a.4, b.4), A5::spec_meet(a.5, b.5), A6::spec_meet(a.6, b.6), A7::spec_meet(a.7, b.7), A8::spec_meet(a.8, b.8), A9::spec_meet(a.9, b.9), A10::spec_meet(a.10, b.10))
    }

    proof fn lemma_meet_semilattice(a: (A0::Model, A1::Model, A2::Model, A3::Model, A4::Model, A5::Model, A6::Model, A7::Model, A8::Model, A9::Model, A10::Model), b: (A0::Model, A1::Model, A2::Model, A3::Model, A4::Model, A5::Model, A6::Model, A7::Model, A8::Model, A9::Model, A10::Model), c: (A0::Model, A1::Model, A2::Model, A3::Model, A4::Model, A5::Model, A6::Model, A7::Model, A8::Model, A9::Model, A10::Model)) {
        A0::lemma_meet_semilattice(a.0, b.0, c.0);
        A1::lemma_meet_semilattice(a.1, b.1, c.1);
        A2::lemma_meet_semilattice(a.2, b.2, c.2);
        A3::lemma_meet_semilattice(a.3, b.3, c.3);
        A4::lemma_meet_semilattice(a.4, b.4, c.4);
        A5::lemma_meet_semilattice(a.5, b.5, c.5);
        A6::lemma_meet_semilattice(a.6, b.6, c.6);
        A7::lemma_meet_semilattice(a.7, b.7, c.7);
        A8::lemma_meet_semilattice(a.8, b.8, c.8);
        A9::lemma_meet_semilattice(a.9, b.9, c.9);
        A10::lemma_meet_semilattice(a.10, b.10, c.10);
    }

    fn meet(&self, other: &Self) -> (r: Self) {
        (self.0.meet(&other.0), self.1.meet(&other.1), self.2.meet(&other.2), self.3.meet(&other.3), self.4.meet(&other.4), self.5.meet(&other.5), self.6.meet(&other.6), self.7.meet(&other.7), self.8.meet(&other.8), self.9.meet(&other.9), self.10.meet(&other.10))
    }
}

impl<A0: JoinSemilattice, A1: JoinSemilattice, A2: JoinSemilattice, A3: JoinSemilattice, A4: JoinSemilattice, A5: JoinSemilattice, A6: JoinSemilattice, A7: JoinSemilattice, A8: JoinSemilattice, A9: JoinSemilattice, A10: JoinSemilattice> JoinSemilattice for (A0, A1, A2, A3, A4, A5, A6, A7, A8, A9, A10) {
    open spec fn join_follows_order() -> bool {
        false
    }

    proof fn lemma_join_follows_order(a: Self, b: Self) {
    }

    open spec fn spec_join(a: (A0::Model, A1::Model, A2::Model, A3::Model, A4::Model, A5::Model, A6::Model, A7::Model, A8::Model, A9::Model, A10::Model), b: (A0::Model, A1::Model, A2::Model, A3::Model, A4::Model, A5::Model, A6::Model, A7::Model, A8::Model, A9::Model, A10::Model)) -> (A0::Model, A1::Model, A2::Model, A3::Model, A4::Model, A5::Model, A6::Model, A7::Model, A8::Model, A9::Model, A10::Model) {
        (A0::spec_join(a.0, b.0), A1::spec_join(a.1, b.1), A2::spec_join(a.2, b.2), A3::spec_join(a.3, b.3), A4::spec_join(a.4, b.4), A5::spec_join(a.5, b.5), A6::spec_join(a.6, b.6), A7::spec_join(a.7, b.7), A8::spec_join(a.8, b.8), A9::spec_join(a.9, b.9), A10::spec_join(a.10, b.10))
    }

    proof fn lemma_join_semilattice(a: (A0::Model, A1::Model, A2::Model, A3::Model, A4::Model, A5::Model, A6::Model, A7::Model, A8::Model, A9::Model, A10::Model), b: (A0::Model, A1::Model, A2::Model, A3::Model, A4::Model, A5::Model, A6::Model, A7::Model, A8::Model, A9::Model, A10::Model), c: (A0::Model, A1::Model, A2::Model, A3::Model, A4::Model, A5::Model, A6::Model, A7::Model, A8::Model, A9::Model, A10::Model)) {
        A0::lemma_join_semilattice(a.0, b.0, c.0);
        A1::lemma_join_semilattice(a.1, b.1, c.1);
        A2::lemma_join_semilattice(a.2, b.2, c.2);
        A3::lemma_join_semilattice(a.3, b.3, c.3);
        A4::lemma_join_semilattice(a.4, b.4, c.4);
        A5::lemma_join_semilattice(a.5, b.5, c.5);
        A6::lemma_join_semilattice(a.6, b.6, c.6);
        A7::lemma_join_semilattice(a.7, b.7, c.7);
        A8::lemma_join_semilattice(a.8, b.8, c.8);
        A9::lemma_join_semilattice(a.9, b.9, c.9);
        A10::lemma_join_semilattice(a.10, b.10, c.10);
    }

    fn join(&self, other: &Self) -> (r: Self) {
        (self.0.join(&other.0), self.1.join(&other.1), self.2.join(&other.2), self.3.join(&other.3), self.4.join(&other.4), self.5.join(&other.5), self.6.join(&other.6), self.7.join(&other.7), self.8.join(&other.8), self.9.join(&other.9), self.10.join(&other.10))
    }
}

impl<A0: Lattice, A1: Lattice, A2: Lattice, A3: Lattice, A4: Lattice, A5: Lattice, A6: Lattice, A7: Lattice, A8: Lattice, A9: Lattice, A10: Lattice> Lattice for (A0, A1, A2, A3, A4, A5, A6, A7, A8, A9, A10) {
    proof fn lemma_absorption(a: (A0::Model, A1::Model, A2::Model, A3::Model, A4::Model, A5::Model, A6::Model, A7::Model, A8::Model, A9::Model, A10::Model), b: (A0::Model, A1::Model, A2::Model, A3::Model, A4::Model, A5::Model, A6::Model, A7::Model, A8::Model, A9::Model, A10::Model)) {
        A0::lemma_absorption(a.0, b.0);
        A1::lemma_absorption(a.1, b.1);
        A2::lemma_absorption(a.2, b.2);
        A3::lemma_absorption(a.3, b.3);
        A4::lemma_absorption(a.4, b.4);
        A5::lemma_absorption(a.5, b.5);
        A6::lemma_absorption(a.6, b.6);
        A7::lemma_absorption(a.7, b.7);
        A8::lemma_absorption(a.8, b.8);
        A9::lemma_absorption(a.9, b.9);
        A10::lemma_absorption(a.10, b.10);
    }
}

// ---- arity 12 ----

impl<A0: Carrier, A1: Carrier, A2: Carrier, A3: Carrier, A4: Carrier, A5: Carrier, A6: Carrier, A7: Carrier, A8: Carrier, A9: Carrier, A10: Carrier, A11: Carrier> Carrier for (A0, A1, A2, A3, A4, A5, A6, A7, A8, A9, A10, A11) {
    type Model = (A0::Model, A1::Model, A2::Model, A3::Model, A4::Model, A5::Model, A6::Model, A7::Model, A8::Model, A9::Model, A10::Model, A11::Model);

    open spec fn model(self) -> (A0::Model, A1::Model, A2::Model, A3::Model, A4::Model, A5::Model, A6::Model, A7::Model, A8::Model, A9::Model, A10::Model, A11::Model) {
        (self.0.model(), self.1.model(), self.2.model(), self.3.model(), self.4.model(), self.5.model(), self.6.model(), self.7.model(), self.8.model(), self.9.model(), self.10.model(), self.11.model())
    }

    open spec fn contains(m: (A0::Model, A1::Model, A2::Model, A3::Model, A4::Model, A5::Model, A6::Model, A7::Model, A8::Model, A9::Model, A10::Model, A11::Model)) -> bool {
        A0::contains(m.0)
            && A1::contains(m.1)
            && A2::contains(m.2)
            && A3::contains(m.3)
            && A4::contains(m.4)
            && A5::contains(m.5)
            && A6::contains(m.6)
            && A7::contains(m.7)
            && A8::contains(m.8)
            && A9::contains(m.9)
            && A10::contains(m.10)
            && A11::contains(m.11)
    }

    proof fn lemma_model_contained(x: &Self) {
        A0::lemma_model_contained(&x.0);
        A1::lemma_model_contained(&x.1);
        A2::lemma_model_contained(&x.2);
        A3::lemma_model_contained(&x.3);
        A4::lemma_model_contained(&x.4);
        A5::lemma_model_contained(&x.5);
        A6::lemma_model_contained(&x.6);
        A7::lemma_model_contained(&x.7);
        A8::lemma_model_contained(&x.8);
        A9::lemma_model_contained(&x.9);
        A10::lemma_model_contained(&x.10);
        A11::lemma_model_contained(&x.11);
    }
}

impl<Op: Operator, A0: Magma<Op>, A1: Magma<Op>, A2: Magma<Op>, A3: Magma<Op>, A4: Magma<Op>, A5: Magma<Op>, A6: Magma<Op>, A7: Magma<Op>, A8: Magma<Op>, A9: Magma<Op>, A10: Magma<Op>, A11: Magma<Op>> Magma<Op> for (A0, A1, A2, A3, A4, A5, A6, A7, A8, A9, A10, A11) {
    open spec fn spec_combine(a: (A0::Model, A1::Model, A2::Model, A3::Model, A4::Model, A5::Model, A6::Model, A7::Model, A8::Model, A9::Model, A10::Model, A11::Model), b: (A0::Model, A1::Model, A2::Model, A3::Model, A4::Model, A5::Model, A6::Model, A7::Model, A8::Model, A9::Model, A10::Model, A11::Model)) -> (A0::Model, A1::Model, A2::Model, A3::Model, A4::Model, A5::Model, A6::Model, A7::Model, A8::Model, A9::Model, A10::Model, A11::Model) {
        (A0::spec_combine(a.0, b.0), A1::spec_combine(a.1, b.1), A2::spec_combine(a.2, b.2), A3::spec_combine(a.3, b.3), A4::spec_combine(a.4, b.4), A5::spec_combine(a.5, b.5), A6::spec_combine(a.6, b.6), A7::spec_combine(a.7, b.7), A8::spec_combine(a.8, b.8), A9::spec_combine(a.9, b.9), A10::spec_combine(a.10, b.10), A11::spec_combine(a.11, b.11))
    }

    proof fn lemma_closed(a: (A0::Model, A1::Model, A2::Model, A3::Model, A4::Model, A5::Model, A6::Model, A7::Model, A8::Model, A9::Model, A10::Model, A11::Model), b: (A0::Model, A1::Model, A2::Model, A3::Model, A4::Model, A5::Model, A6::Model, A7::Model, A8::Model, A9::Model, A10::Model, A11::Model)) {
        A0::lemma_closed(a.0, b.0);
        A1::lemma_closed(a.1, b.1);
        A2::lemma_closed(a.2, b.2);
        A3::lemma_closed(a.3, b.3);
        A4::lemma_closed(a.4, b.4);
        A5::lemma_closed(a.5, b.5);
        A6::lemma_closed(a.6, b.6);
        A7::lemma_closed(a.7, b.7);
        A8::lemma_closed(a.8, b.8);
        A9::lemma_closed(a.9, b.9);
        A10::lemma_closed(a.10, b.10);
        A11::lemma_closed(a.11, b.11);
    }

    fn combine(&self, rhs: &Self) -> (r: Self) {
        (self.0.combine(&rhs.0), self.1.combine(&rhs.1), self.2.combine(&rhs.2), self.3.combine(&rhs.3), self.4.combine(&rhs.4), self.5.combine(&rhs.5), self.6.combine(&rhs.6), self.7.combine(&rhs.7), self.8.combine(&rhs.8), self.9.combine(&rhs.9), self.10.combine(&rhs.10), self.11.combine(&rhs.11))
    }
}

impl<Op: Operator, A0: Semigroup<Op>, A1: Semigroup<Op>, A2: Semigroup<Op>, A3: Semigroup<Op>, A4: Semigroup<Op>, A5: Semigroup<Op>, A6: Semigroup<Op>, A7: Semigroup<Op>, A8: Semigroup<Op>, A9: Semigroup<Op>, A10: Semigroup<Op>, A11: Semigroup<Op>> Semigroup<Op> for (A0, A1, A2, A3, A4, A5, A6, A7, A8, A9, A10, A11) {
    proof fn lemma_associative(a: (A0::Model, A1::Model, A2::Model, A3::Model, A4::Model, A5::Model, A6::Model, A7::Model, A8::Model, A9::Model, A10::Model, A11::Model), b: (A0::Model, A1::Model, A2::Model, A3::Model, A4::Model, A5::Model, A6::Model, A7::Model, A8::Model, A9::Model, A10::Model, A11::Model), c: (A0::Model, A1::Model, A2::Model, A3::Model, A4::Model, A5::Model, A6::Model, A7::Model, A8::Model, A9::Model, A10::Model, A11::Model)) {
        A0::lemma_associative(a.0, b.0, c.0);
        A1::lemma_associative(a.1, b.1, c.1);
        A2::lemma_associative(a.2, b.2, c.2);
        A3::lemma_associative(a.3, b.3, c.3);
        A4::lemma_associative(a.4, b.4, c.4);
        A5::lemma_associative(a.5, b.5, c.5);
        A6::lemma_associative(a.6, b.6, c.6);
        A7::lemma_associative(a.7, b.7, c.7);
        A8::lemma_associative(a.8, b.8, c.8);
        A9::lemma_associative(a.9, b.9, c.9);
        A10::lemma_associative(a.10, b.10, c.10);
        A11::lemma_associative(a.11, b.11, c.11);
    }
}

impl<Op: Operator, A0: Monoid<Op>, A1: Monoid<Op>, A2: Monoid<Op>, A3: Monoid<Op>, A4: Monoid<Op>, A5: Monoid<Op>, A6: Monoid<Op>, A7: Monoid<Op>, A8: Monoid<Op>, A9: Monoid<Op>, A10: Monoid<Op>, A11: Monoid<Op>> Monoid<Op> for (A0, A1, A2, A3, A4, A5, A6, A7, A8, A9, A10, A11) {
    open spec fn spec_identity() -> (A0::Model, A1::Model, A2::Model, A3::Model, A4::Model, A5::Model, A6::Model, A7::Model, A8::Model, A9::Model, A10::Model, A11::Model) {
        (A0::spec_identity(), A1::spec_identity(), A2::spec_identity(), A3::spec_identity(), A4::spec_identity(), A5::spec_identity(), A6::spec_identity(), A7::spec_identity(), A8::spec_identity(), A9::spec_identity(), A10::spec_identity(), A11::spec_identity())
    }

    proof fn lemma_identity(a: (A0::Model, A1::Model, A2::Model, A3::Model, A4::Model, A5::Model, A6::Model, A7::Model, A8::Model, A9::Model, A10::Model, A11::Model)) {
        A0::lemma_identity(a.0);
        A1::lemma_identity(a.1);
        A2::lemma_identity(a.2);
        A3::lemma_identity(a.3);
        A4::lemma_identity(a.4);
        A5::lemma_identity(a.5);
        A6::lemma_identity(a.6);
        A7::lemma_identity(a.7);
        A8::lemma_identity(a.8);
        A9::lemma_identity(a.9);
        A10::lemma_identity(a.10);
        A11::lemma_identity(a.11);
    }

    fn identity() -> (r: Self) {
        (A0::identity(), A1::identity(), A2::identity(), A3::identity(), A4::identity(), A5::identity(), A6::identity(), A7::identity(), A8::identity(), A9::identity(), A10::identity(), A11::identity())
    }
}

impl<A0: Quasigroup<Additive>, A1: Quasigroup<Additive>, A2: Quasigroup<Additive>, A3: Quasigroup<Additive>, A4: Quasigroup<Additive>, A5: Quasigroup<Additive>, A6: Quasigroup<Additive>, A7: Quasigroup<Additive>, A8: Quasigroup<Additive>, A9: Quasigroup<Additive>, A10: Quasigroup<Additive>, A11: Quasigroup<Additive>> Quasigroup<Additive> for (A0, A1, A2, A3, A4, A5, A6, A7, A8, A9, A10, A11) {
    proof fn lemma_latin_square(a: (A0::Model, A1::Model, A2::Model, A3::Model, A4::Model, A5::Model, A6::Model, A7::Model, A8::Model, A9::Model, A10::Model, A11::Model), b: (A0::Model, A1::Model, A2::Model, A3::Model, A4::Model, A5::Model, A6::Model, A7::Model, A8::Model, A9::Model, A10::Model, A11::Model)) {
        A0::lemma_latin_square(a.0, b.0);
        A1::lemma_latin_square(a.1, b.1);
        A2::lemma_latin_square(a.2, b.2);
        A3::lemma_latin_square(a.3, b.3);
        A4::lemma_latin_square(a.4, b.4);
        A5::lemma_latin_square(a.5, b.5);
        A6::lemma_latin_square(a.6, b.6);
        A7::lemma_latin_square(a.7, b.7);
        A8::lemma_latin_square(a.8, b.8);
        A9::lemma_latin_square(a.9, b.9);
        A10::lemma_latin_square(a.10, b.10);
        A11::lemma_latin_square(a.11, b.11);
        let x = (left_quotient::<Additive, A0>(a.0, b.0), left_quotient::<Additive, A1>(a.1, b.1), left_quotient::<Additive, A2>(a.2, b.2), left_quotient::<Additive, A3>(a.3, b.3), left_quotient::<Additive, A4>(a.4, b.4), left_quotient::<Additive, A5>(a.5, b.5), left_quotient::<Additive, A6>(a.6, b.6), left_quotient::<Additive, A7>(a.7, b.7), left_quotient::<Additive, A8>(a.8, b.8), left_quotient::<Additive, A9>(a.9, b.9), left_quotient::<Additive, A10>(a.10, b.10), left_quotient::<Additive, A11>(a.11, b.11));
        let y = (right_quotient::<Additive, A0>(a.0, b.0), right_quotient::<Additive, A1>(a.1, b.1), right_quotient::<Additive, A2>(a.2, b.2), right_quotient::<Additive, A3>(a.3, b.3), right_quotient::<Additive, A4>(a.4, b.4), right_quotient::<Additive, A5>(a.5, b.5), right_quotient::<Additive, A6>(a.6, b.6), right_quotient::<Additive, A7>(a.7, b.7), right_quotient::<Additive, A8>(a.8, b.8), right_quotient::<Additive, A9>(a.9, b.9), right_quotient::<Additive, A10>(a.10, b.10), right_quotient::<Additive, A11>(a.11, b.11));
        assert(Self::contains(x) && Self::spec_combine(a, x) == b);
        assert(Self::contains(y) && Self::spec_combine(y, a) == b);
        assert forall|x1: (A0::Model, A1::Model, A2::Model, A3::Model, A4::Model, A5::Model, A6::Model, A7::Model, A8::Model, A9::Model, A10::Model, A11::Model), x2: (A0::Model, A1::Model, A2::Model, A3::Model, A4::Model, A5::Model, A6::Model, A7::Model, A8::Model, A9::Model, A10::Model, A11::Model)|
            Self::contains(x1) && Self::contains(x2) && #[trigger] Self::spec_combine(a, x1)
                == #[trigger] Self::spec_combine(a, x2) implies x1 == x2 by {
            assert(A0::spec_combine(a.0, x1.0) == A0::spec_combine(a.0, x2.0));
            assert(A1::spec_combine(a.1, x1.1) == A1::spec_combine(a.1, x2.1));
            assert(A2::spec_combine(a.2, x1.2) == A2::spec_combine(a.2, x2.2));
            assert(A3::spec_combine(a.3, x1.3) == A3::spec_combine(a.3, x2.3));
            assert(A4::spec_combine(a.4, x1.4) == A4::spec_combine(a.4, x2.4));
            assert(A5::spec_combine(a.5, x1.5) == A5::spec_combine(a.5, x2.5));
            assert(A6::spec_combine(a.6, x1.6) == A6::spec_combine(a.6, x2.6));
            assert(A7::spec_combine(a.7, x1.7) == A7::spec_combine(a.7, x2.7));
            assert(A8::spec_combine(a.8, x1.8) == A8::spec_combine(a.8, x2.8));
            assert(A9::spec_combine(a.9, x1.9) == A9::spec_combine(a.9, x2.9));
            assert(A10::spec_combine(a.10, x1.10) == A10::spec_combine(a.10, x2.10));
            assert(A11::spec_combine(a.11, x1.11) == A11::spec_combine(a.11, x2.11));
        }
        assert forall|y1: (A0::Model, A1::Model, A2::Model, A3::Model, A4::Model, A5::Model, A6::Model, A7::Model, A8::Model, A9::Model, A10::Model, A11::Model), y2: (A0::Model, A1::Model, A2::Model, A3::Model, A4::Model, A5::Model, A6::Model, A7::Model, A8::Model, A9::Model, A10::Model, A11::Model)|
            Self::contains(y1) && Self::contains(y2) && #[trigger] Self::spec_combine(y1, a)
                == #[trigger] Self::spec_combine(y2, a) implies y1 == y2 by {
            assert(A0::spec_combine(y1.0, a.0) == A0::spec_combine(y2.0, a.0));
            assert(A1::spec_combine(y1.1, a.1) == A1::spec_combine(y2.1, a.1));
            assert(A2::spec_combine(y1.2, a.2) == A2::spec_combine(y2.2, a.2));
            assert(A3::spec_combine(y1.3, a.3) == A3::spec_combine(y2.3, a.3));
            assert(A4::spec_combine(y1.4, a.4) == A4::spec_combine(y2.4, a.4));
            assert(A5::spec_combine(y1.5, a.5) == A5::spec_combine(y2.5, a.5));
            assert(A6::spec_combine(y1.6, a.6) == A6::spec_combine(y2.6, a.6));
            assert(A7::spec_combine(y1.7, a.7) == A7::spec_combine(y2.7, a.7));
            assert(A8::spec_combine(y1.8, a.8) == A8::spec_combine(y2.8, a.8));
            assert(A9::spec_combine(y1.9, a.9) == A9::spec_combine(y2.9, a.9));
            assert(A10::spec_combine(y1.10, a.10) == A10::spec_combine(y2.10, a.10));
            assert(A11::spec_combine(y1.11, a.11) == A11::spec_combine(y2.11, a.11));
        }
    }
}

impl<A0: Loop<Additive>, A1: Loop<Additive>, A2: Loop<Additive>, A3: Loop<Additive>, A4: Loop<Additive>, A5: Loop<Additive>, A6: Loop<Additive>, A7: Loop<Additive>, A8: Loop<Additive>, A9: Loop<Additive>, A10: Loop<Additive>, A11: Loop<Additive>> Loop<Additive> for (A0, A1, A2, A3, A4, A5, A6, A7, A8, A9, A10, A11) {

}

impl<A0: Group<Additive>, A1: Group<Additive>, A2: Group<Additive>, A3: Group<Additive>, A4: Group<Additive>, A5: Group<Additive>, A6: Group<Additive>, A7: Group<Additive>, A8: Group<Additive>, A9: Group<Additive>, A10: Group<Additive>, A11: Group<Additive>> Group<Additive> for (A0, A1, A2, A3, A4, A5, A6, A7, A8, A9, A10, A11) {
    open spec fn spec_inverse(a: (A0::Model, A1::Model, A2::Model, A3::Model, A4::Model, A5::Model, A6::Model, A7::Model, A8::Model, A9::Model, A10::Model, A11::Model)) -> (A0::Model, A1::Model, A2::Model, A3::Model, A4::Model, A5::Model, A6::Model, A7::Model, A8::Model, A9::Model, A10::Model, A11::Model) {
        (A0::spec_inverse(a.0), A1::spec_inverse(a.1), A2::spec_inverse(a.2), A3::spec_inverse(a.3), A4::spec_inverse(a.4), A5::spec_inverse(a.5), A6::spec_inverse(a.6), A7::spec_inverse(a.7), A8::spec_inverse(a.8), A9::spec_inverse(a.9), A10::spec_inverse(a.10), A11::spec_inverse(a.11))
    }

    proof fn lemma_inverse(a: (A0::Model, A1::Model, A2::Model, A3::Model, A4::Model, A5::Model, A6::Model, A7::Model, A8::Model, A9::Model, A10::Model, A11::Model)) {
        A0::lemma_inverse(a.0);
        A1::lemma_inverse(a.1);
        A2::lemma_inverse(a.2);
        A3::lemma_inverse(a.3);
        A4::lemma_inverse(a.4);
        A5::lemma_inverse(a.5);
        A6::lemma_inverse(a.6);
        A7::lemma_inverse(a.7);
        A8::lemma_inverse(a.8);
        A9::lemma_inverse(a.9);
        A10::lemma_inverse(a.10);
        A11::lemma_inverse(a.11);
    }

    fn inverse(&self) -> (r: Self) {
        (self.0.inverse(), self.1.inverse(), self.2.inverse(), self.3.inverse(), self.4.inverse(), self.5.inverse(), self.6.inverse(), self.7.inverse(), self.8.inverse(), self.9.inverse(), self.10.inverse(), self.11.inverse())
    }
}

impl<A0: AbelianGroup<Additive>, A1: AbelianGroup<Additive>, A2: AbelianGroup<Additive>, A3: AbelianGroup<Additive>, A4: AbelianGroup<Additive>, A5: AbelianGroup<Additive>, A6: AbelianGroup<Additive>, A7: AbelianGroup<Additive>, A8: AbelianGroup<Additive>, A9: AbelianGroup<Additive>, A10: AbelianGroup<Additive>, A11: AbelianGroup<Additive>> AbelianGroup<Additive> for (A0, A1, A2, A3, A4, A5, A6, A7, A8, A9, A10, A11) {
    proof fn lemma_commutative(a: (A0::Model, A1::Model, A2::Model, A3::Model, A4::Model, A5::Model, A6::Model, A7::Model, A8::Model, A9::Model, A10::Model, A11::Model), b: (A0::Model, A1::Model, A2::Model, A3::Model, A4::Model, A5::Model, A6::Model, A7::Model, A8::Model, A9::Model, A10::Model, A11::Model)) {
        A0::lemma_commutative(a.0, b.0);
        A1::lemma_commutative(a.1, b.1);
        A2::lemma_commutative(a.2, b.2);
        A3::lemma_commutative(a.3, b.3);
        A4::lemma_commutative(a.4, b.4);
        A5::lemma_commutative(a.5, b.5);
        A6::lemma_commutative(a.6, b.6);
        A7::lemma_commutative(a.7, b.7);
        A8::lemma_commutative(a.8, b.8);
        A9::lemma_commutative(a.9, b.9);
        A10::lemma_commutative(a.10, b.10);
        A11::lemma_commutative(a.11, b.11);
    }
}

impl<A0: Semiring<Additive, Multiplicative>, A1: Semiring<Additive, Multiplicative>, A2: Semiring<Additive, Multiplicative>, A3: Semiring<Additive, Multiplicative>, A4: Semiring<Additive, Multiplicative>, A5: Semiring<Additive, Multiplicative>, A6: Semiring<Additive, Multiplicative>, A7: Semiring<Additive, Multiplicative>, A8: Semiring<Additive, Multiplicative>, A9: Semiring<Additive, Multiplicative>, A10: Semiring<Additive, Multiplicative>, A11: Semiring<Additive, Multiplicative>> Semiring<Additive, Multiplicative> for (A0, A1, A2, A3, A4, A5, A6, A7, A8, A9, A10, A11) {
    proof fn lemma_distributive(a: (A0::Model, A1::Model, A2::Model, A3::Model, A4::Model, A5::Model, A6::Model, A7::Model, A8::Model, A9::Model, A10::Model, A11::Model), b: (A0::Model, A1::Model, A2::Model, A3::Model, A4::Model, A5::Model, A6::Model, A7::Model, A8::Model, A9::Model, A10::Model, A11::Model), c: (A0::Model, A1::Model, A2::Model, A3::Model, A4::Model, A5::Model, A6::Model, A7::Model, A8::Model, A9::Model, A10::Model, A11::Model)) {
        A0::lemma_distributive(a.0, b.0, c.0);
        A1::lemma_distributive(a.1, b.1, c.1);
        A2::lemma_distributive(a.2, b.2, c.2);
        A3::lemma_distributive(a.3, b.3, c.3);
        A4::lemma_distributive(a.4, b.4, c.4);
        A5::lemma_distributive(a.5, b.5, c.5);
        A6::lemma_distributive(a.6, b.6, c.6);
        A7::lemma_distributive(a.7, b.7, c.7);
        A8::lemma_distributive(a.8, b.8, c.8);
        A9::lemma_distributive(a.9, b.9, c.9);
        A10::lemma_distributive(a.10, b.10, c.10);
        A11::lemma_distributive(a.11, b.11, c.11);
    }
}

impl<A0: Ring<Additive, Multiplicative>, A1: Ring<Additive, Multiplicative>, A2: Ring<Additive, Multiplicative>, A3: Ring<Additive, Multiplicative>, A4: Ring<Additive, Multiplicative>, A5: Ring<Additive, Multiplicative>, A6: Ring<Additive, Multiplicative>, A7: Ring<Additive, Multiplicative>, A8: Ring<Additive, Multiplicative>, A9: Ring<Additive, Multiplicative>, A10: Ring<Additive, Multiplicative>, A11: Ring<Additive, Multiplicative>> Ring<Additive, Multiplicative> for (A0, A1, A2, A3, A4, A5, A6, A7, A8, A9, A10, A11) {

}

impl<A0: CommutativeRing<Additive, Multiplicative>, A1: CommutativeRing<Additive, Multiplicative>, A2: CommutativeRing<Additive, Multiplicative>, A3: CommutativeRing<Additive, Multiplicative>, A4: CommutativeRing<Additive, Multiplicative>, A5: CommutativeRing<Additive, Multiplicative>, A6: CommutativeRing<Additive, Multiplicative>, A7: CommutativeRing<Additive, Multiplicative>, A8: CommutativeRing<Additive, Multiplicative>, A9: CommutativeRing<Additive, Multiplicative>, A10: CommutativeRing<Additive, Multiplicative>, A11: CommutativeRing<Additive, Multiplicative>> CommutativeRing<Additive, Multiplicative> for (A0, A1, A2, A3, A4, A5, A6, A7, A8, A9, A10, A11) {
    proof fn lemma_multiplication_commutes(a: (A0::Model, A1::Model, A2::Model, A3::Model, A4::Model, A5::Model, A6::Model, A7::Model, A8::Model, A9::Model, A10::Model, A11::Model), b: (A0::Model, A1::Model, A2::Model, A3::Model, A4::Model, A5::Model, A6::Model, A7::Model, A8::Model, A9::Model, A10::Model, A11::Model)) {
        A0::lemma_multiplication_commutes(a.0, b.0);
        A1::lemma_multiplication_commutes(a.1, b.1);
        A2::lemma_multiplication_commutes(a.2, b.2);
        A3::lemma_multiplication_commutes(a.3, b.3);
        A4::lemma_multiplication_commutes(a.4, b.4);
        A5::lemma_multiplication_commutes(a.5, b.5);
        A6::lemma_multiplication_commutes(a.6, b.6);
        A7::lemma_multiplication_commutes(a.7, b.7);
        A8::lemma_multiplication_commutes(a.8, b.8);
        A9::lemma_multiplication_commutes(a.9, b.9);
        A10::lemma_multiplication_commutes(a.10, b.10);
        A11::lemma_multiplication_commutes(a.11, b.11);
    }
}

impl<A0: Module<Additive, Multiplicative>, A1: Module<Additive, Multiplicative, Scalar = A0::Scalar>, A2: Module<Additive, Multiplicative, Scalar = A0::Scalar>, A3: Module<Additive, Multiplicative, Scalar = A0::Scalar>, A4: Module<Additive, Multiplicative, Scalar = A0::Scalar>, A5: Module<Additive, Multiplicative, Scalar = A0::Scalar>, A6: Module<Additive, Multiplicative, Scalar = A0::Scalar>, A7: Module<Additive, Multiplicative, Scalar = A0::Scalar>, A8: Module<Additive, Multiplicative, Scalar = A0::Scalar>, A9: Module<Additive, Multiplicative, Scalar = A0::Scalar>, A10: Module<Additive, Multiplicative, Scalar = A0::Scalar>, A11: Module<Additive, Multiplicative, Scalar = A0::Scalar>> Module<Additive, Multiplicative> for (A0, A1, A2, A3, A4, A5, A6, A7, A8, A9, A10, A11) {
    type Scalar = A0::Scalar;

    open spec fn spec_scale(s: <A0::Scalar as Carrier>::Model, v: (A0::Model, A1::Model, A2::Model, A3::Model, A4::Model, A5::Model, A6::Model, A7::Model, A8::Model, A9::Model, A10::Model, A11::Model)) -> (A0::Model, A1::Model, A2::Model, A3::Model, A4::Model, A5::Model, A6::Model, A7::Model, A8::Model, A9::Model, A10::Model, A11::Model) {
        (A0::spec_scale(s, v.0), A1::spec_scale(s, v.1), A2::spec_scale(s, v.2), A3::spec_scale(s, v.3), A4::spec_scale(s, v.4), A5::spec_scale(s, v.5), A6::spec_scale(s, v.6), A7::spec_scale(s, v.7), A8::spec_scale(s, v.8), A9::spec_scale(s, v.9), A10::spec_scale(s, v.10), A11::spec_scale(s, v.11))
    }

    proof fn lemma_module(
        s: <A0::Scalar as Carrier>::Model,
        t: <A0::Scalar as Carrier>::Model,
        u: (A0::Model, A1::Model, A2::Model, A3::Model, A4::Model, A5::Model, A6::Model, A7::Model, A8::Model, A9::Model, A10::Model, A11::Model),
        v: (A0::Model, A1::Model, A2::Model, A3::Model, A4::Model, A5::Model, A6::Model, A7::Model, A8::Model, A9::Model, A10::Model, A11::Model),
    ) {
        A0::lemma_module(s, t, u.0, v.0);
        A1::lemma_module(s, t, u.1, v.1);
        A2::lemma_module(s, t, u.2, v.2);
        A3::lemma_module(s, t, u.3, v.3);
        A4::lemma_module(s, t, u.4, v.4);
        A5::lemma_module(s, t, u.5, v.5);
        A6::lemma_module(s, t, u.6, v.6);
        A7::lemma_module(s, t, u.7, v.7);
        A8::lemma_module(s, t, u.8, v.8);
        A9::lemma_module(s, t, u.9, v.9);
        A10::lemma_module(s, t, u.10, v.10);
        A11::lemma_module(s, t, u.11, v.11);
    }

    fn scale(s: &A0::Scalar, v: Self) -> (r: Self) {
        (A0::scale(s, v.0), A1::scale(s, v.1), A2::scale(s, v.2), A3::scale(s, v.3), A4::scale(s, v.4), A5::scale(s, v.5), A6::scale(s, v.6), A7::scale(s, v.7), A8::scale(s, v.8), A9::scale(s, v.9), A10::scale(s, v.10), A11::scale(s, v.11))
    }
}

impl<A0: VectorSpace<Additive, Multiplicative>, A1: VectorSpace<Additive, Multiplicative, Scalar = A0::Scalar>, A2: VectorSpace<Additive, Multiplicative, Scalar = A0::Scalar>, A3: VectorSpace<Additive, Multiplicative, Scalar = A0::Scalar>, A4: VectorSpace<Additive, Multiplicative, Scalar = A0::Scalar>, A5: VectorSpace<Additive, Multiplicative, Scalar = A0::Scalar>, A6: VectorSpace<Additive, Multiplicative, Scalar = A0::Scalar>, A7: VectorSpace<Additive, Multiplicative, Scalar = A0::Scalar>, A8: VectorSpace<Additive, Multiplicative, Scalar = A0::Scalar>, A9: VectorSpace<Additive, Multiplicative, Scalar = A0::Scalar>, A10: VectorSpace<Additive, Multiplicative, Scalar = A0::Scalar>, A11: VectorSpace<Additive, Multiplicative, Scalar = A0::Scalar>> VectorSpace<Additive, Multiplicative> for (A0, A1, A2, A3, A4, A5, A6, A7, A8, A9, A10, A11) where
    A0::Scalar: Field<Additive, Multiplicative>,
 {

}

impl<A0: MeetSemilattice, A1: MeetSemilattice, A2: MeetSemilattice, A3: MeetSemilattice, A4: MeetSemilattice, A5: MeetSemilattice, A6: MeetSemilattice, A7: MeetSemilattice, A8: MeetSemilattice, A9: MeetSemilattice, A10: MeetSemilattice, A11: MeetSemilattice> MeetSemilattice for (A0, A1, A2, A3, A4, A5, A6, A7, A8, A9, A10, A11) {
    open spec fn meet_follows_order() -> bool {
        false
    }

    proof fn lemma_meet_follows_order(a: Self, b: Self) {
    }

    open spec fn spec_meet(a: (A0::Model, A1::Model, A2::Model, A3::Model, A4::Model, A5::Model, A6::Model, A7::Model, A8::Model, A9::Model, A10::Model, A11::Model), b: (A0::Model, A1::Model, A2::Model, A3::Model, A4::Model, A5::Model, A6::Model, A7::Model, A8::Model, A9::Model, A10::Model, A11::Model)) -> (A0::Model, A1::Model, A2::Model, A3::Model, A4::Model, A5::Model, A6::Model, A7::Model, A8::Model, A9::Model, A10::Model, A11::Model) {
        (A0::spec_meet(a.0, b.0), A1::spec_meet(a.1, b.1), A2::spec_meet(a.2, b.2), A3::spec_meet(a.3, b.3), A4::spec_meet(a.4, b.4), A5::spec_meet(a.5, b.5), A6::spec_meet(a.6, b.6), A7::spec_meet(a.7, b.7), A8::spec_meet(a.8, b.8), A9::spec_meet(a.9, b.9), A10::spec_meet(a.10, b.10), A11::spec_meet(a.11, b.11))
    }

    proof fn lemma_meet_semilattice(a: (A0::Model, A1::Model, A2::Model, A3::Model, A4::Model, A5::Model, A6::Model, A7::Model, A8::Model, A9::Model, A10::Model, A11::Model), b: (A0::Model, A1::Model, A2::Model, A3::Model, A4::Model, A5::Model, A6::Model, A7::Model, A8::Model, A9::Model, A10::Model, A11::Model), c: (A0::Model, A1::Model, A2::Model, A3::Model, A4::Model, A5::Model, A6::Model, A7::Model, A8::Model, A9::Model, A10::Model, A11::Model)) {
        A0::lemma_meet_semilattice(a.0, b.0, c.0);
        A1::lemma_meet_semilattice(a.1, b.1, c.1);
        A2::lemma_meet_semilattice(a.2, b.2, c.2);
        A3::lemma_meet_semilattice(a.3, b.3, c.3);
        A4::lemma_meet_semilattice(a.4, b.4, c.4);
        A5::lemma_meet_semilattice(a.5, b.5, c.5);
        A6::lemma_meet_semilattice(a.6, b.6, c.6);
        A7::lemma_meet_semilattice(a.7, b.7, c.7);
        A8::lemma_meet_semilattice(a.8, b.8, c.8);
        A9::lemma_meet_semilattice(a.9, b.9, c.9);
        A10::lemma_meet_semilattice(a.10, b.10, c.10);
        A11::lemma_meet_semilattice(a.11, b.11, c.11);
    }

    fn meet(&self, other: &Self) -> (r: Self) {
        (self.0.meet(&other.0), self.1.meet(&other.1), self.2.meet(&other.2), self.3.meet(&other.3), self.4.meet(&other.4), self.5.meet(&other.5), self.6.meet(&other.6), self.7.meet(&other.7), self.8.meet(&other.8), self.9.meet(&other.9), self.10.meet(&other.10), self.11.meet(&other.11))
    }
}

impl<A0: JoinSemilattice, A1: JoinSemilattice, A2: JoinSemilattice, A3: JoinSemilattice, A4: JoinSemilattice, A5: JoinSemilattice, A6: JoinSemilattice, A7: JoinSemilattice, A8: JoinSemilattice, A9: JoinSemilattice, A10: JoinSemilattice, A11: JoinSemilattice> JoinSemilattice for (A0, A1, A2, A3, A4, A5, A6, A7, A8, A9, A10, A11) {
    open spec fn join_follows_order() -> bool {
        false
    }

    proof fn lemma_join_follows_order(a: Self, b: Self) {
    }

    open spec fn spec_join(a: (A0::Model, A1::Model, A2::Model, A3::Model, A4::Model, A5::Model, A6::Model, A7::Model, A8::Model, A9::Model, A10::Model, A11::Model), b: (A0::Model, A1::Model, A2::Model, A3::Model, A4::Model, A5::Model, A6::Model, A7::Model, A8::Model, A9::Model, A10::Model, A11::Model)) -> (A0::Model, A1::Model, A2::Model, A3::Model, A4::Model, A5::Model, A6::Model, A7::Model, A8::Model, A9::Model, A10::Model, A11::Model) {
        (A0::spec_join(a.0, b.0), A1::spec_join(a.1, b.1), A2::spec_join(a.2, b.2), A3::spec_join(a.3, b.3), A4::spec_join(a.4, b.4), A5::spec_join(a.5, b.5), A6::spec_join(a.6, b.6), A7::spec_join(a.7, b.7), A8::spec_join(a.8, b.8), A9::spec_join(a.9, b.9), A10::spec_join(a.10, b.10), A11::spec_join(a.11, b.11))
    }

    proof fn lemma_join_semilattice(a: (A0::Model, A1::Model, A2::Model, A3::Model, A4::Model, A5::Model, A6::Model, A7::Model, A8::Model, A9::Model, A10::Model, A11::Model), b: (A0::Model, A1::Model, A2::Model, A3::Model, A4::Model, A5::Model, A6::Model, A7::Model, A8::Model, A9::Model, A10::Model, A11::Model), c: (A0::Model, A1::Model, A2::Model, A3::Model, A4::Model, A5::Model, A6::Model, A7::Model, A8::Model, A9::Model, A10::Model, A11::Model)) {
        A0::lemma_join_semilattice(a.0, b.0, c.0);
        A1::lemma_join_semilattice(a.1, b.1, c.1);
        A2::lemma_join_semilattice(a.2, b.2, c.2);
        A3::lemma_join_semilattice(a.3, b.3, c.3);
        A4::lemma_join_semilattice(a.4, b.4, c.4);
        A5::lemma_join_semilattice(a.5, b.5, c.5);
        A6::lemma_join_semilattice(a.6, b.6, c.6);
        A7::lemma_join_semilattice(a.7, b.7, c.7);
        A8::lemma_join_semilattice(a.8, b.8, c.8);
        A9::lemma_join_semilattice(a.9, b.9, c.9);
        A10::lemma_join_semilattice(a.10, b.10, c.10);
        A11::lemma_join_semilattice(a.11, b.11, c.11);
    }

    fn join(&self, other: &Self) -> (r: Self) {
        (self.0.join(&other.0), self.1.join(&other.1), self.2.join(&other.2), self.3.join(&other.3), self.4.join(&other.4), self.5.join(&other.5), self.6.join(&other.6), self.7.join(&other.7), self.8.join(&other.8), self.9.join(&other.9), self.10.join(&other.10), self.11.join(&other.11))
    }
}

impl<A0: Lattice, A1: Lattice, A2: Lattice, A3: Lattice, A4: Lattice, A5: Lattice, A6: Lattice, A7: Lattice, A8: Lattice, A9: Lattice, A10: Lattice, A11: Lattice> Lattice for (A0, A1, A2, A3, A4, A5, A6, A7, A8, A9, A10, A11) {
    proof fn lemma_absorption(a: (A0::Model, A1::Model, A2::Model, A3::Model, A4::Model, A5::Model, A6::Model, A7::Model, A8::Model, A9::Model, A10::Model, A11::Model), b: (A0::Model, A1::Model, A2::Model, A3::Model, A4::Model, A5::Model, A6::Model, A7::Model, A8::Model, A9::Model, A10::Model, A11::Model)) {
        A0::lemma_absorption(a.0, b.0);
        A1::lemma_absorption(a.1, b.1);
        A2::lemma_absorption(a.2, b.2);
        A3::lemma_absorption(a.3, b.3);
        A4::lemma_absorption(a.4, b.4);
        A5::lemma_absorption(a.5, b.5);
        A6::lemma_absorption(a.6, b.6);
        A7::lemma_absorption(a.7, b.7);
        A8::lemma_absorption(a.8, b.8);
        A9::lemma_absorption(a.9, b.9);
        A10::lemma_absorption(a.10, b.10);
        A11::lemma_absorption(a.11, b.11);
    }
}

// ---- arity 13 ----

impl<A0: Carrier, A1: Carrier, A2: Carrier, A3: Carrier, A4: Carrier, A5: Carrier, A6: Carrier, A7: Carrier, A8: Carrier, A9: Carrier, A10: Carrier, A11: Carrier, A12: Carrier> Carrier for (A0, A1, A2, A3, A4, A5, A6, A7, A8, A9, A10, A11, A12) {
    type Model = (A0::Model, A1::Model, A2::Model, A3::Model, A4::Model, A5::Model, A6::Model, A7::Model, A8::Model, A9::Model, A10::Model, A11::Model, A12::Model);

    open spec fn model(self) -> (A0::Model, A1::Model, A2::Model, A3::Model, A4::Model, A5::Model, A6::Model, A7::Model, A8::Model, A9::Model, A10::Model, A11::Model, A12::Model) {
        (self.0.model(), self.1.model(), self.2.model(), self.3.model(), self.4.model(), self.5.model(), self.6.model(), self.7.model(), self.8.model(), self.9.model(), self.10.model(), self.11.model(), self.12.model())
    }

    open spec fn contains(m: (A0::Model, A1::Model, A2::Model, A3::Model, A4::Model, A5::Model, A6::Model, A7::Model, A8::Model, A9::Model, A10::Model, A11::Model, A12::Model)) -> bool {
        A0::contains(m.0)
            && A1::contains(m.1)
            && A2::contains(m.2)
            && A3::contains(m.3)
            && A4::contains(m.4)
            && A5::contains(m.5)
            && A6::contains(m.6)
            && A7::contains(m.7)
            && A8::contains(m.8)
            && A9::contains(m.9)
            && A10::contains(m.10)
            && A11::contains(m.11)
            && A12::contains(m.12)
    }

    proof fn lemma_model_contained(x: &Self) {
        A0::lemma_model_contained(&x.0);
        A1::lemma_model_contained(&x.1);
        A2::lemma_model_contained(&x.2);
        A3::lemma_model_contained(&x.3);
        A4::lemma_model_contained(&x.4);
        A5::lemma_model_contained(&x.5);
        A6::lemma_model_contained(&x.6);
        A7::lemma_model_contained(&x.7);
        A8::lemma_model_contained(&x.8);
        A9::lemma_model_contained(&x.9);
        A10::lemma_model_contained(&x.10);
        A11::lemma_model_contained(&x.11);
        A12::lemma_model_contained(&x.12);
    }
}

impl<Op: Operator, A0: Magma<Op>, A1: Magma<Op>, A2: Magma<Op>, A3: Magma<Op>, A4: Magma<Op>, A5: Magma<Op>, A6: Magma<Op>, A7: Magma<Op>, A8: Magma<Op>, A9: Magma<Op>, A10: Magma<Op>, A11: Magma<Op>, A12: Magma<Op>> Magma<Op> for (A0, A1, A2, A3, A4, A5, A6, A7, A8, A9, A10, A11, A12) {
    open spec fn spec_combine(a: (A0::Model, A1::Model, A2::Model, A3::Model, A4::Model, A5::Model, A6::Model, A7::Model, A8::Model, A9::Model, A10::Model, A11::Model, A12::Model), b: (A0::Model, A1::Model, A2::Model, A3::Model, A4::Model, A5::Model, A6::Model, A7::Model, A8::Model, A9::Model, A10::Model, A11::Model, A12::Model)) -> (A0::Model, A1::Model, A2::Model, A3::Model, A4::Model, A5::Model, A6::Model, A7::Model, A8::Model, A9::Model, A10::Model, A11::Model, A12::Model) {
        (A0::spec_combine(a.0, b.0), A1::spec_combine(a.1, b.1), A2::spec_combine(a.2, b.2), A3::spec_combine(a.3, b.3), A4::spec_combine(a.4, b.4), A5::spec_combine(a.5, b.5), A6::spec_combine(a.6, b.6), A7::spec_combine(a.7, b.7), A8::spec_combine(a.8, b.8), A9::spec_combine(a.9, b.9), A10::spec_combine(a.10, b.10), A11::spec_combine(a.11, b.11), A12::spec_combine(a.12, b.12))
    }

    proof fn lemma_closed(a: (A0::Model, A1::Model, A2::Model, A3::Model, A4::Model, A5::Model, A6::Model, A7::Model, A8::Model, A9::Model, A10::Model, A11::Model, A12::Model), b: (A0::Model, A1::Model, A2::Model, A3::Model, A4::Model, A5::Model, A6::Model, A7::Model, A8::Model, A9::Model, A10::Model, A11::Model, A12::Model)) {
        A0::lemma_closed(a.0, b.0);
        A1::lemma_closed(a.1, b.1);
        A2::lemma_closed(a.2, b.2);
        A3::lemma_closed(a.3, b.3);
        A4::lemma_closed(a.4, b.4);
        A5::lemma_closed(a.5, b.5);
        A6::lemma_closed(a.6, b.6);
        A7::lemma_closed(a.7, b.7);
        A8::lemma_closed(a.8, b.8);
        A9::lemma_closed(a.9, b.9);
        A10::lemma_closed(a.10, b.10);
        A11::lemma_closed(a.11, b.11);
        A12::lemma_closed(a.12, b.12);
    }

    fn combine(&self, rhs: &Self) -> (r: Self) {
        (self.0.combine(&rhs.0), self.1.combine(&rhs.1), self.2.combine(&rhs.2), self.3.combine(&rhs.3), self.4.combine(&rhs.4), self.5.combine(&rhs.5), self.6.combine(&rhs.6), self.7.combine(&rhs.7), self.8.combine(&rhs.8), self.9.combine(&rhs.9), self.10.combine(&rhs.10), self.11.combine(&rhs.11), self.12.combine(&rhs.12))
    }
}

impl<Op: Operator, A0: Semigroup<Op>, A1: Semigroup<Op>, A2: Semigroup<Op>, A3: Semigroup<Op>, A4: Semigroup<Op>, A5: Semigroup<Op>, A6: Semigroup<Op>, A7: Semigroup<Op>, A8: Semigroup<Op>, A9: Semigroup<Op>, A10: Semigroup<Op>, A11: Semigroup<Op>, A12: Semigroup<Op>> Semigroup<Op> for (A0, A1, A2, A3, A4, A5, A6, A7, A8, A9, A10, A11, A12) {
    proof fn lemma_associative(a: (A0::Model, A1::Model, A2::Model, A3::Model, A4::Model, A5::Model, A6::Model, A7::Model, A8::Model, A9::Model, A10::Model, A11::Model, A12::Model), b: (A0::Model, A1::Model, A2::Model, A3::Model, A4::Model, A5::Model, A6::Model, A7::Model, A8::Model, A9::Model, A10::Model, A11::Model, A12::Model), c: (A0::Model, A1::Model, A2::Model, A3::Model, A4::Model, A5::Model, A6::Model, A7::Model, A8::Model, A9::Model, A10::Model, A11::Model, A12::Model)) {
        A0::lemma_associative(a.0, b.0, c.0);
        A1::lemma_associative(a.1, b.1, c.1);
        A2::lemma_associative(a.2, b.2, c.2);
        A3::lemma_associative(a.3, b.3, c.3);
        A4::lemma_associative(a.4, b.4, c.4);
        A5::lemma_associative(a.5, b.5, c.5);
        A6::lemma_associative(a.6, b.6, c.6);
        A7::lemma_associative(a.7, b.7, c.7);
        A8::lemma_associative(a.8, b.8, c.8);
        A9::lemma_associative(a.9, b.9, c.9);
        A10::lemma_associative(a.10, b.10, c.10);
        A11::lemma_associative(a.11, b.11, c.11);
        A12::lemma_associative(a.12, b.12, c.12);
    }
}

impl<Op: Operator, A0: Monoid<Op>, A1: Monoid<Op>, A2: Monoid<Op>, A3: Monoid<Op>, A4: Monoid<Op>, A5: Monoid<Op>, A6: Monoid<Op>, A7: Monoid<Op>, A8: Monoid<Op>, A9: Monoid<Op>, A10: Monoid<Op>, A11: Monoid<Op>, A12: Monoid<Op>> Monoid<Op> for (A0, A1, A2, A3, A4, A5, A6, A7, A8, A9, A10, A11, A12) {
    open spec fn spec_identity() -> (A0::Model, A1::Model, A2::Model, A3::Model, A4::Model, A5::Model, A6::Model, A7::Model, A8::Model, A9::Model, A10::Model, A11::Model, A12::Model) {
        (A0::spec_identity(), A1::spec_identity(), A2::spec_identity(), A3::spec_identity(), A4::spec_identity(), A5::spec_identity(), A6::spec_identity(), A7::spec_identity(), A8::spec_identity(), A9::spec_identity(), A10::spec_identity(), A11::spec_identity(), A12::spec_identity())
    }

    proof fn lemma_identity(a: (A0::Model, A1::Model, A2::Model, A3::Model, A4::Model, A5::Model, A6::Model, A7::Model, A8::Model, A9::Model, A10::Model, A11::Model, A12::Model)) {
        A0::lemma_identity(a.0);
        A1::lemma_identity(a.1);
        A2::lemma_identity(a.2);
        A3::lemma_identity(a.3);
        A4::lemma_identity(a.4);
        A5::lemma_identity(a.5);
        A6::lemma_identity(a.6);
        A7::lemma_identity(a.7);
        A8::lemma_identity(a.8);
        A9::lemma_identity(a.9);
        A10::lemma_identity(a.10);
        A11::lemma_identity(a.11);
        A12::lemma_identity(a.12);
    }

    fn identity() -> (r: Self) {
        (A0::identity(), A1::identity(), A2::identity(), A3::identity(), A4::identity(), A5::identity(), A6::identity(), A7::identity(), A8::identity(), A9::identity(), A10::identity(), A11::identity(), A12::identity())
    }
}

impl<A0: Quasigroup<Additive>, A1: Quasigroup<Additive>, A2: Quasigroup<Additive>, A3: Quasigroup<Additive>, A4: Quasigroup<Additive>, A5: Quasigroup<Additive>, A6: Quasigroup<Additive>, A7: Quasigroup<Additive>, A8: Quasigroup<Additive>, A9: Quasigroup<Additive>, A10: Quasigroup<Additive>, A11: Quasigroup<Additive>, A12: Quasigroup<Additive>> Quasigroup<Additive> for (A0, A1, A2, A3, A4, A5, A6, A7, A8, A9, A10, A11, A12) {
    proof fn lemma_latin_square(a: (A0::Model, A1::Model, A2::Model, A3::Model, A4::Model, A5::Model, A6::Model, A7::Model, A8::Model, A9::Model, A10::Model, A11::Model, A12::Model), b: (A0::Model, A1::Model, A2::Model, A3::Model, A4::Model, A5::Model, A6::Model, A7::Model, A8::Model, A9::Model, A10::Model, A11::Model, A12::Model)) {
        A0::lemma_latin_square(a.0, b.0);
        A1::lemma_latin_square(a.1, b.1);
        A2::lemma_latin_square(a.2, b.2);
        A3::lemma_latin_square(a.3, b.3);
        A4::lemma_latin_square(a.4, b.4);
        A5::lemma_latin_square(a.5, b.5);
        A6::lemma_latin_square(a.6, b.6);
        A7::lemma_latin_square(a.7, b.7);
        A8::lemma_latin_square(a.8, b.8);
        A9::lemma_latin_square(a.9, b.9);
        A10::lemma_latin_square(a.10, b.10);
        A11::lemma_latin_square(a.11, b.11);
        A12::lemma_latin_square(a.12, b.12);
        let x = (left_quotient::<Additive, A0>(a.0, b.0), left_quotient::<Additive, A1>(a.1, b.1), left_quotient::<Additive, A2>(a.2, b.2), left_quotient::<Additive, A3>(a.3, b.3), left_quotient::<Additive, A4>(a.4, b.4), left_quotient::<Additive, A5>(a.5, b.5), left_quotient::<Additive, A6>(a.6, b.6), left_quotient::<Additive, A7>(a.7, b.7), left_quotient::<Additive, A8>(a.8, b.8), left_quotient::<Additive, A9>(a.9, b.9), left_quotient::<Additive, A10>(a.10, b.10), left_quotient::<Additive, A11>(a.11, b.11), left_quotient::<Additive, A12>(a.12, b.12));
        let y = (right_quotient::<Additive, A0>(a.0, b.0), right_quotient::<Additive, A1>(a.1, b.1), right_quotient::<Additive, A2>(a.2, b.2), right_quotient::<Additive, A3>(a.3, b.3), right_quotient::<Additive, A4>(a.4, b.4), right_quotient::<Additive, A5>(a.5, b.5), right_quotient::<Additive, A6>(a.6, b.6), right_quotient::<Additive, A7>(a.7, b.7), right_quotient::<Additive, A8>(a.8, b.8), right_quotient::<Additive, A9>(a.9, b.9), right_quotient::<Additive, A10>(a.10, b.10), right_quotient::<Additive, A11>(a.11, b.11), right_quotient::<Additive, A12>(a.12, b.12));
        assert(Self::contains(x) && Self::spec_combine(a, x) == b);
        assert(Self::contains(y) && Self::spec_combine(y, a) == b);
        assert forall|x1: (A0::Model, A1::Model, A2::Model, A3::Model, A4::Model, A5::Model, A6::Model, A7::Model, A8::Model, A9::Model, A10::Model, A11::Model, A12::Model), x2: (A0::Model, A1::Model, A2::Model, A3::Model, A4::Model, A5::Model, A6::Model, A7::Model, A8::Model, A9::Model, A10::Model, A11::Model, A12::Model)|
            Self::contains(x1) && Self::contains(x2) && #[trigger] Self::spec_combine(a, x1)
                == #[trigger] Self::spec_combine(a, x2) implies x1 == x2 by {
            assert(A0::spec_combine(a.0, x1.0) == A0::spec_combine(a.0, x2.0));
            assert(A1::spec_combine(a.1, x1.1) == A1::spec_combine(a.1, x2.1));
            assert(A2::spec_combine(a.2, x1.2) == A2::spec_combine(a.2, x2.2));
            assert(A3::spec_combine(a.3, x1.3) == A3::spec_combine(a.3, x2.3));
            assert(A4::spec_combine(a.4, x1.4) == A4::spec_combine(a.4, x2.4));
            assert(A5::spec_combine(a.5, x1.5) == A5::spec_combine(a.5, x2.5));
            assert(A6::spec_combine(a.6, x1.6) == A6::spec_combine(a.6, x2.6));
            assert(A7::spec_combine(a.7, x1.7) == A7::spec_combine(a.7, x2.7));
            assert(A8::spec_combine(a.8, x1.8) == A8::spec_combine(a.8, x2.8));
            assert(A9::spec_combine(a.9, x1.9) == A9::spec_combine(a.9, x2.9));
            assert(A10::spec_combine(a.10, x1.10) == A10::spec_combine(a.10, x2.10));
            assert(A11::spec_combine(a.11, x1.11) == A11::spec_combine(a.11, x2.11));
            assert(A12::spec_combine(a.12, x1.12) == A12::spec_combine(a.12, x2.12));
        }
        assert forall|y1: (A0::Model, A1::Model, A2::Model, A3::Model, A4::Model, A5::Model, A6::Model, A7::Model, A8::Model, A9::Model, A10::Model, A11::Model, A12::Model), y2: (A0::Model, A1::Model, A2::Model, A3::Model, A4::Model, A5::Model, A6::Model, A7::Model, A8::Model, A9::Model, A10::Model, A11::Model, A12::Model)|
            Self::contains(y1) && Self::contains(y2) && #[trigger] Self::spec_combine(y1, a)
                == #[trigger] Self::spec_combine(y2, a) implies y1 == y2 by {
            assert(A0::spec_combine(y1.0, a.0) == A0::spec_combine(y2.0, a.0));
            assert(A1::spec_combine(y1.1, a.1) == A1::spec_combine(y2.1, a.1));
            assert(A2::spec_combine(y1.2, a.2) == A2::spec_combine(y2.2, a.2));
            assert(A3::spec_combine(y1.3, a.3) == A3::spec_combine(y2.3, a.3));
            assert(A4::spec_combine(y1.4, a.4) == A4::spec_combine(y2.4, a.4));
            assert(A5::spec_combine(y1.5, a.5) == A5::spec_combine(y2.5, a.5));
            assert(A6::spec_combine(y1.6, a.6) == A6::spec_combine(y2.6, a.6));
            assert(A7::spec_combine(y1.7, a.7) == A7::spec_combine(y2.7, a.7));
            assert(A8::spec_combine(y1.8, a.8) == A8::spec_combine(y2.8, a.8));
            assert(A9::spec_combine(y1.9, a.9) == A9::spec_combine(y2.9, a.9));
            assert(A10::spec_combine(y1.10, a.10) == A10::spec_combine(y2.10, a.10));
            assert(A11::spec_combine(y1.11, a.11) == A11::spec_combine(y2.11, a.11));
            assert(A12::spec_combine(y1.12, a.12) == A12::spec_combine(y2.12, a.12));
        }
    }
}

impl<A0: Loop<Additive>, A1: Loop<Additive>, A2: Loop<Additive>, A3: Loop<Additive>, A4: Loop<Additive>, A5: Loop<Additive>, A6: Loop<Additive>, A7: Loop<Additive>, A8: Loop<Additive>, A9: Loop<Additive>, A10: Loop<Additive>, A11: Loop<Additive>, A12: Loop<Additive>> Loop<Additive> for (A0, A1, A2, A3, A4, A5, A6, A7, A8, A9, A10, A11, A12) {

}

impl<A0: Group<Additive>, A1: Group<Additive>, A2: Group<Additive>, A3: Group<Additive>, A4: Group<Additive>, A5: Group<Additive>, A6: Group<Additive>, A7: Group<Additive>, A8: Group<Additive>, A9: Group<Additive>, A10: Group<Additive>, A11: Group<Additive>, A12: Group<Additive>> Group<Additive> for (A0, A1, A2, A3, A4, A5, A6, A7, A8, A9, A10, A11, A12) {
    open spec fn spec_inverse(a: (A0::Model, A1::Model, A2::Model, A3::Model, A4::Model, A5::Model, A6::Model, A7::Model, A8::Model, A9::Model, A10::Model, A11::Model, A12::Model)) -> (A0::Model, A1::Model, A2::Model, A3::Model, A4::Model, A5::Model, A6::Model, A7::Model, A8::Model, A9::Model, A10::Model, A11::Model, A12::Model) {
        (A0::spec_inverse(a.0), A1::spec_inverse(a.1), A2::spec_inverse(a.2), A3::spec_inverse(a.3), A4::spec_inverse(a.4), A5::spec_inverse(a.5), A6::spec_inverse(a.6), A7::spec_inverse(a.7), A8::spec_inverse(a.8), A9::spec_inverse(a.9), A10::spec_inverse(a.10), A11::spec_inverse(a.11), A12::spec_inverse(a.12))
    }

    proof fn lemma_inverse(a: (A0::Model, A1::Model, A2::Model, A3::Model, A4::Model, A5::Model, A6::Model, A7::Model, A8::Model, A9::Model, A10::Model, A11::Model, A12::Model)) {
        A0::lemma_inverse(a.0);
        A1::lemma_inverse(a.1);
        A2::lemma_inverse(a.2);
        A3::lemma_inverse(a.3);
        A4::lemma_inverse(a.4);
        A5::lemma_inverse(a.5);
        A6::lemma_inverse(a.6);
        A7::lemma_inverse(a.7);
        A8::lemma_inverse(a.8);
        A9::lemma_inverse(a.9);
        A10::lemma_inverse(a.10);
        A11::lemma_inverse(a.11);
        A12::lemma_inverse(a.12);
    }

    fn inverse(&self) -> (r: Self) {
        (self.0.inverse(), self.1.inverse(), self.2.inverse(), self.3.inverse(), self.4.inverse(), self.5.inverse(), self.6.inverse(), self.7.inverse(), self.8.inverse(), self.9.inverse(), self.10.inverse(), self.11.inverse(), self.12.inverse())
    }
}

impl<A0: AbelianGroup<Additive>, A1: AbelianGroup<Additive>, A2: AbelianGroup<Additive>, A3: AbelianGroup<Additive>, A4: AbelianGroup<Additive>, A5: AbelianGroup<Additive>, A6: AbelianGroup<Additive>, A7: AbelianGroup<Additive>, A8: AbelianGroup<Additive>, A9: AbelianGroup<Additive>, A10: AbelianGroup<Additive>, A11: AbelianGroup<Additive>, A12: AbelianGroup<Additive>> AbelianGroup<Additive> for (A0, A1, A2, A3, A4, A5, A6, A7, A8, A9, A10, A11, A12) {
    proof fn lemma_commutative(a: (A0::Model, A1::Model, A2::Model, A3::Model, A4::Model, A5::Model, A6::Model, A7::Model, A8::Model, A9::Model, A10::Model, A11::Model, A12::Model), b: (A0::Model, A1::Model, A2::Model, A3::Model, A4::Model, A5::Model, A6::Model, A7::Model, A8::Model, A9::Model, A10::Model, A11::Model, A12::Model)) {
        A0::lemma_commutative(a.0, b.0);
        A1::lemma_commutative(a.1, b.1);
        A2::lemma_commutative(a.2, b.2);
        A3::lemma_commutative(a.3, b.3);
        A4::lemma_commutative(a.4, b.4);
        A5::lemma_commutative(a.5, b.5);
        A6::lemma_commutative(a.6, b.6);
        A7::lemma_commutative(a.7, b.7);
        A8::lemma_commutative(a.8, b.8);
        A9::lemma_commutative(a.9, b.9);
        A10::lemma_commutative(a.10, b.10);
        A11::lemma_commutative(a.11, b.11);
        A12::lemma_commutative(a.12, b.12);
    }
}

impl<A0: Semiring<Additive, Multiplicative>, A1: Semiring<Additive, Multiplicative>, A2: Semiring<Additive, Multiplicative>, A3: Semiring<Additive, Multiplicative>, A4: Semiring<Additive, Multiplicative>, A5: Semiring<Additive, Multiplicative>, A6: Semiring<Additive, Multiplicative>, A7: Semiring<Additive, Multiplicative>, A8: Semiring<Additive, Multiplicative>, A9: Semiring<Additive, Multiplicative>, A10: Semiring<Additive, Multiplicative>, A11: Semiring<Additive, Multiplicative>, A12: Semiring<Additive, Multiplicative>> Semiring<Additive, Multiplicative> for (A0, A1, A2, A3, A4, A5, A6, A7, A8, A9, A10, A11, A12) {
    proof fn lemma_distributive(a: (A0::Model, A1::Model, A2::Model, A3::Model, A4::Model, A5::Model, A6::Model, A7::Model, A8::Model, A9::Model, A10::Model, A11::Model, A12::Model), b: (A0::Model, A1::Model, A2::Model, A3::Model, A4::Model, A5::Model, A6::Model, A7::Model, A8::Model, A9::Model, A10::Model, A11::Model, A12::Model), c: (A0::Model, A1::Model, A2::Model, A3::Model, A4::Model, A5::Model, A6::Model, A7::Model, A8::Model, A9::Model, A10::Model, A11::Model, A12::Model)) {
        A0::lemma_distributive(a.0, b.0, c.0);
        A1::lemma_distributive(a.1, b.1, c.1);
        A2::lemma_distributive(a.2, b.2, c.2);
        A3::lemma_distributive(a.3, b.3, c.3);
        A4::lemma_distributive(a.4, b.4, c.4);
        A5::lemma_distributive(a.5, b.5, c.5);
        A6::lemma_distributive(a.6, b.6, c.6);
        A7::lemma_distributive(a.7, b.7, c.7);
        A8::lemma_distributive(a.8, b.8, c.8);
        A9::lemma_distributive(a.9, b.9, c.9);
        A10::lemma_distributive(a.10, b.10, c.10);
        A11::lemma_distributive(a.11, b.11, c.11);
        A12::lemma_distributive(a.12, b.12, c.12);
    }
}

impl<A0: Ring<Additive, Multiplicative>, A1: Ring<Additive, Multiplicative>, A2: Ring<Additive, Multiplicative>, A3: Ring<Additive, Multiplicative>, A4: Ring<Additive, Multiplicative>, A5: Ring<Additive, Multiplicative>, A6: Ring<Additive, Multiplicative>, A7: Ring<Additive, Multiplicative>, A8: Ring<Additive, Multiplicative>, A9: Ring<Additive, Multiplicative>, A10: Ring<Additive, Multiplicative>, A11: Ring<Additive, Multiplicative>, A12: Ring<Additive, Multiplicative>> Ring<Additive, Multiplicative> for (A0, A1, A2, A3, A4, A5, A6, A7, A8, A9, A10, A11, A12) {

}

impl<A0: CommutativeRing<Additive, Multiplicative>, A1: CommutativeRing<Additive, Multiplicative>, A2: CommutativeRing<Additive, Multiplicative>, A3: CommutativeRing<Additive, Multiplicative>, A4: CommutativeRing<Additive, Multiplicative>, A5: CommutativeRing<Additive, Multiplicative>, A6: CommutativeRing<Additive, Multiplicative>, A7: CommutativeRing<Additive, Multiplicative>, A8: CommutativeRing<Additive, Multiplicative>, A9: CommutativeRing<Additive, Multiplicative>, A10: CommutativeRing<Additive, Multiplicative>, A11: CommutativeRing<Additive, Multiplicative>, A12: CommutativeRing<Additive, Multiplicative>> CommutativeRing<Additive, Multiplicative> for (A0, A1, A2, A3, A4, A5, A6, A7, A8, A9, A10, A11, A12) {
    proof fn lemma_multiplication_commutes(a: (A0::Model, A1::Model, A2::Model, A3::Model, A4::Model, A5::Model, A6::Model, A7::Model, A8::Model, A9::Model, A10::Model, A11::Model, A12::Model), b: (A0::Model, A1::Model, A2::Model, A3::Model, A4::Model, A5::Model, A6::Model, A7::Model, A8::Model, A9::Model, A10::Model, A11::Model, A12::Model)) {
        A0::lemma_multiplication_commutes(a.0, b.0);
        A1::lemma_multiplication_commutes(a.1, b.1);
        A2::lemma_multiplication_commutes(a.2, b.2);
        A3::lemma_multiplication_commutes(a.3, b.3);
        A4::lemma_multiplication_commutes(a.4, b.4);
        A5::lemma_multiplication_commutes(a.5, b.5);
        A6::lemma_multiplication_commutes(a.6, b.6);
        A7::lemma_multiplication_commutes(a.7, b.7);
        A8::lemma_multiplication_commutes(a.8, b.8);
        A9::lemma_multiplication_commutes(a.9, b.9);
        A10::lemma_multiplication_commutes(a.10, b.10);
        A11::lemma_multiplication_commutes(a.11, b.11);
        A12::lemma_multiplication_commutes(a.12, b.12);
    }
}

impl<A0: Module<Additive, Multiplicative>, A1: Module<Additive, Multiplicative, Scalar = A0::Scalar>, A2: Module<Additive, Multiplicative, Scalar = A0::Scalar>, A3: Module<Additive, Multiplicative, Scalar = A0::Scalar>, A4: Module<Additive, Multiplicative, Scalar = A0::Scalar>, A5: Module<Additive, Multiplicative, Scalar = A0::Scalar>, A6: Module<Additive, Multiplicative, Scalar = A0::Scalar>, A7: Module<Additive, Multiplicative, Scalar = A0::Scalar>, A8: Module<Additive, Multiplicative, Scalar = A0::Scalar>, A9: Module<Additive, Multiplicative, Scalar = A0::Scalar>, A10: Module<Additive, Multiplicative, Scalar = A0::Scalar>, A11: Module<Additive, Multiplicative, Scalar = A0::Scalar>, A12: Module<Additive, Multiplicative, Scalar = A0::Scalar>> Module<Additive, Multiplicative> for (A0, A1, A2, A3, A4, A5, A6, A7, A8, A9, A10, A11, A12) {
    type Scalar = A0::Scalar;

    open spec fn spec_scale(s: <A0::Scalar as Carrier>::Model, v: (A0::Model, A1::Model, A2::Model, A3::Model, A4::Model, A5::Model, A6::Model, A7::Model, A8::Model, A9::Model, A10::Model, A11::Model, A12::Model)) -> (A0::Model, A1::Model, A2::Model, A3::Model, A4::Model, A5::Model, A6::Model, A7::Model, A8::Model, A9::Model, A10::Model, A11::Model, A12::Model) {
        (A0::spec_scale(s, v.0), A1::spec_scale(s, v.1), A2::spec_scale(s, v.2), A3::spec_scale(s, v.3), A4::spec_scale(s, v.4), A5::spec_scale(s, v.5), A6::spec_scale(s, v.6), A7::spec_scale(s, v.7), A8::spec_scale(s, v.8), A9::spec_scale(s, v.9), A10::spec_scale(s, v.10), A11::spec_scale(s, v.11), A12::spec_scale(s, v.12))
    }

    proof fn lemma_module(
        s: <A0::Scalar as Carrier>::Model,
        t: <A0::Scalar as Carrier>::Model,
        u: (A0::Model, A1::Model, A2::Model, A3::Model, A4::Model, A5::Model, A6::Model, A7::Model, A8::Model, A9::Model, A10::Model, A11::Model, A12::Model),
        v: (A0::Model, A1::Model, A2::Model, A3::Model, A4::Model, A5::Model, A6::Model, A7::Model, A8::Model, A9::Model, A10::Model, A11::Model, A12::Model),
    ) {
        A0::lemma_module(s, t, u.0, v.0);
        A1::lemma_module(s, t, u.1, v.1);
        A2::lemma_module(s, t, u.2, v.2);
        A3::lemma_module(s, t, u.3, v.3);
        A4::lemma_module(s, t, u.4, v.4);
        A5::lemma_module(s, t, u.5, v.5);
        A6::lemma_module(s, t, u.6, v.6);
        A7::lemma_module(s, t, u.7, v.7);
        A8::lemma_module(s, t, u.8, v.8);
        A9::lemma_module(s, t, u.9, v.9);
        A10::lemma_module(s, t, u.10, v.10);
        A11::lemma_module(s, t, u.11, v.11);
        A12::lemma_module(s, t, u.12, v.12);
    }

    fn scale(s: &A0::Scalar, v: Self) -> (r: Self) {
        (A0::scale(s, v.0), A1::scale(s, v.1), A2::scale(s, v.2), A3::scale(s, v.3), A4::scale(s, v.4), A5::scale(s, v.5), A6::scale(s, v.6), A7::scale(s, v.7), A8::scale(s, v.8), A9::scale(s, v.9), A10::scale(s, v.10), A11::scale(s, v.11), A12::scale(s, v.12))
    }
}

impl<A0: VectorSpace<Additive, Multiplicative>, A1: VectorSpace<Additive, Multiplicative, Scalar = A0::Scalar>, A2: VectorSpace<Additive, Multiplicative, Scalar = A0::Scalar>, A3: VectorSpace<Additive, Multiplicative, Scalar = A0::Scalar>, A4: VectorSpace<Additive, Multiplicative, Scalar = A0::Scalar>, A5: VectorSpace<Additive, Multiplicative, Scalar = A0::Scalar>, A6: VectorSpace<Additive, Multiplicative, Scalar = A0::Scalar>, A7: VectorSpace<Additive, Multiplicative, Scalar = A0::Scalar>, A8: VectorSpace<Additive, Multiplicative, Scalar = A0::Scalar>, A9: VectorSpace<Additive, Multiplicative, Scalar = A0::Scalar>, A10: VectorSpace<Additive, Multiplicative, Scalar = A0::Scalar>, A11: VectorSpace<Additive, Multiplicative, Scalar = A0::Scalar>, A12: VectorSpace<Additive, Multiplicative, Scalar = A0::Scalar>> VectorSpace<Additive, Multiplicative> for (A0, A1, A2, A3, A4, A5, A6, A7, A8, A9, A10, A11, A12) where
    A0::Scalar: Field<Additive, Multiplicative>,
 {

}

// ---- arity 14 ----

impl<A0: Carrier, A1: Carrier, A2: Carrier, A3: Carrier, A4: Carrier, A5: Carrier, A6: Carrier, A7: Carrier, A8: Carrier, A9: Carrier, A10: Carrier, A11: Carrier, A12: Carrier, A13: Carrier> Carrier for (A0, A1, A2, A3, A4, A5, A6, A7, A8, A9, A10, A11, A12, A13) {
    type Model = (A0::Model, A1::Model, A2::Model, A3::Model, A4::Model, A5::Model, A6::Model, A7::Model, A8::Model, A9::Model, A10::Model, A11::Model, A12::Model, A13::Model);

    open spec fn model(self) -> (A0::Model, A1::Model, A2::Model, A3::Model, A4::Model, A5::Model, A6::Model, A7::Model, A8::Model, A9::Model, A10::Model, A11::Model, A12::Model, A13::Model) {
        (self.0.model(), self.1.model(), self.2.model(), self.3.model(), self.4.model(), self.5.model(), self.6.model(), self.7.model(), self.8.model(), self.9.model(), self.10.model(), self.11.model(), self.12.model(), self.13.model())
    }

    open spec fn contains(m: (A0::Model, A1::Model, A2::Model, A3::Model, A4::Model, A5::Model, A6::Model, A7::Model, A8::Model, A9::Model, A10::Model, A11::Model, A12::Model, A13::Model)) -> bool {
        A0::contains(m.0)
            && A1::contains(m.1)
            && A2::contains(m.2)
            && A3::contains(m.3)
            && A4::contains(m.4)
            && A5::contains(m.5)
            && A6::contains(m.6)
            && A7::contains(m.7)
            && A8::contains(m.8)
            && A9::contains(m.9)
            && A10::contains(m.10)
            && A11::contains(m.11)
            && A12::contains(m.12)
            && A13::contains(m.13)
    }

    proof fn lemma_model_contained(x: &Self) {
        A0::lemma_model_contained(&x.0);
        A1::lemma_model_contained(&x.1);
        A2::lemma_model_contained(&x.2);
        A3::lemma_model_contained(&x.3);
        A4::lemma_model_contained(&x.4);
        A5::lemma_model_contained(&x.5);
        A6::lemma_model_contained(&x.6);
        A7::lemma_model_contained(&x.7);
        A8::lemma_model_contained(&x.8);
        A9::lemma_model_contained(&x.9);
        A10::lemma_model_contained(&x.10);
        A11::lemma_model_contained(&x.11);
        A12::lemma_model_contained(&x.12);
        A13::lemma_model_contained(&x.13);
    }
}

impl<Op: Operator, A0: Magma<Op>, A1: Magma<Op>, A2: Magma<Op>, A3: Magma<Op>, A4: Magma<Op>, A5: Magma<Op>, A6: Magma<Op>, A7: Magma<Op>, A8: Magma<Op>, A9: Magma<Op>, A10: Magma<Op>, A11: Magma<Op>, A12: Magma<Op>, A13: Magma<Op>> Magma<Op> for (A0, A1, A2, A3, A4, A5, A6, A7, A8, A9, A10, A11, A12, A13) {
    open spec fn spec_combine(a: (A0::Model, A1::Model, A2::Model, A3::Model, A4::Model, A5::Model, A6::Model, A7::Model, A8::Model, A9::Model, A10::Model, A11::Model, A12::Model, A13::Model), b: (A0::Model, A1::Model, A2::Model, A3::Model, A4::Model, A5::Model, A6::Model, A7::Model, A8::Model, A9::Model, A10::Model, A11::Model, A12::Model, A13::Model)) -> (A0::Model, A1::Model, A2::Model, A3::Model, A4::Model, A5::Model, A6::Model, A7::Model, A8::Model, A9::Model, A10::Model, A11::Model, A12::Model, A13::Model) {
        (A0::spec_combine(a.0, b.0), A1::spec_combine(a.1, b.1), A2::spec_combine(a.2, b.2), A3::spec_combine(a.3, b.3), A4::spec_combine(a.4, b.4), A5::spec_combine(a.5, b.5), A6::spec_combine(a.6, b.6), A7::spec_combine(a.7, b.7), A8::spec_combine(a.8, b.8), A9::spec_combine(a.9, b.9), A10::spec_combine(a.10, b.10), A11::spec_combine(a.11, b.11), A12::spec_combine(a.12, b.12), A13::spec_combine(a.13, b.13))
    }

    proof fn lemma_closed(a: (A0::Model, A1::Model, A2::Model, A3::Model, A4::Model, A5::Model, A6::Model, A7::Model, A8::Model, A9::Model, A10::Model, A11::Model, A12::Model, A13::Model), b: (A0::Model, A1::Model, A2::Model, A3::Model, A4::Model, A5::Model, A6::Model, A7::Model, A8::Model, A9::Model, A10::Model, A11::Model, A12::Model, A13::Model)) {
        A0::lemma_closed(a.0, b.0);
        A1::lemma_closed(a.1, b.1);
        A2::lemma_closed(a.2, b.2);
        A3::lemma_closed(a.3, b.3);
        A4::lemma_closed(a.4, b.4);
        A5::lemma_closed(a.5, b.5);
        A6::lemma_closed(a.6, b.6);
        A7::lemma_closed(a.7, b.7);
        A8::lemma_closed(a.8, b.8);
        A9::lemma_closed(a.9, b.9);
        A10::lemma_closed(a.10, b.10);
        A11::lemma_closed(a.11, b.11);
        A12::lemma_closed(a.12, b.12);
        A13::lemma_closed(a.13, b.13);
    }

    fn combine(&self, rhs: &Self) -> (r: Self) {
        (self.0.combine(&rhs.0), self.1.combine(&rhs.1), self.2.combine(&rhs.2), self.3.combine(&rhs.3), self.4.combine(&rhs.4), self.5.combine(&rhs.5), self.6.combine(&rhs.6), self.7.combine(&rhs.7), self.8.combine(&rhs.8), self.9.combine(&rhs.9), self.10.combine(&rhs.10), self.11.combine(&rhs.11), self.12.combine(&rhs.12), self.13.combine(&rhs.13))
    }
}

impl<Op: Operator, A0: Semigroup<Op>, A1: Semigroup<Op>, A2: Semigroup<Op>, A3: Semigroup<Op>, A4: Semigroup<Op>, A5: Semigroup<Op>, A6: Semigroup<Op>, A7: Semigroup<Op>, A8: Semigroup<Op>, A9: Semigroup<Op>, A10: Semigroup<Op>, A11: Semigroup<Op>, A12: Semigroup<Op>, A13: Semigroup<Op>> Semigroup<Op> for (A0, A1, A2, A3, A4, A5, A6, A7, A8, A9, A10, A11, A12, A13) {
    proof fn lemma_associative(a: (A0::Model, A1::Model, A2::Model, A3::Model, A4::Model, A5::Model, A6::Model, A7::Model, A8::Model, A9::Model, A10::Model, A11::Model, A12::Model, A13::Model), b: (A0::Model, A1::Model, A2::Model, A3::Model, A4::Model, A5::Model, A6::Model, A7::Model, A8::Model, A9::Model, A10::Model, A11::Model, A12::Model, A13::Model), c: (A0::Model, A1::Model, A2::Model, A3::Model, A4::Model, A5::Model, A6::Model, A7::Model, A8::Model, A9::Model, A10::Model, A11::Model, A12::Model, A13::Model)) {
        A0::lemma_associative(a.0, b.0, c.0);
        A1::lemma_associative(a.1, b.1, c.1);
        A2::lemma_associative(a.2, b.2, c.2);
        A3::lemma_associative(a.3, b.3, c.3);
        A4::lemma_associative(a.4, b.4, c.4);
        A5::lemma_associative(a.5, b.5, c.5);
        A6::lemma_associative(a.6, b.6, c.6);
        A7::lemma_associative(a.7, b.7, c.7);
        A8::lemma_associative(a.8, b.8, c.8);
        A9::lemma_associative(a.9, b.9, c.9);
        A10::lemma_associative(a.10, b.10, c.10);
        A11::lemma_associative(a.11, b.11, c.11);
        A12::lemma_associative(a.12, b.12, c.12);
        A13::lemma_associative(a.13, b.13, c.13);
    }
}

impl<Op: Operator, A0: Monoid<Op>, A1: Monoid<Op>, A2: Monoid<Op>, A3: Monoid<Op>, A4: Monoid<Op>, A5: Monoid<Op>, A6: Monoid<Op>, A7: Monoid<Op>, A8: Monoid<Op>, A9: Monoid<Op>, A10: Monoid<Op>, A11: Monoid<Op>, A12: Monoid<Op>, A13: Monoid<Op>> Monoid<Op> for (A0, A1, A2, A3, A4, A5, A6, A7, A8, A9, A10, A11, A12, A13) {
    open spec fn spec_identity() -> (A0::Model, A1::Model, A2::Model, A3::Model, A4::Model, A5::Model, A6::Model, A7::Model, A8::Model, A9::Model, A10::Model, A11::Model, A12::Model, A13::Model) {
        (A0::spec_identity(), A1::spec_identity(), A2::spec_identity(), A3::spec_identity(), A4::spec_identity(), A5::spec_identity(), A6::spec_identity(), A7::spec_identity(), A8::spec_identity(), A9::spec_identity(), A10::spec_identity(), A11::spec_identity(), A12::spec_identity(), A13::spec_identity())
    }

    proof fn lemma_identity(a: (A0::Model, A1::Model, A2::Model, A3::Model, A4::Model, A5::Model, A6::Model, A7::Model, A8::Model, A9::Model, A10::Model, A11::Model, A12::Model, A13::Model)) {
        A0::lemma_identity(a.0);
        A1::lemma_identity(a.1);
        A2::lemma_identity(a.2);
        A3::lemma_identity(a.3);
        A4::lemma_identity(a.4);
        A5::lemma_identity(a.5);
        A6::lemma_identity(a.6);
        A7::lemma_identity(a.7);
        A8::lemma_identity(a.8);
        A9::lemma_identity(a.9);
        A10::lemma_identity(a.10);
        A11::lemma_identity(a.11);
        A12::lemma_identity(a.12);
        A13::lemma_identity(a.13);
    }

    fn identity() -> (r: Self) {
        (A0::identity(), A1::identity(), A2::identity(), A3::identity(), A4::identity(), A5::identity(), A6::identity(), A7::identity(), A8::identity(), A9::identity(), A10::identity(), A11::identity(), A12::identity(), A13::identity())
    }
}

impl<A0: Quasigroup<Additive>, A1: Quasigroup<Additive>, A2: Quasigroup<Additive>, A3: Quasigroup<Additive>, A4: Quasigroup<Additive>, A5: Quasigroup<Additive>, A6: Quasigroup<Additive>, A7: Quasigroup<Additive>, A8: Quasigroup<Additive>, A9: Quasigroup<Additive>, A10: Quasigroup<Additive>, A11: Quasigroup<Additive>, A12: Quasigroup<Additive>, A13: Quasigroup<Additive>> Quasigroup<Additive> for (A0, A1, A2, A3, A4, A5, A6, A7, A8, A9, A10, A11, A12, A13) {
    proof fn lemma_latin_square(a: (A0::Model, A1::Model, A2::Model, A3::Model, A4::Model, A5::Model, A6::Model, A7::Model, A8::Model, A9::Model, A10::Model, A11::Model, A12::Model, A13::Model), b: (A0::Model, A1::Model, A2::Model, A3::Model, A4::Model, A5::Model, A6::Model, A7::Model, A8::Model, A9::Model, A10::Model, A11::Model, A12::Model, A13::Model)) {
        A0::lemma_latin_square(a.0, b.0);
        A1::lemma_latin_square(a.1, b.1);
        A2::lemma_latin_square(a.2, b.2);
        A3::lemma_latin_square(a.3, b.3);
        A4::lemma_latin_square(a.4, b.4);
        A5::lemma_latin_square(a.5, b.5);
        A6::lemma_latin_square(a.6, b.6);
        A7::lemma_latin_square(a.7, b.7);
        A8::lemma_latin_square(a.8, b.8);
        A9::lemma_latin_square(a.9, b.9);
        A10::lemma_latin_square(a.10, b.10);
        A11::lemma_latin_square(a.11, b.11);
        A12::lemma_latin_square(a.12, b.12);
        A13::lemma_latin_square(a.13, b.13);
        let x = (left_quotient::<Additive, A0>(a.0, b.0), left_quotient::<Additive, A1>(a.1, b.1), left_quotient::<Additive, A2>(a.2, b.2), left_quotient::<Additive, A3>(a.3, b.3), left_quotient::<Additive, A4>(a.4, b.4), left_quotient::<Additive, A5>(a.5, b.5), left_quotient::<Additive, A6>(a.6, b.6), left_quotient::<Additive, A7>(a.7, b.7), left_quotient::<Additive, A8>(a.8, b.8), left_quotient::<Additive, A9>(a.9, b.9), left_quotient::<Additive, A10>(a.10, b.10), left_quotient::<Additive, A11>(a.11, b.11), left_quotient::<Additive, A12>(a.12, b.12), left_quotient::<Additive, A13>(a.13, b.13));
        let y = (right_quotient::<Additive, A0>(a.0, b.0), right_quotient::<Additive, A1>(a.1, b.1), right_quotient::<Additive, A2>(a.2, b.2), right_quotient::<Additive, A3>(a.3, b.3), right_quotient::<Additive, A4>(a.4, b.4), right_quotient::<Additive, A5>(a.5, b.5), right_quotient::<Additive, A6>(a.6, b.6), right_quotient::<Additive, A7>(a.7, b.7), right_quotient::<Additive, A8>(a.8, b.8), right_quotient::<Additive, A9>(a.9, b.9), right_quotient::<Additive, A10>(a.10, b.10), right_quotient::<Additive, A11>(a.11, b.11), right_quotient::<Additive, A12>(a.12, b.12), right_quotient::<Additive, A13>(a.13, b.13));
        assert(Self::contains(x) && Self::spec_combine(a, x) == b);
        assert(Self::contains(y) && Self::spec_combine(y, a) == b);
        assert forall|x1: (A0::Model, A1::Model, A2::Model, A3::Model, A4::Model, A5::Model, A6::Model, A7::Model, A8::Model, A9::Model, A10::Model, A11::Model, A12::Model, A13::Model), x2: (A0::Model, A1::Model, A2::Model, A3::Model, A4::Model, A5::Model, A6::Model, A7::Model, A8::Model, A9::Model, A10::Model, A11::Model, A12::Model, A13::Model)|
            Self::contains(x1) && Self::contains(x2) && #[trigger] Self::spec_combine(a, x1)
                == #[trigger] Self::spec_combine(a, x2) implies x1 == x2 by {
            assert(A0::spec_combine(a.0, x1.0) == A0::spec_combine(a.0, x2.0));
            assert(A1::spec_combine(a.1, x1.1) == A1::spec_combine(a.1, x2.1));
            assert(A2::spec_combine(a.2, x1.2) == A2::spec_combine(a.2, x2.2));
            assert(A3::spec_combine(a.3, x1.3) == A3::spec_combine(a.3, x2.3));
            assert(A4::spec_combine(a.4, x1.4) == A4::spec_combine(a.4, x2.4));
            assert(A5::spec_combine(a.5, x1.5) == A5::spec_combine(a.5, x2.5));
            assert(A6::spec_combine(a.6, x1.6) == A6::spec_combine(a.6, x2.6));
            assert(A7::spec_combine(a.7, x1.7) == A7::spec_combine(a.7, x2.7));
            assert(A8::spec_combine(a.8, x1.8) == A8::spec_combine(a.8, x2.8));
            assert(A9::spec_combine(a.9, x1.9) == A9::spec_combine(a.9, x2.9));
            assert(A10::spec_combine(a.10, x1.10) == A10::spec_combine(a.10, x2.10));
            assert(A11::spec_combine(a.11, x1.11) == A11::spec_combine(a.11, x2.11));
            assert(A12::spec_combine(a.12, x1.12) == A12::spec_combine(a.12, x2.12));
            assert(A13::spec_combine(a.13, x1.13) == A13::spec_combine(a.13, x2.13));
        }
        assert forall|y1: (A0::Model, A1::Model, A2::Model, A3::Model, A4::Model, A5::Model, A6::Model, A7::Model, A8::Model, A9::Model, A10::Model, A11::Model, A12::Model, A13::Model), y2: (A0::Model, A1::Model, A2::Model, A3::Model, A4::Model, A5::Model, A6::Model, A7::Model, A8::Model, A9::Model, A10::Model, A11::Model, A12::Model, A13::Model)|
            Self::contains(y1) && Self::contains(y2) && #[trigger] Self::spec_combine(y1, a)
                == #[trigger] Self::spec_combine(y2, a) implies y1 == y2 by {
            assert(A0::spec_combine(y1.0, a.0) == A0::spec_combine(y2.0, a.0));
            assert(A1::spec_combine(y1.1, a.1) == A1::spec_combine(y2.1, a.1));
            assert(A2::spec_combine(y1.2, a.2) == A2::spec_combine(y2.2, a.2));
            assert(A3::spec_combine(y1.3, a.3) == A3::spec_combine(y2.3, a.3));
            assert(A4::spec_combine(y1.4, a.4) == A4::spec_combine(y2.4, a.4));
            assert(A5::spec_combine(y1.5, a.5) == A5::spec_combine(y2.5, a.5));
            assert(A6::spec_combine(y1.6, a.6) == A6::spec_combine(y2.6, a.6));
            assert(A7::spec_combine(y1.7, a.7) == A7::spec_combine(y2.7, a.7));
            assert(A8::spec_combine(y1.8, a.8) == A8::spec_combine(y2.8, a.8));
            assert(A9::spec_combine(y1.9, a.9) == A9::spec_combine(y2.9, a.9));
            assert(A10::spec_combine(y1.10, a.10) == A10::spec_combine(y2.10, a.10));
            assert(A11::spec_combine(y1.11, a.11) == A11::spec_combine(y2.11, a.11));
            assert(A12::spec_combine(y1.12, a.12) == A12::spec_combine(y2.12, a.12));
            assert(A13::spec_combine(y1.13, a.13) == A13::spec_combine(y2.13, a.13));
        }
    }
}

impl<A0: Loop<Additive>, A1: Loop<Additive>, A2: Loop<Additive>, A3: Loop<Additive>, A4: Loop<Additive>, A5: Loop<Additive>, A6: Loop<Additive>, A7: Loop<Additive>, A8: Loop<Additive>, A9: Loop<Additive>, A10: Loop<Additive>, A11: Loop<Additive>, A12: Loop<Additive>, A13: Loop<Additive>> Loop<Additive> for (A0, A1, A2, A3, A4, A5, A6, A7, A8, A9, A10, A11, A12, A13) {

}

impl<A0: Group<Additive>, A1: Group<Additive>, A2: Group<Additive>, A3: Group<Additive>, A4: Group<Additive>, A5: Group<Additive>, A6: Group<Additive>, A7: Group<Additive>, A8: Group<Additive>, A9: Group<Additive>, A10: Group<Additive>, A11: Group<Additive>, A12: Group<Additive>, A13: Group<Additive>> Group<Additive> for (A0, A1, A2, A3, A4, A5, A6, A7, A8, A9, A10, A11, A12, A13) {
    open spec fn spec_inverse(a: (A0::Model, A1::Model, A2::Model, A3::Model, A4::Model, A5::Model, A6::Model, A7::Model, A8::Model, A9::Model, A10::Model, A11::Model, A12::Model, A13::Model)) -> (A0::Model, A1::Model, A2::Model, A3::Model, A4::Model, A5::Model, A6::Model, A7::Model, A8::Model, A9::Model, A10::Model, A11::Model, A12::Model, A13::Model) {
        (A0::spec_inverse(a.0), A1::spec_inverse(a.1), A2::spec_inverse(a.2), A3::spec_inverse(a.3), A4::spec_inverse(a.4), A5::spec_inverse(a.5), A6::spec_inverse(a.6), A7::spec_inverse(a.7), A8::spec_inverse(a.8), A9::spec_inverse(a.9), A10::spec_inverse(a.10), A11::spec_inverse(a.11), A12::spec_inverse(a.12), A13::spec_inverse(a.13))
    }

    proof fn lemma_inverse(a: (A0::Model, A1::Model, A2::Model, A3::Model, A4::Model, A5::Model, A6::Model, A7::Model, A8::Model, A9::Model, A10::Model, A11::Model, A12::Model, A13::Model)) {
        A0::lemma_inverse(a.0);
        A1::lemma_inverse(a.1);
        A2::lemma_inverse(a.2);
        A3::lemma_inverse(a.3);
        A4::lemma_inverse(a.4);
        A5::lemma_inverse(a.5);
        A6::lemma_inverse(a.6);
        A7::lemma_inverse(a.7);
        A8::lemma_inverse(a.8);
        A9::lemma_inverse(a.9);
        A10::lemma_inverse(a.10);
        A11::lemma_inverse(a.11);
        A12::lemma_inverse(a.12);
        A13::lemma_inverse(a.13);
    }

    fn inverse(&self) -> (r: Self) {
        (self.0.inverse(), self.1.inverse(), self.2.inverse(), self.3.inverse(), self.4.inverse(), self.5.inverse(), self.6.inverse(), self.7.inverse(), self.8.inverse(), self.9.inverse(), self.10.inverse(), self.11.inverse(), self.12.inverse(), self.13.inverse())
    }
}

impl<A0: AbelianGroup<Additive>, A1: AbelianGroup<Additive>, A2: AbelianGroup<Additive>, A3: AbelianGroup<Additive>, A4: AbelianGroup<Additive>, A5: AbelianGroup<Additive>, A6: AbelianGroup<Additive>, A7: AbelianGroup<Additive>, A8: AbelianGroup<Additive>, A9: AbelianGroup<Additive>, A10: AbelianGroup<Additive>, A11: AbelianGroup<Additive>, A12: AbelianGroup<Additive>, A13: AbelianGroup<Additive>> AbelianGroup<Additive> for (A0, A1, A2, A3, A4, A5, A6, A7, A8, A9, A10, A11, A12, A13) {
    proof fn lemma_commutative(a: (A0::Model, A1::Model, A2::Model, A3::Model, A4::Model, A5::Model, A6::Model, A7::Model, A8::Model, A9::Model, A10::Model, A11::Model, A12::Model, A13::Model), b: (A0::Model, A1::Model, A2::Model, A3::Model, A4::Model, A5::Model, A6::Model, A7::Model, A8::Model, A9::Model, A10::Model, A11::Model, A12::Model, A13::Model)) {
        A0::lemma_commutative(a.0, b.0);
        A1::lemma_commutative(a.1, b.1);
        A2::lemma_commutative(a.2, b.2);
        A3::lemma_commutative(a.3, b.3);
        A4::lemma_commutative(a.4, b.4);
        A5::lemma_commutative(a.5, b.5);
        A6::lemma_commutative(a.6, b.6);
        A7::lemma_commutative(a.7, b.7);
        A8::lemma_commutative(a.8, b.8);
        A9::lemma_commutative(a.9, b.9);
        A10::lemma_commutative(a.10, b.10);
        A11::lemma_commutative(a.11, b.11);
        A12::lemma_commutative(a.12, b.12);
        A13::lemma_commutative(a.13, b.13);
    }
}

impl<A0: Semiring<Additive, Multiplicative>, A1: Semiring<Additive, Multiplicative>, A2: Semiring<Additive, Multiplicative>, A3: Semiring<Additive, Multiplicative>, A4: Semiring<Additive, Multiplicative>, A5: Semiring<Additive, Multiplicative>, A6: Semiring<Additive, Multiplicative>, A7: Semiring<Additive, Multiplicative>, A8: Semiring<Additive, Multiplicative>, A9: Semiring<Additive, Multiplicative>, A10: Semiring<Additive, Multiplicative>, A11: Semiring<Additive, Multiplicative>, A12: Semiring<Additive, Multiplicative>, A13: Semiring<Additive, Multiplicative>> Semiring<Additive, Multiplicative> for (A0, A1, A2, A3, A4, A5, A6, A7, A8, A9, A10, A11, A12, A13) {
    proof fn lemma_distributive(a: (A0::Model, A1::Model, A2::Model, A3::Model, A4::Model, A5::Model, A6::Model, A7::Model, A8::Model, A9::Model, A10::Model, A11::Model, A12::Model, A13::Model), b: (A0::Model, A1::Model, A2::Model, A3::Model, A4::Model, A5::Model, A6::Model, A7::Model, A8::Model, A9::Model, A10::Model, A11::Model, A12::Model, A13::Model), c: (A0::Model, A1::Model, A2::Model, A3::Model, A4::Model, A5::Model, A6::Model, A7::Model, A8::Model, A9::Model, A10::Model, A11::Model, A12::Model, A13::Model)) {
        A0::lemma_distributive(a.0, b.0, c.0);
        A1::lemma_distributive(a.1, b.1, c.1);
        A2::lemma_distributive(a.2, b.2, c.2);
        A3::lemma_distributive(a.3, b.3, c.3);
        A4::lemma_distributive(a.4, b.4, c.4);
        A5::lemma_distributive(a.5, b.5, c.5);
        A6::lemma_distributive(a.6, b.6, c.6);
        A7::lemma_distributive(a.7, b.7, c.7);
        A8::lemma_distributive(a.8, b.8, c.8);
        A9::lemma_distributive(a.9, b.9, c.9);
        A10::lemma_distributive(a.10, b.10, c.10);
        A11::lemma_distributive(a.11, b.11, c.11);
        A12::lemma_distributive(a.12, b.12, c.12);
        A13::lemma_distributive(a.13, b.13, c.13);
    }
}

impl<A0: Ring<Additive, Multiplicative>, A1: Ring<Additive, Multiplicative>, A2: Ring<Additive, Multiplicative>, A3: Ring<Additive, Multiplicative>, A4: Ring<Additive, Multiplicative>, A5: Ring<Additive, Multiplicative>, A6: Ring<Additive, Multiplicative>, A7: Ring<Additive, Multiplicative>, A8: Ring<Additive, Multiplicative>, A9: Ring<Additive, Multiplicative>, A10: Ring<Additive, Multiplicative>, A11: Ring<Additive, Multiplicative>, A12: Ring<Additive, Multiplicative>, A13: Ring<Additive, Multiplicative>> Ring<Additive, Multiplicative> for (A0, A1, A2, A3, A4, A5, A6, A7, A8, A9, A10, A11, A12, A13) {

}

impl<A0: CommutativeRing<Additive, Multiplicative>, A1: CommutativeRing<Additive, Multiplicative>, A2: CommutativeRing<Additive, Multiplicative>, A3: CommutativeRing<Additive, Multiplicative>, A4: CommutativeRing<Additive, Multiplicative>, A5: CommutativeRing<Additive, Multiplicative>, A6: CommutativeRing<Additive, Multiplicative>, A7: CommutativeRing<Additive, Multiplicative>, A8: CommutativeRing<Additive, Multiplicative>, A9: CommutativeRing<Additive, Multiplicative>, A10: CommutativeRing<Additive, Multiplicative>, A11: CommutativeRing<Additive, Multiplicative>, A12: CommutativeRing<Additive, Multiplicative>, A13: CommutativeRing<Additive, Multiplicative>> CommutativeRing<Additive, Multiplicative> for (A0, A1, A2, A3, A4, A5, A6, A7, A8, A9, A10, A11, A12, A13) {
    proof fn lemma_multiplication_commutes(a: (A0::Model, A1::Model, A2::Model, A3::Model, A4::Model, A5::Model, A6::Model, A7::Model, A8::Model, A9::Model, A10::Model, A11::Model, A12::Model, A13::Model), b: (A0::Model, A1::Model, A2::Model, A3::Model, A4::Model, A5::Model, A6::Model, A7::Model, A8::Model, A9::Model, A10::Model, A11::Model, A12::Model, A13::Model)) {
        A0::lemma_multiplication_commutes(a.0, b.0);
        A1::lemma_multiplication_commutes(a.1, b.1);
        A2::lemma_multiplication_commutes(a.2, b.2);
        A3::lemma_multiplication_commutes(a.3, b.3);
        A4::lemma_multiplication_commutes(a.4, b.4);
        A5::lemma_multiplication_commutes(a.5, b.5);
        A6::lemma_multiplication_commutes(a.6, b.6);
        A7::lemma_multiplication_commutes(a.7, b.7);
        A8::lemma_multiplication_commutes(a.8, b.8);
        A9::lemma_multiplication_commutes(a.9, b.9);
        A10::lemma_multiplication_commutes(a.10, b.10);
        A11::lemma_multiplication_commutes(a.11, b.11);
        A12::lemma_multiplication_commutes(a.12, b.12);
        A13::lemma_multiplication_commutes(a.13, b.13);
    }
}

impl<A0: Module<Additive, Multiplicative>, A1: Module<Additive, Multiplicative, Scalar = A0::Scalar>, A2: Module<Additive, Multiplicative, Scalar = A0::Scalar>, A3: Module<Additive, Multiplicative, Scalar = A0::Scalar>, A4: Module<Additive, Multiplicative, Scalar = A0::Scalar>, A5: Module<Additive, Multiplicative, Scalar = A0::Scalar>, A6: Module<Additive, Multiplicative, Scalar = A0::Scalar>, A7: Module<Additive, Multiplicative, Scalar = A0::Scalar>, A8: Module<Additive, Multiplicative, Scalar = A0::Scalar>, A9: Module<Additive, Multiplicative, Scalar = A0::Scalar>, A10: Module<Additive, Multiplicative, Scalar = A0::Scalar>, A11: Module<Additive, Multiplicative, Scalar = A0::Scalar>, A12: Module<Additive, Multiplicative, Scalar = A0::Scalar>, A13: Module<Additive, Multiplicative, Scalar = A0::Scalar>> Module<Additive, Multiplicative> for (A0, A1, A2, A3, A4, A5, A6, A7, A8, A9, A10, A11, A12, A13) {
    type Scalar = A0::Scalar;

    open spec fn spec_scale(s: <A0::Scalar as Carrier>::Model, v: (A0::Model, A1::Model, A2::Model, A3::Model, A4::Model, A5::Model, A6::Model, A7::Model, A8::Model, A9::Model, A10::Model, A11::Model, A12::Model, A13::Model)) -> (A0::Model, A1::Model, A2::Model, A3::Model, A4::Model, A5::Model, A6::Model, A7::Model, A8::Model, A9::Model, A10::Model, A11::Model, A12::Model, A13::Model) {
        (A0::spec_scale(s, v.0), A1::spec_scale(s, v.1), A2::spec_scale(s, v.2), A3::spec_scale(s, v.3), A4::spec_scale(s, v.4), A5::spec_scale(s, v.5), A6::spec_scale(s, v.6), A7::spec_scale(s, v.7), A8::spec_scale(s, v.8), A9::spec_scale(s, v.9), A10::spec_scale(s, v.10), A11::spec_scale(s, v.11), A12::spec_scale(s, v.12), A13::spec_scale(s, v.13))
    }

    proof fn lemma_module(
        s: <A0::Scalar as Carrier>::Model,
        t: <A0::Scalar as Carrier>::Model,
        u: (A0::Model, A1::Model, A2::Model, A3::Model, A4::Model, A5::Model, A6::Model, A7::Model, A8::Model, A9::Model, A10::Model, A11::Model, A12::Model, A13::Model),
        v: (A0::Model, A1::Model, A2::Model, A3::Model, A4::Model, A5::Model, A6::Model, A7::Model, A8::Model, A9::Model, A10::Model, A11::Model, A12::Model, A13::Model),
    ) {
        A0::lemma_module(s, t, u.0, v.0);
        A1::lemma_module(s, t, u.1, v.1);
        A2::lemma_module(s, t, u.2, v.2);
        A3::lemma_module(s, t, u.3, v.3);
        A4::lemma_module(s, t, u.4, v.4);
        A5::lemma_module(s, t, u.5, v.5);
        A6::lemma_module(s, t, u.6, v.6);
        A7::lemma_module(s, t, u.7, v.7);
        A8::lemma_module(s, t, u.8, v.8);
        A9::lemma_module(s, t, u.9, v.9);
        A10::lemma_module(s, t, u.10, v.10);
        A11::lemma_module(s, t, u.11, v.11);
        A12::lemma_module(s, t, u.12, v.12);
        A13::lemma_module(s, t, u.13, v.13);
    }

    fn scale(s: &A0::Scalar, v: Self) -> (r: Self) {
        (A0::scale(s, v.0), A1::scale(s, v.1), A2::scale(s, v.2), A3::scale(s, v.3), A4::scale(s, v.4), A5::scale(s, v.5), A6::scale(s, v.6), A7::scale(s, v.7), A8::scale(s, v.8), A9::scale(s, v.9), A10::scale(s, v.10), A11::scale(s, v.11), A12::scale(s, v.12), A13::scale(s, v.13))
    }
}

impl<A0: VectorSpace<Additive, Multiplicative>, A1: VectorSpace<Additive, Multiplicative, Scalar = A0::Scalar>, A2: VectorSpace<Additive, Multiplicative, Scalar = A0::Scalar>, A3: VectorSpace<Additive, Multiplicative, Scalar = A0::Scalar>, A4: VectorSpace<Additive, Multiplicative, Scalar = A0::Scalar>, A5: VectorSpace<Additive, Multiplicative, Scalar = A0::Scalar>, A6: VectorSpace<Additive, Multiplicative, Scalar = A0::Scalar>, A7: VectorSpace<Additive, Multiplicative, Scalar = A0::Scalar>, A8: VectorSpace<Additive, Multiplicative, Scalar = A0::Scalar>, A9: VectorSpace<Additive, Multiplicative, Scalar = A0::Scalar>, A10: VectorSpace<Additive, Multiplicative, Scalar = A0::Scalar>, A11: VectorSpace<Additive, Multiplicative, Scalar = A0::Scalar>, A12: VectorSpace<Additive, Multiplicative, Scalar = A0::Scalar>, A13: VectorSpace<Additive, Multiplicative, Scalar = A0::Scalar>> VectorSpace<Additive, Multiplicative> for (A0, A1, A2, A3, A4, A5, A6, A7, A8, A9, A10, A11, A12, A13) where
    A0::Scalar: Field<Additive, Multiplicative>,
 {

}

// ---- arity 15 ----

impl<A0: Carrier, A1: Carrier, A2: Carrier, A3: Carrier, A4: Carrier, A5: Carrier, A6: Carrier, A7: Carrier, A8: Carrier, A9: Carrier, A10: Carrier, A11: Carrier, A12: Carrier, A13: Carrier, A14: Carrier> Carrier for (A0, A1, A2, A3, A4, A5, A6, A7, A8, A9, A10, A11, A12, A13, A14) {
    type Model = (A0::Model, A1::Model, A2::Model, A3::Model, A4::Model, A5::Model, A6::Model, A7::Model, A8::Model, A9::Model, A10::Model, A11::Model, A12::Model, A13::Model, A14::Model);

    open spec fn model(self) -> (A0::Model, A1::Model, A2::Model, A3::Model, A4::Model, A5::Model, A6::Model, A7::Model, A8::Model, A9::Model, A10::Model, A11::Model, A12::Model, A13::Model, A14::Model) {
        (self.0.model(), self.1.model(), self.2.model(), self.3.model(), self.4.model(), self.5.model(), self.6.model(), self.7.model(), self.8.model(), self.9.model(), self.10.model(), self.11.model(), self.12.model(), self.13.model(), self.14.model())
    }

    open spec fn contains(m: (A0::Model, A1::Model, A2::Model, A3::Model, A4::Model, A5::Model, A6::Model, A7::Model, A8::Model, A9::Model, A10::Model, A11::Model, A12::Model, A13::Model, A14::Model)) -> bool {
        A0::contains(m.0)
            && A1::contains(m.1)
            && A2::contains(m.2)
            && A3::contains(m.3)
            && A4::contains(m.4)
            && A5::contains(m.5)
            && A6::contains(m.6)
            && A7::contains(m.7)
            && A8::contains(m.8)
            && A9::contains(m.9)
            && A10::contains(m.10)
            && A11::contains(m.11)
            && A12::contains(m.12)
            && A13::contains(m.13)
            && A14::contains(m.14)
    }

    proof fn lemma_model_contained(x: &Self) {
        A0::lemma_model_contained(&x.0);
        A1::lemma_model_contained(&x.1);
        A2::lemma_model_contained(&x.2);
        A3::lemma_model_contained(&x.3);
        A4::lemma_model_contained(&x.4);
        A5::lemma_model_contained(&x.5);
        A6::lemma_model_contained(&x.6);
        A7::lemma_model_contained(&x.7);
        A8::lemma_model_contained(&x.8);
        A9::lemma_model_contained(&x.9);
        A10::lemma_model_contained(&x.10);
        A11::lemma_model_contained(&x.11);
        A12::lemma_model_contained(&x.12);
        A13::lemma_model_contained(&x.13);
        A14::lemma_model_contained(&x.14);
    }
}

impl<Op: Operator, A0: Magma<Op>, A1: Magma<Op>, A2: Magma<Op>, A3: Magma<Op>, A4: Magma<Op>, A5: Magma<Op>, A6: Magma<Op>, A7: Magma<Op>, A8: Magma<Op>, A9: Magma<Op>, A10: Magma<Op>, A11: Magma<Op>, A12: Magma<Op>, A13: Magma<Op>, A14: Magma<Op>> Magma<Op> for (A0, A1, A2, A3, A4, A5, A6, A7, A8, A9, A10, A11, A12, A13, A14) {
    open spec fn spec_combine(a: (A0::Model, A1::Model, A2::Model, A3::Model, A4::Model, A5::Model, A6::Model, A7::Model, A8::Model, A9::Model, A10::Model, A11::Model, A12::Model, A13::Model, A14::Model), b: (A0::Model, A1::Model, A2::Model, A3::Model, A4::Model, A5::Model, A6::Model, A7::Model, A8::Model, A9::Model, A10::Model, A11::Model, A12::Model, A13::Model, A14::Model)) -> (A0::Model, A1::Model, A2::Model, A3::Model, A4::Model, A5::Model, A6::Model, A7::Model, A8::Model, A9::Model, A10::Model, A11::Model, A12::Model, A13::Model, A14::Model) {
        (A0::spec_combine(a.0, b.0), A1::spec_combine(a.1, b.1), A2::spec_combine(a.2, b.2), A3::spec_combine(a.3, b.3), A4::spec_combine(a.4, b.4), A5::spec_combine(a.5, b.5), A6::spec_combine(a.6, b.6), A7::spec_combine(a.7, b.7), A8::spec_combine(a.8, b.8), A9::spec_combine(a.9, b.9), A10::spec_combine(a.10, b.10), A11::spec_combine(a.11, b.11), A12::spec_combine(a.12, b.12), A13::spec_combine(a.13, b.13), A14::spec_combine(a.14, b.14))
    }

    proof fn lemma_closed(a: (A0::Model, A1::Model, A2::Model, A3::Model, A4::Model, A5::Model, A6::Model, A7::Model, A8::Model, A9::Model, A10::Model, A11::Model, A12::Model, A13::Model, A14::Model), b: (A0::Model, A1::Model, A2::Model, A3::Model, A4::Model, A5::Model, A6::Model, A7::Model, A8::Model, A9::Model, A10::Model, A11::Model, A12::Model, A13::Model, A14::Model)) {
        A0::lemma_closed(a.0, b.0);
        A1::lemma_closed(a.1, b.1);
        A2::lemma_closed(a.2, b.2);
        A3::lemma_closed(a.3, b.3);
        A4::lemma_closed(a.4, b.4);
        A5::lemma_closed(a.5, b.5);
        A6::lemma_closed(a.6, b.6);
        A7::lemma_closed(a.7, b.7);
        A8::lemma_closed(a.8, b.8);
        A9::lemma_closed(a.9, b.9);
        A10::lemma_closed(a.10, b.10);
        A11::lemma_closed(a.11, b.11);
        A12::lemma_closed(a.12, b.12);
        A13::lemma_closed(a.13, b.13);
        A14::lemma_closed(a.14, b.14);
    }

    fn combine(&self, rhs: &Self) -> (r: Self) {
        (self.0.combine(&rhs.0), self.1.combine(&rhs.1), self.2.combine(&rhs.2), self.3.combine(&rhs.3), self.4.combine(&rhs.4), self.5.combine(&rhs.5), self.6.combine(&rhs.6), self.7.combine(&rhs.7), self.8.combine(&rhs.8), self.9.combine(&rhs.9), self.10.combine(&rhs.10), self.11.combine(&rhs.11), self.12.combine(&rhs.12), self.13.combine(&rhs.13), self.14.combine(&rhs.14))
    }
}

impl<Op: Operator, A0: Semigroup<Op>, A1: Semigroup<Op>, A2: Semigroup<Op>, A3: Semigroup<Op>, A4: Semigroup<Op>, A5: Semigroup<Op>, A6: Semigroup<Op>, A7: Semigroup<Op>, A8: Semigroup<Op>, A9: Semigroup<Op>, A10: Semigroup<Op>, A11: Semigroup<Op>, A12: Semigroup<Op>, A13: Semigroup<Op>, A14: Semigroup<Op>> Semigroup<Op> for (A0, A1, A2, A3, A4, A5, A6, A7, A8, A9, A10, A11, A12, A13, A14) {
    proof fn lemma_associative(a: (A0::Model, A1::Model, A2::Model, A3::Model, A4::Model, A5::Model, A6::Model, A7::Model, A8::Model, A9::Model, A10::Model, A11::Model, A12::Model, A13::Model, A14::Model), b: (A0::Model, A1::Model, A2::Model, A3::Model, A4::Model, A5::Model, A6::Model, A7::Model, A8::Model, A9::Model, A10::Model, A11::Model, A12::Model, A13::Model, A14::Model), c: (A0::Model, A1::Model, A2::Model, A3::Model, A4::Model, A5::Model, A6::Model, A7::Model, A8::Model, A9::Model, A10::Model, A11::Model, A12::Model, A13::Model, A14::Model)) {
        A0::lemma_associative(a.0, b.0, c.0);
        A1::lemma_associative(a.1, b.1, c.1);
        A2::lemma_associative(a.2, b.2, c.2);
        A3::lemma_associative(a.3, b.3, c.3);
        A4::lemma_associative(a.4, b.4, c.4);
        A5::lemma_associative(a.5, b.5, c.5);
        A6::lemma_associative(a.6, b.6, c.6);
        A7::lemma_associative(a.7, b.7, c.7);
        A8::lemma_associative(a.8, b.8, c.8);
        A9::lemma_associative(a.9, b.9, c.9);
        A10::lemma_associative(a.10, b.10, c.10);
        A11::lemma_associative(a.11, b.11, c.11);
        A12::lemma_associative(a.12, b.12, c.12);
        A13::lemma_associative(a.13, b.13, c.13);
        A14::lemma_associative(a.14, b.14, c.14);
    }
}

impl<Op: Operator, A0: Monoid<Op>, A1: Monoid<Op>, A2: Monoid<Op>, A3: Monoid<Op>, A4: Monoid<Op>, A5: Monoid<Op>, A6: Monoid<Op>, A7: Monoid<Op>, A8: Monoid<Op>, A9: Monoid<Op>, A10: Monoid<Op>, A11: Monoid<Op>, A12: Monoid<Op>, A13: Monoid<Op>, A14: Monoid<Op>> Monoid<Op> for (A0, A1, A2, A3, A4, A5, A6, A7, A8, A9, A10, A11, A12, A13, A14) {
    open spec fn spec_identity() -> (A0::Model, A1::Model, A2::Model, A3::Model, A4::Model, A5::Model, A6::Model, A7::Model, A8::Model, A9::Model, A10::Model, A11::Model, A12::Model, A13::Model, A14::Model) {
        (A0::spec_identity(), A1::spec_identity(), A2::spec_identity(), A3::spec_identity(), A4::spec_identity(), A5::spec_identity(), A6::spec_identity(), A7::spec_identity(), A8::spec_identity(), A9::spec_identity(), A10::spec_identity(), A11::spec_identity(), A12::spec_identity(), A13::spec_identity(), A14::spec_identity())
    }

    proof fn lemma_identity(a: (A0::Model, A1::Model, A2::Model, A3::Model, A4::Model, A5::Model, A6::Model, A7::Model, A8::Model, A9::Model, A10::Model, A11::Model, A12::Model, A13::Model, A14::Model)) {
        A0::lemma_identity(a.0);
        A1::lemma_identity(a.1);
        A2::lemma_identity(a.2);
        A3::lemma_identity(a.3);
        A4::lemma_identity(a.4);
        A5::lemma_identity(a.5);
        A6::lemma_identity(a.6);
        A7::lemma_identity(a.7);
        A8::lemma_identity(a.8);
        A9::lemma_identity(a.9);
        A10::lemma_identity(a.10);
        A11::lemma_identity(a.11);
        A12::lemma_identity(a.12);
        A13::lemma_identity(a.13);
        A14::lemma_identity(a.14);
    }

    fn identity() -> (r: Self) {
        (A0::identity(), A1::identity(), A2::identity(), A3::identity(), A4::identity(), A5::identity(), A6::identity(), A7::identity(), A8::identity(), A9::identity(), A10::identity(), A11::identity(), A12::identity(), A13::identity(), A14::identity())
    }
}

impl<A0: Quasigroup<Additive>, A1: Quasigroup<Additive>, A2: Quasigroup<Additive>, A3: Quasigroup<Additive>, A4: Quasigroup<Additive>, A5: Quasigroup<Additive>, A6: Quasigroup<Additive>, A7: Quasigroup<Additive>, A8: Quasigroup<Additive>, A9: Quasigroup<Additive>, A10: Quasigroup<Additive>, A11: Quasigroup<Additive>, A12: Quasigroup<Additive>, A13: Quasigroup<Additive>, A14: Quasigroup<Additive>> Quasigroup<Additive> for (A0, A1, A2, A3, A4, A5, A6, A7, A8, A9, A10, A11, A12, A13, A14) {
    proof fn lemma_latin_square(a: (A0::Model, A1::Model, A2::Model, A3::Model, A4::Model, A5::Model, A6::Model, A7::Model, A8::Model, A9::Model, A10::Model, A11::Model, A12::Model, A13::Model, A14::Model), b: (A0::Model, A1::Model, A2::Model, A3::Model, A4::Model, A5::Model, A6::Model, A7::Model, A8::Model, A9::Model, A10::Model, A11::Model, A12::Model, A13::Model, A14::Model)) {
        A0::lemma_latin_square(a.0, b.0);
        A1::lemma_latin_square(a.1, b.1);
        A2::lemma_latin_square(a.2, b.2);
        A3::lemma_latin_square(a.3, b.3);
        A4::lemma_latin_square(a.4, b.4);
        A5::lemma_latin_square(a.5, b.5);
        A6::lemma_latin_square(a.6, b.6);
        A7::lemma_latin_square(a.7, b.7);
        A8::lemma_latin_square(a.8, b.8);
        A9::lemma_latin_square(a.9, b.9);
        A10::lemma_latin_square(a.10, b.10);
        A11::lemma_latin_square(a.11, b.11);
        A12::lemma_latin_square(a.12, b.12);
        A13::lemma_latin_square(a.13, b.13);
        A14::lemma_latin_square(a.14, b.14);
        let x = (left_quotient::<Additive, A0>(a.0, b.0), left_quotient::<Additive, A1>(a.1, b.1), left_quotient::<Additive, A2>(a.2, b.2), left_quotient::<Additive, A3>(a.3, b.3), left_quotient::<Additive, A4>(a.4, b.4), left_quotient::<Additive, A5>(a.5, b.5), left_quotient::<Additive, A6>(a.6, b.6), left_quotient::<Additive, A7>(a.7, b.7), left_quotient::<Additive, A8>(a.8, b.8), left_quotient::<Additive, A9>(a.9, b.9), left_quotient::<Additive, A10>(a.10, b.10), left_quotient::<Additive, A11>(a.11, b.11), left_quotient::<Additive, A12>(a.12, b.12), left_quotient::<Additive, A13>(a.13, b.13), left_quotient::<Additive, A14>(a.14, b.14));
        let y = (right_quotient::<Additive, A0>(a.0, b.0), right_quotient::<Additive, A1>(a.1, b.1), right_quotient::<Additive, A2>(a.2, b.2), right_quotient::<Additive, A3>(a.3, b.3), right_quotient::<Additive, A4>(a.4, b.4), right_quotient::<Additive, A5>(a.5, b.5), right_quotient::<Additive, A6>(a.6, b.6), right_quotient::<Additive, A7>(a.7, b.7), right_quotient::<Additive, A8>(a.8, b.8), right_quotient::<Additive, A9>(a.9, b.9), right_quotient::<Additive, A10>(a.10, b.10), right_quotient::<Additive, A11>(a.11, b.11), right_quotient::<Additive, A12>(a.12, b.12), right_quotient::<Additive, A13>(a.13, b.13), right_quotient::<Additive, A14>(a.14, b.14));
        assert(Self::contains(x) && Self::spec_combine(a, x) == b);
        assert(Self::contains(y) && Self::spec_combine(y, a) == b);
        assert forall|x1: (A0::Model, A1::Model, A2::Model, A3::Model, A4::Model, A5::Model, A6::Model, A7::Model, A8::Model, A9::Model, A10::Model, A11::Model, A12::Model, A13::Model, A14::Model), x2: (A0::Model, A1::Model, A2::Model, A3::Model, A4::Model, A5::Model, A6::Model, A7::Model, A8::Model, A9::Model, A10::Model, A11::Model, A12::Model, A13::Model, A14::Model)|
            Self::contains(x1) && Self::contains(x2) && #[trigger] Self::spec_combine(a, x1)
                == #[trigger] Self::spec_combine(a, x2) implies x1 == x2 by {
            assert(A0::spec_combine(a.0, x1.0) == A0::spec_combine(a.0, x2.0));
            assert(A1::spec_combine(a.1, x1.1) == A1::spec_combine(a.1, x2.1));
            assert(A2::spec_combine(a.2, x1.2) == A2::spec_combine(a.2, x2.2));
            assert(A3::spec_combine(a.3, x1.3) == A3::spec_combine(a.3, x2.3));
            assert(A4::spec_combine(a.4, x1.4) == A4::spec_combine(a.4, x2.4));
            assert(A5::spec_combine(a.5, x1.5) == A5::spec_combine(a.5, x2.5));
            assert(A6::spec_combine(a.6, x1.6) == A6::spec_combine(a.6, x2.6));
            assert(A7::spec_combine(a.7, x1.7) == A7::spec_combine(a.7, x2.7));
            assert(A8::spec_combine(a.8, x1.8) == A8::spec_combine(a.8, x2.8));
            assert(A9::spec_combine(a.9, x1.9) == A9::spec_combine(a.9, x2.9));
            assert(A10::spec_combine(a.10, x1.10) == A10::spec_combine(a.10, x2.10));
            assert(A11::spec_combine(a.11, x1.11) == A11::spec_combine(a.11, x2.11));
            assert(A12::spec_combine(a.12, x1.12) == A12::spec_combine(a.12, x2.12));
            assert(A13::spec_combine(a.13, x1.13) == A13::spec_combine(a.13, x2.13));
            assert(A14::spec_combine(a.14, x1.14) == A14::spec_combine(a.14, x2.14));
        }
        assert forall|y1: (A0::Model, A1::Model, A2::Model, A3::Model, A4::Model, A5::Model, A6::Model, A7::Model, A8::Model, A9::Model, A10::Model, A11::Model, A12::Model, A13::Model, A14::Model), y2: (A0::Model, A1::Model, A2::Model, A3::Model, A4::Model, A5::Model, A6::Model, A7::Model, A8::Model, A9::Model, A10::Model, A11::Model, A12::Model, A13::Model, A14::Model)|
            Self::contains(y1) && Self::contains(y2) && #[trigger] Self::spec_combine(y1, a)
                == #[trigger] Self::spec_combine(y2, a) implies y1 == y2 by {
            assert(A0::spec_combine(y1.0, a.0) == A0::spec_combine(y2.0, a.0));
            assert(A1::spec_combine(y1.1, a.1) == A1::spec_combine(y2.1, a.1));
            assert(A2::spec_combine(y1.2, a.2) == A2::spec_combine(y2.2, a.2));
            assert(A3::spec_combine(y1.3, a.3) == A3::spec_combine(y2.3, a.3));
            assert(A4::spec_combine(y1.4, a.4) == A4::spec_combine(y2.4, a.4));
            assert(A5::spec_combine(y1.5, a.5) == A5::spec_combine(y2.5, a.5));
            assert(A6::spec_combine(y1.6, a.6) == A6::spec_combine(y2.6, a.6));
            assert(A7::spec_combine(y1.7, a.7) == A7::spec_combine(y2.7, a.7));
            assert(A8::spec_combine(y1.8, a.8) == A8::spec_combine(y2.8, a.8));
            assert(A9::spec_combine(y1.9, a.9) == A9::spec_combine(y2.9, a.9));
            assert(A10::spec_combine(y1.10, a.10) == A10::spec_combine(y2.10, a.10));
            assert(A11::spec_combine(y1.11, a.11) == A11::spec_combine(y2.11, a.11));
            assert(A12::spec_combine(y1.12, a.12) == A12::spec_combine(y2.12, a.12));
            assert(A13::spec_combine(y1.13, a.13) == A13::spec_combine(y2.13, a.13));
            assert(A14::spec_combine(y1.14, a.14) == A14::spec_combine(y2.14, a.14));
        }
    }
}

impl<A0: Loop<Additive>, A1: Loop<Additive>, A2: Loop<Additive>, A3: Loop<Additive>, A4: Loop<Additive>, A5: Loop<Additive>, A6: Loop<Additive>, A7: Loop<Additive>, A8: Loop<Additive>, A9: Loop<Additive>, A10: Loop<Additive>, A11: Loop<Additive>, A12: Loop<Additive>, A13: Loop<Additive>, A14: Loop<Additive>> Loop<Additive> for (A0, A1, A2, A3, A4, A5, A6, A7, A8, A9, A10, A11, A12, A13, A14) {

}

impl<A0: Group<Additive>, A1: Group<Additive>, A2: Group<Additive>, A3: Group<Additive>, A4: Group<Additive>, A5: Group<Additive>, A6: Group<Additive>, A7: Group<Additive>, A8: Group<Additive>, A9: Group<Additive>, A10: Group<Additive>, A11: Group<Additive>, A12: Group<Additive>, A13: Group<Additive>, A14: Group<Additive>> Group<Additive> for (A0, A1, A2, A3, A4, A5, A6, A7, A8, A9, A10, A11, A12, A13, A14) {
    open spec fn spec_inverse(a: (A0::Model, A1::Model, A2::Model, A3::Model, A4::Model, A5::Model, A6::Model, A7::Model, A8::Model, A9::Model, A10::Model, A11::Model, A12::Model, A13::Model, A14::Model)) -> (A0::Model, A1::Model, A2::Model, A3::Model, A4::Model, A5::Model, A6::Model, A7::Model, A8::Model, A9::Model, A10::Model, A11::Model, A12::Model, A13::Model, A14::Model) {
        (A0::spec_inverse(a.0), A1::spec_inverse(a.1), A2::spec_inverse(a.2), A3::spec_inverse(a.3), A4::spec_inverse(a.4), A5::spec_inverse(a.5), A6::spec_inverse(a.6), A7::spec_inverse(a.7), A8::spec_inverse(a.8), A9::spec_inverse(a.9), A10::spec_inverse(a.10), A11::spec_inverse(a.11), A12::spec_inverse(a.12), A13::spec_inverse(a.13), A14::spec_inverse(a.14))
    }

    proof fn lemma_inverse(a: (A0::Model, A1::Model, A2::Model, A3::Model, A4::Model, A5::Model, A6::Model, A7::Model, A8::Model, A9::Model, A10::Model, A11::Model, A12::Model, A13::Model, A14::Model)) {
        A0::lemma_inverse(a.0);
        A1::lemma_inverse(a.1);
        A2::lemma_inverse(a.2);
        A3::lemma_inverse(a.3);
        A4::lemma_inverse(a.4);
        A5::lemma_inverse(a.5);
        A6::lemma_inverse(a.6);
        A7::lemma_inverse(a.7);
        A8::lemma_inverse(a.8);
        A9::lemma_inverse(a.9);
        A10::lemma_inverse(a.10);
        A11::lemma_inverse(a.11);
        A12::lemma_inverse(a.12);
        A13::lemma_inverse(a.13);
        A14::lemma_inverse(a.14);
    }

    fn inverse(&self) -> (r: Self) {
        (self.0.inverse(), self.1.inverse(), self.2.inverse(), self.3.inverse(), self.4.inverse(), self.5.inverse(), self.6.inverse(), self.7.inverse(), self.8.inverse(), self.9.inverse(), self.10.inverse(), self.11.inverse(), self.12.inverse(), self.13.inverse(), self.14.inverse())
    }
}

impl<A0: AbelianGroup<Additive>, A1: AbelianGroup<Additive>, A2: AbelianGroup<Additive>, A3: AbelianGroup<Additive>, A4: AbelianGroup<Additive>, A5: AbelianGroup<Additive>, A6: AbelianGroup<Additive>, A7: AbelianGroup<Additive>, A8: AbelianGroup<Additive>, A9: AbelianGroup<Additive>, A10: AbelianGroup<Additive>, A11: AbelianGroup<Additive>, A12: AbelianGroup<Additive>, A13: AbelianGroup<Additive>, A14: AbelianGroup<Additive>> AbelianGroup<Additive> for (A0, A1, A2, A3, A4, A5, A6, A7, A8, A9, A10, A11, A12, A13, A14) {
    proof fn lemma_commutative(a: (A0::Model, A1::Model, A2::Model, A3::Model, A4::Model, A5::Model, A6::Model, A7::Model, A8::Model, A9::Model, A10::Model, A11::Model, A12::Model, A13::Model, A14::Model), b: (A0::Model, A1::Model, A2::Model, A3::Model, A4::Model, A5::Model, A6::Model, A7::Model, A8::Model, A9::Model, A10::Model, A11::Model, A12::Model, A13::Model, A14::Model)) {
        A0::lemma_commutative(a.0, b.0);
        A1::lemma_commutative(a.1, b.1);
        A2::lemma_commutative(a.2, b.2);
        A3::lemma_commutative(a.3, b.3);
        A4::lemma_commutative(a.4, b.4);
        A5::lemma_commutative(a.5, b.5);
        A6::lemma_commutative(a.6, b.6);
        A7::lemma_commutative(a.7, b.7);
        A8::lemma_commutative(a.8, b.8);
        A9::lemma_commutative(a.9, b.9);
        A10::lemma_commutative(a.10, b.10);
        A11::lemma_commutative(a.11, b.11);
        A12::lemma_commutative(a.12, b.12);
        A13::lemma_commutative(a.13, b.13);
        A14::lemma_commutative(a.14, b.14);
    }
}

impl<A0: Semiring<Additive, Multiplicative>, A1: Semiring<Additive, Multiplicative>, A2: Semiring<Additive, Multiplicative>, A3: Semiring<Additive, Multiplicative>, A4: Semiring<Additive, Multiplicative>, A5: Semiring<Additive, Multiplicative>, A6: Semiring<Additive, Multiplicative>, A7: Semiring<Additive, Multiplicative>, A8: Semiring<Additive, Multiplicative>, A9: Semiring<Additive, Multiplicative>, A10: Semiring<Additive, Multiplicative>, A11: Semiring<Additive, Multiplicative>, A12: Semiring<Additive, Multiplicative>, A13: Semiring<Additive, Multiplicative>, A14: Semiring<Additive, Multiplicative>> Semiring<Additive, Multiplicative> for (A0, A1, A2, A3, A4, A5, A6, A7, A8, A9, A10, A11, A12, A13, A14) {
    proof fn lemma_distributive(a: (A0::Model, A1::Model, A2::Model, A3::Model, A4::Model, A5::Model, A6::Model, A7::Model, A8::Model, A9::Model, A10::Model, A11::Model, A12::Model, A13::Model, A14::Model), b: (A0::Model, A1::Model, A2::Model, A3::Model, A4::Model, A5::Model, A6::Model, A7::Model, A8::Model, A9::Model, A10::Model, A11::Model, A12::Model, A13::Model, A14::Model), c: (A0::Model, A1::Model, A2::Model, A3::Model, A4::Model, A5::Model, A6::Model, A7::Model, A8::Model, A9::Model, A10::Model, A11::Model, A12::Model, A13::Model, A14::Model)) {
        A0::lemma_distributive(a.0, b.0, c.0);
        A1::lemma_distributive(a.1, b.1, c.1);
        A2::lemma_distributive(a.2, b.2, c.2);
        A3::lemma_distributive(a.3, b.3, c.3);
        A4::lemma_distributive(a.4, b.4, c.4);
        A5::lemma_distributive(a.5, b.5, c.5);
        A6::lemma_distributive(a.6, b.6, c.6);
        A7::lemma_distributive(a.7, b.7, c.7);
        A8::lemma_distributive(a.8, b.8, c.8);
        A9::lemma_distributive(a.9, b.9, c.9);
        A10::lemma_distributive(a.10, b.10, c.10);
        A11::lemma_distributive(a.11, b.11, c.11);
        A12::lemma_distributive(a.12, b.12, c.12);
        A13::lemma_distributive(a.13, b.13, c.13);
        A14::lemma_distributive(a.14, b.14, c.14);
    }
}

impl<A0: Ring<Additive, Multiplicative>, A1: Ring<Additive, Multiplicative>, A2: Ring<Additive, Multiplicative>, A3: Ring<Additive, Multiplicative>, A4: Ring<Additive, Multiplicative>, A5: Ring<Additive, Multiplicative>, A6: Ring<Additive, Multiplicative>, A7: Ring<Additive, Multiplicative>, A8: Ring<Additive, Multiplicative>, A9: Ring<Additive, Multiplicative>, A10: Ring<Additive, Multiplicative>, A11: Ring<Additive, Multiplicative>, A12: Ring<Additive, Multiplicative>, A13: Ring<Additive, Multiplicative>, A14: Ring<Additive, Multiplicative>> Ring<Additive, Multiplicative> for (A0, A1, A2, A3, A4, A5, A6, A7, A8, A9, A10, A11, A12, A13, A14) {

}

impl<A0: CommutativeRing<Additive, Multiplicative>, A1: CommutativeRing<Additive, Multiplicative>, A2: CommutativeRing<Additive, Multiplicative>, A3: CommutativeRing<Additive, Multiplicative>, A4: CommutativeRing<Additive, Multiplicative>, A5: CommutativeRing<Additive, Multiplicative>, A6: CommutativeRing<Additive, Multiplicative>, A7: CommutativeRing<Additive, Multiplicative>, A8: CommutativeRing<Additive, Multiplicative>, A9: CommutativeRing<Additive, Multiplicative>, A10: CommutativeRing<Additive, Multiplicative>, A11: CommutativeRing<Additive, Multiplicative>, A12: CommutativeRing<Additive, Multiplicative>, A13: CommutativeRing<Additive, Multiplicative>, A14: CommutativeRing<Additive, Multiplicative>> CommutativeRing<Additive, Multiplicative> for (A0, A1, A2, A3, A4, A5, A6, A7, A8, A9, A10, A11, A12, A13, A14) {
    proof fn lemma_multiplication_commutes(a: (A0::Model, A1::Model, A2::Model, A3::Model, A4::Model, A5::Model, A6::Model, A7::Model, A8::Model, A9::Model, A10::Model, A11::Model, A12::Model, A13::Model, A14::Model), b: (A0::Model, A1::Model, A2::Model, A3::Model, A4::Model, A5::Model, A6::Model, A7::Model, A8::Model, A9::Model, A10::Model, A11::Model, A12::Model, A13::Model, A14::Model)) {
        A0::lemma_multiplication_commutes(a.0, b.0);
        A1::lemma_multiplication_commutes(a.1, b.1);
        A2::lemma_multiplication_commutes(a.2, b.2);
        A3::lemma_multiplication_commutes(a.3, b.3);
        A4::lemma_multiplication_commutes(a.4, b.4);
        A5::lemma_multiplication_commutes(a.5, b.5);
        A6::lemma_multiplication_commutes(a.6, b.6);
        A7::lemma_multiplication_commutes(a.7, b.7);
        A8::lemma_multiplication_commutes(a.8, b.8);
        A9::lemma_multiplication_commutes(a.9, b.9);
        A10::lemma_multiplication_commutes(a.10, b.10);
        A11::lemma_multiplication_commutes(a.11, b.11);
        A12::lemma_multiplication_commutes(a.12, b.12);
        A13::lemma_multiplication_commutes(a.13, b.13);
        A14::lemma_multiplication_commutes(a.14, b.14);
    }
}

impl<A0: Module<Additive, Multiplicative>, A1: Module<Additive, Multiplicative, Scalar = A0::Scalar>, A2: Module<Additive, Multiplicative, Scalar = A0::Scalar>, A3: Module<Additive, Multiplicative, Scalar = A0::Scalar>, A4: Module<Additive, Multiplicative, Scalar = A0::Scalar>, A5: Module<Additive, Multiplicative, Scalar = A0::Scalar>, A6: Module<Additive, Multiplicative, Scalar = A0::Scalar>, A7: Module<Additive, Multiplicative, Scalar = A0::Scalar>, A8: Module<Additive, Multiplicative, Scalar = A0::Scalar>, A9: Module<Additive, Multiplicative, Scalar = A0::Scalar>, A10: Module<Additive, Multiplicative, Scalar = A0::Scalar>, A11: Module<Additive, Multiplicative, Scalar = A0::Scalar>, A12: Module<Additive, Multiplicative, Scalar = A0::Scalar>, A13: Module<Additive, Multiplicative, Scalar = A0::Scalar>, A14: Module<Additive, Multiplicative, Scalar = A0::Scalar>> Module<Additive, Multiplicative> for (A0, A1, A2, A3, A4, A5, A6, A7, A8, A9, A10, A11, A12, A13, A14) {
    type Scalar = A0::Scalar;

    open spec fn spec_scale(s: <A0::Scalar as Carrier>::Model, v: (A0::Model, A1::Model, A2::Model, A3::Model, A4::Model, A5::Model, A6::Model, A7::Model, A8::Model, A9::Model, A10::Model, A11::Model, A12::Model, A13::Model, A14::Model)) -> (A0::Model, A1::Model, A2::Model, A3::Model, A4::Model, A5::Model, A6::Model, A7::Model, A8::Model, A9::Model, A10::Model, A11::Model, A12::Model, A13::Model, A14::Model) {
        (A0::spec_scale(s, v.0), A1::spec_scale(s, v.1), A2::spec_scale(s, v.2), A3::spec_scale(s, v.3), A4::spec_scale(s, v.4), A5::spec_scale(s, v.5), A6::spec_scale(s, v.6), A7::spec_scale(s, v.7), A8::spec_scale(s, v.8), A9::spec_scale(s, v.9), A10::spec_scale(s, v.10), A11::spec_scale(s, v.11), A12::spec_scale(s, v.12), A13::spec_scale(s, v.13), A14::spec_scale(s, v.14))
    }

    proof fn lemma_module(
        s: <A0::Scalar as Carrier>::Model,
        t: <A0::Scalar as Carrier>::Model,
        u: (A0::Model, A1::Model, A2::Model, A3::Model, A4::Model, A5::Model, A6::Model, A7::Model, A8::Model, A9::Model, A10::Model, A11::Model, A12::Model, A13::Model, A14::Model),
        v: (A0::Model, A1::Model, A2::Model, A3::Model, A4::Model, A5::Model, A6::Model, A7::Model, A8::Model, A9::Model, A10::Model, A11::Model, A12::Model, A13::Model, A14::Model),
    ) {
        A0::lemma_module(s, t, u.0, v.0);
        A1::lemma_module(s, t, u.1, v.1);
        A2::lemma_module(s, t, u.2, v.2);
        A3::lemma_module(s, t, u.3, v.3);
        A4::lemma_module(s, t, u.4, v.4);
        A5::lemma_module(s, t, u.5, v.5);
        A6::lemma_module(s, t, u.6, v.6);
        A7::lemma_module(s, t, u.7, v.7);
        A8::lemma_module(s, t, u.8, v.8);
        A9::lemma_module(s, t, u.9, v.9);
        A10::lemma_module(s, t, u.10, v.10);
        A11::lemma_module(s, t, u.11, v.11);
        A12::lemma_module(s, t, u.12, v.12);
        A13::lemma_module(s, t, u.13, v.13);
        A14::lemma_module(s, t, u.14, v.14);
    }

    fn scale(s: &A0::Scalar, v: Self) -> (r: Self) {
        (A0::scale(s, v.0), A1::scale(s, v.1), A2::scale(s, v.2), A3::scale(s, v.3), A4::scale(s, v.4), A5::scale(s, v.5), A6::scale(s, v.6), A7::scale(s, v.7), A8::scale(s, v.8), A9::scale(s, v.9), A10::scale(s, v.10), A11::scale(s, v.11), A12::scale(s, v.12), A13::scale(s, v.13), A14::scale(s, v.14))
    }
}

impl<A0: VectorSpace<Additive, Multiplicative>, A1: VectorSpace<Additive, Multiplicative, Scalar = A0::Scalar>, A2: VectorSpace<Additive, Multiplicative, Scalar = A0::Scalar>, A3: VectorSpace<Additive, Multiplicative, Scalar = A0::Scalar>, A4: VectorSpace<Additive, Multiplicative, Scalar = A0::Scalar>, A5: VectorSpace<Additive, Multiplicative, Scalar = A0::Scalar>, A6: VectorSpace<Additive, Multiplicative, Scalar = A0::Scalar>, A7: VectorSpace<Additive, Multiplicative, Scalar = A0::Scalar>, A8: VectorSpace<Additive, Multiplicative, Scalar = A0::Scalar>, A9: VectorSpace<Additive, Multiplicative, Scalar = A0::Scalar>, A10: VectorSpace<Additive, Multiplicative, Scalar = A0::Scalar>, A11: VectorSpace<Additive, Multiplicative, Scalar = A0::Scalar>, A12: VectorSpace<Additive, Multiplicative, Scalar = A0::Scalar>, A13: VectorSpace<Additive, Multiplicative, Scalar = A0::Scalar>, A14: VectorSpace<Additive, Multiplicative, Scalar = A0::Scalar>> VectorSpace<Additive, Multiplicative> for (A0, A1, A2, A3, A4, A5, A6, A7, A8, A9, A10, A11, A12, A13, A14) where
    A0::Scalar: Field<Additive, Multiplicative>,
 {

}

// ---- arity 16 ----

impl<A0: Carrier, A1: Carrier, A2: Carrier, A3: Carrier, A4: Carrier, A5: Carrier, A6: Carrier, A7: Carrier, A8: Carrier, A9: Carrier, A10: Carrier, A11: Carrier, A12: Carrier, A13: Carrier, A14: Carrier, A15: Carrier> Carrier for (A0, A1, A2, A3, A4, A5, A6, A7, A8, A9, A10, A11, A12, A13, A14, A15) {
    type Model = (A0::Model, A1::Model, A2::Model, A3::Model, A4::Model, A5::Model, A6::Model, A7::Model, A8::Model, A9::Model, A10::Model, A11::Model, A12::Model, A13::Model, A14::Model, A15::Model);

    open spec fn model(self) -> (A0::Model, A1::Model, A2::Model, A3::Model, A4::Model, A5::Model, A6::Model, A7::Model, A8::Model, A9::Model, A10::Model, A11::Model, A12::Model, A13::Model, A14::Model, A15::Model) {
        (self.0.model(), self.1.model(), self.2.model(), self.3.model(), self.4.model(), self.5.model(), self.6.model(), self.7.model(), self.8.model(), self.9.model(), self.10.model(), self.11.model(), self.12.model(), self.13.model(), self.14.model(), self.15.model())
    }

    open spec fn contains(m: (A0::Model, A1::Model, A2::Model, A3::Model, A4::Model, A5::Model, A6::Model, A7::Model, A8::Model, A9::Model, A10::Model, A11::Model, A12::Model, A13::Model, A14::Model, A15::Model)) -> bool {
        A0::contains(m.0)
            && A1::contains(m.1)
            && A2::contains(m.2)
            && A3::contains(m.3)
            && A4::contains(m.4)
            && A5::contains(m.5)
            && A6::contains(m.6)
            && A7::contains(m.7)
            && A8::contains(m.8)
            && A9::contains(m.9)
            && A10::contains(m.10)
            && A11::contains(m.11)
            && A12::contains(m.12)
            && A13::contains(m.13)
            && A14::contains(m.14)
            && A15::contains(m.15)
    }

    proof fn lemma_model_contained(x: &Self) {
        A0::lemma_model_contained(&x.0);
        A1::lemma_model_contained(&x.1);
        A2::lemma_model_contained(&x.2);
        A3::lemma_model_contained(&x.3);
        A4::lemma_model_contained(&x.4);
        A5::lemma_model_contained(&x.5);
        A6::lemma_model_contained(&x.6);
        A7::lemma_model_contained(&x.7);
        A8::lemma_model_contained(&x.8);
        A9::lemma_model_contained(&x.9);
        A10::lemma_model_contained(&x.10);
        A11::lemma_model_contained(&x.11);
        A12::lemma_model_contained(&x.12);
        A13::lemma_model_contained(&x.13);
        A14::lemma_model_contained(&x.14);
        A15::lemma_model_contained(&x.15);
    }
}

impl<Op: Operator, A0: Magma<Op>, A1: Magma<Op>, A2: Magma<Op>, A3: Magma<Op>, A4: Magma<Op>, A5: Magma<Op>, A6: Magma<Op>, A7: Magma<Op>, A8: Magma<Op>, A9: Magma<Op>, A10: Magma<Op>, A11: Magma<Op>, A12: Magma<Op>, A13: Magma<Op>, A14: Magma<Op>, A15: Magma<Op>> Magma<Op> for (A0, A1, A2, A3, A4, A5, A6, A7, A8, A9, A10, A11, A12, A13, A14, A15) {
    open spec fn spec_combine(a: (A0::Model, A1::Model, A2::Model, A3::Model, A4::Model, A5::Model, A6::Model, A7::Model, A8::Model, A9::Model, A10::Model, A11::Model, A12::Model, A13::Model, A14::Model, A15::Model), b: (A0::Model, A1::Model, A2::Model, A3::Model, A4::Model, A5::Model, A6::Model, A7::Model, A8::Model, A9::Model, A10::Model, A11::Model, A12::Model, A13::Model, A14::Model, A15::Model)) -> (A0::Model, A1::Model, A2::Model, A3::Model, A4::Model, A5::Model, A6::Model, A7::Model, A8::Model, A9::Model, A10::Model, A11::Model, A12::Model, A13::Model, A14::Model, A15::Model) {
        (A0::spec_combine(a.0, b.0), A1::spec_combine(a.1, b.1), A2::spec_combine(a.2, b.2), A3::spec_combine(a.3, b.3), A4::spec_combine(a.4, b.4), A5::spec_combine(a.5, b.5), A6::spec_combine(a.6, b.6), A7::spec_combine(a.7, b.7), A8::spec_combine(a.8, b.8), A9::spec_combine(a.9, b.9), A10::spec_combine(a.10, b.10), A11::spec_combine(a.11, b.11), A12::spec_combine(a.12, b.12), A13::spec_combine(a.13, b.13), A14::spec_combine(a.14, b.14), A15::spec_combine(a.15, b.15))
    }

    proof fn lemma_closed(a: (A0::Model, A1::Model, A2::Model, A3::Model, A4::Model, A5::Model, A6::Model, A7::Model, A8::Model, A9::Model, A10::Model, A11::Model, A12::Model, A13::Model, A14::Model, A15::Model), b: (A0::Model, A1::Model, A2::Model, A3::Model, A4::Model, A5::Model, A6::Model, A7::Model, A8::Model, A9::Model, A10::Model, A11::Model, A12::Model, A13::Model, A14::Model, A15::Model)) {
        A0::lemma_closed(a.0, b.0);
        A1::lemma_closed(a.1, b.1);
        A2::lemma_closed(a.2, b.2);
        A3::lemma_closed(a.3, b.3);
        A4::lemma_closed(a.4, b.4);
        A5::lemma_closed(a.5, b.5);
        A6::lemma_closed(a.6, b.6);
        A7::lemma_closed(a.7, b.7);
        A8::lemma_closed(a.8, b.8);
        A9::lemma_closed(a.9, b.9);
        A10::lemma_closed(a.10, b.10);
        A11::lemma_closed(a.11, b.11);
        A12::lemma_closed(a.12, b.12);
        A13::lemma_closed(a.13, b.13);
        A14::lemma_closed(a.14, b.14);
        A15::lemma_closed(a.15, b.15);
    }

    fn combine(&self, rhs: &Self) -> (r: Self) {
        (self.0.combine(&rhs.0), self.1.combine(&rhs.1), self.2.combine(&rhs.2), self.3.combine(&rhs.3), self.4.combine(&rhs.4), self.5.combine(&rhs.5), self.6.combine(&rhs.6), self.7.combine(&rhs.7), self.8.combine(&rhs.8), self.9.combine(&rhs.9), self.10.combine(&rhs.10), self.11.combine(&rhs.11), self.12.combine(&rhs.12), self.13.combine(&rhs.13), self.14.combine(&rhs.14), self.15.combine(&rhs.15))
    }
}

impl<Op: Operator, A0: Semigroup<Op>, A1: Semigroup<Op>, A2: Semigroup<Op>, A3: Semigroup<Op>, A4: Semigroup<Op>, A5: Semigroup<Op>, A6: Semigroup<Op>, A7: Semigroup<Op>, A8: Semigroup<Op>, A9: Semigroup<Op>, A10: Semigroup<Op>, A11: Semigroup<Op>, A12: Semigroup<Op>, A13: Semigroup<Op>, A14: Semigroup<Op>, A15: Semigroup<Op>> Semigroup<Op> for (A0, A1, A2, A3, A4, A5, A6, A7, A8, A9, A10, A11, A12, A13, A14, A15) {
    proof fn lemma_associative(a: (A0::Model, A1::Model, A2::Model, A3::Model, A4::Model, A5::Model, A6::Model, A7::Model, A8::Model, A9::Model, A10::Model, A11::Model, A12::Model, A13::Model, A14::Model, A15::Model), b: (A0::Model, A1::Model, A2::Model, A3::Model, A4::Model, A5::Model, A6::Model, A7::Model, A8::Model, A9::Model, A10::Model, A11::Model, A12::Model, A13::Model, A14::Model, A15::Model), c: (A0::Model, A1::Model, A2::Model, A3::Model, A4::Model, A5::Model, A6::Model, A7::Model, A8::Model, A9::Model, A10::Model, A11::Model, A12::Model, A13::Model, A14::Model, A15::Model)) {
        A0::lemma_associative(a.0, b.0, c.0);
        A1::lemma_associative(a.1, b.1, c.1);
        A2::lemma_associative(a.2, b.2, c.2);
        A3::lemma_associative(a.3, b.3, c.3);
        A4::lemma_associative(a.4, b.4, c.4);
        A5::lemma_associative(a.5, b.5, c.5);
        A6::lemma_associative(a.6, b.6, c.6);
        A7::lemma_associative(a.7, b.7, c.7);
        A8::lemma_associative(a.8, b.8, c.8);
        A9::lemma_associative(a.9, b.9, c.9);
        A10::lemma_associative(a.10, b.10, c.10);
        A11::lemma_associative(a.11, b.11, c.11);
        A12::lemma_associative(a.12, b.12, c.12);
        A13::lemma_associative(a.13, b.13, c.13);
        A14::lemma_associative(a.14, b.14, c.14);
        A15::lemma_associative(a.15, b.15, c.15);
    }
}

impl<Op: Operator, A0: Monoid<Op>, A1: Monoid<Op>, A2: Monoid<Op>, A3: Monoid<Op>, A4: Monoid<Op>, A5: Monoid<Op>, A6: Monoid<Op>, A7: Monoid<Op>, A8: Monoid<Op>, A9: Monoid<Op>, A10: Monoid<Op>, A11: Monoid<Op>, A12: Monoid<Op>, A13: Monoid<Op>, A14: Monoid<Op>, A15: Monoid<Op>> Monoid<Op> for (A0, A1, A2, A3, A4, A5, A6, A7, A8, A9, A10, A11, A12, A13, A14, A15) {
    open spec fn spec_identity() -> (A0::Model, A1::Model, A2::Model, A3::Model, A4::Model, A5::Model, A6::Model, A7::Model, A8::Model, A9::Model, A10::Model, A11::Model, A12::Model, A13::Model, A14::Model, A15::Model) {
        (A0::spec_identity(), A1::spec_identity(), A2::spec_identity(), A3::spec_identity(), A4::spec_identity(), A5::spec_identity(), A6::spec_identity(), A7::spec_identity(), A8::spec_identity(), A9::spec_identity(), A10::spec_identity(), A11::spec_identity(), A12::spec_identity(), A13::spec_identity(), A14::spec_identity(), A15::spec_identity())
    }

    proof fn lemma_identity(a: (A0::Model, A1::Model, A2::Model, A3::Model, A4::Model, A5::Model, A6::Model, A7::Model, A8::Model, A9::Model, A10::Model, A11::Model, A12::Model, A13::Model, A14::Model, A15::Model)) {
        A0::lemma_identity(a.0);
        A1::lemma_identity(a.1);
        A2::lemma_identity(a.2);
        A3::lemma_identity(a.3);
        A4::lemma_identity(a.4);
        A5::lemma_identity(a.5);
        A6::lemma_identity(a.6);
        A7::lemma_identity(a.7);
        A8::lemma_identity(a.8);
        A9::lemma_identity(a.9);
        A10::lemma_identity(a.10);
        A11::lemma_identity(a.11);
        A12::lemma_identity(a.12);
        A13::lemma_identity(a.13);
        A14::lemma_identity(a.14);
        A15::lemma_identity(a.15);
    }

    fn identity() -> (r: Self) {
        (A0::identity(), A1::identity(), A2::identity(), A3::identity(), A4::identity(), A5::identity(), A6::identity(), A7::identity(), A8::identity(), A9::identity(), A10::identity(), A11::identity(), A12::identity(), A13::identity(), A14::identity(), A15::identity())
    }
}

impl<A0: Quasigroup<Additive>, A1: Quasigroup<Additive>, A2: Quasigroup<Additive>, A3: Quasigroup<Additive>, A4: Quasigroup<Additive>, A5: Quasigroup<Additive>, A6: Quasigroup<Additive>, A7: Quasigroup<Additive>, A8: Quasigroup<Additive>, A9: Quasigroup<Additive>, A10: Quasigroup<Additive>, A11: Quasigroup<Additive>, A12: Quasigroup<Additive>, A13: Quasigroup<Additive>, A14: Quasigroup<Additive>, A15: Quasigroup<Additive>> Quasigroup<Additive> for (A0, A1, A2, A3, A4, A5, A6, A7, A8, A9, A10, A11, A12, A13, A14, A15) {
    proof fn lemma_latin_square(a: (A0::Model, A1::Model, A2::Model, A3::Model, A4::Model, A5::Model, A6::Model, A7::Model, A8::Model, A9::Model, A10::Model, A11::Model, A12::Model, A13::Model, A14::Model, A15::Model), b: (A0::Model, A1::Model, A2::Model, A3::Model, A4::Model, A5::Model, A6::Model, A7::Model, A8::Model, A9::Model, A10::Model, A11::Model, A12::Model, A13::Model, A14::Model, A15::Model)) {
        A0::lemma_latin_square(a.0, b.0);
        A1::lemma_latin_square(a.1, b.1);
        A2::lemma_latin_square(a.2, b.2);
        A3::lemma_latin_square(a.3, b.3);
        A4::lemma_latin_square(a.4, b.4);
        A5::lemma_latin_square(a.5, b.5);
        A6::lemma_latin_square(a.6, b.6);
        A7::lemma_latin_square(a.7, b.7);
        A8::lemma_latin_square(a.8, b.8);
        A9::lemma_latin_square(a.9, b.9);
        A10::lemma_latin_square(a.10, b.10);
        A11::lemma_latin_square(a.11, b.11);
        A12::lemma_latin_square(a.12, b.12);
        A13::lemma_latin_square(a.13, b.13);
        A14::lemma_latin_square(a.14, b.14);
        A15::lemma_latin_square(a.15, b.15);
        let x = (left_quotient::<Additive, A0>(a.0, b.0), left_quotient::<Additive, A1>(a.1, b.1), left_quotient::<Additive, A2>(a.2, b.2), left_quotient::<Additive, A3>(a.3, b.3), left_quotient::<Additive, A4>(a.4, b.4), left_quotient::<Additive, A5>(a.5, b.5), left_quotient::<Additive, A6>(a.6, b.6), left_quotient::<Additive, A7>(a.7, b.7), left_quotient::<Additive, A8>(a.8, b.8), left_quotient::<Additive, A9>(a.9, b.9), left_quotient::<Additive, A10>(a.10, b.10), left_quotient::<Additive, A11>(a.11, b.11), left_quotient::<Additive, A12>(a.12, b.12), left_quotient::<Additive, A13>(a.13, b.13), left_quotient::<Additive, A14>(a.14, b.14), left_quotient::<Additive, A15>(a.15, b.15));
        let y = (right_quotient::<Additive, A0>(a.0, b.0), right_quotient::<Additive, A1>(a.1, b.1), right_quotient::<Additive, A2>(a.2, b.2), right_quotient::<Additive, A3>(a.3, b.3), right_quotient::<Additive, A4>(a.4, b.4), right_quotient::<Additive, A5>(a.5, b.5), right_quotient::<Additive, A6>(a.6, b.6), right_quotient::<Additive, A7>(a.7, b.7), right_quotient::<Additive, A8>(a.8, b.8), right_quotient::<Additive, A9>(a.9, b.9), right_quotient::<Additive, A10>(a.10, b.10), right_quotient::<Additive, A11>(a.11, b.11), right_quotient::<Additive, A12>(a.12, b.12), right_quotient::<Additive, A13>(a.13, b.13), right_quotient::<Additive, A14>(a.14, b.14), right_quotient::<Additive, A15>(a.15, b.15));
        assert(Self::contains(x) && Self::spec_combine(a, x) == b);
        assert(Self::contains(y) && Self::spec_combine(y, a) == b);
        assert forall|x1: (A0::Model, A1::Model, A2::Model, A3::Model, A4::Model, A5::Model, A6::Model, A7::Model, A8::Model, A9::Model, A10::Model, A11::Model, A12::Model, A13::Model, A14::Model, A15::Model), x2: (A0::Model, A1::Model, A2::Model, A3::Model, A4::Model, A5::Model, A6::Model, A7::Model, A8::Model, A9::Model, A10::Model, A11::Model, A12::Model, A13::Model, A14::Model, A15::Model)|
            Self::contains(x1) && Self::contains(x2) && #[trigger] Self::spec_combine(a, x1)
                == #[trigger] Self::spec_combine(a, x2) implies x1 == x2 by {
            assert(A0::spec_combine(a.0, x1.0) == A0::spec_combine(a.0, x2.0));
            assert(A1::spec_combine(a.1, x1.1) == A1::spec_combine(a.1, x2.1));
            assert(A2::spec_combine(a.2, x1.2) == A2::spec_combine(a.2, x2.2));
            assert(A3::spec_combine(a.3, x1.3) == A3::spec_combine(a.3, x2.3));
            assert(A4::spec_combine(a.4, x1.4) == A4::spec_combine(a.4, x2.4));
            assert(A5::spec_combine(a.5, x1.5) == A5::spec_combine(a.5, x2.5));
            assert(A6::spec_combine(a.6, x1.6) == A6::spec_combine(a.6, x2.6));
            assert(A7::spec_combine(a.7, x1.7) == A7::spec_combine(a.7, x2.7));
            assert(A8::spec_combine(a.8, x1.8) == A8::spec_combine(a.8, x2.8));
            assert(A9::spec_combine(a.9, x1.9) == A9::spec_combine(a.9, x2.9));
            assert(A10::spec_combine(a.10, x1.10) == A10::spec_combine(a.10, x2.10));
            assert(A11::spec_combine(a.11, x1.11) == A11::spec_combine(a.11, x2.11));
            assert(A12::spec_combine(a.12, x1.12) == A12::spec_combine(a.12, x2.12));
            assert(A13::spec_combine(a.13, x1.13) == A13::spec_combine(a.13, x2.13));
            assert(A14::spec_combine(a.14, x1.14) == A14::spec_combine(a.14, x2.14));
            assert(A15::spec_combine(a.15, x1.15) == A15::spec_combine(a.15, x2.15));
        }
        assert forall|y1: (A0::Model, A1::Model, A2::Model, A3::Model, A4::Model, A5::Model, A6::Model, A7::Model, A8::Model, A9::Model, A10::Model, A11::Model, A12::Model, A13::Model, A14::Model, A15::Model), y2: (A0::Model, A1::Model, A2::Model, A3::Model, A4::Model, A5::Model, A6::Model, A7::Model, A8::Model, A9::Model, A10::Model, A11::Model, A12::Model, A13::Model, A14::Model, A15::Model)|
            Self::contains(y1) && Self::contains(y2) && #[trigger] Self::spec_combine(y1, a)
                == #[trigger] Self::spec_combine(y2, a) implies y1 == y2 by {
            assert(A0::spec_combine(y1.0, a.0) == A0::spec_combine(y2.0, a.0));
            assert(A1::spec_combine(y1.1, a.1) == A1::spec_combine(y2.1, a.1));
            assert(A2::spec_combine(y1.2, a.2) == A2::spec_combine(y2.2, a.2));
            assert(A3::spec_combine(y1.3, a.3) == A3::spec_combine(y2.3, a.3));
            assert(A4::spec_combine(y1.4, a.4) == A4::spec_combine(y2.4, a.4));
            assert(A5::spec_combine(y1.5, a.5) == A5::spec_combine(y2.5, a.5));
            assert(A6::spec_combine(y1.6, a.6) == A6::spec_combine(y2.6, a.6));
            assert(A7::spec_combine(y1.7, a.7) == A7::spec_combine(y2.7, a.7));
            assert(A8::spec_combine(y1.8, a.8) == A8::spec_combine(y2.8, a.8));
            assert(A9::spec_combine(y1.9, a.9) == A9::spec_combine(y2.9, a.9));
            assert(A10::spec_combine(y1.10, a.10) == A10::spec_combine(y2.10, a.10));
            assert(A11::spec_combine(y1.11, a.11) == A11::spec_combine(y2.11, a.11));
            assert(A12::spec_combine(y1.12, a.12) == A12::spec_combine(y2.12, a.12));
            assert(A13::spec_combine(y1.13, a.13) == A13::spec_combine(y2.13, a.13));
            assert(A14::spec_combine(y1.14, a.14) == A14::spec_combine(y2.14, a.14));
            assert(A15::spec_combine(y1.15, a.15) == A15::spec_combine(y2.15, a.15));
        }
    }
}

impl<A0: Loop<Additive>, A1: Loop<Additive>, A2: Loop<Additive>, A3: Loop<Additive>, A4: Loop<Additive>, A5: Loop<Additive>, A6: Loop<Additive>, A7: Loop<Additive>, A8: Loop<Additive>, A9: Loop<Additive>, A10: Loop<Additive>, A11: Loop<Additive>, A12: Loop<Additive>, A13: Loop<Additive>, A14: Loop<Additive>, A15: Loop<Additive>> Loop<Additive> for (A0, A1, A2, A3, A4, A5, A6, A7, A8, A9, A10, A11, A12, A13, A14, A15) {

}

impl<A0: Group<Additive>, A1: Group<Additive>, A2: Group<Additive>, A3: Group<Additive>, A4: Group<Additive>, A5: Group<Additive>, A6: Group<Additive>, A7: Group<Additive>, A8: Group<Additive>, A9: Group<Additive>, A10: Group<Additive>, A11: Group<Additive>, A12: Group<Additive>, A13: Group<Additive>, A14: Group<Additive>, A15: Group<Additive>> Group<Additive> for (A0, A1, A2, A3, A4, A5, A6, A7, A8, A9, A10, A11, A12, A13, A14, A15) {
    open spec fn spec_inverse(a: (A0::Model, A1::Model, A2::Model, A3::Model, A4::Model, A5::Model, A6::Model, A7::Model, A8::Model, A9::Model, A10::Model, A11::Model, A12::Model, A13::Model, A14::Model, A15::Model)) -> (A0::Model, A1::Model, A2::Model, A3::Model, A4::Model, A5::Model, A6::Model, A7::Model, A8::Model, A9::Model, A10::Model, A11::Model, A12::Model, A13::Model, A14::Model, A15::Model) {
        (A0::spec_inverse(a.0), A1::spec_inverse(a.1), A2::spec_inverse(a.2), A3::spec_inverse(a.3), A4::spec_inverse(a.4), A5::spec_inverse(a.5), A6::spec_inverse(a.6), A7::spec_inverse(a.7), A8::spec_inverse(a.8), A9::spec_inverse(a.9), A10::spec_inverse(a.10), A11::spec_inverse(a.11), A12::spec_inverse(a.12), A13::spec_inverse(a.13), A14::spec_inverse(a.14), A15::spec_inverse(a.15))
    }

    proof fn lemma_inverse(a: (A0::Model, A1::Model, A2::Model, A3::Model, A4::Model, A5::Model, A6::Model, A7::Model, A8::Model, A9::Model, A10::Model, A11::Model, A12::Model, A13::Model, A14::Model, A15::Model)) {
        A0::lemma_inverse(a.0);
        A1::lemma_inverse(a.1);
        A2::lemma_inverse(a.2);
        A3::lemma_inverse(a.3);
        A4::lemma_inverse(a.4);
        A5::lemma_inverse(a.5);
        A6::lemma_inverse(a.6);
        A7::lemma_inverse(a.7);
        A8::lemma_inverse(a.8);
        A9::lemma_inverse(a.9);
        A10::lemma_inverse(a.10);
        A11::lemma_inverse(a.11);
        A12::lemma_inverse(a.12);
        A13::lemma_inverse(a.13);
        A14::lemma_inverse(a.14);
        A15::lemma_inverse(a.15);
    }

    fn inverse(&self) -> (r: Self) {
        (self.0.inverse(), self.1.inverse(), self.2.inverse(), self.3.inverse(), self.4.inverse(), self.5.inverse(), self.6.inverse(), self.7.inverse(), self.8.inverse(), self.9.inverse(), self.10.inverse(), self.11.inverse(), self.12.inverse(), self.13.inverse(), self.14.inverse(), self.15.inverse())
    }
}

impl<A0: AbelianGroup<Additive>, A1: AbelianGroup<Additive>, A2: AbelianGroup<Additive>, A3: AbelianGroup<Additive>, A4: AbelianGroup<Additive>, A5: AbelianGroup<Additive>, A6: AbelianGroup<Additive>, A7: AbelianGroup<Additive>, A8: AbelianGroup<Additive>, A9: AbelianGroup<Additive>, A10: AbelianGroup<Additive>, A11: AbelianGroup<Additive>, A12: AbelianGroup<Additive>, A13: AbelianGroup<Additive>, A14: AbelianGroup<Additive>, A15: AbelianGroup<Additive>> AbelianGroup<Additive> for (A0, A1, A2, A3, A4, A5, A6, A7, A8, A9, A10, A11, A12, A13, A14, A15) {
    proof fn lemma_commutative(a: (A0::Model, A1::Model, A2::Model, A3::Model, A4::Model, A5::Model, A6::Model, A7::Model, A8::Model, A9::Model, A10::Model, A11::Model, A12::Model, A13::Model, A14::Model, A15::Model), b: (A0::Model, A1::Model, A2::Model, A3::Model, A4::Model, A5::Model, A6::Model, A7::Model, A8::Model, A9::Model, A10::Model, A11::Model, A12::Model, A13::Model, A14::Model, A15::Model)) {
        A0::lemma_commutative(a.0, b.0);
        A1::lemma_commutative(a.1, b.1);
        A2::lemma_commutative(a.2, b.2);
        A3::lemma_commutative(a.3, b.3);
        A4::lemma_commutative(a.4, b.4);
        A5::lemma_commutative(a.5, b.5);
        A6::lemma_commutative(a.6, b.6);
        A7::lemma_commutative(a.7, b.7);
        A8::lemma_commutative(a.8, b.8);
        A9::lemma_commutative(a.9, b.9);
        A10::lemma_commutative(a.10, b.10);
        A11::lemma_commutative(a.11, b.11);
        A12::lemma_commutative(a.12, b.12);
        A13::lemma_commutative(a.13, b.13);
        A14::lemma_commutative(a.14, b.14);
        A15::lemma_commutative(a.15, b.15);
    }
}

impl<A0: Semiring<Additive, Multiplicative>, A1: Semiring<Additive, Multiplicative>, A2: Semiring<Additive, Multiplicative>, A3: Semiring<Additive, Multiplicative>, A4: Semiring<Additive, Multiplicative>, A5: Semiring<Additive, Multiplicative>, A6: Semiring<Additive, Multiplicative>, A7: Semiring<Additive, Multiplicative>, A8: Semiring<Additive, Multiplicative>, A9: Semiring<Additive, Multiplicative>, A10: Semiring<Additive, Multiplicative>, A11: Semiring<Additive, Multiplicative>, A12: Semiring<Additive, Multiplicative>, A13: Semiring<Additive, Multiplicative>, A14: Semiring<Additive, Multiplicative>, A15: Semiring<Additive, Multiplicative>> Semiring<Additive, Multiplicative> for (A0, A1, A2, A3, A4, A5, A6, A7, A8, A9, A10, A11, A12, A13, A14, A15) {
    proof fn lemma_distributive(a: (A0::Model, A1::Model, A2::Model, A3::Model, A4::Model, A5::Model, A6::Model, A7::Model, A8::Model, A9::Model, A10::Model, A11::Model, A12::Model, A13::Model, A14::Model, A15::Model), b: (A0::Model, A1::Model, A2::Model, A3::Model, A4::Model, A5::Model, A6::Model, A7::Model, A8::Model, A9::Model, A10::Model, A11::Model, A12::Model, A13::Model, A14::Model, A15::Model), c: (A0::Model, A1::Model, A2::Model, A3::Model, A4::Model, A5::Model, A6::Model, A7::Model, A8::Model, A9::Model, A10::Model, A11::Model, A12::Model, A13::Model, A14::Model, A15::Model)) {
        A0::lemma_distributive(a.0, b.0, c.0);
        A1::lemma_distributive(a.1, b.1, c.1);
        A2::lemma_distributive(a.2, b.2, c.2);
        A3::lemma_distributive(a.3, b.3, c.3);
        A4::lemma_distributive(a.4, b.4, c.4);
        A5::lemma_distributive(a.5, b.5, c.5);
        A6::lemma_distributive(a.6, b.6, c.6);
        A7::lemma_distributive(a.7, b.7, c.7);
        A8::lemma_distributive(a.8, b.8, c.8);
        A9::lemma_distributive(a.9, b.9, c.9);
        A10::lemma_distributive(a.10, b.10, c.10);
        A11::lemma_distributive(a.11, b.11, c.11);
        A12::lemma_distributive(a.12, b.12, c.12);
        A13::lemma_distributive(a.13, b.13, c.13);
        A14::lemma_distributive(a.14, b.14, c.14);
        A15::lemma_distributive(a.15, b.15, c.15);
    }
}

impl<A0: Ring<Additive, Multiplicative>, A1: Ring<Additive, Multiplicative>, A2: Ring<Additive, Multiplicative>, A3: Ring<Additive, Multiplicative>, A4: Ring<Additive, Multiplicative>, A5: Ring<Additive, Multiplicative>, A6: Ring<Additive, Multiplicative>, A7: Ring<Additive, Multiplicative>, A8: Ring<Additive, Multiplicative>, A9: Ring<Additive, Multiplicative>, A10: Ring<Additive, Multiplicative>, A11: Ring<Additive, Multiplicative>, A12: Ring<Additive, Multiplicative>, A13: Ring<Additive, Multiplicative>, A14: Ring<Additive, Multiplicative>, A15: Ring<Additive, Multiplicative>> Ring<Additive, Multiplicative> for (A0, A1, A2, A3, A4, A5, A6, A7, A8, A9, A10, A11, A12, A13, A14, A15) {

}

impl<A0: CommutativeRing<Additive, Multiplicative>, A1: CommutativeRing<Additive, Multiplicative>, A2: CommutativeRing<Additive, Multiplicative>, A3: CommutativeRing<Additive, Multiplicative>, A4: CommutativeRing<Additive, Multiplicative>, A5: CommutativeRing<Additive, Multiplicative>, A6: CommutativeRing<Additive, Multiplicative>, A7: CommutativeRing<Additive, Multiplicative>, A8: CommutativeRing<Additive, Multiplicative>, A9: CommutativeRing<Additive, Multiplicative>, A10: CommutativeRing<Additive, Multiplicative>, A11: CommutativeRing<Additive, Multiplicative>, A12: CommutativeRing<Additive, Multiplicative>, A13: CommutativeRing<Additive, Multiplicative>, A14: CommutativeRing<Additive, Multiplicative>, A15: CommutativeRing<Additive, Multiplicative>> CommutativeRing<Additive, Multiplicative> for (A0, A1, A2, A3, A4, A5, A6, A7, A8, A9, A10, A11, A12, A13, A14, A15) {
    proof fn lemma_multiplication_commutes(a: (A0::Model, A1::Model, A2::Model, A3::Model, A4::Model, A5::Model, A6::Model, A7::Model, A8::Model, A9::Model, A10::Model, A11::Model, A12::Model, A13::Model, A14::Model, A15::Model), b: (A0::Model, A1::Model, A2::Model, A3::Model, A4::Model, A5::Model, A6::Model, A7::Model, A8::Model, A9::Model, A10::Model, A11::Model, A12::Model, A13::Model, A14::Model, A15::Model)) {
        A0::lemma_multiplication_commutes(a.0, b.0);
        A1::lemma_multiplication_commutes(a.1, b.1);
        A2::lemma_multiplication_commutes(a.2, b.2);
        A3::lemma_multiplication_commutes(a.3, b.3);
        A4::lemma_multiplication_commutes(a.4, b.4);
        A5::lemma_multiplication_commutes(a.5, b.5);
        A6::lemma_multiplication_commutes(a.6, b.6);
        A7::lemma_multiplication_commutes(a.7, b.7);
        A8::lemma_multiplication_commutes(a.8, b.8);
        A9::lemma_multiplication_commutes(a.9, b.9);
        A10::lemma_multiplication_commutes(a.10, b.10);
        A11::lemma_multiplication_commutes(a.11, b.11);
        A12::lemma_multiplication_commutes(a.12, b.12);
        A13::lemma_multiplication_commutes(a.13, b.13);
        A14::lemma_multiplication_commutes(a.14, b.14);
        A15::lemma_multiplication_commutes(a.15, b.15);
    }
}

impl<A0: Module<Additive, Multiplicative>, A1: Module<Additive, Multiplicative, Scalar = A0::Scalar>, A2: Module<Additive, Multiplicative, Scalar = A0::Scalar>, A3: Module<Additive, Multiplicative, Scalar = A0::Scalar>, A4: Module<Additive, Multiplicative, Scalar = A0::Scalar>, A5: Module<Additive, Multiplicative, Scalar = A0::Scalar>, A6: Module<Additive, Multiplicative, Scalar = A0::Scalar>, A7: Module<Additive, Multiplicative, Scalar = A0::Scalar>, A8: Module<Additive, Multiplicative, Scalar = A0::Scalar>, A9: Module<Additive, Multiplicative, Scalar = A0::Scalar>, A10: Module<Additive, Multiplicative, Scalar = A0::Scalar>, A11: Module<Additive, Multiplicative, Scalar = A0::Scalar>, A12: Module<Additive, Multiplicative, Scalar = A0::Scalar>, A13: Module<Additive, Multiplicative, Scalar = A0::Scalar>, A14: Module<Additive, Multiplicative, Scalar = A0::Scalar>, A15: Module<Additive, Multiplicative, Scalar = A0::Scalar>> Module<Additive, Multiplicative> for (A0, A1, A2, A3, A4, A5, A6, A7, A8, A9, A10, A11, A12, A13, A14, A15) {
    type Scalar = A0::Scalar;

    open spec fn spec_scale(s: <A0::Scalar as Carrier>::Model, v: (A0::Model, A1::Model, A2::Model, A3::Model, A4::Model, A5::Model, A6::Model, A7::Model, A8::Model, A9::Model, A10::Model, A11::Model, A12::Model, A13::Model, A14::Model, A15::Model)) -> (A0::Model, A1::Model, A2::Model, A3::Model, A4::Model, A5::Model, A6::Model, A7::Model, A8::Model, A9::Model, A10::Model, A11::Model, A12::Model, A13::Model, A14::Model, A15::Model) {
        (A0::spec_scale(s, v.0), A1::spec_scale(s, v.1), A2::spec_scale(s, v.2), A3::spec_scale(s, v.3), A4::spec_scale(s, v.4), A5::spec_scale(s, v.5), A6::spec_scale(s, v.6), A7::spec_scale(s, v.7), A8::spec_scale(s, v.8), A9::spec_scale(s, v.9), A10::spec_scale(s, v.10), A11::spec_scale(s, v.11), A12::spec_scale(s, v.12), A13::spec_scale(s, v.13), A14::spec_scale(s, v.14), A15::spec_scale(s, v.15))
    }

    proof fn lemma_module(
        s: <A0::Scalar as Carrier>::Model,
        t: <A0::Scalar as Carrier>::Model,
        u: (A0::Model, A1::Model, A2::Model, A3::Model, A4::Model, A5::Model, A6::Model, A7::Model, A8::Model, A9::Model, A10::Model, A11::Model, A12::Model, A13::Model, A14::Model, A15::Model),
        v: (A0::Model, A1::Model, A2::Model, A3::Model, A4::Model, A5::Model, A6::Model, A7::Model, A8::Model, A9::Model, A10::Model, A11::Model, A12::Model, A13::Model, A14::Model, A15::Model),
    ) {
        A0::lemma_module(s, t, u.0, v.0);
        A1::lemma_module(s, t, u.1, v.1);
        A2::lemma_module(s, t, u.2, v.2);
        A3::lemma_module(s, t, u.3, v.3);
        A4::lemma_module(s, t, u.4, v.4);
        A5::lemma_module(s, t, u.5, v.5);
        A6::lemma_module(s, t, u.6, v.6);
        A7::lemma_module(s, t, u.7, v.7);
        A8::lemma_module(s, t, u.8, v.8);
        A9::lemma_module(s, t, u.9, v.9);
        A10::lemma_module(s, t, u.10, v.10);
        A11::lemma_module(s, t, u.11, v.11);
        A12::lemma_module(s, t, u.12, v.12);
        A13::lemma_module(s, t, u.13, v.13);
        A14::lemma_module(s, t, u.14, v.14);
        A15::lemma_module(s, t, u.15, v.15);
    }

    fn scale(s: &A0::Scalar, v: Self) -> (r: Self) {
        (A0::scale(s, v.0), A1::scale(s, v.1), A2::scale(s, v.2), A3::scale(s, v.3), A4::scale(s, v.4), A5::scale(s, v.5), A6::scale(s, v.6), A7::scale(s, v.7), A8::scale(s, v.8), A9::scale(s, v.9), A10::scale(s, v.10), A11::scale(s, v.11), A12::scale(s, v.12), A13::scale(s, v.13), A14::scale(s, v.14), A15::scale(s, v.15))
    }
}

impl<A0: VectorSpace<Additive, Multiplicative>, A1: VectorSpace<Additive, Multiplicative, Scalar = A0::Scalar>, A2: VectorSpace<Additive, Multiplicative, Scalar = A0::Scalar>, A3: VectorSpace<Additive, Multiplicative, Scalar = A0::Scalar>, A4: VectorSpace<Additive, Multiplicative, Scalar = A0::Scalar>, A5: VectorSpace<Additive, Multiplicative, Scalar = A0::Scalar>, A6: VectorSpace<Additive, Multiplicative, Scalar = A0::Scalar>, A7: VectorSpace<Additive, Multiplicative, Scalar = A0::Scalar>, A8: VectorSpace<Additive, Multiplicative, Scalar = A0::Scalar>, A9: VectorSpace<Additive, Multiplicative, Scalar = A0::Scalar>, A10: VectorSpace<Additive, Multiplicative, Scalar = A0::Scalar>, A11: VectorSpace<Additive, Multiplicative, Scalar = A0::Scalar>, A12: VectorSpace<Additive, Multiplicative, Scalar = A0::Scalar>, A13: VectorSpace<Additive, Multiplicative, Scalar = A0::Scalar>, A14: VectorSpace<Additive, Multiplicative, Scalar = A0::Scalar>, A15: VectorSpace<Additive, Multiplicative, Scalar = A0::Scalar>> VectorSpace<Additive, Multiplicative> for (A0, A1, A2, A3, A4, A5, A6, A7, A8, A9, A10, A11, A12, A13, A14, A15) where
    A0::Scalar: Field<Additive, Multiplicative>,
 {

}

} // verus!

