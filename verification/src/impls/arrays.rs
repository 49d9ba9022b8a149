//! Array impls: `[T; N]` is component-wise, like tuples, but without an
//! arity ceiling — the tower runs on `[T; N]` for every `N`. Elements are
//! copied in and out, so the components are `Copy`.
use crate::op::{Additive, Multiplicative, Operator};
use crate::tower::{left_quotient, right_quotient};
use crate::tower::{
    AbelianGroup, Carrier, CommutativeRing, Field, Group, Loop, Magma, Module, Monoid, Quasigroup,
    Ring, Semigroup, Semiring, VectorSpace,
};
use vstd::prelude::*;

verus! {

impl<T: Carrier, const N: usize> Carrier for [T; N] {
    type Model = Seq<T::Model>;

    open spec fn model(self) -> Seq<T::Model> {
        Seq::new(N as nat, |i: int| self[i].model())
    }

    open spec fn contains(m: Seq<T::Model>) -> bool {
        m.len() == N && forall|i: int| 0 <= i < N ==> T::contains(#[trigger] m[i])
    }

    proof fn lemma_model_contained(x: &Self) {
        assert forall|i: int| 0 <= i < N implies T::contains(#[trigger] x.model()[i]) by {
            T::lemma_model_contained(&x[i]);
        }
    }
}

impl<Op: Operator, T: Magma<Op> + Copy, const N: usize> Magma<Op> for [T; N] {
    open spec fn spec_combine(a: Seq<T::Model>, b: Seq<T::Model>) -> Seq<T::Model> {
        Seq::new(a.len(), |i: int| T::spec_combine(a[i], b[i]))
    }

    proof fn lemma_closed(a: Seq<T::Model>, b: Seq<T::Model>) {
        assert forall|i: int| 0 <= i < N implies T::contains(
            #[trigger] Self::spec_combine(a, b)[i],
        ) by {
            T::lemma_closed(a[i], b[i]);
        }
    }

    fn combine(&self, rhs: &Self) -> (r: Self) {
        let mut r: [T; N] = *self;
        for i in 0..N
            invariant
                forall|j: int| 0 <= j < i ==> #[trigger] r[j].model() == T::spec_combine(
                    self[j].model(),
                    rhs[j].model(),
                ),
        {
            r[i] = self[i].combine(&rhs[i]);
        }
        assert(r.model() =~= Self::spec_combine(self.model(), rhs.model()));
        r
    }
}

impl<Op: Operator, T: Semigroup<Op> + Copy, const N: usize> Semigroup<Op> for [T; N] {
    proof fn lemma_associative(a: Seq<T::Model>, b: Seq<T::Model>, c: Seq<T::Model>) {
        assert forall|i: int| 0 <= i < N implies #[trigger] Self::spec_combine(
            Self::spec_combine(a, b),
            c,
        )[i] == Self::spec_combine(a, Self::spec_combine(b, c))[i] by {
            T::lemma_associative(a[i], b[i], c[i]);
        }
        assert(Self::spec_combine(Self::spec_combine(a, b), c) =~= Self::spec_combine(
            a,
            Self::spec_combine(b, c),
        ));
    }
}

impl<Op: Operator, T: Monoid<Op> + Copy, const N: usize> Monoid<Op> for [T; N] {
    open spec fn spec_identity() -> Seq<T::Model> {
        Seq::new(N as nat, |i: int| T::spec_identity())
    }

    proof fn lemma_identity(a: Seq<T::Model>) {
        T::lemma_identity(T::spec_identity());
        if Self::contains(a) {
            assert forall|i: int| 0 <= i < N implies #[trigger] Self::spec_combine(
                Self::spec_identity(),
                a,
            )[i] == a[i] && Self::spec_combine(a, Self::spec_identity())[i] == a[i] by {
                T::lemma_identity(a[i]);
            }
            assert(Self::spec_combine(Self::spec_identity(), a) =~= a);
            assert(Self::spec_combine(a, Self::spec_identity()) =~= a);
        }
    }

    fn identity() -> (r: Self) {
        let e = T::identity();
        let r: [T; N] = [e; N];
        assert(r.model() =~= Self::spec_identity());
        r
    }
}

impl<T: Quasigroup<Additive> + Copy, const N: usize> Quasigroup<Additive> for [T; N] {
    proof fn lemma_latin_square(a: Seq<T::Model>, b: Seq<T::Model>) {
        let x = Seq::new(N as nat, |i: int| left_quotient::<Additive, T>(a[i], b[i]));
        let y = Seq::new(N as nat, |i: int| right_quotient::<Additive, T>(a[i], b[i]));
        assert forall|i: int| 0 <= i < N implies T::contains(#[trigger] x[i]) && T::contains(y[i])
            && T::spec_combine(a[i], x[i]) == b[i] && T::spec_combine(y[i], a[i]) == b[i] by {
            T::lemma_latin_square(a[i], b[i]);
        }
        assert(Self::spec_combine(a, x) =~= b);
        assert(Self::spec_combine(y, a) =~= b);
        assert(Self::contains(x) && Self::spec_combine(a, x) == b);
        assert(Self::contains(y) && Self::spec_combine(y, a) == b);
        assert forall|x1: Seq<T::Model>, x2: Seq<T::Model>|
            Self::contains(x1) && Self::contains(x2) && #[trigger] Self::spec_combine(a, x1)
                == #[trigger] Self::spec_combine(a, x2) implies x1 == x2 by {
            assert forall|i: int| 0 <= i < N implies x1[i] == x2[i] by {
                T::lemma_latin_square(a[i], b[i]);
                assert(Self::spec_combine(a, x1)[i] == Self::spec_combine(a, x2)[i]);
                assert(T::spec_combine(a[i], x1[i]) == T::spec_combine(a[i], x2[i]));
            }
            assert(x1 =~= x2);
        }
        assert forall|y1: Seq<T::Model>, y2: Seq<T::Model>|
            Self::contains(y1) && Self::contains(y2) && #[trigger] Self::spec_combine(y1, a)
                == #[trigger] Self::spec_combine(y2, a) implies y1 == y2 by {
            assert forall|i: int| 0 <= i < N implies y1[i] == y2[i] by {
                T::lemma_latin_square(a[i], b[i]);
                assert(Self::spec_combine(y1, a)[i] == Self::spec_combine(y2, a)[i]);
                assert(T::spec_combine(y1[i], a[i]) == T::spec_combine(y2[i], a[i]));
            }
            assert(y1 =~= y2);
        }
    }
}

impl<T: Loop<Additive> + Copy, const N: usize> Loop<Additive> for [T; N] {

}

impl<T: Group<Additive> + Copy, const N: usize> Group<Additive> for [T; N] {
    open spec fn spec_inverse(a: Seq<T::Model>) -> Seq<T::Model> {
        Seq::new(a.len(), |i: int| T::spec_inverse(a[i]))
    }

    proof fn lemma_inverse(a: Seq<T::Model>) {
        assert forall|i: int| 0 <= i < N implies T::contains(#[trigger] Self::spec_inverse(a)[i])
            && Self::spec_combine(a, Self::spec_inverse(a))[i] == Self::spec_identity()[i]
            && Self::spec_combine(Self::spec_inverse(a), a)[i] == Self::spec_identity()[i] by {
            T::lemma_inverse(a[i]);
        }
        assert(Self::spec_combine(a, Self::spec_inverse(a)) =~= Self::spec_identity());
        assert(Self::spec_combine(Self::spec_inverse(a), a) =~= Self::spec_identity());
    }

    fn inverse(&self) -> (r: Self) {
        let mut r: [T; N] = *self;
        for i in 0..N
            invariant
                forall|j: int| 0 <= j < i ==> #[trigger] r[j].model() == T::spec_inverse(
                    self[j].model(),
                ),
        {
            r[i] = self[i].inverse();
        }
        assert(r.model() =~= Self::spec_inverse(self.model()));
        r
    }
}

impl<T: AbelianGroup<Additive> + Copy, const N: usize> AbelianGroup<Additive> for [T; N] {
    proof fn lemma_commutative(a: Seq<T::Model>, b: Seq<T::Model>) {
        assert forall|i: int| 0 <= i < N implies #[trigger] Self::spec_combine(a, b)[i]
            == Self::spec_combine(b, a)[i] by {
            T::lemma_commutative(a[i], b[i]);
        }
        assert(Self::spec_combine(a, b) =~= Self::spec_combine(b, a));
    }
}

impl<T: Semiring<Additive, Multiplicative> + Copy, const N: usize> Semiring<
    Additive,
    Multiplicative,
> for [T; N] {
    proof fn lemma_distributive(a: Seq<T::Model>, b: Seq<T::Model>, c: Seq<T::Model>) {
        let plus = |x: Seq<T::Model>, y: Seq<T::Model>| <Self as Magma<Additive>>::spec_combine(x, y);
        let times = |x: Seq<T::Model>, y: Seq<T::Model>|
            <Self as Magma<Multiplicative>>::spec_combine(x, y);
        assert forall|i: int| 0 <= i < N implies #[trigger] times(a, plus(b, c))[i] == plus(
            times(a, b),
            times(a, c),
        )[i] by {
            T::lemma_distributive(a[i], b[i], c[i]);
        }
        assert forall|i: int| 0 <= i < N implies #[trigger] times(plus(b, c), a)[i] == plus(
            times(b, a),
            times(c, a),
        )[i] by {
            T::lemma_distributive(a[i], b[i], c[i]);
        }
        assert(times(a, plus(b, c)) =~= plus(times(a, b), times(a, c)));
        assert(times(plus(b, c), a) =~= plus(times(b, a), times(c, a)));
    }
}

impl<T: Ring<Additive, Multiplicative> + Copy, const N: usize> Ring<Additive, Multiplicative> for [T;
    N] {

}

impl<T: CommutativeRing<Additive, Multiplicative> + Copy, const N: usize> CommutativeRing<
    Additive,
    Multiplicative,
> for [T; N] {
    proof fn lemma_multiplication_commutes(a: Seq<T::Model>, b: Seq<T::Model>) {
        assert forall|i: int| 0 <= i < N implies #[trigger] <Self as Magma<
            Multiplicative,
        >>::spec_combine(a, b)[i] == <Self as Magma<Multiplicative>>::spec_combine(b, a)[i] by {
            T::lemma_multiplication_commutes(a[i], b[i]);
        }
        assert(<Self as Magma<Multiplicative>>::spec_combine(a, b) =~= <Self as Magma<
            Multiplicative,
        >>::spec_combine(b, a));
    }
}

impl<T: Module<Additive, Multiplicative> + Copy, const N: usize> Module<Additive, Multiplicative> for [T;
    N] {
    type Scalar = T::Scalar;

    open spec fn spec_scale(s: <T::Scalar as Carrier>::Model, v: Seq<T::Model>) -> Seq<T::Model> {
        Seq::new(v.len(), |i: int| T::spec_scale(s, v[i]))
    }

    proof fn lemma_module(
        s: <T::Scalar as Carrier>::Model,
        t: <T::Scalar as Carrier>::Model,
        u: Seq<T::Model>,
        v: Seq<T::Model>,
    ) {
        let plus = |x: Seq<T::Model>, y: Seq<T::Model>| <Self as Magma<Additive>>::spec_combine(x, y);
        let sadd = <T::Scalar as Magma<Additive>>::spec_combine(s, t);
        let smul = <T::Scalar as Magma<Multiplicative>>::spec_combine(s, t);
        let one = <T::Scalar as Monoid<Multiplicative>>::spec_identity();
        assert forall|i: int| 0 <= i < N implies T::contains(#[trigger] Self::spec_scale(s, v)[i]) by {
            T::lemma_module(s, t, u[i], v[i]);
        }
        assert forall|i: int| 0 <= i < N implies #[trigger] Self::spec_scale(s, plus(u, v))[i]
            == plus(Self::spec_scale(s, u), Self::spec_scale(s, v))[i] by {
            T::lemma_module(s, t, u[i], v[i]);
        }
        assert forall|i: int| 0 <= i < N implies #[trigger] Self::spec_scale(sadd, v)[i]
            == plus(Self::spec_scale(s, v), Self::spec_scale(t, v))[i] by {
            T::lemma_module(s, t, u[i], v[i]);
        }
        assert forall|i: int| 0 <= i < N implies #[trigger] Self::spec_scale(smul, v)[i]
            == Self::spec_scale(s, Self::spec_scale(t, v))[i] by {
            T::lemma_module(s, t, u[i], v[i]);
        }
        assert forall|i: int| 0 <= i < N implies #[trigger] Self::spec_scale(one, v)[i] == v[i] by {
            T::lemma_module(s, t, u[i], v[i]);
        }
        assert(Self::spec_scale(s, plus(u, v)) =~= plus(Self::spec_scale(s, u), Self::spec_scale(s, v)));
        assert(Self::spec_scale(sadd, v) =~= plus(Self::spec_scale(s, v), Self::spec_scale(t, v)));
        assert(Self::spec_scale(smul, v) =~= Self::spec_scale(s, Self::spec_scale(t, v)));
        assert(Self::spec_scale(one, v) =~= v);
    }

    fn scale(s: &T::Scalar, v: Self) -> (r: Self) {
        let mut r: [T; N] = v;
        for i in 0..N
            invariant
                forall|j: int| 0 <= j < i ==> #[trigger] r[j].model() == T::spec_scale(
                    s.model(),
                    v[j].model(),
                ),
        {
            r[i] = T::scale(s, v[i]);
        }
        assert(r.model() =~= Self::spec_scale(s.model(), v.model()));
        r
    }
}

impl<T: VectorSpace<Additive, Multiplicative> + Copy, const N: usize> VectorSpace<
    Additive,
    Multiplicative,
> for [T; N] where T::Scalar: Field<Additive, Multiplicative> {

}

} // verus!
