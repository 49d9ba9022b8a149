//! Two generic parameters and mixed generic/concrete fields: one bound per
//! distinct field type, all parameters forwarded. Written out as the derive
//! plan lists them at `Group` level.
use alga2::op::{Additive, Multiplicative};
use alga2::tower::{AbelianGroup, Carrier, Group, Loop, Magma, Monoid, Quasigroup, Semigroup};

#[derive(PartialEq, Debug)]
struct TwoParams<A, B> {
    x: A,
    y: B,
}

#[derive(PartialEq, Debug)]
struct Mixed<T> {
    x: T,
    y: i32,
}

#[test]
fn two_params() {
    let a = TwoParams { x: 1i32, y: 2i64 };
    let b = TwoParams { x: 3, y: 4 };
    let s = <TwoParams<i32, i64> as alga2::tower::Magma<alga2::op::Additive>>::combine(&a, &b);
    assert_eq!(s, TwoParams { x: 4, y: 6 });
    let inv = <TwoParams<i32, i64> as alga2::tower::Group<alga2::op::Additive>>::inverse(&a);
    assert_eq!(inv, TwoParams { x: -1, y: -2 });
}

#[test]
fn mixed_generic_concrete() {
    let a = Mixed { x: 1i32, y: 2 };
    let b = Mixed { x: 3, y: 4 };
    let s = <Mixed<i32> as alga2::tower::Magma<alga2::op::Additive>>::combine(&a, &b);
    assert_eq!(s, Mixed { x: 4, y: 6 });
}

impl<A, B> Carrier for TwoParams<A, B>
where
    A: Carrier,
    B: Carrier,
{
    type Model = (<A as Carrier>::Model, <B as Carrier>::Model);

    fn model(self) -> Self::Model {
        (self.x.model(), self.y.model())
    }

    fn contains(m: Self::Model) -> bool {
        <A as Carrier>::contains(m.0) && <B as Carrier>::contains(m.1)
    }

    fn lemma_model_contained(_x: &Self) {}
}

impl<A, B> Magma<Additive> for TwoParams<A, B>
where
    A: Magma<Additive>,
    B: Magma<Additive>,
{
    fn spec_combine(a: Self::Model, b: Self::Model) -> Self::Model {
        (<A as Magma<Additive>>::spec_combine(a.0, b.0), <B as Magma<Additive>>::spec_combine(a.1, b.1))
    }

    fn lemma_closed(_a: Self::Model, _b: Self::Model) {}

    fn combine(&self, rhs: &Self) -> Self {
        Self { x: <A as Magma<Additive>>::combine(&self.x, &rhs.x), y: <B as Magma<Additive>>::combine(&self.y, &rhs.y) }
    }
}

impl<A, B> Magma<Multiplicative> for TwoParams<A, B>
where
    A: Magma<Multiplicative>,
    B: Magma<Multiplicative>,
{
    fn spec_combine(a: Self::Model, b: Self::Model) -> Self::Model {
        (<A as Magma<Multiplicative>>::spec_combine(a.0, b.0), <B as Magma<Multiplicative>>::spec_combine(a.1, b.1))
    }

    fn lemma_closed(_a: Self::Model, _b: Self::Model) {}

    fn combine(&self, rhs: &Self) -> Self {
        Self { x: <A as Magma<Multiplicative>>::combine(&self.x, &rhs.x), y: <B as Magma<Multiplicative>>::combine(&self.y, &rhs.y) }
    }
}

impl<A, B> Semigroup<Multiplicative> for TwoParams<A, B>
where
    A: Semigroup<Multiplicative>,
    B: Semigroup<Multiplicative>,
{
    fn lemma_associative(_a: Self::Model, _b: Self::Model, _c: Self::Model) {}
}

impl<A, B> Monoid<Multiplicative> for TwoParams<A, B>
where
    A: Monoid<Multiplicative>,
    B: Monoid<Multiplicative>,
{
    fn spec_identity() -> Self::Model {
        (<A as Monoid<Multiplicative>>::spec_identity(), <B as Monoid<Multiplicative>>::spec_identity())
    }

    fn lemma_identity(_a: Self::Model) {}

    fn identity() -> Self {
        Self { x: <A as Monoid<Multiplicative>>::identity(), y: <B as Monoid<Multiplicative>>::identity() }
    }
}

impl<A, B> Semigroup<Additive> for TwoParams<A, B>
where
    A: Semigroup<Additive>,
    B: Semigroup<Additive>,
{
    fn lemma_associative(_a: Self::Model, _b: Self::Model, _c: Self::Model) {}
}

impl<A, B> Monoid<Additive> for TwoParams<A, B>
where
    A: Monoid<Additive>,
    B: Monoid<Additive>,
{
    fn spec_identity() -> Self::Model {
        (<A as Monoid<Additive>>::spec_identity(), <B as Monoid<Additive>>::spec_identity())
    }

    fn lemma_identity(_a: Self::Model) {}

    fn identity() -> Self {
        Self { x: <A as Monoid<Additive>>::identity(), y: <B as Monoid<Additive>>::identity() }
    }
}

impl<A, B> Quasigroup<Additive> for TwoParams<A, B>
where
    A: Quasigroup<Additive>,
    B: Quasigroup<Additive>,
{
    fn lemma_latin_square(_a: Self::Model, _b: Self::Model) {}
}

impl<A, B> Loop<Additive> for TwoParams<A, B>
where
    A: Loop<Additive>,
    B: Loop<Additive>,
{}

impl<A, B> Group<Additive> for TwoParams<A, B>
where
    A: Group<Additive>,
    B: Group<Additive>,
{
    fn spec_inverse(a: Self::Model) -> Self::Model {
        (<A as Group<Additive>>::spec_inverse(a.0), <B as Group<Additive>>::spec_inverse(a.1))
    }

    fn lemma_inverse(_a: Self::Model) {}

    fn inverse(&self) -> Self {
        Self { x: self.x.inverse(), y: self.y.inverse() }
    }
}

impl<A, B> AbelianGroup<Additive> for TwoParams<A, B>
where
    A: AbelianGroup<Additive>,
    B: AbelianGroup<Additive>,
{
    fn lemma_commutative(_a: Self::Model, _b: Self::Model) {}
}

impl<T> Carrier for Mixed<T>
where
    T: Carrier,
    i32: Carrier,
{
    type Model = (<T as Carrier>::Model, <i32 as Carrier>::Model);

    fn model(self) -> Self::Model {
        (self.x.model(), self.y.model())
    }

    fn contains(m: Self::Model) -> bool {
        <T as Carrier>::contains(m.0) && <i32 as Carrier>::contains(m.1)
    }

    fn lemma_model_contained(_x: &Self) {}
}

impl<T> Magma<Additive> for Mixed<T>
where
    T: Magma<Additive>,
    i32: Magma<Additive>,
{
    fn spec_combine(a: Self::Model, b: Self::Model) -> Self::Model {
        (<T as Magma<Additive>>::spec_combine(a.0, b.0), <i32 as Magma<Additive>>::spec_combine(a.1, b.1))
    }

    fn lemma_closed(_a: Self::Model, _b: Self::Model) {}

    fn combine(&self, rhs: &Self) -> Self {
        Self { x: <T as Magma<Additive>>::combine(&self.x, &rhs.x), y: <i32 as Magma<Additive>>::combine(&self.y, &rhs.y) }
    }
}

impl<T> Magma<Multiplicative> for Mixed<T>
where
    T: Magma<Multiplicative>,
    i32: Magma<Multiplicative>,
{
    fn spec_combine(a: Self::Model, b: Self::Model) -> Self::Model {
        (<T as Magma<Multiplicative>>::spec_combine(a.0, b.0), <i32 as Magma<Multiplicative>>::spec_combine(a.1, b.1))
    }

    fn lemma_closed(_a: Self::Model, _b: Self::Model) {}

    fn combine(&self, rhs: &Self) -> Self {
        Self { x: <T as Magma<Multiplicative>>::combine(&self.x, &rhs.x), y: <i32 as Magma<Multiplicative>>::combine(&self.y, &rhs.y) }
    }
}

impl<T> Semigroup<Multiplicative> for Mixed<T>
where
    T: Semigroup<Multiplicative>,
    i32: Semigroup<Multiplicative>,
{
    fn lemma_associative(_a: Self::Model, _b: Self::Model, _c: Self::Model) {}
}

impl<T> Monoid<Multiplicative> for Mixed<T>
where
    T: Monoid<Multiplicative>,
    i32: Monoid<Multiplicative>,
{
    fn spec_identity() -> Self::Model {
        (<T as Monoid<Multiplicative>>::spec_identity(), <i32 as Monoid<Multiplicative>>::spec_identity())
    }

    fn lemma_identity(_a: Self::Model) {}

    fn identity() -> Self {
        Self { x: <T as Monoid<Multiplicative>>::identity(), y: <i32 as Monoid<Multiplicative>>::identity() }
    }
}

impl<T> Semigroup<Additive> for Mixed<T>
where
    T: Semigroup<Additive>,
    i32: Semigroup<Additive>,
{
    fn lemma_associative(_a: Self::Model, _b: Self::Model, _c: Self::Model) {}
}

impl<T> Monoid<Additive> for Mixed<T>
where
    T: Monoid<Additive>,
    i32: Monoid<Additive>,
{
    fn spec_identity() -> Self::Model {
        (<T as Monoid<Additive>>::spec_identity(), <i32 as Monoid<Additive>>::spec_identity())
    }

    fn lemma_identity(_a: Self::Model) {}

    fn identity() -> Self {
        Self { x: <T as Monoid<Additive>>::identity(), y: <i32 as Monoid<Additive>>::identity() }
    }
}

impl<T> Quasigroup<Additive> for Mixed<T>
where
    T: Quasigroup<Additive>,
    i32: Quasigroup<Additive>,
{
    fn lemma_latin_square(_a: Self::Model, _b: Self::Model) {}
}

impl<T> Loop<Additive> for Mixed<T>
where
    T: Loop<Additive>,
    i32: Loop<Additive>,
{}

impl<T> Group<Additive> for Mixed<T>
where
    T: Group<Additive>,
    i32: Group<Additive>,
{
    fn spec_inverse(a: Self::Model) -> Self::Model {
        (<T as Group<Additive>>::spec_inverse(a.0), <i32 as Group<Additive>>::spec_inverse(a.1))
    }

    fn lemma_inverse(_a: Self::Model) {}

    fn inverse(&self) -> Self {
        Self { x: self.x.inverse(), y: self.y.inverse() }
    }
}

impl<T> AbelianGroup<Additive> for Mixed<T>
where
    T: AbelianGroup<Additive>,
    i32: AbelianGroup<Additive>,
{
    fn lemma_commutative(_a: Self::Model, _b: Self::Model) {}
}
