//! Generic structs: the impls forward the struct's own generics into the
//! impls' where clauses (`impl<T: Clone> Group<Additive> for Pair<T>`).
//! Written out here as the derive plan lists them for a `Group`-level
//! struct: the model, the additive ladder through `AbelianGroup`, and the
//! multiplicative ladder through `Monoid`.
use alga2::op::{Additive, Multiplicative};
use alga2::tower::{AbelianGroup, Carrier, Group, Loop, Magma, Monoid, Quasigroup, Semigroup};

struct Pair<T: Clone> {
    x: T,
    y: T,
}

#[test]
fn generic_pair() {
    let a = Pair { x: 1i32, y: 2 };
    let b = Pair { x: 3, y: 4 };
    let s = <Pair<i32> as alga2::tower::Magma<alga2::op::Additive>>::combine(&a, &b);
    assert_eq!(s.x, 4);
    let inv = <Pair<i32> as alga2::tower::Group<alga2::op::Additive>>::inverse(&a);
    assert_eq!(inv.y, -2);
}

impl<T> Carrier for Pair<T>
where
    T: Clone,
    T: Carrier,
{
    type Model = (<T as Carrier>::Model, <T as Carrier>::Model);

    fn model(self) -> Self::Model {
        (self.x.model(), self.y.model())
    }

    fn contains(m: Self::Model) -> bool {
        <T as Carrier>::contains(m.0) && <T as Carrier>::contains(m.1)
    }

    fn lemma_model_contained(_x: &Self) {}
}

impl<T> Magma<Additive> for Pair<T>
where
    T: Clone,
    T: Magma<Additive>,
{
    fn spec_combine(a: Self::Model, b: Self::Model) -> Self::Model {
        (<T as Magma<Additive>>::spec_combine(a.0, b.0), <T as Magma<Additive>>::spec_combine(a.1, b.1))
    }

    fn lemma_closed(_a: Self::Model, _b: Self::Model) {}

    fn combine(&self, rhs: &Self) -> Self {
        Self { x: <T as Magma<Additive>>::combine(&self.x, &rhs.x), y: <T as Magma<Additive>>::combine(&self.y, &rhs.y) }
    }
}

impl<T> Magma<Multiplicative> for Pair<T>
where
    T: Clone,
    T: Magma<Multiplicative>,
{
    fn spec_combine(a: Self::Model, b: Self::Model) -> Self::Model {
        (<T as Magma<Multiplicative>>::spec_combine(a.0, b.0), <T as Magma<Multiplicative>>::spec_combine(a.1, b.1))
    }

    fn lemma_closed(_a: Self::Model, _b: Self::Model) {}

    fn combine(&self, rhs: &Self) -> Self {
        Self { x: <T as Magma<Multiplicative>>::combine(&self.x, &rhs.x), y: <T as Magma<Multiplicative>>::combine(&self.y, &rhs.y) }
    }
}

impl<T> Semigroup<Multiplicative> for Pair<T>
where
    T: Clone,
    T: Semigroup<Multiplicative>,
{
    fn lemma_associative(_a: Self::Model, _b: Self::Model, _c: Self::Model) {}
}

impl<T> Monoid<Multiplicative> for Pair<T>
where
    T: Clone,
    T: Monoid<Multiplicative>,
{
    fn spec_identity() -> Self::Model {
        (<T as Monoid<Multiplicative>>::spec_identity(), <T as Monoid<Multiplicative>>::spec_identity())
    }

    fn lemma_identity(_a: Self::Model) {}

    fn identity() -> Self {
        Self { x: <T as Monoid<Multiplicative>>::identity(), y: <T as Monoid<Multiplicative>>::identity() }
    }
}

impl<T> Semigroup<Additive> for Pair<T>
where
    T: Clone,
    T: Semigroup<Additive>,
{
    fn lemma_associative(_a: Self::Model, _b: Self::Model, _c: Self::Model) {}
}

impl<T> Monoid<Additive> for Pair<T>
where
    T: Clone,
    T: Monoid<Additive>,
{
    fn spec_identity() -> Self::Model {
        (<T as Monoid<Additive>>::spec_identity(), <T as Monoid<Additive>>::spec_identity())
    }

    fn lemma_identity(_a: Self::Model) {}

    fn identity() -> Self {
        Self { x: <T as Monoid<Additive>>::identity(), y: <T as Monoid<Additive>>::identity() }
    }
}

impl<T> Quasigroup<Additive> for Pair<T>
where
    T: Clone,
    T: Quasigroup<Additive>,
{
    fn lemma_latin_square(_a: Self::Model, _b: Self::Model) {}
}

impl<T> Loop<Additive> for Pair<T>
where
    T: Clone,
    T: Loop<Additive>,
{}

impl<T> Group<Additive> for Pair<T>
where
    T: Clone,
    T: Group<Additive>,
{
    fn spec_inverse(a: Self::Model) -> Self::Model {
        (<T as Group<Additive>>::spec_inverse(a.0), <T as Group<Additive>>::spec_inverse(a.1))
    }

    fn lemma_inverse(_a: Self::Model) {}

    fn inverse(&self) -> Self {
        Self { x: self.x.inverse(), y: self.y.inverse() }
    }
}

impl<T> AbelianGroup<Additive> for Pair<T>
where
    T: Clone,
    T: AbelianGroup<Additive>,
{
    fn lemma_commutative(_a: Self::Model, _b: Self::Model) {}
}
