//! Container impls: `Vec` and `String` are free monoids under
//! concatenation (the elements need no algebraic structure); `Box`, `Rc`
//! and `Arc` delegate every level of `T` through one dereference.
//!
//! The free monoid is the same under either operator marker: whichever
//! operator a caller picks, combining concatenates and the identity is the
//! empty sequence. Its model is the sequence of the elements themselves.
use crate::op::Operator;
use crate::tower::{
    AbelianGroup, Carrier, CommutativeRing, DivisionRing, Field, Group, Loop, Magma, Monoid,
    Quasigroup, Ring, Semigroup, Semiring,
};
use std::rc::Rc;
use std::sync::Arc;
use vstd::prelude::*;
use vstd::string::StringExecFns;

verus! {

impl<T: Copy> Carrier for Vec<T> {
    type Model = Seq<T>;

    open spec fn model(self) -> Seq<T> {
        self@
    }

    open spec fn contains(m: Seq<T>) -> bool {
        true
    }

    proof fn lemma_model_contained(x: &Self) {
    }
}

impl<Op: Operator, T: Copy> Magma<Op> for Vec<T> {
    open spec fn spec_combine(a: Seq<T>, b: Seq<T>) -> Seq<T> {
        a + b
    }

    proof fn lemma_closed(a: Seq<T>, b: Seq<T>) {
    }

    fn combine(&self, rhs: &Self) -> (r: Self) {
        let mut v: Vec<T> = Vec::new();
        for i in 0..self.len()
            invariant
                v@ == self@.subrange(0, i as int),
        {
            v.push(self[i]);
        }
        for j in 0..rhs.len()
            invariant
                v@ == self@ + rhs@.subrange(0, j as int),
        {
            v.push(rhs[j]);
        }
        assert(v@ =~= self@ + rhs@);
        v
    }
}

impl<Op: Operator, T: Copy> Semigroup<Op> for Vec<T> {
    proof fn lemma_associative(a: Seq<T>, b: Seq<T>, c: Seq<T>) {
        assert((a + b) + c =~= a + (b + c));
    }
}

impl<Op: Operator, T: Copy> Monoid<Op> for Vec<T> {
    open spec fn spec_identity() -> Seq<T> {
        Seq::empty()
    }

    proof fn lemma_identity(a: Seq<T>) {
        assert(Seq::<T>::empty() + a =~= a);
        assert(a + Seq::<T>::empty() =~= a);
    }

    fn identity() -> (r: Self) {
        Vec::new()
    }
}

impl Carrier for String {
    type Model = Seq<char>;

    open spec fn model(self) -> Seq<char> {
        self@
    }

    open spec fn contains(m: Seq<char>) -> bool {
        true
    }

    proof fn lemma_model_contained(x: &Self) {
    }
}

impl<Op: Operator> Magma<Op> for String {
    open spec fn spec_combine(a: Seq<char>, b: Seq<char>) -> Seq<char> {
        a + b
    }

    proof fn lemma_closed(a: Seq<char>, b: Seq<char>) {
    }

    fn combine(&self, rhs: &Self) -> (r: Self) {
        let mut s = self.clone();
        s.append(rhs.as_str());
        s
    }
}

impl<Op: Operator> Semigroup<Op> for String {
    proof fn lemma_associative(a: Seq<char>, b: Seq<char>, c: Seq<char>) {
        assert((a + b) + c =~= a + (b + c));
    }
}

impl<Op: Operator> Monoid<Op> for String {
    open spec fn spec_identity() -> Seq<char> {
        Seq::empty()
    }

    proof fn lemma_identity(a: Seq<char>) {
        assert(Seq::<char>::empty() + a =~= a);
        assert(a + Seq::<char>::empty() =~= a);
    }

    fn identity() -> (r: Self) {
        String::new()
    }
}

impl<T: Carrier> Carrier for Box<T> {
    type Model = T::Model;

    open spec fn model(self) -> T::Model {
        (*self).model()
    }

    open spec fn contains(m: T::Model) -> bool {
        T::contains(m)
    }

    proof fn lemma_model_contained(x: &Self) {
        T::lemma_model_contained(&**x);
    }
}

impl<Op: Operator, T: Magma<Op>> Magma<Op> for Box<T> {
    open spec fn spec_combine(a: T::Model, b: T::Model) -> T::Model {
        T::spec_combine(a, b)
    }

    proof fn lemma_closed(a: T::Model, b: T::Model) {
        T::lemma_closed(a, b);
    }

    fn combine(&self, rhs: &Self) -> (r: Self) {
        Box::new((**self).combine(&**rhs))
    }
}

impl<Op: Operator, T: Semigroup<Op>> Semigroup<Op> for Box<T> {
    proof fn lemma_associative(a: T::Model, b: T::Model, c: T::Model) {
        T::lemma_associative(a, b, c);
    }
}

impl<Op: Operator, T: Monoid<Op>> Monoid<Op> for Box<T> {
    open spec fn spec_identity() -> T::Model {
        T::spec_identity()
    }

    proof fn lemma_identity(a: T::Model) {
        T::lemma_identity(a);
    }

    fn identity() -> (r: Self) {
        Box::new(T::identity())
    }
}

impl<Op: Operator, T: Quasigroup<Op>> Quasigroup<Op> for Box<T> {
    proof fn lemma_latin_square(a: T::Model, b: T::Model) {
        T::lemma_latin_square(a, b);
        let x = choose|x: T::Model| T::contains(x) && #[trigger] T::spec_combine(a, x) == b;
        let y = choose|y: T::Model| T::contains(y) && #[trigger] T::spec_combine(y, a) == b;
        assert(Self::spec_combine(a, x) == b);
        assert(Self::spec_combine(y, a) == b);
    }
}

impl<Op: Operator, T: Loop<Op>> Loop<Op> for Box<T> {

}

impl<Op: Operator, T: Group<Op>> Group<Op> for Box<T> {
    open spec fn spec_inverse(a: T::Model) -> T::Model {
        T::spec_inverse(a)
    }

    proof fn lemma_inverse(a: T::Model) {
        T::lemma_inverse(a);
    }

    fn inverse(&self) -> (r: Self) {
        Box::new((**self).inverse())
    }
}

impl<Op: Operator, T: AbelianGroup<Op>> AbelianGroup<Op> for Box<T> {
    proof fn lemma_commutative(a: T::Model, b: T::Model) {
        T::lemma_commutative(a, b);
    }
}

impl<Oa: Operator, Om: Operator, T: Semiring<Oa, Om>> Semiring<Oa, Om> for Box<T> {
    proof fn lemma_distributive(a: T::Model, b: T::Model, c: T::Model) {
        T::lemma_distributive(a, b, c);
    }
}

impl<Oa: Operator, Om: Operator, T: Ring<Oa, Om>> Ring<Oa, Om> for Box<T> {

}

impl<Oa: Operator, Om: Operator, T: CommutativeRing<Oa, Om>> CommutativeRing<Oa, Om> for Box<T> {
    proof fn lemma_multiplication_commutes(a: T::Model, b: T::Model) {
        T::lemma_multiplication_commutes(a, b);
    }
}

impl<Oa: Operator, Om: Operator, T: DivisionRing<Oa, Om>> DivisionRing<Oa, Om> for Box<T> {
    open spec fn inverses_exist() -> bool {
        T::inverses_exist()
    }

    open spec fn spec_inv(a: T::Model) -> T::Model {
        T::spec_inv(a)
    }

    proof fn lemma_inv_closed(a: T::Model) {
        T::lemma_inv_closed(a);
    }

    proof fn lemma_inv(a: T::Model) {
        T::lemma_inv(a);
    }

    fn inv(&self) -> (r: Self) {
        Box::new((**self).inv())
    }
}

impl<Oa: Operator, Om: Operator, T: Field<Oa, Om>> Field<Oa, Om> for Box<T> {
    proof fn lemma_zero_is_not_one() {
        T::lemma_zero_is_not_one();
    }
}

impl<T: Carrier> Carrier for Rc<T> {
    type Model = T::Model;

    open spec fn model(self) -> T::Model {
        (*self).model()
    }

    open spec fn contains(m: T::Model) -> bool {
        T::contains(m)
    }

    proof fn lemma_model_contained(x: &Self) {
        T::lemma_model_contained(&**x);
    }
}

impl<Op: Operator, T: Magma<Op>> Magma<Op> for Rc<T> {
    open spec fn spec_combine(a: T::Model, b: T::Model) -> T::Model {
        T::spec_combine(a, b)
    }

    proof fn lemma_closed(a: T::Model, b: T::Model) {
        T::lemma_closed(a, b);
    }

    fn combine(&self, rhs: &Self) -> (r: Self) {
        Rc::new((**self).combine(&**rhs))
    }
}

impl<Op: Operator, T: Semigroup<Op>> Semigroup<Op> for Rc<T> {
    proof fn lemma_associative(a: T::Model, b: T::Model, c: T::Model) {
        T::lemma_associative(a, b, c);
    }
}

impl<Op: Operator, T: Monoid<Op>> Monoid<Op> for Rc<T> {
    open spec fn spec_identity() -> T::Model {
        T::spec_identity()
    }

    proof fn lemma_identity(a: T::Model) {
        T::lemma_identity(a);
    }

    fn identity() -> (r: Self) {
        Rc::new(T::identity())
    }
}

impl<Op: Operator, T: Quasigroup<Op>> Quasigroup<Op> for Rc<T> {
    proof fn lemma_latin_square(a: T::Model, b: T::Model) {
        T::lemma_latin_square(a, b);
        let x = choose|x: T::Model| T::contains(x) && #[trigger] T::spec_combine(a, x) == b;
        let y = choose|y: T::Model| T::contains(y) && #[trigger] T::spec_combine(y, a) == b;
        assert(Self::spec_combine(a, x) == b);
        assert(Self::spec_combine(y, a) == b);
    }
}

impl<Op: Operator, T: Loop<Op>> Loop<Op> for Rc<T> {

}

impl<Op: Operator, T: Group<Op>> Group<Op> for Rc<T> {
    open spec fn spec_inverse(a: T::Model) -> T::Model {
        T::spec_inverse(a)
    }

    proof fn lemma_inverse(a: T::Model) {
        T::lemma_inverse(a);
    }

    fn inverse(&self) -> (r: Self) {
        Rc::new((**self).inverse())
    }
}

impl<Op: Operator, T: AbelianGroup<Op>> AbelianGroup<Op> for Rc<T> {
    proof fn lemma_commutative(a: T::Model, b: T::Model) {
        T::lemma_commutative(a, b);
    }
}

impl<Oa: Operator, Om: Operator, T: Semiring<Oa, Om>> Semiring<Oa, Om> for Rc<T> {
    proof fn lemma_distributive(a: T::Model, b: T::Model, c: T::Model) {
        T::lemma_distributive(a, b, c);
    }
}

impl<Oa: Operator, Om: Operator, T: Ring<Oa, Om>> Ring<Oa, Om> for Rc<T> {

}

impl<Oa: Operator, Om: Operator, T: CommutativeRing<Oa, Om>> CommutativeRing<Oa, Om> for Rc<T> {
    proof fn lemma_multiplication_commutes(a: T::Model, b: T::Model) {
        T::lemma_multiplication_commutes(a, b);
    }
}

impl<Oa: Operator, Om: Operator, T: DivisionRing<Oa, Om>> DivisionRing<Oa, Om> for Rc<T> {
    open spec fn inverses_exist() -> bool {
        T::inverses_exist()
    }

    open spec fn spec_inv(a: T::Model) -> T::Model {
        T::spec_inv(a)
    }

    proof fn lemma_inv_closed(a: T::Model) {
        T::lemma_inv_closed(a);
    }

    proof fn lemma_inv(a: T::Model) {
        T::lemma_inv(a);
    }

    fn inv(&self) -> (r: Self) {
        Rc::new((**self).inv())
    }
}

impl<Oa: Operator, Om: Operator, T: Field<Oa, Om>> Field<Oa, Om> for Rc<T> {
    proof fn lemma_zero_is_not_one() {
        T::lemma_zero_is_not_one();
    }
}

impl<T: Carrier> Carrier for Arc<T> {
    type Model = T::Model;

    open spec fn model(self) -> T::Model {
        (*self).model()
    }

    open spec fn contains(m: T::Model) -> bool {
        T::contains(m)
    }

    proof fn lemma_model_contained(x: &Self) {
        T::lemma_model_contained(&**x);
    }
}

impl<Op: Operator, T: Magma<Op>> Magma<Op> for Arc<T> {
    open spec fn spec_combine(a: T::Model, b: T::Model) -> T::Model {
        T::spec_combine(a, b)
    }

    proof fn lemma_closed(a: T::Model, b: T::Model) {
        T::lemma_closed(a, b);
    }

    fn combine(&self, rhs: &Self) -> (r: Self) {
        Arc::new((**self).combine(&**rhs))
    }
}

impl<Op: Operator, T: Semigroup<Op>> Semigroup<Op> for Arc<T> {
    proof fn lemma_associative(a: T::Model, b: T::Model, c: T::Model) {
        T::lemma_associative(a, b, c);
    }
}

impl<Op: Operator, T: Monoid<Op>> Monoid<Op> for Arc<T> {
    open spec fn spec_identity() -> T::Model {
        T::spec_identity()
    }

    proof fn lemma_identity(a: T::Model) {
        T::lemma_identity(a);
    }

    fn identity() -> (r: Self) {
        Arc::new(T::identity())
    }
}

impl<Op: Operator, T: Quasigroup<Op>> Quasigroup<Op> for Arc<T> {
    proof fn lemma_latin_square(a: T::Model, b: T::Model) {
        T::lemma_latin_square(a, b);
        let x = choose|x: T::Model| T::contains(x) && #[trigger] T::spec_combine(a, x) == b;
        let y = choose|y: T::Model| T::contains(y) && #[trigger] T::spec_combine(y, a) == b;
        assert(Self::spec_combine(a, x) == b);
        assert(Self::spec_combine(y, a) == b);
    }
}

impl<Op: Operator, T: Loop<Op>> Loop<Op> for Arc<T> {

}

impl<Op: Operator, T: Group<Op>> Group<Op> for Arc<T> {
    open spec fn spec_inverse(a: T::Model) -> T::Model {
        T::spec_inverse(a)
    }

    proof fn lemma_inverse(a: T::Model) {
        T::lemma_inverse(a);
    }

    fn inverse(&self) -> (r: Self) {
        Arc::new((**self).inverse())
    }
}

impl<Op: Operator, T: AbelianGroup<Op>> AbelianGroup<Op> for Arc<T> {
    proof fn lemma_commutative(a: T::Model, b: T::Model) {
        T::lemma_commutative(a, b);
    }
}

impl<Oa: Operator, Om: Operator, T: Semiring<Oa, Om>> Semiring<Oa, Om> for Arc<T> {
    proof fn lemma_distributive(a: T::Model, b: T::Model, c: T::Model) {
        T::lemma_distributive(a, b, c);
    }
}

impl<Oa: Operator, Om: Operator, T: Ring<Oa, Om>> Ring<Oa, Om> for Arc<T> {

}

impl<Oa: Operator, Om: Operator, T: CommutativeRing<Oa, Om>> CommutativeRing<Oa, Om> for Arc<T> {
    proof fn lemma_multiplication_commutes(a: T::Model, b: T::Model) {
        T::lemma_multiplication_commutes(a, b);
    }
}

impl<Oa: Operator, Om: Operator, T: DivisionRing<Oa, Om>> DivisionRing<Oa, Om> for Arc<T> {
    open spec fn inverses_exist() -> bool {
        T::inverses_exist()
    }

    open spec fn spec_inv(a: T::Model) -> T::Model {
        T::spec_inv(a)
    }

    proof fn lemma_inv_closed(a: T::Model) {
        T::lemma_inv_closed(a);
    }

    proof fn lemma_inv(a: T::Model) {
        T::lemma_inv(a);
    }

    fn inv(&self) -> (r: Self) {
        Arc::new((**self).inv())
    }
}

impl<Oa: Operator, Om: Operator, T: Field<Oa, Om>> Field<Oa, Om> for Arc<T> {
    proof fn lemma_zero_is_not_one() {
        T::lemma_zero_is_not_one();
    }
}

} // verus!
